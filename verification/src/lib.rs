//! Authentication and authorization layer of an HTTP service.
//!
//! A bearer token taken from the `Authorization` header is resolved to a
//! session with time-scoped permission claims, and failures are reported
//! through a fixed taxonomy of result statuses.
pub mod api_result_status;
pub mod configure_rest_api_server;
pub mod country_code;
pub mod date_time;
pub mod documentation;
pub mod external;
pub mod get_client_id;
pub mod get_country_code;
pub mod http;
pub mod http_fields;
pub mod json;
pub mod middlewares;

pub use api_result_status::{
    write_to_telemetry, ApiHttpResult, ApiHttpResultWithData, ApiResultStatus,
};
pub use configure_rest_api_server::{
    configure_rest_api_server, configure_rest_api_server_with_no_auth_middleware,
};
pub use get_client_id::GetClientId;
pub use get_country_code::GetCountryCode;
