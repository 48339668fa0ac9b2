use rest_api_auth::api_result_status::{
    write_to_telemetry, ApiHttpResult, ApiHttpResultWithData, ApiResultStatus,
};
use rest_api_auth::http::WebContentType;

fn all_statuses() -> Vec<ApiResultStatus> {
    vec![
        ApiResultStatus::Success,
        ApiResultStatus::TokenIsInvalid,
        ApiResultStatus::AccessTokenExpired,
        ApiResultStatus::InvalidUserNameOrPassword,
        ApiResultStatus::UserExists,
        ApiResultStatus::UserNotFound,
        ApiResultStatus::OldPasswordIsWrong,
        ApiResultStatus::WrongFileExtension,
        ApiResultStatus::CryptoDepositIsNotSupported,
        ApiResultStatus::PersonalDataNotValid,
        ApiResultStatus::NotEnoughFunds,
        ApiResultStatus::CountryIsRestricted,
        ApiResultStatus::ExchangeQuoteIsExpired,
        ApiResultStatus::NoLiquidity,
        ApiResultStatus::RecaptchaVerificationFail,
        ApiResultStatus::ExchangeBetweenAssetsIsDisabled,
        ApiResultStatus::AccessClaimRequired,
        ApiResultStatus::ForceUpdateIsRequired,
    ]
}

#[test]
fn test_result_deserialization() {
    let envelope = ApiHttpResult { status: ApiResultStatus::AccessTokenExpired };

    let result = String::from_utf8(envelope.to_json()).unwrap();

    println!("{}", result);
}

#[test]
fn wire_codes_are_the_documented_ones() {
    let codes: Vec<i16> = all_statuses().iter().map(|status| status.code()).collect();
    assert_eq!(
        codes,
        vec![0, -1, -2, -3, -4, -5, -6, -7, -8, -9, -10, -11, -12, -13, -14, -15, -998, -999]
    );
}

#[test]
fn wire_codes_read_back_to_their_status() {
    for status in all_statuses() {
        assert_eq!(ApiResultStatus::from_code(status.code()), Some(status));
    }
    assert_eq!(ApiResultStatus::from_code(1), None);
    assert_eq!(ApiResultStatus::from_code(-16), None);
    assert_eq!(ApiResultStatus::from_code(-997), None);
    assert_eq!(ApiResultStatus::from_code(i16::MIN), None);
}

#[test]
fn transport_codes() {
    for status in all_statuses() {
        let expected = match status {
            ApiResultStatus::AccessTokenExpired
            | ApiResultStatus::TokenIsInvalid
            | ApiResultStatus::RecaptchaVerificationFail => 401,
            ApiResultStatus::AccessClaimRequired => 403,
            _ => 200,
        };
        assert_eq!(status.get_status_code(), expected);
    }
}

#[test]
fn telemetry_records_success_and_disabled_exchange_only() {
    for status in all_statuses() {
        let expected = matches!(
            status,
            ApiResultStatus::Success | ApiResultStatus::ExchangeBetweenAssetsIsDisabled
        );
        assert_eq!(write_to_telemetry(&status), expected);
    }
}

#[test]
fn status_mapping_gives_the_same_answer_each_time() {
    for status in all_statuses() {
        assert_eq!(status.get_status_code(), status.get_status_code());
        assert_eq!(write_to_telemetry(&status), write_to_telemetry(&status));
        assert_eq!(status.code(), status.code());
    }
}

#[test]
fn bare_envelope_holds_the_wire_code() {
    let text = ApiHttpResult { status: ApiResultStatus::AccessTokenExpired }.to_json();
    assert_eq!(text, "{\"status\":-2}".as_bytes().to_vec());
    let text = ApiHttpResult { status: ApiResultStatus::Success }.to_json();
    assert_eq!(text, "{\"status\":0}".as_bytes().to_vec());
    let text = ApiHttpResult { status: ApiResultStatus::ForceUpdateIsRequired }.to_json();
    assert_eq!(text, "{\"status\":-999}".as_bytes().to_vec());
}

#[test]
fn bare_envelope_is_what_serde_json_reads_back() {
    for status in all_statuses() {
        let text = ApiHttpResult { status }.to_json();
        let value: serde_json::Value = serde_json::from_slice(&text).unwrap();
        assert_eq!(value.get("status").and_then(|code| code.as_i64()), Some(status.code() as i64));
    }
}

#[test]
fn status_becomes_a_json_failure() {
    let failure = ApiResultStatus::CountryIsRestricted.into_fail_result();
    assert_eq!(failure.content_type, WebContentType::Json);
    assert_eq!(failure.status_code, 200);
    assert_eq!(failure.content, "{\"status\":-11}".as_bytes().to_vec());
    assert!(!failure.write_telemetry);
    assert!(!failure.write_to_log);

    let failure = ApiResultStatus::ExchangeBetweenAssetsIsDisabled.into_fail_result();
    assert_eq!(failure.status_code, 200);
    assert_eq!(failure.content, "{\"status\":-15}".as_bytes().to_vec());
    assert!(failure.write_telemetry);
    assert!(failure.write_to_log);

    let failure = ApiHttpResult { status: ApiResultStatus::TokenIsInvalid }.into_fail_result();
    assert_eq!(failure.status_code, 401);
    assert_eq!(failure.content, "{\"status\":-1}".as_bytes().to_vec());
}

#[test]
fn envelope_with_data_holds_the_payload() {
    let envelope = ApiHttpResultWithData {
        status: ApiResultStatus::NotEnoughFunds,
        data: Some("{\"missing\":12}".as_bytes().to_vec()),
    };
    assert_eq!(
        envelope.to_json(),
        "{\"status\":-10,\"data\":{\"missing\":12}}".as_bytes().to_vec()
    );
    let failure = envelope.into_fail_result();
    assert_eq!(failure.status_code, 200);
    assert_eq!(failure.content_type, WebContentType::Json);
    assert_eq!(
        failure.content,
        "{\"status\":-10,\"data\":{\"missing\":12}}".as_bytes().to_vec()
    );
    assert!(!failure.write_telemetry);
}

#[test]
fn envelope_without_data_holds_null() {
    let envelope = ApiHttpResultWithData { status: ApiResultStatus::AccessClaimRequired, data: None };
    let failure = envelope.into_fail_result();
    assert_eq!(failure.status_code, 403);
    assert_eq!(failure.content, "{\"status\":-998,\"data\":null}".as_bytes().to_vec());
}

#[test]
fn statuses_are_described_for_the_documentation() {
    let descriptions: Vec<&str> =
        all_statuses().iter().map(|status| status.description()).collect();
    assert_eq!(
        descriptions,
        vec![
            "Operations was successful",
            "AccessTokenInvalid",
            "AccessTokenExpired",
            "Invalid username or password",
            "User exists",
            "User not found",
            "Old password is wrong",
            "Wrong file extension",
            "Crypto deposit is not supported",
            "Personal data is not valid",
            "Not enough funds",
            "CountryRestriction",
            "Exchange quote is expired",
            "No liquidity",
            "Recaptcha verification fail",
            "Exchange between assets is disabled",
            "Access claim required",
            "Force Update required",
        ]
    );
}
