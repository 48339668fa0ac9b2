pub mod country_code_field;
pub mod email_field;
pub mod password_field;

pub use country_code_field::CountryCodeHttpField;
pub use email_field::EmailHttpField;
pub use password_field::PasswordHttpField;
