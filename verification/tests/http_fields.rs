use rest_api_auth::country_code::{CountryCode, CountryCodeParseError};
use rest_api_auth::http::WebContentType;
use rest_api_auth::http_fields::{CountryCodeHttpField, EmailHttpField, PasswordHttpField};

#[test]
fn test_correct_iso3() {
    let processed = CountryCodeHttpField::new("USA").unwrap();
    match processed.into() {
        CountryCode::USA => {}
        _ => panic!("Invalid country code"),
    }
}

#[test]
fn test_correct_iso3_lowercase() {
    let processed = CountryCodeHttpField::new("usa").unwrap();
    match processed.into() {
        CountryCode::USA => {}
        _ => panic!("Invalid country code"),
    }
}

#[test]
fn test_correct_iso2_lowercase() {
    let processed = CountryCodeHttpField::new("us").unwrap();
    match processed.into() {
        CountryCode::USA => {}
        _ => panic!("Invalid country code"),
    }
}

#[test]
fn test_non_correct_iso_code() {
    let processed = CountryCodeHttpField::new("GGG");
    assert_eq!(true, processed.is_err());

    let processed = processed.unwrap_err();
    assert_eq!(processed.status_code, 400);
}

#[test]
fn country_code_is_kept_trimmed_and_in_capitals() {
    let processed = CountryCodeHttpField::new("  deu\t").unwrap();
    assert_eq!(processed.as_str(), "DEU");
    let processed = CountryCodeHttpField::new("gb").unwrap();
    assert_eq!(processed.as_str(), "GB");
    assert_eq!(CountryCode::from(processed), CountryCode::GBR);
}

#[test]
fn country_code_error_quotes_the_input_as_it_came() {
    let failure = CountryCodeHttpField::new(" ggg ").unwrap_err();
    assert_eq!(failure.status_code, 400);
    assert_eq!(failure.content_type, WebContentType::Text);
    assert_eq!(failure.content, "Country code  ggg  is not valid".as_bytes().to_vec());
    assert!(failure.write_telemetry);
    assert!(failure.write_to_log);
}

#[test]
fn country_code_of_wrong_length_is_refused() {
    assert!(CountryCodeHttpField::new("").is_err());
    assert!(CountryCodeHttpField::new("U").is_err());
    assert!(CountryCodeHttpField::new("USAX").is_err());
}

#[test]
fn country_parse_reads_capitals_only() {
    assert_eq!(CountryCode::parse("US"), Ok(CountryCode::USA));
    assert_eq!(CountryCode::parse("USA"), Ok(CountryCode::USA));
    assert_eq!(CountryCode::parse("AX"), Ok(CountryCode::ALA));
    assert_eq!(CountryCode::parse("ZWE"), Ok(CountryCode::ZWE));
    assert_eq!(CountryCode::parse("usa"), Err(CountryCodeParseError::UnknownCode));
    assert_eq!(CountryCode::parse("GGG"), Err(CountryCodeParseError::UnknownCode));
    assert_eq!(CountryCode::parse("ZZ"), Err(CountryCodeParseError::UnknownCode));
    assert_eq!(CountryCode::parse("U"), Err(CountryCodeParseError::InvalidLength));
    assert_eq!(CountryCode::parse("\u{e9}\u{e9}"), Err(CountryCodeParseError::UnknownCode));
}

#[test]
fn country_lookup_by_letters() {
    assert_eq!(CountryCode::from_alpha3('F', 'R', 'A'), Some(CountryCode::FRA));
    assert_eq!(CountryCode::from_alpha2('F', 'R'), Some(CountryCode::FRA));
    assert_eq!(CountryCode::from_alpha3('F', 'R', 'B'), None);
    assert_eq!(CountryCode::from_alpha2('Q', 'Q'), None);
}

#[test]
fn email_is_kept_trimmed_and_in_small_letters() {
    let email = EmailHttpField::new("  John.Doe@Example.COM ").unwrap();
    assert_eq!(email.as_str(), "john.doe@example.com");
}

#[test]
fn email_without_a_domain_is_refused() {
    let failure = EmailHttpField::new("john.doe").unwrap_err();
    assert_eq!(failure.status_code, 400);
    assert_eq!(failure.content_type, WebContentType::Text);
    assert_eq!(failure.content, "Email is not valid".as_bytes().to_vec());
    assert!(EmailHttpField::new("").is_err());
    assert!(EmailHttpField::new("a@@b").is_err());
}

#[test]
fn password_needs_six_bytes() {
    let failure = PasswordHttpField::new("ab1").unwrap_err();
    assert_eq!(failure.status_code, 400);
    assert_eq!(failure.content, "Password must have at least 6 chars".as_bytes().to_vec());
    assert!(PasswordHttpField::new("").is_err());
    assert!(PasswordHttpField::new("abcd1").is_err());
}

#[test]
fn password_needs_a_digit() {
    let failure = PasswordHttpField::new("abcdef").unwrap_err();
    assert_eq!(failure.status_code, 400);
    assert_eq!(failure.content, "Password must have at least one digit".as_bytes().to_vec());
}

#[test]
fn password_with_a_digit_is_kept_as_it_came() {
    let password = PasswordHttpField::new(" Abcde1 ").unwrap();
    assert_eq!(password.as_str(), " Abcde1 ");
    assert!(PasswordHttpField::new("abcde1").is_ok());
    assert!(PasswordHttpField::new("1abcde").is_ok());
}

#[test]
fn password_length_counts_bytes_and_digits_are_numeric_characters() {
    // three characters of two bytes each, one of them a numeric character
    assert!(PasswordHttpField::new("\u{e9}\u{e9}\u{663}").is_ok());
    // five bytes only
    assert!(PasswordHttpField::new("\u{e9}\u{e9}1").is_err());
}
