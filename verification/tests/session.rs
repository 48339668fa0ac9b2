use std::sync::Arc;

use rest_api_auth::date_time::DateTimeAsMicroseconds;
use rest_api_auth::http::RequestCredentials;
use rest_api_auth::middlewares::{SessionClaim, SessionEntity, TradingPlatformRequestCredentials};

fn session(token: &str, trader_id: &str, claims: Option<Vec<SessionClaim>>) -> SessionEntity {
    SessionEntity {
        partition_key: SessionEntity::PARTITION_KEY.to_string(),
        row_key: token.to_string(),
        expires: DateTimeAsMicroseconds::new(1_700_000_000_000_000),
        trader_id: trader_id.to_string(),
        claims,
        country: None,
        ip: None,
        user_agent: None,
    }
}

fn claim(name: &str, expires: i64, ip: Option<&str>) -> SessionClaim {
    SessionClaim { name: name.to_string(), expires, ip: ip.map(|ip| ip.to_string()) }
}

fn names(entity: &SessionEntity) -> Vec<(String, i64, Option<String>)> {
    entity
        .claims
        .as_ref()
        .unwrap()
        .iter()
        .map(|claim| (claim.name.clone(), claim.expires, claim.ip.clone()))
        .collect()
}

#[test]
fn partition_key_is_fixed() {
    assert_eq!(SessionEntity::PARTITION_KEY, "t");
    assert_eq!(SessionEntity::get_pk(), "t");
}

#[test]
fn session_token_is_the_row_key() {
    let entity = session("abc123", "u1", None);
    assert_eq!(entity.get_session_token(), "abc123");
}

#[test]
fn extend_expiration_moves_the_end_only() {
    let mut entity = session("abc123", "u1", Some(vec![claim("trade", 5, None)]));
    entity.extend_expiration(DateTimeAsMicroseconds::new(1_800_000_000_000_000));
    assert_eq!(entity.expires.unix_microseconds, 1_800_000_000_000_000);
    assert_eq!(entity.row_key, "abc123");
    assert_eq!(entity.trader_id, "u1");
    assert_eq!(names(&entity), vec![("trade".to_string(), 5, None)]);
}

#[test]
fn first_claim_starts_the_list() {
    let mut entity = session("abc123", "u1", None);
    entity.set_claim("trade".to_string(), DateTimeAsMicroseconds::new(10), None);
    assert_eq!(names(&entity), vec![("trade".to_string(), 10, None)]);
}

#[test]
fn claim_set_twice_is_held_once_with_the_second_expiry() {
    let mut entity = session("abc123", "u1", None);
    entity.set_claim("trade".to_string(), DateTimeAsMicroseconds::new(10), None);
    entity.set_claim(
        "trade".to_string(),
        DateTimeAsMicroseconds::new(20),
        Some("10.0.0.1".to_string()),
    );
    assert_eq!(names(&entity), vec![("trade".to_string(), 20, Some("10.0.0.1".to_string()))]);
}

#[test]
fn set_claim_removes_every_entry_of_the_name_and_appends() {
    let mut entity = session(
        "abc123",
        "u1",
        Some(vec![
            claim("trade", 1, None),
            claim("withdraw", 2, None),
            claim("trade", 3, Some("1.1.1.1")),
            claim("deposit", 4, None),
        ]),
    );
    entity.set_claim("trade".to_string(), DateTimeAsMicroseconds::new(9), None);
    assert_eq!(
        names(&entity),
        vec![
            ("withdraw".to_string(), 2, None),
            ("deposit".to_string(), 4, None),
            ("trade".to_string(), 9, None),
        ]
    );
}

#[test]
fn set_claim_keeps_other_names_in_order() {
    let mut entity = session("abc123", "u1", Some(vec![claim("a", 1, None), claim("b", 2, None)]));
    entity.set_claim("c".to_string(), DateTimeAsMicroseconds::new(3), None);
    entity.set_claim("a".to_string(), DateTimeAsMicroseconds::new(4), None);
    assert_eq!(
        names(&entity),
        vec![("b".to_string(), 2, None), ("c".to_string(), 3, None), ("a".to_string(), 4, None)]
    );
    assert_eq!(entity.trader_id, "u1");
    assert_eq!(entity.row_key, "abc123");
}

#[test]
fn set_claim_on_an_empty_list() {
    let mut entity = session("abc123", "u1", Some(vec![]));
    entity.set_claim("trade".to_string(), DateTimeAsMicroseconds::new(-5), None);
    assert_eq!(names(&entity), vec![("trade".to_string(), -5, None)]);
}

#[test]
fn claim_names_are_compared_exactly() {
    let mut entity = session("abc123", "u1", Some(vec![claim("Trade", 1, None)]));
    entity.set_claim("trade".to_string(), DateTimeAsMicroseconds::new(2), None);
    assert_eq!(names(&entity), vec![("Trade".to_string(), 1, None), ("trade".to_string(), 2, None)]);
}

#[test]
fn credentials_report_the_trader() {
    let credentials = TradingPlatformRequestCredentials::new(Arc::new(session("abc123", "u1", None)));
    assert_eq!(credentials.get_id(), "u1");
}

#[test]
fn credentials_without_claims_report_none() {
    let credentials = TradingPlatformRequestCredentials::new(Arc::new(session("abc123", "u1", None)));
    assert!(credentials.get_claims().is_none());
}

#[test]
fn credentials_with_an_empty_list_report_an_empty_list() {
    let credentials =
        TradingPlatformRequestCredentials::new(Arc::new(session("abc123", "u1", Some(vec![]))));
    assert_eq!(credentials.get_claims().map(|claims| claims.len()), Some(0));
}

#[test]
fn credentials_report_each_claim_in_stored_order_without_addresses() {
    let credentials = TradingPlatformRequestCredentials::new(Arc::new(session(
        "abc123",
        "u1",
        Some(vec![claim("trade", 100, Some("10.0.0.1")), claim("withdraw", 50, None)]),
    )));
    let claims = credentials.get_claims().unwrap();
    assert_eq!(claims.len(), 2);
    assert_eq!(claims[0].id, "trade");
    assert_eq!(claims[0].expires, DateTimeAsMicroseconds::new(100));
    assert!(claims[0].allowed_ips.is_none());
    assert_eq!(claims[1].id, "withdraw");
    assert_eq!(claims[1].expires.unix_microseconds, 50);
    assert!(claims[1].allowed_ips.is_none());
}

#[test]
fn credentials_of_the_same_claims_in_another_order_lend_the_same_permissions() {
    let one = TradingPlatformRequestCredentials::new(Arc::new(session(
        "abc123",
        "u1",
        Some(vec![claim("trade", 100, None), claim("withdraw", 50, Some("10.0.0.1"))]),
    )));
    let other = TradingPlatformRequestCredentials::new(Arc::new(session(
        "abc123",
        "u1",
        Some(vec![claim("withdraw", 50, Some("10.0.0.1")), claim("trade", 100, None)]),
    )));
    let mut lent: Vec<(String, i64)> = one
        .get_claims()
        .unwrap()
        .iter()
        .map(|claim| (claim.id.to_string(), claim.expires.unix_microseconds))
        .collect();
    let mut lent_by_other: Vec<(String, i64)> = other
        .get_claims()
        .unwrap()
        .iter()
        .map(|claim| (claim.id.to_string(), claim.expires.unix_microseconds))
        .collect();
    lent.sort();
    lent_by_other.sort();
    assert_eq!(lent, vec![("trade".to_string(), 100), ("withdraw".to_string(), 50)]);
    assert_eq!(lent, lent_by_other);
    assert_eq!(one.get_id(), other.get_id());
}
