use logid::config::jwt::TOKEN_SAFETY_MARGIN_SECS;
use logid::JwtInfo;

#[test]
fn test_jwt_info_validity() {
    let jwt_info = JwtInfo::new("test_token".to_string(), 3600);
    assert!(jwt_info.is_valid());

    let jwt_info = JwtInfo::new("test_token".to_string(), 200);
    assert!(!jwt_info.is_valid());
}

#[test]
fn token_margin_is_five_minutes() {
    assert_eq!(TOKEN_SAFETY_MARGIN_SECS, 300);
}

#[test]
fn token_expiry_is_issue_time_plus_lifetime() {
    let info = JwtInfo::issued_at("t".to_string(), 1_000, 3_600);
    assert_eq!(info.token, "t");
    assert_eq!(info.expires_at, 4_600);
}

#[test]
fn token_expiry_stops_at_the_last_second() {
    let info = JwtInfo::issued_at("t".to_string(), u64::MAX - 10, 3_600);
    assert_eq!(info.expires_at, u64::MAX);
    let info = JwtInfo::issued_at("t".to_string(), u64::MAX - 10, 10);
    assert_eq!(info.expires_at, u64::MAX);
}

#[test]
fn token_is_usable_strictly_before_the_margin() {
    let info = JwtInfo::issued_at("t".to_string(), 1_000, 3_600);
    assert!(info.is_valid_at(1_000));
    assert!(info.is_valid_at(4_299));
    assert!(!info.is_valid_at(4_300));
    assert!(!info.is_valid_at(4_301));
    assert!(!info.is_valid_at(4_600));
    assert!(!info.is_valid_at(u64::MAX));
}

#[test]
fn token_with_short_lifetime_is_never_usable() {
    let info = JwtInfo::issued_at("t".to_string(), 0, 300);
    assert!(!info.is_valid_at(0));
    let info = JwtInfo::issued_at("t".to_string(), 0, 299);
    assert!(!info.is_valid_at(0));
    let info = JwtInfo::issued_at("t".to_string(), 0, 301);
    assert!(info.is_valid_at(0));
    assert!(!info.is_valid_at(1));
}

#[test]
fn token_new_keeps_the_token() {
    let info = JwtInfo::new("abc".to_string(), 3_600);
    assert_eq!(info.token, "abc");
    assert!(info.expires_at >= 3_600);
}

#[test]
fn token_clone_is_the_same_token() {
    let info = JwtInfo::issued_at("abc".to_string(), 5, 7);
    let copy = info.clone();
    assert_eq!(copy.token, info.token);
    assert_eq!(copy.expires_at, info.expires_at);
}
