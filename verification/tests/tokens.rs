use server::infrastructure::jwt::jwt_model::{Claims, Passport};

#[test]
fn claims_expire_after_the_lifetime() {
    let c = Claims::at(7, "Ann".to_string(), Some("a.png".to_string()), 1_700_000_000, 7).unwrap();
    assert_eq!(c.sub, 7);
    assert_eq!(c.iat, 1_700_000_000);
    assert_eq!(c.exp, 1_700_000_000 + 7 * 86_400);
    assert_eq!(c.display_name, "Ann");
    assert_eq!(c.avatar_url, Some("a.png".to_string()));
}

#[test]
fn claims_with_a_negative_lifetime_expire_before_issue() {
    let c = Claims::at(1, "B".to_string(), None, 1_000_000, -1).unwrap();
    assert_eq!(c.exp, 1_000_000 - 86_400);
    assert_eq!(c.avatar_url, None);
}

#[test]
fn claims_whose_expiry_overflows_are_refused() {
    assert!(Claims::at(1, "B".to_string(), None, i64::MAX - 10, 1).is_none());
    assert!(Claims::at(1, "B".to_string(), None, 0, i64::MAX / 1000).is_none());
}

#[test]
fn issued_claims_live_the_lifetime() {
    let c = Claims::issue(3, "C".to_string(), None, 2).unwrap();
    assert_eq!(c.exp - c.iat, 2 * 86_400);
    assert!(c.iat > 1_600_000_000);
}

#[test]
fn a_passport_carries_the_token_and_its_claims() {
    let c = Claims::at(9, "Dee".to_string(), None, 100, 1).unwrap();
    let p = Passport::new(&c, "dee".to_string(), Some("cover.png".to_string()), "tok".to_string());
    assert_eq!(p.id, 9);
    assert_eq!(p.token_type, "Bearer");
    assert_eq!(p.access_token, "tok");
    assert_eq!(p.expires_in, 100 + 86_400);
    assert_eq!(p.display_name, "Dee");
    assert_eq!(p.username, "dee");
    assert_eq!(p.avatar_url, None);
    assert_eq!(p.cover_url, Some("cover.png".to_string()));
}
