use mechanic::token::BrokerError;
use mechanic::token::create_app_assertion;
use mechanic::token::create_jwt;
use mechanic::token::token_exchange_outcome;
use mechanic::token::unix_now;

#[test]
fn missing_key_is_a_config_error() {
    let r = create_app_assertion(1146309, None, 1_700_000_000);
    match r {
        Err(BrokerError::Config(_)) => {},
        _ => panic!("expected a configuration error for a missing key"),
    }
}

#[test]
fn unparseable_key_is_a_config_error() {
    // not a PEM document at all: signing must fail rather than echo it back
    let r = create_app_assertion(1146309, Some("not a pem"), 1_700_000_000);
    match r {
        Err(BrokerError::Config(_)) => {},
        Ok(_) => panic!("a garbage key must not produce a token"),
        Err(BrokerError::Auth(_)) => panic!("key problems are config errors, not auth errors"),
    }
}

#[test]
fn create_jwt_with_missing_key_fails() {
    let r = create_jwt(1146309, None);
    assert!(matches!(r, Err(BrokerError::Config(_))));
}

#[test]
fn the_clock_reading_stays_in_range() {
    let now = unix_now();
    assert!(-10_000_000_000_000 <= now && now <= 10_000_000_000_000);
    // and on this machine the clock is past the epoch and past 2020
    assert!(now > 1_577_836_800);
}

#[test]
fn rejected_exchange_is_an_auth_error() {
    let r = token_exchange_outcome(7, 401, "{\"message\":\"Bad credentials\"}", 1_000);
    match r {
        Err(BrokerError::Auth(_)) => {},
        _ => panic!("a 401 must abort the exchange with an auth error"),
    }
}

#[test]
fn exchange_without_token_field_is_an_auth_error() {
    let r = token_exchange_outcome(7, 201, "{\"expires_at\":\"soon\"}", 1_000);
    assert!(matches!(r, Err(BrokerError::Auth(_))));
}

#[test]
fn exchange_with_unparseable_body_is_an_auth_error() {
    let r = token_exchange_outcome(7, 201, "not json", 1_000);
    assert!(matches!(r, Err(BrokerError::Auth(_))));
}

#[test]
fn accepted_exchange_yields_the_token() {
    let r = token_exchange_outcome(7, 201, "{\"token\":\"ghs_abc\",\"expires_at\":\"later\"}", 1_000);
    let t = r.expect("a success response with a token must succeed");
    assert_eq!(t.value, "ghs_abc");
    assert_eq!(t.installation_id, 7);
    assert_eq!(t.issued_at, 1_000);
    assert_eq!(t.expires_at, 4_600);
    assert!(!t.is_expired(4_599));
    assert!(t.is_expired(4_600));
}
