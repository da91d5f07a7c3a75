use print_my_bridge::api::check_token;
use print_my_bridge::api::validate_auth;
use print_my_bridge::api::SecurityContext;
use print_my_bridge::config::Config;
use print_my_bridge::error::BridgeError;
use print_my_bridge::rate::account;
use print_my_bridge::rate::purge;

fn context(limit: u32, token: Option<&str>) -> SecurityContext {
    let mut config = Config::default();
    config.rate_limit_per_minute = limit;
    config.api_token = token.map(|t| t.to_string());
    SecurityContext::new(config)
}

#[test]
fn two_requests_pass_and_the_third_is_throttled() {
    let mut ctx = context(2, None);
    assert_eq!(validate_auth(None, &mut ctx, "127.0.0.1", 1000), Ok(()));
    assert_eq!(validate_auth(None, &mut ctx, "127.0.0.1", 1001), Ok(()));
    let third = validate_auth(None, &mut ctx, "127.0.0.1", 1030);
    assert_eq!(third, Err(BridgeError::RateLimitExceeded));
    assert_eq!(third.unwrap_err().status_code(), 429);
}

#[test]
fn quota_is_free_again_once_the_window_has_passed() {
    let mut ctx = context(3, None);
    for now in [100u64, 110, 120] {
        assert_eq!(validate_auth(None, &mut ctx, "a", now), Ok(()));
    }
    assert_eq!(validate_auth(None, &mut ctx, "a", 159), Err(BridgeError::RateLimitExceeded));
    // at 160 the stamp of 100 is exactly 60 s old and leaves the window
    assert_eq!(validate_auth(None, &mut ctx, "a", 160), Ok(()));
    assert_eq!(ctx.rate_limiter.get("a"), Some(&vec![110, 120, 160]));
}

#[test]
fn a_rejected_request_leaves_no_stamp() {
    let mut ctx = context(1, None);
    assert_eq!(validate_auth(None, &mut ctx, "a", 10), Ok(()));
    assert_eq!(validate_auth(None, &mut ctx, "a", 11), Err(BridgeError::RateLimitExceeded));
    assert_eq!(ctx.rate_limiter.get("a"), Some(&vec![10]));
}

#[test]
fn requests_a_minute_apart_never_pile_up() {
    let mut ctx = context(1, None);
    let mut now = 5u64;
    for _ in 0..50 {
        assert_eq!(validate_auth(None, &mut ctx, "a", now), Ok(()));
        assert_eq!(ctx.rate_limiter.get("a"), Some(&vec![now]));
        now += 61;
    }
    assert_eq!(ctx.rate_limiter.len(), 1);
}

#[test]
fn identities_are_accounted_separately() {
    let mut ctx = context(1, None);
    assert_eq!(validate_auth(None, &mut ctx, "a", 10), Ok(()));
    assert_eq!(validate_auth(None, &mut ctx, "b", 10), Ok(()));
    assert_eq!(validate_auth(None, &mut ctx, "a", 11), Err(BridgeError::RateLimitExceeded));
    assert_eq!(ctx.rate_limiter.len(), 2);
    assert_eq!(ctx.rate_limiter.get("b"), Some(&vec![10]));
}

#[test]
fn a_limit_of_zero_admits_nothing() {
    let mut ctx = context(0, None);
    assert_eq!(validate_auth(None, &mut ctx, "a", 10), Err(BridgeError::RateLimitExceeded));
    assert_eq!(ctx.rate_limiter.get("a"), Some(&vec![]));
}

#[test]
fn a_required_token_must_match_exactly() {
    let mut ctx = context(60, Some("s3cret"));
    let missing = validate_auth(None, &mut ctx, "a", 1);
    assert_eq!(missing, Err(BridgeError::Unauthorized));
    assert_eq!(missing.unwrap_err().status_code(), 401);
    assert_eq!(
        validate_auth(Some("S3cret".to_string()), &mut ctx, "a", 2),
        Err(BridgeError::Unauthorized)
    );
    assert_eq!(
        validate_auth(Some("s3cret ".to_string()), &mut ctx, "a", 3),
        Err(BridgeError::Unauthorized)
    );
    assert_eq!(validate_auth(Some("s3cret".to_string()), &mut ctx, "a", 4), Ok(()));
}

#[test]
fn without_a_required_token_any_request_passes() {
    let mut ctx = context(60, None);
    assert_eq!(validate_auth(None, &mut ctx, "a", 1), Ok(()));
    assert_eq!(validate_auth(Some("whatever".to_string()), &mut ctx, "a", 2), Ok(()));
}

#[test]
fn bad_tokens_use_up_the_quota_too() {
    let mut ctx = context(2, Some("right"));
    assert_eq!(
        validate_auth(Some("wrong".to_string()), &mut ctx, "a", 1),
        Err(BridgeError::Unauthorized)
    );
    assert_eq!(validate_auth(None, &mut ctx, "a", 2), Err(BridgeError::Unauthorized));
    assert_eq!(
        validate_auth(Some("right".to_string()), &mut ctx, "a", 3),
        Err(BridgeError::RateLimitExceeded)
    );
}

#[test]
fn check_token_compares_whole_strings() {
    assert!(check_token(&None, &None));
    assert!(check_token(&None, &Some("x".to_string())));
    assert!(check_token(&Some("x".to_string()), &Some("x".to_string())));
    assert!(!check_token(&Some("x".to_string()), &Some("xy".to_string())));
    assert!(!check_token(&Some("x".to_string()), &Some("".to_string())));
    assert!(!check_token(&Some("x".to_string()), &None));
}

#[test]
fn purge_keeps_the_trailing_minute() {
    assert_eq!(purge(&vec![0, 40, 41, 99, 100], 100), vec![41, 99, 100]);
    assert_eq!(purge(&vec![], 100), Vec::<u64>::new());
}

#[test]
fn purge_drops_stamps_from_the_future() {
    assert_eq!(purge(&vec![90, 101, 500], 100), vec![90]);
}

#[test]
fn account_stamps_only_admitted_requests() {
    assert_eq!(account(&vec![10, 20], 30, 3), (true, vec![10, 20, 30]));
    assert_eq!(account(&vec![10, 20], 30, 2), (false, vec![10, 20]));
    assert_eq!(account(&vec![10, 20], 75, 2), (true, vec![20, 75]));
    assert_eq!(account(&vec![10, 20], u64::MAX, 1), (true, vec![u64::MAX]));
}
