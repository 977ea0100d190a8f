use ephemeral_proxy::proxy::policy::{decimal_string, Policy, MAX_REDIRECTS, MAX_TTL, MIN_TTL};

fn policy(min_ttl: u64, max_ttl: u64) -> Policy {
    Policy { min_ttl, max_ttl, max_redirects: 3, ignored_headers: Vec::new() }
}

#[test]
fn default_limits() {
    assert_eq!(MIN_TTL, 60);
    assert_eq!(MAX_TTL, 3600);
    assert_eq!(MAX_REDIRECTS, 10);
    let p = Policy::default();
    assert_eq!(p.min_ttl, 60);
    assert_eq!(p.max_ttl, 3600);
    assert_eq!(p.max_redirects, 10);
    assert_eq!(p.ignored_headers, vec!["content-length".to_string(), "content-encoding".to_string()]);
}

#[test]
fn range_is_closed_at_both_ends() {
    let p = Policy::default();
    assert!(!p.accepts_ttl(0));
    assert!(!p.accepts_ttl(59));
    assert!(p.accepts_ttl(60));
    assert!(p.accepts_ttl(61));
    assert!(p.accepts_ttl(3599));
    assert!(p.accepts_ttl(3600));
    assert!(!p.accepts_ttl(3601));
    assert!(!p.accepts_ttl(u64::MAX));
}

#[test]
fn range_of_one_value() {
    let p = policy(5, 5);
    assert!(!p.accepts_ttl(4));
    assert!(p.accepts_ttl(5));
    assert!(!p.accepts_ttl(6));
}

#[test]
fn empty_range_accepts_nothing() {
    let p = policy(10, 9);
    assert!(!p.accepts_ttl(9));
    assert!(!p.accepts_ttl(10));
}

#[test]
fn widest_range_accepts_everything() {
    let p = policy(0, u64::MAX);
    assert!(p.accepts_ttl(0));
    assert!(p.accepts_ttl(u64::MAX));
}

#[test]
fn sweep_interval_is_the_shortest_ttl() {
    assert_eq!(Policy::default().sweep_interval(), 60);
    assert_eq!(policy(7, 9).sweep_interval(), 7);
}

#[test]
fn message_names_the_default_range() {
    assert_eq!(Policy::default().ttl_message(), "ttl should be between 60 and 3600");
}

#[test]
fn message_names_a_configured_range() {
    assert_eq!(policy(1, 86400).ttl_message(), "ttl should be between 1 and 86400");
    assert_eq!(
        policy(0, u64::MAX).ttl_message(),
        "ttl should be between 0 and 18446744073709551615"
    );
}

#[test]
fn numerals() {
    assert_eq!(decimal_string(0), "0");
    assert_eq!(decimal_string(7), "7");
    assert_eq!(decimal_string(9), "9");
    assert_eq!(decimal_string(10), "10");
    assert_eq!(decimal_string(99), "99");
    assert_eq!(decimal_string(100), "100");
    assert_eq!(decimal_string(1234567890), "1234567890");
    assert_eq!(decimal_string(u64::MAX), "18446744073709551615");
}

#[test]
fn numerals_agree_with_the_standard_rendering() {
    let mut n: u64 = 1;
    for _ in 0..64 {
        assert_eq!(decimal_string(n), n.to_string());
        assert_eq!(decimal_string(n - 1), (n - 1).to_string());
        n = n.wrapping_mul(2);
    }
}
