use sitehost::error::SiteError;
use sitehost::routing::{conditional_call, decimal_text, mutation_outcome, routing_value, CacheCall, CacheFailure, CacheMutation};

#[test]
fn routing_value_format() {
    assert_eq!(routing_value("01HXYZ", 1700000000), "01HXYZ=x=1700000000");
    assert_eq!(routing_value("a", 0), "a=x=0");
}

#[test]
fn decimal_forms() {
    assert_eq!(decimal_text(7), "7");
    assert_eq!(decimal_text(-120), "-120");
    assert_eq!(decimal_text(i64::MAX), "9223372036854775807");
    assert_eq!(decimal_text(i64::MIN), "-9223372036854775808");
}

#[test]
fn put_bound_to_tag() {
    let m = CacheMutation::Put { key: "h.io".to_string(), value: "v".to_string() };
    match conditional_call(m, Ok("E1".to_string())) {
        Ok(CacheCall::Put { key, value, if_match }) => {
            assert_eq!(key, "h.io");
            assert_eq!(value, "v");
            assert_eq!(if_match, "E1");
        }
        _ => panic!("expected a put"),
    }
}

#[test]
fn remove_bound_to_tag() {
    let m = CacheMutation::Remove { key: "h.io".to_string() };
    match conditional_call(m, Ok("E2".to_string())) {
        Ok(CacheCall::Remove { key, if_match }) => {
            assert_eq!(key, "h.io");
            assert_eq!(if_match, "E2");
        }
        _ => panic!("expected a remove"),
    }
}

#[test]
fn unreadable_tag_is_transport_error() {
    let m = CacheMutation::Remove { key: "h.io".to_string() };
    assert!(matches!(conditional_call(m, Err(CacheFailure::Unavailable)), Err(SiteError::Transport)));
}

#[test]
fn write_outcomes() {
    assert!(mutation_outcome(Ok(())).is_ok());
    assert_eq!(mutation_outcome(Err(CacheFailure::VersionMismatch)), Err(SiteError::ConcurrentModification));
    assert_eq!(mutation_outcome(Err(CacheFailure::Unavailable)), Err(SiteError::Transport));
}
