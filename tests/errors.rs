use jajo::error::setup_result;
use jajo::{resultify, RingError};

#[test]
fn resultify_passes_counts() {
    assert_eq!(resultify(0), Ok(0));
    assert_eq!(resultify(5), Ok(5));
    assert_eq!(resultify(i32::MAX), Ok(i32::MAX as u32));
}

#[test]
fn resultify_negates_error_numbers() {
    assert_eq!(resultify(-4), Err(RingError::Io { errno: 4 }));
    assert_eq!(resultify(i32::MIN), Err(RingError::Io { errno: 2_147_483_648 }));
}

#[test]
fn setup_invalid_argument_is_config_error() {
    assert_eq!(setup_result(-22), Err(RingError::Config));
}

#[test]
fn setup_other_failure_is_resource_error() {
    assert_eq!(setup_result(-12), Err(RingError::Resource { errno: 12 }));
    assert_eq!(setup_result(3), Ok(()));
}
