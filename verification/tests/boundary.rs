use resvg_extended::should_release;
use resvg_extended::validate_export_inputs;
use resvg_extended::Status;

#[test]
fn null_tree_is_rejected_whatever_the_slot() {
    assert_eq!(validate_export_inputs(true, false), Some(Status::ParsingFailed));
    assert_eq!(validate_export_inputs(true, true), Some(Status::ParsingFailed));
}

#[test]
fn null_slot_is_rejected_whatever_the_tree() {
    assert_eq!(validate_export_inputs(false, true), Some(Status::ParsingFailed));
    assert_eq!(validate_export_inputs(true, true), Some(Status::ParsingFailed));
}

#[test]
fn valid_inputs_pass_validation() {
    assert_eq!(validate_export_inputs(false, false), None);
}

#[test]
fn release_of_null_pointer_is_noop() {
    assert!(!should_release(true));
}

#[test]
fn release_of_real_pointer_deallocates() {
    assert!(should_release(false));
}

#[test]
fn status_codes_follow_the_c_api() {
    assert_eq!(Status::Success.code(), 0);
    assert_eq!(Status::NotAnUtf8String.code(), 1);
    assert_eq!(Status::ParsingFailed.code(), 6);
}
