use nix_bindings::codes;
use nix_bindings::primop::{error_code, error_message};

#[test]
fn error_code_distinguishes_recoverable_failures() {
    assert_eq!(error_code(&[true]), codes::NIX_ERR_RECOVERABLE);
    assert_eq!(error_code(&[false]), codes::NIX_ERR_UNKNOWN);
    assert_eq!(error_code(&[false]), -1);
}

#[test]
fn error_code_looks_through_the_whole_chain() {
    assert_eq!(error_code(&[false, false, true]), codes::NIX_ERR_RECOVERABLE);
    assert_eq!(error_code(&[true, false]), codes::NIX_ERR_RECOVERABLE);
    assert_eq!(error_code(&[false, false, false]), codes::NIX_ERR_UNKNOWN);
    assert_eq!(error_code(&[]), codes::NIX_ERR_UNKNOWN);
}

#[test]
fn error_message_keeps_a_message_without_nul() {
    assert_eq!(error_message("division by zero"), "division by zero");
    assert_eq!(error_message(""), "");
}

#[test]
fn error_message_replaces_a_message_with_nul() {
    assert_eq!(
        error_message("bad\0message"),
        "<rust nix-expr application error message contained null byte>"
    );
    assert_eq!(
        error_message("\0"),
        "<rust nix-expr application error message contained null byte>"
    );
}
