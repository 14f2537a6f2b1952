//! Pattern admissibility at the boundary: an embedded terminator byte is the
//! one structural input error, caught before any engine interaction.

use hsgrep::lifecycle::{Lifecycle, Phase, RunError};
use hsgrep::pattern::pattern_is_terminator_safe;

#[test]
fn plain_pattern_is_accepted() {
    let pattern: Vec<u8> = b"^abc$".to_vec();
    assert!(pattern_is_terminator_safe(&pattern));
}

#[test]
fn empty_pattern_is_accepted() {
    let pattern: Vec<u8> = Vec::new();
    assert!(pattern_is_terminator_safe(&pattern));
}

#[test]
fn embedded_terminator_is_rejected() {
    let pattern: Vec<u8> = vec![b'a', 0u8, b'b'];
    assert!(!pattern_is_terminator_safe(&pattern));
}

#[test]
fn leading_and_trailing_terminators_are_rejected() {
    assert!(!pattern_is_terminator_safe(&vec![0u8, b'a']));
    assert!(!pattern_is_terminator_safe(&vec![b'a', 0u8]));
}

#[test]
fn rejected_pattern_fails_the_run_before_compilation() {
    let mut run = Lifecycle::new();
    let accepted = run.submit_pattern(&vec![b'x', 0u8, b'y']);
    assert!(!accepted);
    assert_eq!(run.phase, Phase::Failed);
    assert!(!run.handle_live);
    assert!(matches!(run.error, Some(RunError::InvalidPattern)));
}

#[test]
fn accepted_pattern_leaves_the_run_ready_to_compile() {
    let mut run = Lifecycle::new();
    let accepted = run.submit_pattern(&b"^[a-z]+$".to_vec());
    assert!(accepted);
    assert_eq!(run.phase, Phase::Start);
    assert!(run.error.is_none());
}
