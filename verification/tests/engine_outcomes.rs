//! Interpretation of the engine's raw answers: compile, provisioning and
//! scan statuses, including the engine's diagnostic text and its fallback.

use hsgrep::engine::{
    interpret_alloc, interpret_compile, interpret_scan, STATUS_SCAN_TERMINATED, STATUS_SUCCESS,
};

#[test]
fn compile_success_status_is_ok() {
    assert!(interpret_compile(STATUS_SUCCESS, None).is_ok());
    assert!(interpret_compile(STATUS_SUCCESS, Some(String::from("ignored"))).is_ok());
}

#[test]
fn compile_failure_keeps_the_engine_diagnostic() {
    let diagnostic = String::from("Missing close bracket for group started at index 0.");
    let r = interpret_compile(-4, Some(diagnostic.clone()));
    match r {
        Err(e) => assert_eq!(e.message, diagnostic),
        Ok(_) => panic!("a failure status must not be accepted"),
    }
}

#[test]
fn compile_failure_without_diagnostic_falls_back() {
    let r = interpret_compile(-1, None);
    match r {
        Err(e) => assert_eq!(e.message, "Unknown compile error"),
        Ok(_) => panic!("a failure status must not be accepted"),
    }
}

#[test]
fn alloc_success_and_failure() {
    assert!(interpret_alloc(STATUS_SUCCESS).is_ok());
    let r = interpret_alloc(-2);
    match r {
        Err(e) => assert_eq!(e.code, -2),
        Ok(_) => panic!("a failure status must not be accepted"),
    }
}

#[test]
fn scan_success_returns_the_recorded_flag() {
    assert_eq!(interpret_scan(STATUS_SUCCESS, false).unwrap(), false);
    assert_eq!(interpret_scan(STATUS_SUCCESS, true).unwrap(), true);
}

#[test]
fn scan_terminated_with_a_match_is_the_short_circuit_success() {
    assert_eq!(interpret_scan(STATUS_SCAN_TERMINATED, true).unwrap(), true);
}

#[test]
fn scan_terminated_without_a_match_is_a_failure() {
    let r = interpret_scan(STATUS_SCAN_TERMINATED, false);
    match r {
        Err(e) => assert_eq!(e.code, STATUS_SCAN_TERMINATED),
        Ok(_) => panic!("termination without a recorded match is not a success"),
    }
}

#[test]
fn scan_other_statuses_are_failures_with_the_raw_code() {
    let r = interpret_scan(-1, true);
    match r {
        Err(e) => assert_eq!(e.code, -1),
        Ok(_) => panic!("a failure status must not be accepted"),
    }
}
