//! The match reporter: the first event records the match and halts the scan,
//! and further events cannot change the outcome.

use hsgrep::reporter::{MatchContext, HALT_SCAN};

#[test]
fn fresh_context_has_no_match() {
    let ctx = MatchContext::new();
    assert!(!ctx.matched);
}

#[test]
fn one_event_records_the_match_and_halts() {
    let mut ctx = MatchContext::new();
    let halt: i32 = ctx.on_match_event(0, 0, 3, 0);
    assert!(ctx.matched);
    assert_ne!(halt, 0);
    assert_eq!(halt, HALT_SCAN);
}

#[test]
fn repeated_events_yield_the_same_outcome_as_one() {
    let mut once = MatchContext::new();
    once.on_match_event(0, 0, 3, 0);

    let mut many = MatchContext::new();
    many.on_match_event(0, 0, 3, 0);
    many.on_match_event(0, 2, 5, 0);
    many.on_match_event(0, 4, 9, 0);

    assert_eq!(once.matched, many.matched);
    assert!(many.matched);
}

#[test]
fn event_metadata_plays_no_part() {
    let mut a = MatchContext::new();
    let mut b = MatchContext::new();
    a.on_match_event(0, 0, 1, 0);
    b.on_match_event(7, 100, 200, 3);
    assert_eq!(a.matched, b.matched);
}
