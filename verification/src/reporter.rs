//! The match reporter: the callback protocol that turns the engine's match
//! events into one boolean outcome per scan call.
//!
//! The engine delivers match events one at a time during a scan call, each
//! with the matched pattern's identifier, the match offsets and flags, and
//! answers a code telling it whether to go on.  This layer treats matching as
//! a boolean predicate: the first event suffices, so the reporter records
//! "matched" and halts the rest of the scan.

use vstd::prelude::*;

use crate::engine::{scan_outcome, ScanError, STATUS_SCAN_TERMINATED, STATUS_SUCCESS};

verus! {

/// The code the reporter answers the engine to halt the scan of the current
/// line; any non-zero code stops further event delivery.
pub const HALT_SCAN: i32 = 1;

/// The reporter's context for one scan call: a single mutable boolean,
/// fresh (not matched) at the start of each call and written by the events
/// delivered within that call alone.
pub struct MatchContext {
    pub matched: bool,
}

/// The outcome the reporter's boolean holds after a number of match events,
/// starting from `initial`: every event records a match, whatever its
/// metadata.
pub open spec fn outcome_after(initial: bool, events: nat) -> bool
    decreases events,
{
    if events == 0 {
        initial
    } else {
        outcome_after(true, (events - 1) as nat)
    }
}

impl MatchContext {
    /// A fresh context for one scan call: no match recorded yet.
    pub fn new() -> (c: Self)
        ensures
            !c.matched,
    {
        MatchContext { matched: false }
    }

    /// One match event delivered by the engine during a scan call.  The
    /// event's metadata (pattern identifier, offsets, flags) plays no part in
    /// the boolean outcome: the context records "matched" and the answer
    /// tells the engine to stop scanning the rest of the line.
    pub fn on_match_event(&mut self, _id: u32, _from: u64, _to: u64, _flags: u32) -> (halt: i32)
        ensures
            final(self).matched,
            final(self).matched == outcome_after(old(self).matched, 1),
            halt != 0,
            halt == HALT_SCAN,
    {
        proof {
            lemma_outcome_is_any_event(old(self).matched, 1);
        }
        self.matched = true;
        HALT_SCAN
    }
}

/// The recorded outcome is "some event arrived, or a match already stood":
/// the fold over the events reduces to that disjunction.
pub proof fn lemma_outcome_is_any_event(initial: bool, events: nat)
    ensures
        outcome_after(initial, events) == (initial || events > 0),
    decreases events,
{
    if events > 0 {
        lemma_outcome_is_any_event(true, (events - 1) as nat);
    }
}

/// Law: early exit does not affect the outcome.  A line in which the engine
/// finds many matches yields the same boolean outcome as a line with exactly
/// one match, so halting the scan after the first event changes nothing.
pub proof fn lemma_many_events_same_outcome(n: nat, m: nat)
    requires
        n >= 1,
        m >= 1,
    ensures
        outcome_after(false, n) == outcome_after(false, m),
{
    lemma_outcome_is_any_event(false, n);
    lemma_outcome_is_any_event(false, m);
}

/// Law: a reported match is never lost.  When at least one match event
/// arrived during a scan call, and the engine answered one of its two
/// non-failure statuses (plain success, or the termination the reporter's
/// halt provokes), the call's outcome is a match.
pub proof fn lemma_no_false_negative(status: i32, events: nat)
    requires
        events >= 1,
        status == STATUS_SUCCESS || status == STATUS_SCAN_TERMINATED,
    ensures
        scan_outcome(status, outcome_after(false, events)) == Ok::<bool, ScanError>(true),
{
    lemma_outcome_is_any_event(false, events);
}

} // verus!
