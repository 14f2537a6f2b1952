//! The lifecycle manager: the run's state machine.
//!
//! One run moves through `Start → Compiled → Provisioned → Scanning →
//! Draining → Released → Done`, with `Failed` as the terminal phase of every
//! error path.  The machine holds every decision of the run — whether the
//! pattern may reach the engine, what each raw outcome means for the run,
//! which lines are forwarded to output, and in what order the engine-owned
//! resources are released — while the unverified shell performs the matching
//! foreign calls and I/O and reports their outcomes back.
//!
//! Ghost state records the scanned lines with their outcomes, the lines
//! forwarded to output, and how often the engine handle has been released, so
//! the ordering and exactly-once-release laws are stated and proved here.

use vstd::prelude::*;

use crate::engine::{AllocError, CompileError, ScanError};
use crate::pattern::{pattern_is_terminator_safe, terminator_free};

verus! {

/// The phases of one run, in the order a successful run passes them.
#[derive(Clone, Copy, Debug, PartialEq, Eq, Structural)]
pub enum Phase {
    /// Nothing acquired yet; the pattern has not reached the engine.
    Start,
    /// The engine handle (the compiled pattern) is live.
    Compiled,
    /// The scan workspace tied to the handle is live as well.
    Provisioned,
    /// The scan loop is running, one line at a time.
    Scanning,
    /// The loop is over (end of input or a fatal error); the live resources
    /// are still to be released.
    Draining,
    /// Workspace and handle are released; only the verdict is left.
    Released,
    /// Terminal: the run succeeded.
    Done,
    /// Terminal: the run failed; `error` says why.
    Failed,
}

/// Why a run failed; each variant carries what the boundary reported.
#[derive(Debug)]
pub enum RunError {
    /// The pattern holds an embedded terminator byte and never reached the
    /// engine.
    InvalidPattern,
    /// The engine rejected the pattern.
    Compile(CompileError),
    /// Workspace provisioning failed.
    Alloc(AllocError),
    /// A scan call failed; the whole run aborts (no per-line skipping).
    Scan(ScanError),
    /// Reading the input stream failed.
    Io,
}

/// The state of one run.
///
/// `handle_live` and `workspace_live` mirror which engine-owned resources
/// the shell currently holds; the machine's contracts force the shell to
/// acquire and release them in the only legal order.
pub struct Lifecycle {
    pub phase: Phase,
    /// The engine handle (compiled pattern) is currently held.
    pub handle_live: bool,
    /// The scan workspace tied to the handle is currently held.
    pub workspace_live: bool,
    /// The error that ends the run, once one arrived.
    pub error: Option<RunError>,
    /// How many times the engine handle has been released.
    pub handle_releases: Ghost<nat>,
    /// The lines scanned so far, each with its boolean outcome, in input
    /// order.
    pub scanned: Ghost<Seq<(Seq<u8>, bool)>>,
    /// The lines forwarded to output, in the order they were forwarded.
    pub emitted: Ghost<Seq<Seq<u8>>>,
}

/// The subsequence of scanned lines whose outcome was a match, in input
/// order: what the run's output must be.
pub open spec fn matched_lines(scanned: Seq<(Seq<u8>, bool)>) -> Seq<Seq<u8>>
    decreases scanned.len(),
{
    if scanned.len() == 0 {
        Seq::empty()
    } else {
        let front = matched_lines(scanned.drop_last());
        if scanned.last().1 {
            front.push(scanned.last().0)
        } else {
            front
        }
    }
}

/// Appending one scanned line extends the matching subsequence exactly when
/// the line matched.
pub proof fn lemma_matched_lines_push(scanned: Seq<(Seq<u8>, bool)>, line: Seq<u8>, m: bool)
    ensures
        matched_lines(scanned.push((line, m))) == (if m {
            matched_lines(scanned).push(line)
        } else {
            matched_lines(scanned)
        }),
{
    let grown = scanned.push((line, m));
    assert(grown.drop_last() =~= scanned);
    assert(grown.last() == (line, m));
}

/// The successor state once the pattern has been checked: an accepted
/// pattern changes nothing (the compile call comes next), a rejected one
/// ends the run at once with nothing to release.
pub open spec fn spec_after_pattern(pre: Lifecycle, accepted: bool) -> Lifecycle {
    if accepted {
        pre
    } else {
        Lifecycle { phase: Phase::Failed, error: Some(RunError::InvalidPattern), ..pre }
    }
}

/// The successor state once the compile call's outcome is in.
pub open spec fn spec_after_compile(pre: Lifecycle, outcome: Result<(), CompileError>) -> Lifecycle {
    match outcome {
        Ok(_) => Lifecycle { phase: Phase::Compiled, handle_live: true, ..pre },
        Err(e) => Lifecycle { phase: Phase::Failed, error: Some(RunError::Compile(e)), ..pre },
    }
}

/// The successor state once the provisioning call's outcome is in.  On
/// failure the run drains: the already-compiled handle is still live and
/// must still be released.
pub open spec fn spec_after_provision(pre: Lifecycle, outcome: Result<(), AllocError>) -> Lifecycle {
    match outcome {
        Ok(_) => Lifecycle { phase: Phase::Provisioned, workspace_live: true, ..pre },
        Err(e) => Lifecycle { phase: Phase::Draining, error: Some(RunError::Alloc(e)), ..pre },
    }
}

/// The successor state once one line's scan outcome is in: an evaluated line
/// is recorded with its outcome (and forwarded when it matched), a failed
/// scan aborts the loop and the run drains.
pub open spec fn spec_after_line(
    pre: Lifecycle,
    line: Seq<u8>,
    outcome: Result<bool, ScanError>,
) -> Lifecycle {
    match outcome {
        Ok(m) => Lifecycle {
            scanned: Ghost(pre.scanned@.push((line, m))),
            emitted: Ghost(if m { pre.emitted@.push(line) } else { pre.emitted@ }),
            ..pre
        },
        Err(e) => Lifecycle { phase: Phase::Draining, error: Some(RunError::Scan(e)), ..pre },
    }
}

/// The successor state when the input stream ends or fails.
pub open spec fn spec_after_input_end(pre: Lifecycle, io_failed: bool) -> Lifecycle {
    if io_failed {
        Lifecycle { phase: Phase::Draining, error: Some(RunError::Io), ..pre }
    } else {
        Lifecycle { phase: Phase::Draining, ..pre }
    }
}

/// The successor state once the workspace has been released.
pub open spec fn spec_after_release_workspace(pre: Lifecycle) -> Lifecycle {
    Lifecycle { workspace_live: false, ..pre }
}

/// The engine handle may be released only while draining, only while it is
/// live, and never before the workspace tied to it is gone.
pub open spec fn can_release_handle(s: Lifecycle) -> bool {
    s.phase == Phase::Draining && !s.workspace_live && s.handle_live
}

/// The successor state once the handle has been released.
pub open spec fn spec_after_release_handle(pre: Lifecycle) -> Lifecycle {
    Lifecycle {
        phase: Phase::Released,
        handle_live: false,
        handle_releases: Ghost(pre.handle_releases@ + 1),
        ..pre
    }
}

/// The terminal state: `Done` when no error arrived, `Failed` otherwise.
pub open spec fn spec_after_finish(pre: Lifecycle) -> Lifecycle {
    if pre.error is Some {
        Lifecycle { phase: Phase::Failed, ..pre }
    } else {
        Lifecycle { phase: Phase::Done, ..pre }
    }
}

impl Lifecycle {
    /// What every reachable run state satisfies: the workspace never
    /// outlives its handle, a live handle was never released, the output is
    /// exactly the matching subsequence of the scanned lines, and each phase
    /// pins which resources are held and whether an error stands.
    pub open spec fn inv(self) -> bool {
        &&& (self.workspace_live ==> self.handle_live)
        &&& (self.handle_live ==> self.handle_releases@ == 0)
        &&& self.emitted@ == matched_lines(self.scanned@)
        &&& match self.phase {
            Phase::Start => {
                &&& !self.handle_live
                &&& !self.workspace_live
                &&& self.error is None
                &&& self.handle_releases@ == 0
            },
            Phase::Compiled => self.handle_live && !self.workspace_live && self.error is None,
            Phase::Provisioned => self.handle_live && self.workspace_live && self.error is None,
            Phase::Scanning => self.handle_live && self.workspace_live && self.error is None,
            Phase::Draining => self.handle_live,
            Phase::Released => {
                &&& !self.handle_live
                &&& !self.workspace_live
                &&& self.handle_releases@ == 1
            },
            Phase::Done => !self.handle_live && !self.workspace_live && self.error is None,
            Phase::Failed => !self.handle_live && !self.workspace_live && self.error is Some,
        }
    }

    /// A fresh run: nothing acquired, nothing scanned, nothing emitted.
    pub fn new() -> (s: Lifecycle)
        ensures
            s.inv(),
            s.phase == Phase::Start,
            s.scanned@ == Seq::<(Seq<u8>, bool)>::empty(),
            s.emitted@ == Seq::<Seq<u8>>::empty(),
            s.handle_releases@ == 0,
    {
        Lifecycle {
            phase: Phase::Start,
            handle_live: false,
            workspace_live: false,
            error: None,
            handle_releases: Ghost(0),
            scanned: Ghost(Seq::empty()),
            emitted: Ghost(Seq::empty()),
        }
    }

    /// Checks the pattern before any engine interaction: a pattern holding
    /// an embedded terminator byte moves the run straight to `Failed` with
    /// `InvalidPattern`, and only an accepted pattern may be handed to the
    /// engine's compiler.
    pub fn submit_pattern(&mut self, pattern: &Vec<u8>) -> (accepted: bool)
        requires
            old(self).inv(),
            old(self).phase == Phase::Start,
        ensures
            final(self).inv(),
            accepted == terminator_free(pattern@),
            *final(self) == spec_after_pattern(*old(self), accepted),
    {
        let accepted = pattern_is_terminator_safe(pattern);
        if !accepted {
            self.phase = Phase::Failed;
            self.error = Some(RunError::InvalidPattern);
        }
        accepted
    }

    /// Records the compile call's outcome: success makes the engine handle
    /// live, failure ends the run with the engine's diagnostic and nothing
    /// to release.
    pub fn on_compile(&mut self, outcome: Result<(), CompileError>)
        requires
            old(self).inv(),
            old(self).phase == Phase::Start,
        ensures
            final(self).inv(),
            *final(self) == spec_after_compile(*old(self), outcome),
    {
        match outcome {
            Ok(_) => {
                self.phase = Phase::Compiled;
                self.handle_live = true;
            },
            Err(e) => {
                self.phase = Phase::Failed;
                self.error = Some(RunError::Compile(e));
            },
        }
    }

    /// Records the workspace-provisioning outcome: success makes the
    /// workspace live; failure sends the run draining, with the handle still
    /// live and still owed a release.
    pub fn on_provision(&mut self, outcome: Result<(), AllocError>)
        requires
            old(self).inv(),
            old(self).phase == Phase::Compiled,
        ensures
            final(self).inv(),
            *final(self) == spec_after_provision(*old(self), outcome),
    {
        match outcome {
            Ok(_) => {
                self.phase = Phase::Provisioned;
                self.workspace_live = true;
            },
            Err(e) => {
                self.phase = Phase::Draining;
                self.error = Some(RunError::Alloc(e));
            },
        }
    }

    /// Enters the scan loop once handle and workspace both stand.
    pub fn begin_scanning(&mut self)
        requires
            old(self).inv(),
            old(self).phase == Phase::Provisioned,
        ensures
            final(self).inv(),
            *final(self) == (Lifecycle { phase: Phase::Scanning, ..*old(self) }),
    {
        self.phase = Phase::Scanning;
    }

    /// One scan-loop iteration: takes the line and its scan outcome, and
    /// answers whether the line must be forwarded to output.  A successful
    /// scan keeps the loop in `Scanning`; a failed scan aborts the whole run
    /// (no per-line skipping) and the run drains with the engine's status.
    pub fn on_line(&mut self, line: &Vec<u8>, outcome: Result<bool, ScanError>) -> (emit: bool)
        requires
            old(self).inv(),
            old(self).phase == Phase::Scanning,
        ensures
            final(self).inv(),
            emit == (outcome == Ok::<bool, ScanError>(true)),
            *final(self) == spec_after_line(*old(self), line@, outcome),
            (final(self).phase == Phase::Scanning) == (outcome is Ok),
    {
        match outcome {
            Ok(m) => {
                proof {
                    lemma_matched_lines_push(self.scanned@, line@, m);
                }
                self.scanned = Ghost(self.scanned@.push((line@, m)));
                if m {
                    self.emitted = Ghost(self.emitted@.push(line@));
                }
                m
            },
            Err(e) => {
                self.phase = Phase::Draining;
                self.error = Some(RunError::Scan(e));
                false
            },
        }
    }

    /// Ends the scan loop: the input stream is exhausted (a run still on its
    /// way to success) or reading it failed (the run ends with `Io`).
    /// Either way the run drains and the resources are still owed their
    /// release.
    pub fn on_input_end(&mut self, io_failed: bool)
        requires
            old(self).inv(),
            old(self).phase == Phase::Scanning,
        ensures
            final(self).inv(),
            *final(self) == spec_after_input_end(*old(self), io_failed),
    {
        self.phase = Phase::Draining;
        if io_failed {
            self.error = Some(RunError::Io);
        }
    }

    /// Records the workspace's release.  It comes first: the handle must
    /// remain valid for the whole lifetime of the workspace's use.
    pub fn release_workspace(&mut self)
        requires
            old(self).inv(),
            old(self).phase == Phase::Draining,
            old(self).workspace_live,
        ensures
            final(self).inv(),
            *final(self) == spec_after_release_workspace(*old(self)),
    {
        self.workspace_live = false;
    }

    /// Records the engine handle's release, legal only once the workspace is
    /// gone; afterwards no further release is possible.
    pub fn release_handle(&mut self)
        requires
            old(self).inv(),
            can_release_handle(*old(self)),
        ensures
            final(self).inv(),
            *final(self) == spec_after_release_handle(*old(self)),
            final(self).handle_releases@ == 1,
    {
        self.phase = Phase::Released;
        self.handle_live = false;
        self.handle_releases = Ghost(self.handle_releases@ + 1);
    }

    /// The verdict, once everything is released: true exactly when the run
    /// ends in `Done`, that is when no error arrived on the way.
    pub fn finish(&mut self) -> (ok: bool)
        requires
            old(self).inv(),
            old(self).phase == Phase::Released,
        ensures
            final(self).inv(),
            *final(self) == spec_after_finish(*old(self)),
            ok == (final(self).phase == Phase::Done),
            ok == (old(self).error is None),
    {
        if self.error.is_some() {
            self.phase = Phase::Failed;
            false
        } else {
            self.phase = Phase::Done;
            true
        }
    }
}

/// Law: order preservation.  In every reachable run state the lines
/// forwarded to output are exactly the subsequence of scanned lines whose
/// outcome was a match, in input order.
pub proof fn lemma_order_preserved(s: Lifecycle)
    requires
        s.inv(),
    ensures
        s.emitted@ == matched_lines(s.scanned@),
{
}

/// Law: the release order is fixed.  While the workspace is live the engine
/// handle cannot be released, so the handle outlives every use of the
/// workspace tied to it.
pub proof fn lemma_workspace_blocks_handle_release(s: Lifecycle)
    requires
        s.workspace_live,
    ensures
        !can_release_handle(s),
{
}

/// Law: release on provisioning failure.  When workspace provisioning fails
/// in a reachable `Compiled` state, the run still reaches its terminal
/// `Failed` phase with the engine handle released exactly once — the drain
/// releases it, and afterwards no step can release it again.
pub proof fn lemma_handle_released_after_provision_failure(s0: Lifecycle, e: AllocError)
    requires
        s0.inv(),
        s0.phase == Phase::Compiled,
    ensures
        ({
            let s1 = spec_after_provision(s0, Err(e));
            let s2 = spec_after_release_handle(s1);
            let s3 = spec_after_finish(s2);
            &&& can_release_handle(s1)
            &&& s2.handle_releases@ == 1
            &&& !can_release_handle(s2)
            &&& s3.phase == Phase::Failed
            &&& s3.handle_releases@ == 1
        }),
{
}

} // verus!
