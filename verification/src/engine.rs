//! Interpretation of the engine's raw outcomes.
//!
//! Every call across the foreign boundary answers with a status code, and the
//! compile call may add an engine-owned diagnostic structure.  The functions
//! here turn those raw answers into the integration layer's results; the
//! unverified shell only performs the calls and hands the answers over.

use vstd::prelude::*;

verus! {

/// The engine's distinguished success status.
pub const STATUS_SUCCESS: i32 = 0;

/// The status a scan call answers when the match reporter told the engine to
/// stop scanning the rest of the line: with this layer's first-match-wins
/// policy it accompanies a recorded match and is not a failure.
pub const STATUS_SCAN_TERMINATED: i32 = -3;

/// The engine rejected the pattern; `message` carries the engine's
/// diagnostic text, or a generic fallback when the engine offered none.
#[derive(Debug)]
pub struct CompileError {
    pub message: String,
}

/// Workspace provisioning failed; `code` is the engine's raw status.
#[derive(Debug)]
pub struct AllocError {
    pub code: i32,
}

/// A scan call failed; `code` is the engine's raw status.
#[derive(Debug)]
pub struct ScanError {
    pub code: i32,
}

/// Turns the compile call's raw answer into this layer's result.
///
/// A failure carries the engine's diagnostic text when it gave one and the
/// generic message otherwise.  The engine-owned diagnostic structure itself
/// must be freed by the caller at the boundary after its text is extracted;
/// only the extracted text reaches this function.
pub fn interpret_compile(status: i32, diagnostic: Option<String>) -> (r: Result<(), CompileError>)
    ensures
        r is Ok <==> status == STATUS_SUCCESS,
        r is Err ==> r->Err_0.message@ == (match diagnostic {
            Some(text) => text@,
            None => "Unknown compile error"@,
        }),
{
    if status == STATUS_SUCCESS {
        Ok(())
    } else {
        match diagnostic {
            Some(text) => Err(CompileError { message: text }),
            None => Err(CompileError { message: String::from_str("Unknown compile error") }),
        }
    }
}

/// Turns the workspace-provisioning call's raw answer into this layer's
/// result: success yields the workspace (tracked by the caller), anything
/// else is an allocation failure carrying the raw status for diagnostics.
pub fn interpret_alloc(status: i32) -> (r: Result<(), AllocError>)
    ensures
        r is Ok <==> status == STATUS_SUCCESS,
        r is Err ==> r->Err_0.code == status,
{
    if status == STATUS_SUCCESS {
        Ok(())
    } else {
        Err(AllocError { code: status })
    }
}

/// What one scan call's outcome must be, given the engine's status and the
/// flag the reporter recorded during the call.
pub open spec fn scan_outcome(status: i32, matched: bool) -> Result<bool, ScanError> {
    if status == STATUS_SUCCESS {
        Ok(matched)
    } else if status == STATUS_SCAN_TERMINATED && matched {
        Ok(true)
    } else {
        Err(ScanError { code: status })
    }
}

/// Reads one scan call's outcome from the engine's status together with the
/// reporter's recorded flag.
///
/// A success status yields the recorded flag unchanged.  The terminated
/// status together with a recorded match is the short-circuited success (the
/// reporter halts the engine on the first match event).  Any other answer is
/// a scan failure carrying the raw status, and the line counts as not
/// evaluated.
pub fn interpret_scan(status: i32, matched: bool) -> (r: Result<bool, ScanError>)
    ensures
        r == scan_outcome(status, matched),
        r is Ok <==> (status == STATUS_SUCCESS || (status == STATUS_SCAN_TERMINATED && matched)),
        status == STATUS_SUCCESS ==> r == Ok::<bool, ScanError>(matched),
        status == STATUS_SCAN_TERMINATED && matched ==> r == Ok::<bool, ScanError>(true),
        r is Err ==> r->Err_0.code == status,
{
    if status == STATUS_SUCCESS {
        Ok(matched)
    } else if status == STATUS_SCAN_TERMINATED && matched {
        Ok(true)
    } else {
        Err(ScanError { code: status })
    }
}

} // verus!
