//! Command Dispatcher: the decisions behind the operations exposed to the
//! UI layer. File-system reads and writes themselves happen in the
//! surrounding application; the rules that govern them — the rename
//! collision check, the mapping of a process exit to success or failure,
//! and the flattening of structured errors to the single string channel —
//! stand here with their contracts.

use vstd::prelude::*;
use crate::errors::CmdError;

verus! {

/// The greeting returned for a name.
pub open spec fn greeting_spec(name: Seq<char>) -> Seq<char> {
    "Hello, "@ + name + "! You've been greeted from Rust!"@
}

/// Greet a caller by name.
pub fn greet(name: &str) -> (r: String)
    ensures
        r@ == greeting_spec(name@),
{
    let mut out = String::from_str("Hello, ");
    out.append(name);
    out.append("! You've been greeted from Rust!");
    out
}

/// Decide a rename request. The destination is checked first: when it
/// already exists the request fails with the distinct collision error and
/// no rename is attempted; otherwise the pair of paths to rename comes
/// back unchanged.
pub fn rename_filter_file(old_path: String, new_path: String, dest_exists: bool) -> (r: Result<
    (String, String),
    CmdError,
>)
    ensures
        dest_exists ==> r == Err::<(String, String), CmdError>(CmdError::AlreadyExists),
        !dest_exists ==> r == Ok::<(String, String), CmdError>((old_path, new_path)),
{
    if dest_exists {
        Err(CmdError::AlreadyExists)
    } else {
        Ok((old_path, new_path))
    }
}

/// Map the outcome of a shell invocation to the dispatcher's error channel:
/// success exactly when the child exited successfully, and otherwise a
/// process failure carrying the given description. Spawn and wait failures
/// are reported the same way with `success == false`.
pub fn process_outcome(success: bool, detail: String) -> (r: Result<(), CmdError>)
    ensures
        success ==> r == Ok::<(), CmdError>(()),
        !success ==> r == Err::<(), CmdError>(CmdError::ProcessFailure(detail)),
{
    if success {
        Ok(())
    } else {
        Err(CmdError::ProcessFailure(detail))
    }
}

/// Flatten a structured result to the single string-typed failure channel
/// exposed across the boundary; the success value passes through unchanged.
pub fn flatten_error<T>(r: Result<T, CmdError>) -> (out: Result<T, String>)
    ensures
        r matches Ok(v) ==> out == Ok::<T, String>(v),
        r matches Err(e) ==> out matches Err(m) && m@ == e.message_spec(),
{
    match r {
        Ok(v) => Ok(v),
        Err(e) => Err(e.message()),
    }
}

} // verus!
