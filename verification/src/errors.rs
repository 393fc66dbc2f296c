//! Error taxonomy of the command layer. Internally errors are tagged
//! variants; at the boundary to the UI layer every error is flattened to a
//! human-readable message string.

use vstd::prelude::*;

verus! {

/// The structured error taxonomy of the command layer.
#[derive(PartialEq, Eq, Debug)]
pub enum CmdError {
    /// A root or source path is absent.
    NotFound,
    /// A rename destination already exists.
    AlreadyExists,
    /// An underlying file-system operation failed; carries its message.
    IoFailure(String),
    /// A shell invocation could not be spawned, waited on, or exited
    /// non-zero; carries a description.
    ProcessFailure(String),
    /// An overlay target URL could not be parsed; carries the parser's
    /// message.
    UrlParseFailure(String),
}

impl CmdError {
    /// The message text seen across the boundary for this error.
    pub open spec fn message_spec(self) -> Seq<char> {
        match self {
            CmdError::NotFound => "Path does not exist"@,
            CmdError::AlreadyExists => "目标文件已存在"@,
            CmdError::IoFailure(m) => m@,
            CmdError::ProcessFailure(m) => m@,
            CmdError::UrlParseFailure(m) => m@,
        }
    }

    /// Flatten the error to the single string-typed channel exposed to the
    /// UI layer.
    pub fn message(&self) -> (r: String)
        ensures
            r@ == self.message_spec(),
    {
        match self {
            CmdError::NotFound => String::from_str("Path does not exist"),
            CmdError::AlreadyExists => String::from_str("目标文件已存在"),
            CmdError::IoFailure(m) => m.clone(),
            CmdError::ProcessFailure(m) => m.clone(),
            CmdError::UrlParseFailure(m) => m.clone(),
        }
    }
}

} // verus!
