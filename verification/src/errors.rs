use vstd::prelude::*;

verus! {

/// Failure surface of the command operations.
///
/// Every operation either completes or returns one of these; nothing is
/// retried or swallowed. The one tolerated failure — the old surface
/// refusing to close during an identity switch — never surfaces here.
#[derive(Clone, PartialEq, Eq, Debug)]
pub enum CmdError {
    /// The given text is not a syntactically well-formed URL.
    InvalidUrl,
    /// No active child viewport could be resolved in the window: none was
    /// ever attached, or a stale one is mid-teardown with no successor.
    ViewportNotFound,
    /// The host toolkit reported failure of a primitive operation;
    /// carries the toolkit's message for diagnostics.
    HostOperationFailed(String),
}

impl CmdError {
    /// The caller-visible message text for this failure.
    pub fn message(&self) -> (r: &str)
        ensures
            *self is InvalidUrl ==> r@ == "Invalid URL format"@,
            *self is ViewportNotFound ==> r@ == "Child webview not found"@,
            *self matches CmdError::HostOperationFailed(m) ==> r@ == m@,
    {
        match self {
            CmdError::InvalidUrl => "Invalid URL format",
            CmdError::ViewportNotFound => "Child webview not found",
            CmdError::HostOperationFailed(m) => m.as_str(),
        }
    }
}

} // verus!
