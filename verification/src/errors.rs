//! The error taxonomy of the run: fatal resolution-phase failures and
//! recoverable per-branch failures share one shape, an error kind plus a
//! human-readable detail line.

use vstd::prelude::*;

verus! {

/// Every way a run, or one branch within a run, can fail.
#[derive(Clone, Copy, Debug, PartialEq, Eq, Structural)]
pub enum ErrorKind {
    /// No repository could be opened from the execution environment.
    NoRepository,
    /// A branch or remote looked up by name does not exist, or a branch
    /// record is missing an attribute it must have.
    NotFound,
    /// The selected remote could not be connected to.
    RemoteUnavailable,
    /// The remote rejected the locally configured credentials.
    AuthFailure,
    /// The remote advertised no usable symbolic HEAD target.
    ProtocolError,
    /// Two commits share no common ancestor.
    NoCommonAncestor,
    /// A branch refused deletion, e.g. because it is checked out.
    BranchProtected,
    /// The interactive input stream closed before an answer was read.
    InputClosed,
}

/// A failure: its kind, and a detail line fit to show the user.
#[derive(Debug)]
pub struct PruneError {
    pub kind: ErrorKind,
    pub detail: String,
}

impl PruneError {
    /// Builds an error of the given kind around a backend-supplied detail
    /// line.
    pub fn new(kind: ErrorKind, detail: String) -> (r: PruneError)
        ensures
            r.kind == kind,
            r.detail@ == detail@,
    {
        PruneError { kind, detail }
    }
}

/// The single line a fatal error prints on the error stream:
/// `Error: ` followed by the failure's detail.
pub fn fatal_line(detail: &str) -> (r: String)
    ensures
        r@ == "Error: "@ + detail@,
{
    let mut line = String::from_str("Error: ");
    line.append(detail);
    line
}

} // verus!
