//! Plain-value model of what the backend hands over: commit identities and
//! local branches.

use vstd::prelude::*;

verus! {

/// An opaque, comparable commit identity: the content hash of a commit,
/// held as its raw bytes. Two identities denote the same commit exactly
/// when their bytes are equal.
#[derive(Debug)]
pub struct CommitId {
    pub bytes: Vec<u8>,
}

impl View for CommitId {
    type V = Seq<u8>;

    open spec fn view(&self) -> Seq<u8> {
        self.bytes@
    }
}

impl CommitId {
    /// Whether this identity denotes the same commit as `other`.
    pub fn same_as(&self, other: &CommitId) -> (r: bool)
        ensures
            r == (self@ == other@),
    {
        if self.bytes.len() != other.bytes.len() {
            assert(self@.len() != other@.len());
            return false;
        }
        let n = self.bytes.len();
        let mut i: usize = 0;
        while i < n
            invariant
                n == self@.len(),
                n == other@.len(),
                0 <= i <= n,
                forall|j: int| 0 <= j < i ==> self@[j] == other@[j],
            decreases n - i,
        {
            if self.bytes[i] != other.bytes[i] {
                return false;
            }
            i = i + 1;
        }
        assert(self@ =~= other@);
        true
    }
}

/// A local branch as the classifier sees it: its name and the identity of
/// its tip commit.
#[derive(Debug)]
pub struct BranchTip {
    pub name: String,
    pub tip: CommitId,
}

/// A local branch exactly as the backend enumerates it: either attribute
/// may be missing (a name that is not valid text, or a reference that does
/// not resolve to a commit).
#[derive(Debug)]
pub struct RawBranch {
    pub name: Option<String>,
    pub tip: Option<CommitId>,
}

} // verus!
