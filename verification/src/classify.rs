//! Merge-reachability classification: a branch is merged exactly when the
//! merge-base the backend reports for it and main's tip is the branch's
//! own tip — its whole history is already contained in main's.

use vstd::prelude::*;

use crate::errors::{ErrorKind, PruneError};
use crate::model::{BranchTip, CommitId, RawBranch};

verus! {

/// The view of a reported merge-base: the identity's bytes, or nothing
/// when the backend found no common ancestor or failed for this branch.
pub open spec fn base_view(base: Option<CommitId>) -> Option<Seq<u8>> {
    match base {
        Some(id) => Some(id@),
        None => None,
    }
}

/// Whether a branch is classified merged: it is not main itself, and the
/// merge-base reported for it equals its own tip (fast-forward-mergeable,
/// including the degenerate case of a tip equal to main's).
pub open spec fn merged_decision(
    main_name: Seq<char>,
    name: Seq<char>,
    tip: Seq<u8>,
    base: Option<Seq<u8>>,
) -> bool {
    name != main_name && base == Some(tip)
}

/// Builds the ordered list of merged branch names, one offered branch at
/// a time, in the backend's enumeration order.
pub struct Classifier {
    main_name: String,
    main_tip: CommitId,
    merged: Vec<String>,
}

impl Classifier {
    /// The name of the main branch this classifier measures against.
    pub closed spec fn spec_main_name(&self) -> Seq<char> {
        self.main_name@
    }

    /// The tip of the main branch this classifier measures against.
    pub closed spec fn spec_main_tip(&self) -> Seq<u8> {
        self.main_tip@
    }

    /// The merged branch names gathered so far, in offer order.
    pub closed spec fn spec_merged(&self) -> Seq<String> {
        self.merged@
    }

    /// The classifier's invariant: main never stands in the merged list.
    pub closed spec fn wf(&self) -> bool {
        forall|i: int| 0 <= i < self.merged@.len() ==> self.merged@[i]@ != self.main_name@
    }

    /// A fresh classifier for the given main branch, with nothing
    /// classified yet.
    pub fn new(main: BranchTip) -> (r: Classifier)
        ensures
            r.spec_main_name() == main.name@,
            r.spec_main_tip() == main.tip@,
            r.spec_merged() == Seq::<String>::empty(),
            r.wf(),
    {
        Classifier { main_name: main.name, main_tip: main.tip, merged: Vec::new() }
    }

    /// Whether this name is the main branch's own, which the scan skips
    /// without consulting the backend.
    pub fn is_main(&self, name: &String) -> (r: bool)
        ensures
            r == (name@ == self.spec_main_name()),
    {
        *name == self.main_name
    }

    /// The main branch's tip, for the backend's merge-base queries.
    pub fn main_tip(&self) -> (r: &CommitId)
        ensures
            r@ == self.spec_main_tip(),
    {
        &self.main_tip
    }

    /// Offers one enumerated branch together with the merge-base the
    /// backend reported for it against main's tip (`None` when the
    /// backend found none). The branch's name is appended to the merged
    /// list exactly when [`merged_decision`] holds of it.
    pub fn offer(&mut self, name: String, tip: &CommitId, base: Option<CommitId>)
        requires
            old(self).wf(),
        ensures
            final(self).spec_main_name() == old(self).spec_main_name(),
            final(self).spec_main_tip() == old(self).spec_main_tip(),
            (merged_decision(old(self).spec_main_name(), name@, tip@, base_view(base))
                ==> final(self).spec_merged() == old(self).spec_merged().push(name)),
            (!merged_decision(old(self).spec_main_name(), name@, tip@, base_view(base))
                ==> final(self).spec_merged() == old(self).spec_merged()),
            final(self).wf(),
    {
        if name == self.main_name {
            return;
        }
        match base {
            Some(base_id) => {
                if base_id.same_as(tip) {
                    assert(base_view(Some(base_id)) == Some(tip@));
                    self.merged.push(name);
                }
            },
            None => {},
        }
    }

    /// Hands out the gathered merged list: the names classified merged,
    /// in offer order, never including main itself.
    pub fn into_merged(self) -> (r: Vec<String>)
        requires
            self.wf(),
        ensures
            r@ == self.spec_merged(),
            forall|i: int| 0 <= i < r@.len() ==> r@[i]@ != self.spec_main_name(),
    {
        self.merged
    }
}

/// Checks one enumerated branch record before classification: a record
/// without a readable name, or without a tip commit, fails and is
/// excluded from the scan without aborting it.
pub fn vet_branch(raw: RawBranch) -> (r: Result<BranchTip, PruneError>)
    ensures
        (raw.name is None ==> (r matches Err(e) && e.kind == ErrorKind::NotFound && e.detail@
            == "Invalid branch name"@)),
        ((raw.name is Some && raw.tip is None) ==> (r matches Err(e) && e.kind
            == ErrorKind::NotFound && e.detail@ == "Branch has no tip commit"@)),
        ((raw.name is Some && raw.tip is Some) ==> (r matches Ok(b) && b.name == raw.name->0
            && b.tip == raw.tip->0)),
{
    match raw.name {
        None => Err(
            PruneError { kind: ErrorKind::NotFound, detail: String::from_str("Invalid branch name") },
        ),
        Some(name) => match raw.tip {
            None => Err(
                PruneError {
                    kind: ErrorKind::NotFound,
                    detail: String::from_str("Branch has no tip commit"),
                },
            ),
            Some(tip) => Ok(BranchTip { name, tip }),
        },
    }
}

/// A branch whose reported merge-base is its own tip is classified
/// merged — in particular a branch whose tip equals main's tip, for
/// which the backend reports that same commit as the merge-base.
pub proof fn lemma_base_equals_tip_is_merged(
    main_name: Seq<char>,
    name: Seq<char>,
    tip: Seq<u8>,
)
    requires
        name != main_name,
    ensures
        merged_decision(main_name, name, tip, Some(tip)),
{
}

/// A branch whose reported merge-base is anything but its own tip — a
/// divergent branch, or one with no common ancestor at all — is not
/// classified merged.
pub proof fn lemma_divergent_is_not_merged(
    main_name: Seq<char>,
    name: Seq<char>,
    tip: Seq<u8>,
    base: Option<Seq<u8>>,
)
    requires
        base != Some(tip),
    ensures
        !merged_decision(main_name, name, tip, base),
{
}

/// The main branch itself never appears in the merged list, whatever was
/// offered — even its own record with a matching merge-base.
pub proof fn lemma_main_never_merged(c: &Classifier)
    requires
        c.wf(),
    ensures
        forall|i: int| 0 <= i < c.spec_merged().len() ==> c.spec_merged()[i]@
            != c.spec_main_name(),
{
}

} // verus!
