//! The confirmation-gated pruner: what the user is asked, how the answer
//! is read, and which branches may then be deleted.

use vstd::prelude::*;

use crate::errors::{ErrorKind, PruneError};

verus! {

/// Whether a confirmation prompt is owed: only a non-empty merged list
/// asks anything of the user.
pub fn should_prompt(merged: &Vec<String>) -> (r: bool)
    ensures
        r == (merged@.len() > 0),
{
    merged.len() > 0
}

/// The count-sensitive message that heads the findings: nothing to do,
/// singular wording for exactly one candidate, plural wording otherwise.
pub fn prompt_message(count: usize) -> (r: String)
    ensures
        count == 0 ==> r@ == "No branch to delete"@,
        count == 1 ==> r@ == "Do you want to delete this branch?"@,
        count >= 2 ==> r@ == "Do you want to delete the following branches?"@,
{
    if count == 0 {
        String::from_str("No branch to delete")
    } else if count == 1 {
        String::from_str("Do you want to delete this branch?")
    } else {
        String::from_str("Do you want to delete the following branches?")
    }
}

/// One candidate branch name as it is listed under the prompt: indented
/// by two spaces on a line of its own.
pub fn listing_line(name: &str) -> (r: String)
    ensures
        r@ == "  "@ + name@,
{
    let mut line = String::from_str("  ");
    line.append(name);
    line
}

/// Whether an answer confirms deletion: exactly `y` or `Y`, and nothing
/// else.
pub open spec fn answer_confirms(answer: Seq<char>) -> bool {
    answer == "y"@ || answer == "Y"@
}

/// Decides whether one line of user input confirms deletion.
pub fn accepts_deletion(answer: &str) -> (r: bool)
    ensures
        r == answer_confirms(answer@),
{
    let a = String::from_str(answer);
    a == String::from_str("y") || a == String::from_str("Y")
}

/// The branches the run may delete, given the merged list and the answer
/// read from the interactive stream (`None` when the stream closed
/// before a line was produced): everything on confirmation, nothing on
/// any other answer, a failure when no answer could be read at all.
pub open spec fn planned_deletions(merged: Seq<String>, answer: Option<String>) -> Result<
    Seq<String>,
    ErrorKind,
> {
    match answer {
        None => Err(ErrorKind::InputClosed),
        Some(line) => if answer_confirms(line@) {
            Ok(merged)
        } else {
            Ok(Seq::<String>::empty())
        },
    }
}

/// Builds the deletion plan per [`planned_deletions`].
pub fn deletion_plan(merged: &Vec<String>, answer: &Option<String>) -> (r: Result<
    Vec<String>,
    PruneError,
>)
    ensures
        (r matches Ok(plan) ==> planned_deletions(merged@, *answer) == Ok::<
            Seq<String>,
            ErrorKind,
        >(plan@)),
        (r matches Err(e) ==> planned_deletions(merged@, *answer) == Err::<
            Seq<String>,
            ErrorKind,
        >(e.kind) && e.detail@ == "No input was read"@),
{
    match answer {
        None => Err(
            PruneError { kind: ErrorKind::InputClosed, detail: String::from_str("No input was read") },
        ),
        Some(line) => {
            if accepts_deletion(line.as_str()) {
                let n = merged.len();
                let mut plan: Vec<String> = Vec::new();
                let mut i: usize = 0;
                while i < n
                    invariant
                        n == merged@.len(),
                        0 <= i <= n,
                        plan@.len() == i,
                        forall|j: int| 0 <= j < i ==> plan@[j] == merged@[j],
                    decreases n - i,
                {
                    plan.push(merged[i].clone());
                    i = i + 1;
                }
                assert(plan@ =~= merged@);
                Ok(plan)
            } else {
                Ok(Vec::new())
            }
        },
    }
}

/// The line reported when one branch refuses deletion: the failure is
/// the branch's own and does not halt the remaining deletions.
pub fn delete_failure_line(name: &str, detail: &str) -> (r: String)
    ensures
        r@ == "Could not delete branch "@ + name@ + ": "@ + detail@,
{
    let mut line = String::from_str("Could not delete branch ");
    line.append(name);
    line.append(": ");
    line.append(detail);
    line
}

/// Declining deletes nothing: on any answer but a confirming one, the
/// deletion plan is empty, whatever was classified merged.
pub proof fn lemma_decline_deletes_nothing(merged: Seq<String>, line: String)
    requires
        !answer_confirms(line@),
    ensures
        planned_deletions(merged, Some(line)) == Ok::<Seq<String>, ErrorKind>(
            Seq::<String>::empty(),
        ),
{
}

/// Confirming plans every merged branch for deletion, each independently
/// of the others: every name keeps its place in the plan, so one
/// branch's later failure cannot reach the rest.
pub proof fn lemma_confirm_plans_all(merged: Seq<String>, line: String)
    requires
        answer_confirms(line@),
    ensures
        planned_deletions(merged, Some(line)) == Ok::<Seq<String>, ErrorKind>(merged),
{
}

} // verus!
