//! Main-branch resolution: which remote to consult, and how the remote's
//! advertised symbolic HEAD target turns into a local branch name.

use vstd::prelude::*;

use crate::errors::{ErrorKind, PruneError};

verus! {

/// How the main branch's name is to be found: from a local convention, or
/// by asking a remote for its advertised HEAD.
pub enum MainLookup {
    /// No remote applies; the conventional local default name is used.
    LocalDefault,
    /// The remote with this name is to be queried for its HEAD.
    RemoteHead { remote: String },
}

/// The remote the resolver consults, if any: an explicit choice wins;
/// otherwise a sole configured remote is taken, none at all skips the
/// remote lookup, and among several the conventional `origin` is taken.
pub open spec fn chosen_remote(explicit: Option<Seq<char>>, remotes: Seq<String>) -> Option<
    Seq<char>,
> {
    match explicit {
        Some(name) => Some(name),
        None => if remotes.len() == 0 {
            None
        } else if remotes.len() == 1 {
            Some(remotes[0]@)
        } else {
            Some("origin"@)
        },
    }
}

/// The name the resolver falls back to when no remote is consulted.
pub open spec fn default_main() -> Seq<char> {
    "master"@
}

/// The view of an optional explicit remote name.
pub open spec fn explicit_view(explicit: Option<&str>) -> Option<Seq<char>> {
    match explicit {
        Some(name) => Some(name@),
        None => None,
    }
}

/// Decides where the main branch's name will come from, per
/// [`chosen_remote`]: `LocalDefault` exactly when no remote is configured
/// and none was named explicitly.
pub fn plan_main_lookup(explicit: Option<&str>, remotes: &Vec<String>) -> (r: MainLookup)
    ensures
        (r is LocalDefault) <==> chosen_remote(explicit_view(explicit), remotes@) is None,
        (r matches MainLookup::RemoteHead { remote } ==> chosen_remote(
            explicit_view(explicit),
            remotes@,
        ) == Some(remote@)),
{
    match explicit {
        Some(name) => MainLookup::RemoteHead { remote: String::from_str(name) },
        None => {
            if remotes.len() == 0 {
                MainLookup::LocalDefault
            } else if remotes.len() == 1 {
                MainLookup::RemoteHead { remote: remotes[0].clone() }
            } else {
                MainLookup::RemoteHead { remote: String::from_str("origin") }
            }
        },
    }
}

/// The conventional local main-branch name, used when no remote applies.
pub fn default_main_name() -> (r: String)
    ensures
        r@ == default_main(),
{
    String::from_str("master")
}

/// The first advertised reference that carries a symbolic target — the
/// remote's HEAD indicator — in advertisement order.
pub open spec fn first_symref(refs: Seq<Option<String>>) -> Option<String>
    decreases refs.len(),
{
    if refs.len() == 0 {
        None
    } else if refs[0] is Some {
        refs[0]
    } else {
        first_symref(refs.drop_first())
    }
}

/// The well-known prefix under which a remote's HEAD names a branch.
pub open spec fn heads_prefix() -> Seq<char> {
    "refs/heads/"@
}

/// The branch name a symbolic HEAD target denotes: what follows the
/// `refs/heads/` prefix, or nothing when the prefix is absent.
pub open spec fn stripped_head_name(target: Seq<char>) -> Option<Seq<char>> {
    if heads_prefix().len() <= target.len() && target.subrange(
        0,
        heads_prefix().len() as int,
    ) == heads_prefix() {
        Some(target.skip(heads_prefix().len() as int))
    } else {
        None
    }
}

/// Strips the well-known `refs/heads/` prefix from a symbolic HEAD
/// target, failing (rather than blindly skipping characters) when the
/// target does not carry it.
pub fn strip_heads_prefix(target: &str) -> (r: Option<String>)
    ensures
        (match r {
            Some(name) => stripped_head_name(target@) == Some(name@),
            None => stripped_head_name(target@) is None,
        }),
{
    let prefix = "refs/heads/";
    let prefix_len = prefix.unicode_len();
    let target_len = target.unicode_len();
    if target_len < prefix_len {
        return None;
    }
    let head = target.substring_char(0, prefix_len);
    if String::from_str(head) == String::from_str(prefix) {
        let tail = target.substring_char(prefix_len, target_len);
        assert(target@.skip(heads_prefix().len() as int) =~= tail@);
        Some(String::from_str(tail))
    } else {
        None
    }
}

/// The name the remote's advertisement resolves to: the branch named by
/// the first symbolic target, a protocol failure when no reference
/// carries one or when the carried target is not under `refs/heads/`.
pub open spec fn advertised_main_name(refs: Seq<Option<String>>) -> Result<Seq<char>, ErrorKind> {
    match first_symref(refs) {
        None => Err(ErrorKind::ProtocolError),
        Some(target) => match stripped_head_name(target@) {
            None => Err(ErrorKind::ProtocolError),
            Some(name) => Ok(name),
        },
    }
}

/// Resolves the main branch's name from a remote's advertised reference
/// list, given as each reference's optional symbolic target in
/// advertisement order.
pub fn main_name_from_advertised(refs: &Vec<Option<String>>) -> (r: Result<String, PruneError>)
    ensures
        (r matches Ok(name) ==> advertised_main_name(refs@) == Ok::<Seq<char>, ErrorKind>(name@)),
        (r matches Err(e) ==> advertised_main_name(refs@) == Err::<Seq<char>, ErrorKind>(e.kind)),
        (first_symref(refs@) is None ==> (r matches Err(e) && e.detail@
            == "Could not find a remote head"@)),
        ((first_symref(refs@) matches Some(target) && stripped_head_name(target@) is None) ==> (
        r matches Err(e) && e.detail@ == "Remote head is not a branch"@)),
{
    let n = refs.len();
    let mut i: usize = 0;
    assert(refs@.skip(0) =~= refs@);
    while i < n
        invariant
            n == refs@.len(),
            0 <= i <= n,
            first_symref(refs@) == first_symref(refs@.skip(i as int)),
            forall|j: int| 0 <= j < i ==> refs@[j] is None,
        decreases n - i,
    {
        match &refs[i] {
            Some(target) => {
                assert(refs@.skip(i as int)[0] == refs@[i as int]);
                assert(first_symref(refs@) == Some(refs@[i as int]->0));
                match strip_heads_prefix(target.as_str()) {
                    Some(name) => {
                        return Ok(name);
                    },
                    None => {
                        return Err(
                            PruneError {
                                kind: ErrorKind::ProtocolError,
                                detail: String::from_str("Remote head is not a branch"),
                            },
                        );
                    },
                }
            },
            None => {
                assert(refs@.skip(i as int)[0] == refs@[i as int]);
                assert(refs@.skip(i as int).drop_first() =~= refs@.skip(i as int + 1));
                i = i + 1;
            },
        }
    }
    assert(refs@.skip(i as int).len() == 0);
    Err(
        PruneError {
            kind: ErrorKind::ProtocolError,
            detail: String::from_str("Could not find a remote head"),
        },
    )
}

/// The name the main branch resolves to, given the lookup decision and —
/// when a remote was to be queried — what that remote advertised: the
/// local default name when no remote applies, else whatever the
/// advertisement resolves to.
pub fn resolved_main_name(lookup: &MainLookup, advertised: Option<&Vec<Option<String>>>) -> (r:
    Result<String, PruneError>)
    requires
        (lookup is RemoteHead) <==> (advertised is Some),
    ensures
        (lookup is LocalDefault ==> (r matches Ok(name) && name@ == default_main())),
        (advertised matches Some(refs) ==> (match r {
            Ok(name) => advertised_main_name(refs@) == Ok::<Seq<char>, ErrorKind>(name@),
            Err(e) => advertised_main_name(refs@) == Err::<Seq<char>, ErrorKind>(e.kind),
        })),
{
    match advertised {
        None => Ok(default_main_name()),
        Some(refs) => main_name_from_advertised(refs),
    }
}

/// With no remote configured and none named explicitly, the resolver
/// consults no remote and the main branch is the local branch literally
/// named `master`.
pub proof fn lemma_no_remotes_defaults_to_master(remotes: Seq<String>)
    requires
        remotes.len() == 0,
    ensures
        chosen_remote(None, remotes) is None,
        default_main() == "master"@,
{
}

/// With exactly one remote configured, the resolver consults that remote
/// rather than falling back to the local default.
pub proof fn lemma_single_remote_is_consulted(remotes: Seq<String>)
    requires
        remotes.len() == 1,
    ensures
        chosen_remote(None, remotes) == Some(remotes[0]@),
{
}

/// With two or more remotes configured and no explicit selection, the
/// resolver targets the remote conventionally named `origin`.
pub proof fn lemma_many_remotes_target_origin(remotes: Seq<String>)
    requires
        remotes.len() >= 2,
    ensures
        chosen_remote(None, remotes) == Some("origin"@),
{
}

} // verus!
