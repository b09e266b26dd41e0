//! The copy engine: validation of all sources, the multi-source fan-out
//! rule, and the plan of per-source actions.
//!
//! The engine works on facts a caller has already probed — each source's
//! kind and the destination's kind, both determined exactly once before
//! planning and never re-probed. `plan_copy` first validates every source
//! (fail-fast: nothing is copied if any source is missing or of an
//! unsupported kind), then enforces the fan-out rule, then resolves every
//! target; only when the whole batch is valid does it hand back the actions,
//! in source order, for the caller to execute.
//!
//! Validation is all-or-nothing, execution is not: when a copy fails midway
//! through a batch, the sources already copied stay copied. That absence of
//! rollback is a deliberate, accepted limitation of the design, not to be
//! papered over with transactional behaviour.

use vstd::prelude::*;
use crate::errors::CopyError;
use crate::resolver::base_name;
use crate::resolver::resolve;
use crate::resolver::resolve_spec;

verus! {

/// What a source turned out to be when it was classified.
#[derive(Clone, Copy, Debug, PartialEq, Eq, Structural)]
pub enum SourceKind {
    /// The path does not exist.
    Missing,
    /// A regular file, copied by the streaming copier.
    File,
    /// A directory, handed to the tree-cloning collaborator.
    Directory,
    /// Something else (a device node, a socket): explicitly rejected rather
    /// than silently mis-copied.
    Other,
}

/// What the destination turned out to be, determined exactly once per run.
#[derive(Clone, Copy, Debug, PartialEq, Eq, Structural)]
pub enum DestKind {
    /// The path does not exist yet: a single source creates it.
    Missing,
    /// An existing directory: sources are placed inside, keeping their base
    /// names.
    Directory,
    /// An existing non-directory: a single source overwrites it.
    NonDirectory,
}

/// One source path with its classification.
pub struct SourceSpec {
    /// The path as the caller gave it.
    pub path: String,
    /// Its kind, probed once before planning.
    pub kind: SourceKind,
}

/// The destination path with its classification.
pub struct DestSpec {
    /// The path as the caller gave it.
    pub path: String,
    /// Its kind, probed once before planning and frozen for the whole batch.
    pub kind: DestKind,
}

/// One step of the plan, to be executed by the caller in order.
#[derive(Debug, PartialEq, Eq)]
pub enum CopyAction {
    /// Stream the file at `source` to the resolved target path.
    CopyFile {
        /// The source file.
        source: String,
        /// The concrete target path the resolver computed.
        target: String,
    },
    /// Hand the directory at `source` to the tree-cloning collaborator,
    /// with the destination path verbatim.
    CloneTree {
        /// The source directory.
        source: String,
        /// The destination, as given.
        dest: String,
    },
}

/// Whether the destination exists, as the resolver takes it.
pub open spec fn dest_exists_of(kind: DestKind) -> bool {
    !(kind is Missing)
}

/// Whether the destination is an existing directory, as the resolver takes
/// it.
pub open spec fn dest_is_dir_of(kind: DestKind) -> bool {
    kind is Directory
}

/// The fault a single source's kind carries, if any.
pub open spec fn source_fault(kind: SourceKind) -> Option<CopyError> {
    match kind {
        SourceKind::Missing => Some(CopyError::SourceMissing),
        SourceKind::Other => Some(CopyError::SourceUnsupportedKind),
        SourceKind::File => None,
        SourceKind::Directory => None,
    }
}

/// The first source fault at or after position `i`, in source order.
pub open spec fn first_fault_from(sources: Seq<SourceSpec>, i: int) -> Option<CopyError>
    decreases sources.len() - i,
{
    if i < 0 || i >= sources.len() {
        None
    } else if source_fault(sources[i].kind) is Some {
        source_fault(sources[i].kind)
    } else {
        first_fault_from(sources, i + 1)
    }
}

/// Whether this source needs a base name it does not have: a file to be
/// placed inside a directory destination, with no extractable name to place
/// it under.
pub open spec fn name_missing(s: SourceSpec, dest: DestSpec) -> bool {
    s.kind is File && dest.kind is Directory && base_name(s.path@) is None
}

/// The error `plan_copy` returns, if any, with the engine's precedence:
/// every source is checked first (in order, so the earliest missing or
/// unsupported source decides), then the fan-out rule, then the resolver's
/// name requirement.
pub open spec fn plan_error(sources: Seq<SourceSpec>, dest: DestSpec) -> Option<CopyError> {
    if first_fault_from(sources, 0) is Some {
        first_fault_from(sources, 0)
    } else if sources.len() > 1 && !(dest.kind is Directory) {
        Some(CopyError::MultiSourceRequiresDirectory)
    } else if exists|j: int| 0 <= j < sources.len() && name_missing(sources[j], dest) {
        Some(CopyError::NoFileName)
    } else {
        None
    }
}

/// Whether `a` is the right action for source `s` against `dest`: a file is
/// streamed to the target the resolver computes for it, a directory is
/// handed to the tree cloner with the destination verbatim.
pub open spec fn action_matches(a: CopyAction, s: SourceSpec, dest: DestSpec) -> bool {
    match a {
        CopyAction::CopyFile { source, target } => {
            &&& s.kind is File
            &&& source@ == s.path@
            &&& resolve_spec(
                s.path@,
                dest.path@,
                dest_exists_of(dest.kind),
                dest_is_dir_of(dest.kind),
            ) == Ok::<Seq<char>, CopyError>(target@)
        },
        CopyAction::CloneTree { source, dest: d } => {
            &&& s.kind is Directory
            &&& source@ == s.path@
            &&& d@ == dest.path@
        },
    }
}

/// The dispatch for a directory source when the caller asked for visual
/// progress. Tree cloning is quiet-only in this design: the collaborator's
/// recursion reports no progress, so the request is the same silent clone
/// action the quiet path uses, not a failure and not a different protocol.
pub fn progress_copy_dir(source: &str, dest: &str) -> (a: CopyAction)
    ensures
        a matches CopyAction::CloneTree { source: s, dest: d } && s@ == source@ && d@ == dest@,
{
    CopyAction::CloneTree { source: source.to_owned(), dest: dest.to_owned() }
}

/// Validates the whole batch and plans every copy, before any byte moves.
///
/// The result is `Ok` exactly when the batch is valid — every source
/// present and of a supported kind, the fan-out rule met, every file source
/// with a resolvable target — and then holds one action per source, in
/// source order. Otherwise it is the first error in the engine's
/// precedence, as `plan_error` fixes it, and nothing is to be executed: a
/// failed validation aborts the run with no bytes written.
pub fn plan_copy(sources: &Vec<SourceSpec>, dest: &DestSpec) -> (r: Result<
    Vec<CopyAction>,
    CopyError,
>)
    ensures
        r is Ok <==> plan_error(sources@, *dest) is None,
        r matches Err(e) ==> plan_error(sources@, *dest) == Some(e),
        r matches Ok(actions) ==> {
            &&& actions@.len() == sources@.len()
            &&& forall|i: int|
                0 <= i < sources@.len() ==> action_matches(
                    #[trigger] actions@[i],
                    sources@[i],
                    *dest,
                )
        },
{
    let n = sources.len();
    let mut i: usize = 0;
    while i < n
        invariant
            i <= n,
            n == sources@.len(),
            first_fault_from(sources@, 0) == first_fault_from(sources@, i as int),
        decreases n - i,
    {
        match sources[i].kind {
            SourceKind::Missing => {
                return Err(CopyError::SourceMissing);
            },
            SourceKind::Other => {
                return Err(CopyError::SourceUnsupportedKind);
            },
            SourceKind::File => {},
            SourceKind::Directory => {},
        }
        i = i + 1;
    }
    assert(first_fault_from(sources@, 0) is None);
    let dest_is_dir = match dest.kind {
        DestKind::Directory => true,
        DestKind::Missing => false,
        DestKind::NonDirectory => false,
    };
    let dest_exists = match dest.kind {
        DestKind::Missing => false,
        DestKind::Directory => true,
        DestKind::NonDirectory => true,
    };
    if n > 1 && !dest_is_dir {
        return Err(CopyError::MultiSourceRequiresDirectory);
    }
    let mut actions: Vec<CopyAction> = Vec::new();
    let mut i: usize = 0;
    while i < n
        invariant
            i <= n,
            n == sources@.len(),
            first_fault_from(sources@, 0) is None,
            n > 1 ==> dest.kind is Directory,
            dest_exists == dest_exists_of(dest.kind),
            dest_is_dir == dest_is_dir_of(dest.kind),
            actions@.len() == i,
            forall|j: int|
                0 <= j < i ==> action_matches(#[trigger] actions@[j], sources@[j], *dest),
            forall|j: int| 0 <= j < i ==> !name_missing(sources@[j], *dest),
        decreases n - i,
    {
        match sources[i].kind {
            SourceKind::File => {
                match resolve(
                    sources[i].path.as_str(),
                    dest.path.as_str(),
                    dest_exists,
                    dest_is_dir,
                ) {
                    Ok(target) => {
                        let source = sources[i].path.clone();
                        actions.push(CopyAction::CopyFile { source, target });
                    },
                    Err(e) => {
                        assert(name_missing(sources@[i as int], *dest));
                        return Err(e);
                    },
                }
            },
            SourceKind::Directory => {
                let a = progress_copy_dir(sources[i].path.as_str(), dest.path.as_str());
                actions.push(a);
            },
            SourceKind::Missing => {
                proof {
                    lemma_no_first_fault(sources@, 0, i as int);
                }
                assert(false);
            },
            SourceKind::Other => {
                proof {
                    lemma_no_first_fault(sources@, 0, i as int);
                }
                assert(false);
            },
        }
        i = i + 1;
    }
    assert(forall|j: int| 0 <= j < n ==> !name_missing(sources@[j], *dest));
    Ok(actions)
}

/// The fan-out rule, as a law over every batch: with more than one valid
/// source and a destination that is not an existing directory, the engine
/// refuses the whole run with `MultiSourceRequiresDirectory` — no other
/// outcome, so no byte of any source is written.
pub proof fn lemma_multi_source_requires_directory(sources: Seq<SourceSpec>, dest: DestSpec)
    requires
        sources.len() > 1,
        !(dest.kind is Directory),
        forall|i: int| 0 <= i < sources.len() ==> source_fault(#[trigger] sources[i].kind) is None,
    ensures
        plan_error(sources, dest) == Some(CopyError::MultiSourceRequiresDirectory),
{
    lemma_no_fault(sources, 0);
}

/// A batch whose scan found no fault has none at any position.
proof fn lemma_no_first_fault(sources: Seq<SourceSpec>, i: int, k: int)
    requires
        0 <= i <= k < sources.len(),
        first_fault_from(sources, i) is None,
    ensures
        source_fault(sources[k].kind) is None,
    decreases k - i,
{
    if i < k {
        lemma_no_first_fault(sources, i + 1, k);
    }
}

/// A batch with no faulty source has no first fault, from any position on.
proof fn lemma_no_fault(sources: Seq<SourceSpec>, i: int)
    requires
        forall|k: int| 0 <= k < sources.len() ==> source_fault(#[trigger] sources[k].kind) is None,
        i >= 0,
    ensures
        first_fault_from(sources, i) is None,
    decreases sources.len() - i,
{
    if i < sources.len() {
        lemma_no_fault(sources, i + 1);
    }
}

} // verus!
