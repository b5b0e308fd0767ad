//! The storage-engine boundary: argument lists for every engine
//! invocation, and the interpretation of each invocation's outcome.
//!
//! The library never runs a subprocess itself.  For each operation it
//! builds the exact argument list handed to the engine's command — after
//! validating every dataset and snapshot name, so a bad name is rejected
//! before any external call — and it interprets the outcome the caller
//! saw: which failures count as success (idempotent destroy and create),
//! and what the output parses to.  Failure classification is structured:
//! the caller classifies the engine's error text with
//! [`classify_engine_error`] and interpretation works on the resulting
//! kind, never on message text of its own.

use vstd::prelude::*;
use crate::names::snapshot_full_chars;
use crate::names::snapshot_full_name;
use crate::names::valid_dataset_name;
use crate::names::valid_snapshot_name;
use crate::names::validate_dataset_name;
use crate::names::validate_snapshot_name;
use crate::parse::spec_lines;
use crate::parse::spec_snapshot_suffix;
use crate::parse::spec_trim_newlines;
use crate::parse::split_lines;
use crate::parse::snapshot_name_of_line;
use crate::parse::trim_newlines;
use crate::parse::wf_snapshot_line;

verus! {

/// The structured classification of a failed engine invocation.
#[derive(Clone, Copy, PartialEq, Eq, Structural, Debug)]
pub enum EngineErrorKind {
    /// The target does not exist.
    NotFound,
    /// The target already exists.
    AlreadyExists,
    /// Any other failure.
    Other,
}

/// What one engine invocation came to: success, or a classified failure.
#[derive(Clone, Copy, PartialEq, Eq, Structural, Debug)]
pub enum EngineOutcome {
    Success,
    Failure(EngineErrorKind),
}

/// An error of the harness's storage layer.
#[derive(Clone, Copy, PartialEq, Eq, Structural, Debug)]
pub enum ZfsError {
    /// A dataset name held the snapshot delimiter `@`.
    InvalidDatasetName,
    /// A snapshot name held `@` or `/`.
    InvalidSnapshotName,
    /// The engine failed and the failure is not tolerated here.
    Engine(EngineErrorKind),
    /// The engine's output was not in the shape its interface promises.
    UnexpectedOutput,
}

/// `needle` occurs contiguously somewhere in `hay`.
pub open spec fn has_substring(hay: Seq<char>, needle: Seq<char>) -> bool {
    exists|i: int|
        0 <= i <= hay.len() - needle.len() && #[trigger] hay.subrange(i, i + needle.len())
            == needle
}

/// Whether `needle` matches `hay` at position `i`.
fn matches_at(hay: &str, needle: &str, i: usize, hay_len: usize, needle_len: usize) -> (r: bool)
    requires
        hay_len == hay@.len(),
        needle_len == needle@.len(),
        i + needle_len <= hay_len,
    ensures
        r == (hay@.subrange(i as int, i + needle@.len()) == needle@),
{
    let mut j: usize = 0;
    while j < needle_len
        invariant
            hay_len == hay@.len(),
            needle_len == needle@.len(),
            i + needle_len <= hay_len,
            j <= needle_len,
            forall|t: int| 0 <= t < j ==> hay@[i + t] == needle@[t],
        decreases needle_len - j,
    {
        if hay.get_char(i + j) != needle.get_char(j) {
            proof {
                assert(hay@.subrange(i as int, i + needle@.len())[j as int] == hay@[i + j]);
            }
            return false;
        }
        j = j + 1;
    }
    proof {
        assert(hay@.subrange(i as int, i + needle@.len()) =~= needle@);
    }
    true
}

/// Whether `needle` occurs anywhere in `hay`.
pub fn contains_str(hay: &str, needle: &str) -> (r: bool)
    ensures
        r == has_substring(hay@, needle@),
{
    let hay_len = hay.unicode_len();
    let needle_len = needle.unicode_len();
    if needle_len > hay_len {
        return false;
    }
    if needle_len == 0 {
        proof {
            assert(hay@.subrange(0, 0 + needle@.len() as int) =~= needle@);
            assert(has_substring(hay@, needle@));
        }
        return true;
    }
    let mut i: usize = 0;
    while i <= hay_len - needle_len
        invariant
            hay_len == hay@.len(),
            needle_len == needle@.len(),
            1 <= needle_len <= hay_len,
            i <= hay_len - needle_len + 1,
            forall|k: int|
                0 <= k < i ==> #[trigger] hay@.subrange(k, k + needle@.len()) != needle@,
        decreases hay_len - needle_len - i + 1,
    {
        if matches_at(hay, needle, i, hay_len, needle_len) {
            return true;
        }
        i = i + 1;
    }
    false
}

/// Classify the engine's error text into a structured kind, by the two
/// indications the engine's messages carry: a missing target and an
/// already-existing target.
pub fn classify_engine_error(stderr: &str) -> (k: EngineErrorKind)
    ensures
        (k == EngineErrorKind::NotFound) == has_substring(stderr@, "dataset does not exist"@),
        (k == EngineErrorKind::AlreadyExists) == (!has_substring(stderr@, "dataset does not exist"@)
            && has_substring(stderr@, "dataset already exists"@)),
{
    if contains_str(stderr, "dataset does not exist") {
        EngineErrorKind::NotFound
    } else if contains_str(stderr, "dataset already exists") {
        EngineErrorKind::AlreadyExists
    } else {
        EngineErrorKind::Other
    }
}

/// The argument list of a snapshot destruction: `destroy dataset@snap`.
pub open spec fn destroy_snapshot_argv(dataset: Seq<char>, snap: Seq<char>) -> Seq<Seq<char>> {
    seq!["destroy"@, snapshot_full_chars(dataset, snap)]
}

/// Build the engine invocation that destroys one snapshot.  Rejects bad
/// names before anything reaches the engine; the invocation's failure is
/// interpreted by [`destroy_outcome`], which tolerates a missing target.
pub fn zfs_destroy_snapshot(dataset: &str, snapname: &str) -> (r: Result<Vec<String>, ZfsError>)
    ensures
        r is Ok <==> valid_dataset_name(dataset@) && valid_snapshot_name(snapname@),
        !valid_dataset_name(dataset@) ==> r == Err::<Vec<String>, ZfsError>(
            ZfsError::InvalidDatasetName,
        ),
        valid_dataset_name(dataset@) && !valid_snapshot_name(snapname@) ==> r == Err::<
            Vec<String>,
            ZfsError,
        >(ZfsError::InvalidSnapshotName),
        r matches Ok(argv) ==> argv.deep_view() == destroy_snapshot_argv(dataset@, snapname@),
{
    if !validate_dataset_name(dataset) {
        return Err(ZfsError::InvalidDatasetName);
    }
    if !validate_snapshot_name(snapname) {
        return Err(ZfsError::InvalidSnapshotName);
    }
    let mut argv: Vec<String> = Vec::new();
    argv.push(String::from_str("destroy"));
    argv.push(snapshot_full_name(dataset, snapname));
    proof {
        assert(argv.deep_view() =~~= destroy_snapshot_argv(dataset@, snapname@));
    }
    Ok(argv)
}

/// The argument list of a dataset destruction: `destroy [-r] dataset`.
pub open spec fn destroy_argv(dataset: Seq<char>, recursive: bool) -> Seq<Seq<char>> {
    if recursive {
        seq!["destroy"@, "-r"@, dataset]
    } else {
        seq!["destroy"@, dataset]
    }
}

/// Build the engine invocation that destroys a dataset, recursively on
/// request.  The invocation's failure is interpreted by
/// [`destroy_outcome`], which tolerates a missing target.
pub fn zfs_destroy(dataset: &str, recursive: bool) -> (r: Result<Vec<String>, ZfsError>)
    ensures
        r is Ok <==> valid_dataset_name(dataset@),
        r is Err ==> r == Err::<Vec<String>, ZfsError>(ZfsError::InvalidDatasetName),
        r matches Ok(argv) ==> argv.deep_view() == destroy_argv(dataset@, recursive),
{
    if !validate_dataset_name(dataset) {
        return Err(ZfsError::InvalidDatasetName);
    }
    let mut argv: Vec<String> = Vec::new();
    argv.push(String::from_str("destroy"));
    if recursive {
        argv.push(String::from_str("-r"));
    }
    argv.push(String::from_str(dataset));
    proof {
        assert(argv.deep_view() =~~= destroy_argv(dataset@, recursive));
    }
    Ok(argv)
}

/// The argument list of a dataset creation: `create dataset`.
pub open spec fn create_argv(dataset: Seq<char>) -> Seq<Seq<char>> {
    seq!["create"@, dataset]
}

/// Build the engine invocation that creates a dataset.  Whether an
/// already-existing dataset is tolerated is decided when the outcome is
/// interpreted by [`create_outcome`].
pub fn zfs_create(dataset: &str) -> (r: Result<Vec<String>, ZfsError>)
    ensures
        r is Ok <==> valid_dataset_name(dataset@),
        r is Err ==> r == Err::<Vec<String>, ZfsError>(ZfsError::InvalidDatasetName),
        r matches Ok(argv) ==> argv.deep_view() == create_argv(dataset@),
{
    if !validate_dataset_name(dataset) {
        return Err(ZfsError::InvalidDatasetName);
    }
    let mut argv: Vec<String> = Vec::new();
    argv.push(String::from_str("create"));
    argv.push(String::from_str(dataset));
    proof {
        assert(argv.deep_view() =~~= create_argv(dataset@));
    }
    Ok(argv)
}

/// The argument list of a snapshot creation:
/// `snapshot [-r] dataset@name`.
pub open spec fn snapshot_argv(dataset: Seq<char>, name: Seq<char>, recursive: bool) -> Seq<
    Seq<char>,
> {
    if recursive {
        seq!["snapshot"@, "-r"@, snapshot_full_chars(dataset, name)]
    } else {
        seq!["snapshot"@, snapshot_full_chars(dataset, name)]
    }
}

/// Build the engine invocation that takes a snapshot.
pub fn zfs_snapshot(dataset: &str, name: &str, recursive: bool) -> (r: Result<
    Vec<String>,
    ZfsError,
>)
    ensures
        r is Ok <==> valid_dataset_name(dataset@) && valid_snapshot_name(name@),
        !valid_dataset_name(dataset@) ==> r == Err::<Vec<String>, ZfsError>(
            ZfsError::InvalidDatasetName,
        ),
        valid_dataset_name(dataset@) && !valid_snapshot_name(name@) ==> r == Err::<
            Vec<String>,
            ZfsError,
        >(ZfsError::InvalidSnapshotName),
        r matches Ok(argv) ==> argv.deep_view() == snapshot_argv(dataset@, name@, recursive),
{
    if !validate_dataset_name(dataset) {
        return Err(ZfsError::InvalidDatasetName);
    }
    if !validate_snapshot_name(name) {
        return Err(ZfsError::InvalidSnapshotName);
    }
    let mut argv: Vec<String> = Vec::new();
    argv.push(String::from_str("snapshot"));
    if recursive {
        argv.push(String::from_str("-r"));
    }
    argv.push(snapshot_full_name(dataset, name));
    proof {
        assert(argv.deep_view() =~~= snapshot_argv(dataset@, name@, recursive));
    }
    Ok(argv)
}

/// The argument list of a clone: `clone dataset@snap target`.
pub open spec fn clone_argv(dataset: Seq<char>, snap: Seq<char>, target: Seq<char>) -> Seq<
    Seq<char>,
> {
    seq!["clone"@, snapshot_full_chars(dataset, snap), target]
}

/// Build the engine invocation that clones a snapshot into a new
/// writable dataset.
pub fn zfs_clone(dataset: &str, snapname: &str, target: &str) -> (r: Result<Vec<String>, ZfsError>)
    ensures
        r is Ok <==> valid_dataset_name(dataset@) && valid_snapshot_name(snapname@)
            && valid_dataset_name(target@),
        !valid_dataset_name(dataset@) ==> r == Err::<Vec<String>, ZfsError>(
            ZfsError::InvalidDatasetName,
        ),
        valid_dataset_name(dataset@) && !valid_snapshot_name(snapname@) ==> r == Err::<
            Vec<String>,
            ZfsError,
        >(ZfsError::InvalidSnapshotName),
        valid_dataset_name(dataset@) && valid_snapshot_name(snapname@) && !valid_dataset_name(
            target@,
        ) ==> r == Err::<Vec<String>, ZfsError>(ZfsError::InvalidDatasetName),
        r matches Ok(argv) ==> argv.deep_view() == clone_argv(dataset@, snapname@, target@),
{
    if !validate_dataset_name(dataset) {
        return Err(ZfsError::InvalidDatasetName);
    }
    if !validate_snapshot_name(snapname) {
        return Err(ZfsError::InvalidSnapshotName);
    }
    if !validate_dataset_name(target) {
        return Err(ZfsError::InvalidDatasetName);
    }
    let mut argv: Vec<String> = Vec::new();
    argv.push(String::from_str("clone"));
    argv.push(snapshot_full_name(dataset, snapname));
    argv.push(String::from_str(target));
    proof {
        assert(argv.deep_view() =~~= clone_argv(dataset@, snapname@, target@));
    }
    Ok(argv)
}

/// The argument list of a property read:
/// `get -H -o value property dataset`.
pub open spec fn get_argv(dataset: Seq<char>, prop: Seq<char>) -> Seq<Seq<char>> {
    seq!["get"@, "-H"@, "-o"@, "value"@, prop, dataset]
}

/// Build the engine invocation that reads one property of a dataset;
/// [`get_outcome`] yields the property's value.
pub fn zfs_get(dataset: &str, prop: &str) -> (r: Result<Vec<String>, ZfsError>)
    ensures
        r is Ok <==> valid_dataset_name(dataset@),
        r is Err ==> r == Err::<Vec<String>, ZfsError>(ZfsError::InvalidDatasetName),
        r matches Ok(argv) ==> argv.deep_view() == get_argv(dataset@, prop@),
{
    if !validate_dataset_name(dataset) {
        return Err(ZfsError::InvalidDatasetName);
    }
    let mut argv: Vec<String> = Vec::new();
    argv.push(String::from_str("get"));
    argv.push(String::from_str("-H"));
    argv.push(String::from_str("-o"));
    argv.push(String::from_str("value"));
    argv.push(String::from_str(prop));
    argv.push(String::from_str(dataset));
    proof {
        assert(argv.deep_view() =~~= get_argv(dataset@, prop@));
    }
    Ok(argv)
}

/// The argument list of a snapshot-existence probe:
/// `list -Ho name dataset@snap`.
pub open spec fn snapshot_exists_argv(dataset: Seq<char>, snap: Seq<char>) -> Seq<Seq<char>> {
    seq!["list"@, "-Ho"@, "name"@, snapshot_full_chars(dataset, snap)]
}

/// Build the engine invocation that probes whether a snapshot exists;
/// [`snapshot_exists_outcome`] reads the answer off the outcome.
pub fn zfs_snapshot_exists(dataset: &str, snapname: &str) -> (r: Result<Vec<String>, ZfsError>)
    ensures
        r is Ok <==> valid_dataset_name(dataset@) && valid_snapshot_name(snapname@),
        !valid_dataset_name(dataset@) ==> r == Err::<Vec<String>, ZfsError>(
            ZfsError::InvalidDatasetName,
        ),
        valid_dataset_name(dataset@) && !valid_snapshot_name(snapname@) ==> r == Err::<
            Vec<String>,
            ZfsError,
        >(ZfsError::InvalidSnapshotName),
        r matches Ok(argv) ==> argv.deep_view() == snapshot_exists_argv(dataset@, snapname@),
{
    if !validate_dataset_name(dataset) {
        return Err(ZfsError::InvalidDatasetName);
    }
    if !validate_snapshot_name(snapname) {
        return Err(ZfsError::InvalidSnapshotName);
    }
    let mut argv: Vec<String> = Vec::new();
    argv.push(String::from_str("list"));
    argv.push(String::from_str("-Ho"));
    argv.push(String::from_str("name"));
    argv.push(snapshot_full_name(dataset, snapname));
    proof {
        assert(argv.deep_view() =~~= snapshot_exists_argv(dataset@, snapname@));
    }
    Ok(argv)
}

/// The argument list of a one-level dataset listing:
/// `list -t filesystem -d 1 -Ho name dataset`.
pub open spec fn dataset_children_argv(dataset: Seq<char>) -> Seq<Seq<char>> {
    seq!["list"@, "-t"@, "filesystem"@, "-d"@, "1"@, "-Ho"@, "name"@, dataset]
}

/// Build the engine invocation that lists a dataset and its immediate
/// children; [`dataset_children_outcome`] parses the names out.
pub fn zfs_dataset_children(dataset: &str) -> (r: Result<Vec<String>, ZfsError>)
    ensures
        r is Ok <==> valid_dataset_name(dataset@),
        r is Err ==> r == Err::<Vec<String>, ZfsError>(ZfsError::InvalidDatasetName),
        r matches Ok(argv) ==> argv.deep_view() == dataset_children_argv(dataset@),
{
    if !validate_dataset_name(dataset) {
        return Err(ZfsError::InvalidDatasetName);
    }
    let mut argv: Vec<String> = Vec::new();
    argv.push(String::from_str("list"));
    argv.push(String::from_str("-t"));
    argv.push(String::from_str("filesystem"));
    argv.push(String::from_str("-d"));
    argv.push(String::from_str("1"));
    argv.push(String::from_str("-Ho"));
    argv.push(String::from_str("name"));
    argv.push(String::from_str(dataset));
    proof {
        assert(argv.deep_view() =~~= dataset_children_argv(dataset@));
    }
    Ok(argv)
}

/// The argument list of a snapshot listing in creation order:
/// `list -t snapshot -d 1 -Ho name -s creation dataset`.
pub open spec fn snapshot_list_argv(dataset: Seq<char>) -> Seq<Seq<char>> {
    seq!["list"@, "-t"@, "snapshot"@, "-d"@, "1"@, "-Ho"@, "name"@, "-s"@, "creation"@, dataset]
}

/// Build the engine invocation that lists a dataset's snapshots, oldest
/// first by creation time — the ordering every retention and transfer
/// decision rests on; [`snapshot_list_outcome`] parses the names out.
pub fn zfs_snapshot_list(dataset: &str) -> (r: Result<Vec<String>, ZfsError>)
    ensures
        r is Ok <==> valid_dataset_name(dataset@),
        r is Err ==> r == Err::<Vec<String>, ZfsError>(ZfsError::InvalidDatasetName),
        r matches Ok(argv) ==> argv.deep_view() == snapshot_list_argv(dataset@),
{
    if !validate_dataset_name(dataset) {
        return Err(ZfsError::InvalidDatasetName);
    }
    let mut argv: Vec<String> = Vec::new();
    argv.push(String::from_str("list"));
    argv.push(String::from_str("-t"));
    argv.push(String::from_str("snapshot"));
    argv.push(String::from_str("-d"));
    argv.push(String::from_str("1"));
    argv.push(String::from_str("-Ho"));
    argv.push(String::from_str("name"));
    argv.push(String::from_str("-s"));
    argv.push(String::from_str("creation"));
    argv.push(String::from_str(dataset));
    proof {
        assert(argv.deep_view() =~~= snapshot_list_argv(dataset@));
    }
    Ok(argv)
}

/// The argument list of an incremental-transfer validation:
/// `send -i dataset@old dataset@new`, the stream discarded by the caller.
pub open spec fn send_argv(dataset: Seq<char>, old_snap: Seq<char>, new_snap: Seq<char>) -> Seq<
    Seq<char>,
> {
    seq![
        "send"@,
        "-i"@,
        snapshot_full_chars(dataset, old_snap),
        snapshot_full_chars(dataset, new_snap),
    ]
}

/// Build the engine invocation that validates an incremental transfer
/// between two snapshots of one dataset; the caller streams the delta to
/// nowhere.
pub fn zfs_send_to_null(dataset: &str, snapold: &str, snapnew: &str) -> (r: Result<
    Vec<String>,
    ZfsError,
>)
    ensures
        r is Ok <==> valid_dataset_name(dataset@) && valid_snapshot_name(snapold@)
            && valid_snapshot_name(snapnew@),
        !valid_dataset_name(dataset@) ==> r == Err::<Vec<String>, ZfsError>(
            ZfsError::InvalidDatasetName,
        ),
        valid_dataset_name(dataset@) && (!valid_snapshot_name(snapold@) || !valid_snapshot_name(
            snapnew@,
        )) ==> r == Err::<Vec<String>, ZfsError>(ZfsError::InvalidSnapshotName),
        r matches Ok(argv) ==> argv.deep_view() == send_argv(dataset@, snapold@, snapnew@),
{
    if !validate_dataset_name(dataset) {
        return Err(ZfsError::InvalidDatasetName);
    }
    if !validate_snapshot_name(snapold) {
        return Err(ZfsError::InvalidSnapshotName);
    }
    if !validate_snapshot_name(snapnew) {
        return Err(ZfsError::InvalidSnapshotName);
    }
    let mut argv: Vec<String> = Vec::new();
    argv.push(String::from_str("send"));
    argv.push(String::from_str("-i"));
    argv.push(snapshot_full_name(dataset, snapold));
    argv.push(snapshot_full_name(dataset, snapnew));
    proof {
        assert(argv.deep_view() =~~= send_argv(dataset@, snapold@, snapnew@));
    }
    Ok(argv)
}

/// Interpret a destruction outcome: a missing target counts as success
/// (a destroy is idempotent); every other failure is an error of its
/// kind.
pub fn destroy_outcome(outcome: EngineOutcome) -> (r: Result<(), ZfsError>)
    ensures
        r is Ok <==> (outcome == EngineOutcome::Success || outcome == EngineOutcome::Failure(
            EngineErrorKind::NotFound,
        )),
        outcome matches EngineOutcome::Failure(k) ==> (k != EngineErrorKind::NotFound ==> r
            == Err::<(), ZfsError>(ZfsError::Engine(k))),
{
    match outcome {
        EngineOutcome::Success => Ok(()),
        EngineOutcome::Failure(EngineErrorKind::NotFound) => Ok(()),
        EngineOutcome::Failure(k) => Err(ZfsError::Engine(k)),
    }
}

/// Interpret a creation outcome: an already-existing target counts as
/// success exactly when the caller asked for an idempotent create.
pub fn create_outcome(exists_ok: bool, outcome: EngineOutcome) -> (r: Result<(), ZfsError>)
    ensures
        r is Ok <==> (outcome == EngineOutcome::Success || (exists_ok && outcome
            == EngineOutcome::Failure(EngineErrorKind::AlreadyExists))),
        outcome matches EngineOutcome::Failure(k) ==> (!(exists_ok && k
            == EngineErrorKind::AlreadyExists) ==> r == Err::<(), ZfsError>(ZfsError::Engine(k))),
{
    match outcome {
        EngineOutcome::Success => Ok(()),
        EngineOutcome::Failure(k) => {
            if exists_ok && k == EngineErrorKind::AlreadyExists {
                Ok(())
            } else {
                Err(ZfsError::Engine(k))
            }
        },
    }
}

/// Interpret an outcome that tolerates nothing: snapshot, clone, and
/// transfer validation succeed only when the engine did.
pub fn strict_outcome(outcome: EngineOutcome) -> (r: Result<(), ZfsError>)
    ensures
        r is Ok <==> outcome == EngineOutcome::Success,
        outcome matches EngineOutcome::Failure(k) ==> r == Err::<(), ZfsError>(ZfsError::Engine(k)),
{
    match outcome {
        EngineOutcome::Success => Ok(()),
        EngineOutcome::Failure(k) => Err(ZfsError::Engine(k)),
    }
}

/// Interpret an existence probe: listing the snapshot succeeds when it
/// exists, and fails with a missing target when it does not; any other
/// failure is an error.
pub fn snapshot_exists_outcome(outcome: EngineOutcome) -> (r: Result<bool, ZfsError>)
    ensures
        outcome == EngineOutcome::Success ==> r == Ok::<bool, ZfsError>(true),
        outcome == EngineOutcome::Failure(EngineErrorKind::NotFound) ==> r == Ok::<bool, ZfsError>(
            false,
        ),
        outcome matches EngineOutcome::Failure(k) ==> (k != EngineErrorKind::NotFound ==> r
            == Err::<bool, ZfsError>(ZfsError::Engine(k))),
{
    match outcome {
        EngineOutcome::Success => Ok(true),
        EngineOutcome::Failure(EngineErrorKind::NotFound) => Ok(false),
        EngineOutcome::Failure(k) => Err(ZfsError::Engine(k)),
    }
}

/// Interpret a property read: on success the value is the output with
/// its trailing newline removed.
pub fn get_outcome(outcome: EngineOutcome, stdout: &str) -> (r: Result<String, ZfsError>)
    ensures
        r is Ok <==> outcome == EngineOutcome::Success,
        r matches Ok(v) ==> v@ == spec_trim_newlines(stdout@),
        outcome matches EngineOutcome::Failure(k) ==> r == Err::<String, ZfsError>(
            ZfsError::Engine(k),
        ),
{
    match outcome {
        EngineOutcome::Success => Ok(trim_newlines(stdout)),
        EngineOutcome::Failure(k) => Err(ZfsError::Engine(k)),
    }
}

/// Interpret a one-level dataset listing: on success, one name per
/// output line.
pub fn dataset_children_outcome(outcome: EngineOutcome, stdout: &str) -> (r: Result<
    Vec<String>,
    ZfsError,
>)
    ensures
        r is Ok <==> outcome == EngineOutcome::Success,
        r matches Ok(v) ==> v.deep_view() == spec_lines(stdout@),
        outcome matches EngineOutcome::Failure(k) ==> r == Err::<Vec<String>, ZfsError>(
            ZfsError::Engine(k),
        ),
{
    match outcome {
        EngineOutcome::Success => Ok(split_lines(stdout)),
        EngineOutcome::Failure(k) => Err(ZfsError::Engine(k)),
    }
}

/// Interpret a snapshot listing: every output line must be
/// `dataset@snapshot` with a single `@`; the snapshot names come back in
/// the engine's order, oldest first.
pub fn snapshot_list_outcome(outcome: EngineOutcome, stdout: &str) -> (r: Result<
    Vec<String>,
    ZfsError,
>)
    ensures
        outcome matches EngineOutcome::Failure(k) ==> r == Err::<Vec<String>, ZfsError>(
            ZfsError::Engine(k),
        ),
        outcome == EngineOutcome::Success ==> (r is Ok <==> forall|i: int|
            0 <= i < spec_lines(stdout@).len() ==> wf_snapshot_line(spec_lines(stdout@)[i])),
        outcome == EngineOutcome::Success && !(forall|i: int|
            0 <= i < spec_lines(stdout@).len() ==> wf_snapshot_line(spec_lines(stdout@)[i])) ==> r
            == Err::<Vec<String>, ZfsError>(ZfsError::UnexpectedOutput),
        r matches Ok(v) ==> v.deep_view().len() == spec_lines(stdout@).len() && (forall|i: int|
            0 <= i < v.deep_view().len() ==> v.deep_view()[i] == spec_snapshot_suffix(
                spec_lines(stdout@)[i],
            )),
{
    match outcome {
        EngineOutcome::Failure(k) => Err(ZfsError::Engine(k)),
        EngineOutcome::Success => {
            let lines = split_lines(stdout);
            let mut names: Vec<String> = Vec::new();
            let mut i: usize = 0;
            while i < lines.len()
                invariant
                    outcome == EngineOutcome::Success,
                    lines.deep_view() == spec_lines(stdout@),
                    i <= lines@.len(),
                    lines@.len() == spec_lines(stdout@).len(),
                    names@.len() == i,
                    forall|j: int| 0 <= j < i ==> wf_snapshot_line(spec_lines(stdout@)[j]),
                    forall|j: int|
                        0 <= j < i ==> names.deep_view()[j] == spec_snapshot_suffix(
                            spec_lines(stdout@)[j],
                        ),
                decreases lines@.len() - i,
            {
                proof {
                    assert(lines.deep_view()[i as int] == lines@[i as int]@);
                }
                let name = match snapshot_name_of_line(&lines[i]) {
                    Some(n) => n,
                    None => {
                        proof {
                            assert(!wf_snapshot_line(spec_lines(stdout@)[i as int]));
                        }
                        return Err(ZfsError::UnexpectedOutput);
                    },
                };
                let ghost prev = names.deep_view();
                names.push(name);
                proof {
                    assert(names.deep_view() =~~= prev.push(name@));
                }
                i = i + 1;
            }
            Ok(names)
        },
    }
}

} // verus!
