//! The read-only capability surface that scripts see: a data bucket bound to
//! one root directory, with `read` and `list`.
//!
//! The bucket decides; it does not touch the file system. The caller looks
//! at the path that `locate` permits and hands what it found to `read` or
//! `list`, which turn it into the script-visible result. Listings come back
//! in lexicographic order of their names' characters, so that the same
//! directory always lists the same way. What a listing holds are entry
//! names and nothing else: a probe with an entry that holds a separator, or
//! is `..`, counts as a failed read.

use vstd::prelude::*;
use vstd::seq_lib::to_multiset_contains;
use crate::confine::{
    boundary, confine, decided, is_entry_name, law_entry_of_directory_within_is_within,
    law_permitted_path_is_under_root, law_relative_request_is_permitted, within, AccessDecision,
    Decision,
};
use crate::listing::{sort_names, sorted, texts};
use crate::path::{joined, path_parts};
use crate::text::chars_of;

verus! {

/// The kinds of file-layer error that a script can see.
#[derive(Clone, Copy, Debug, PartialEq, Eq, Structural)]
pub enum ErrorKind {
    /// The requested path leaves the bucket's root.
    NotAllowed,
    /// Nothing of the wanted kind is at the permitted path.
    NotFound,
    /// The permitted path could not be read.
    IoFailure,
}

/// A file-layer error: an ordinary result for the script to handle.
#[derive(Debug)]
pub struct BucketError {
    pub kind: ErrorKind,
    pub message: String,
}

/// A file-layer error, as the contracts see it.
pub struct Failure {
    pub kind: ErrorKind,
    pub message: Seq<char>,
}

impl View for BucketError {
    type V = Failure;

    open spec fn view(&self) -> Failure {
        Failure { kind: self.kind, message: self.message@ }
    }
}

/// What the caller found at a permitted path when it looked for a file.
#[derive(Debug)]
pub enum FileProbe {
    /// No regular file is there.
    Missing,
    /// A file is there, but reading it failed for the given cause.
    Unreadable(String),
    /// The whole contents of the file.
    Contents(String),
}

/// A file probe, as the contracts see it.
pub enum FileFound {
    Missing,
    Unreadable(Seq<char>),
    Contents(Seq<char>),
}

impl View for FileProbe {
    type V = FileFound;

    open spec fn view(&self) -> FileFound {
        match self {
            FileProbe::Missing => FileFound::Missing,
            FileProbe::Unreadable(cause) => FileFound::Unreadable(cause@),
            FileProbe::Contents(text) => FileFound::Contents(text@),
        }
    }
}

/// What the caller found at a permitted path when it looked for a
/// directory.
#[derive(Debug)]
pub enum DirProbe {
    /// No directory is there.
    Missing,
    /// A directory is there, but reading it failed for the given cause.
    Unreadable(String),
    /// The names of the directory's entries, in any order.
    Entries(Vec<String>),
}

/// A directory probe, as the contracts see it.
pub enum DirFound {
    Missing,
    Unreadable(Seq<char>),
    Entries(Seq<Seq<char>>),
}

impl View for DirProbe {
    type V = DirFound;

    open spec fn view(&self) -> DirFound {
        match self {
            DirProbe::Missing => DirFound::Missing,
            DirProbe::Unreadable(cause) => DirFound::Unreadable(cause@),
            DirProbe::Entries(names) => DirFound::Entries(texts(names@)),
        }
    }
}

/// The error for a request that leaves the root.
pub open spec fn not_allowed(requested: Seq<char>) -> Failure {
    Failure {
        kind: ErrorKind::NotAllowed,
        message: "Access to this path is not allowed: "@ + requested,
    }
}

/// The error for a request that leads to no regular file.
pub open spec fn file_not_found(requested: Seq<char>) -> Failure {
    Failure { kind: ErrorKind::NotFound, message: "File not found: "@ + requested }
}

/// The error for a file that could not be read.
pub open spec fn read_failed(requested: Seq<char>, cause: Seq<char>) -> Failure {
    Failure {
        kind: ErrorKind::IoFailure,
        message: "Failed to read file "@ + requested + ": "@ + cause,
    }
}

/// The error for a request that leads to no directory.
pub open spec fn dir_not_found(requested: Seq<char>) -> Failure {
    Failure { kind: ErrorKind::NotFound, message: "Directory not found: "@ + requested }
}

/// The error for a directory that could not be read.
pub open spec fn list_failed(cause: Seq<char>) -> Failure {
    Failure { kind: ErrorKind::IoFailure, message: "Failed to read directory: "@ + cause }
}

/// Where a request is permitted under `root`, or the error for it.
pub open spec fn located(root: Seq<char>, requested: Seq<char>) -> Result<Seq<char>, Failure> {
    match decided(root, requested) {
        Decision::Permit(path) => Ok(path),
        Decision::Deny(_) => Err(not_allowed(requested)),
    }
}

/// Where a request is permitted under `root` once the links on its way
/// have been followed to `target`: at the target, if both the request and
/// the target stay under the root. The error speaks of the request only.
pub open spec fn located_at(root: Seq<char>, requested: Seq<char>, target: Seq<char>) -> Result<
    Seq<char>,
    Failure,
> {
    match (located(root, requested), located(root, target)) {
        (Ok(_), Ok(path)) => Ok(path),
        _ => Err(not_allowed(requested)),
    }
}

/// What reading `requested` under `root` comes to, given what was found at
/// the permitted path. A request that is not permitted fails whatever was
/// found.
pub open spec fn read_result(root: Seq<char>, requested: Seq<char>, found: FileFound) -> Result<
    Seq<char>,
    Failure,
> {
    match located(root, requested) {
        Err(failure) => Err(failure),
        Ok(_) => match found {
            FileFound::Missing => Err(file_not_found(requested)),
            FileFound::Unreadable(cause) => Err(read_failed(requested, cause)),
            FileFound::Contents(text) => Ok(text),
        },
    }
}

/// Whether all of `names` are entry names.
pub open spec fn all_entry_names(names: Seq<Seq<char>>) -> bool {
    forall|i: int| 0 <= i < names.len() ==> is_entry_name(#[trigger] names[i])
}

/// The cause given for a probe that holds something that is no entry name.
pub open spec fn not_a_name() -> Seq<char> {
    "an entry is not a name"@
}

/// The error, if any, that listing `requested` under `root` comes to, given
/// what was found at the permitted path.
pub open spec fn list_failure(root: Seq<char>, requested: Seq<char>, found: DirFound) -> Option<
    Failure,
> {
    match located(root, requested) {
        Err(failure) => Some(failure),
        Ok(_) => match found {
            DirFound::Missing => Some(dir_not_found(requested)),
            DirFound::Unreadable(cause) => Some(list_failed(cause)),
            DirFound::Entries(entries) => if all_entry_names(entries) {
                None
            } else {
                Some(list_failed(not_a_name()))
            },
        },
    }
}

/// Whether `names` is the listing of what was found: the entries' names,
/// each as often as it was found, in lexicographic order, and entry names
/// all of them.
pub open spec fn is_listing_of(names: Seq<Seq<char>>, found: DirFound) -> bool {
    match found {
        DirFound::Entries(entries) => {
            &&& sorted(names)
            &&& names.to_multiset() == entries.to_multiset()
            &&& all_entry_names(names)
        },
        _ => false,
    }
}

/// Whether `name` is an entry name.
pub fn is_entry(name: &str) -> (yes: bool)
    ensures
        yes == is_entry_name(name@),
{
    let chars = chars_of(name);
    let n: usize = chars.len();
    if n == 2 && chars[0] == '.' && chars[1] == '.' {
        return false;
    }
    let mut i: usize = 0;
    while i < n
        invariant
            n == chars.len(),
            chars@ == name@,
            i <= n,
            forall|k: int| 0 <= k < i ==> name@[k] != '/',
        decreases n - i,
    {
        if chars[i] == '/' {
            return false;
        }
        i = i + 1;
    }
    true
}

/// Whether all of `names` are entry names.
pub fn all_entries(names: &Vec<String>) -> (yes: bool)
    ensures
        yes == all_entry_names(texts(names@)),
{
    let n: usize = names.len();
    let mut i: usize = 0;
    while i < n
        invariant
            n == names.len(),
            i <= n,
            forall|k: int| 0 <= k < i ==> is_entry_name(#[trigger] texts(names@)[k]),
        decreases n - i,
    {
        if !is_entry(names[i].as_str()) {
            assert(!is_entry_name(texts(names@)[i as int]));
            return false;
        }
        i = i + 1;
    }
    true
}

/// The path of the entry `name` of the directory `dir`: the directory, a
/// separator where one is needed, and the name.
pub fn entry_path(dir: &str, name: &str) -> (path: String)
    ensures
        path@ == joined(dir@, name@),
{
    let chars = chars_of(dir);
    let n: usize = chars.len();
    let mut path = String::from_str(dir);
    if n > 0 && chars[n - 1] != '/' {
        path.append("/");
        proof {
            reveal_strlit("/");
        }
    }
    path.append(name);
    path
}

/// The read and list surface over one root directory.
#[derive(Clone, Debug)]
pub struct DataBucket {
    path: String,
}

/// What a script is handed when it runs: the way to its data bucket.
#[derive(Clone, Debug)]
pub struct Context {
    bucket: DataBucket,
}

impl Context {
    /// The root directory of this context's bucket.
    pub closed spec fn root(&self) -> Seq<char> {
        self.bucket.path@
    }

    /// A context whose bucket is rooted at `bucket_path`.
    pub fn new(bucket_path: String) -> (context: Self)
        ensures
            context.root() == bucket_path@,
    {
        Context { bucket: DataBucket::new(bucket_path) }
    }

    /// A bucket of its own for the caller, rooted where this context's is.
    pub fn bucket(&self) -> (bucket: DataBucket)
        ensures
            bucket.root() == self.root(),
    {
        DataBucket { path: self.bucket.path.clone() }
    }
}

impl DataBucket {
    /// The root directory of this bucket.
    pub closed spec fn root(&self) -> Seq<char> {
        self.path@
    }

    /// A bucket rooted at `path`.
    pub fn new(path: String) -> (bucket: Self)
        ensures
            bucket.root() == path@,
    {
        DataBucket { path }
    }

    /// The root directory of this bucket.
    pub fn path(&self) -> (path: &str)
        ensures
            path@ == self.root(),
    {
        self.path.as_str()
    }

    /// Confines `requested` to this bucket: the path at which the caller may
    /// look, or the error for a request that leaves the root.
    pub fn locate(&self, requested: &str) -> (out: Result<String, BucketError>)
        ensures
            match out {
                Ok(path) => located(self.root(), requested@) == Ok::<Seq<char>, Failure>(path@),
                Err(error) => located(self.root(), requested@) == Err::<Seq<char>, Failure>(
                    error@,
                ),
            },
    {
        match confine(self.path.as_str(), requested) {
            AccessDecision::Permit(path) => Ok(path),
            AccessDecision::Deny(_) => {
                let mut message = String::from_str("Access to this path is not allowed: ");
                message.append(requested);
                Err(BucketError { kind: ErrorKind::NotAllowed, message })
            },
        }
    }

    /// Confines the path that `requested` leads to once links are followed.
    ///
    /// The caller resolves the path that `locate` permits and hands the
    /// resolved `target` back before it opens anything. The target is
    /// permitted only if it stays under the root as well: a link that leads
    /// out of the root is refused, one that stays inside is followed. The
    /// error names the request, never the target.
    pub fn locate_resolved(&self, requested: &str, target: &str) -> (out: Result<
        String,
        BucketError,
    >)
        ensures
            match out {
                Ok(path) => located_at(self.root(), requested@, target@) == Ok::<
                    Seq<char>,
                    Failure,
                >(path@),
                Err(error) => located_at(self.root(), requested@, target@) == Err::<
                    Seq<char>,
                    Failure,
                >(error@),
            },
    {
        match self.locate(requested) {
            Err(error) => Err(error),
            Ok(_) => match confine(self.path.as_str(), target) {
                AccessDecision::Permit(path) => Ok(path),
                AccessDecision::Deny(_) => {
                    let mut message = String::from_str("Access to this path is not allowed: ");
                    message.append(requested);
                    Err(BucketError { kind: ErrorKind::NotAllowed, message })
                },
            },
        }
    }

    /// Reads the file at `file_path`, given what the caller found at the
    /// path that `locate` permits for it.
    ///
    /// A request that leaves the root is not allowed, whatever was found.
    /// Otherwise the result is the file's contents, or `NotFound` where no
    /// regular file is there, or `IoFailure` with the cause where reading
    /// failed.
    pub fn read(&self, file_path: &str, probe: FileProbe) -> (out: Result<String, BucketError>)
        ensures
            match out {
                Ok(text) => read_result(self.root(), file_path@, probe@) == Ok::<
                    Seq<char>,
                    Failure,
                >(text@),
                Err(error) => read_result(self.root(), file_path@, probe@) == Err::<
                    Seq<char>,
                    Failure,
                >(error@),
            },
    {
        match self.locate(file_path) {
            Err(error) => Err(error),
            Ok(_) => match probe {
                FileProbe::Missing => {
                    let mut message = String::from_str("File not found: ");
                    message.append(file_path);
                    Err(BucketError { kind: ErrorKind::NotFound, message })
                },
                FileProbe::Unreadable(cause) => {
                    let mut message = String::from_str("Failed to read file ");
                    message.append(file_path);
                    message.append(": ");
                    message.append(cause.as_str());
                    Err(BucketError { kind: ErrorKind::IoFailure, message })
                },
                FileProbe::Contents(text) => Ok(text),
            },
        }
    }

    /// Lists the directory at `dpath`, given what the caller found at the
    /// path that `locate` permits for it.
    ///
    /// A request that leaves the root is not allowed, whatever was found.
    /// Otherwise the result holds the names that were found, each as often
    /// as it was found, in lexicographic order; or `NotFound` where no
    /// directory is there, or `IoFailure` with the cause where reading it
    /// failed, or where something that was found is no entry name.
    pub fn list(&self, dpath: &str, probe: DirProbe) -> (out: Result<Vec<String>, BucketError>)
        ensures
            match out {
                Ok(names) => list_failure(self.root(), dpath@, probe@) is None && is_listing_of(
                    texts(names@),
                    probe@,
                ),
                Err(error) => list_failure(self.root(), dpath@, probe@) == Some(error@),
            },
    {
        match self.locate(dpath) {
            Err(error) => Err(error),
            Ok(_) => match probe {
                DirProbe::Missing => {
                    let mut message = String::from_str("Directory not found: ");
                    message.append(dpath);
                    Err(BucketError { kind: ErrorKind::NotFound, message })
                },
                DirProbe::Unreadable(cause) => {
                    let mut message = String::from_str("Failed to read directory: ");
                    message.append(cause.as_str());
                    Err(BucketError { kind: ErrorKind::IoFailure, message })
                },
                DirProbe::Entries(names) => {
                    if !all_entries(&names) {
                        let mut message = String::from_str("Failed to read directory: ");
                        message.append("an entry is not a name");
                        return Err(BucketError { kind: ErrorKind::IoFailure, message });
                    }
                    let ghost found = texts(names@);
                    let listed = sort_names(names);
                    proof {
                        let out = texts(listed@);
                        assert forall|i: int| 0 <= i < out.len() implies is_entry_name(
                            #[trigger] out[i],
                        ) by {
                            assert(out.contains(out[i]));
                            to_multiset_contains(out, out[i]);
                            to_multiset_contains(found, out[i]);
                            let k = choose|k: int| 0 <= k < found.len() && found[k] == out[i];
                            assert(is_entry_name(found[k]));
                        }
                    }
                    Ok(listed)
                },
            },
        }
    }
}

/// A name out of a listing is never refused as not allowed, whether it is
/// read in the directory that was listed or on its own under the root.
///
/// This holds for every root, every directory whose listing succeeded,
/// every name in that listing and whatever is found at the path: the
/// directory stays under the root, or it could not have been listed, and a
/// listing holds entry names only, which add one name to the directory's
/// path and cannot climb out of it.
pub proof fn law_listed_name_is_allowed(
    root: Seq<char>,
    dir: Seq<char>,
    found: DirFound,
    names: Seq<Seq<char>>,
    i: int,
    file: FileFound,
)
    requires
        list_failure(root, dir, found) is None,
        is_listing_of(names, found),
        0 <= i < names.len(),
    ensures
        located(root, joined(dir, names[i])) is Ok,
        read_result(root, joined(dir, names[i]), file) matches Err(failure) ==> failure.kind
            != ErrorKind::NotAllowed,
        located(root, names[i]) is Ok,
        read_result(root, names[i], file) matches Err(failure) ==> failure.kind
            != ErrorKind::NotAllowed,
{
    let name = names[i];
    assert(is_entry_name(name));
    law_entry_of_directory_within_is_within(root, dir, name);
    if name.len() > 0 {
        assert(name.contains(name[0]));
    }
    law_relative_request_is_permitted(root, name);
}

/// Following links never widens access: what is permitted after links are
/// followed lies under the root, and a request that is refused stays
/// refused wherever its links lead.
pub proof fn law_resolved_target_is_under_root(
    root: Seq<char>,
    requested: Seq<char>,
    target: Seq<char>,
)
    ensures
        located_at(root, requested, target) matches Ok(path) ==> boundary(root).is_prefix_of(
            path_parts(path),
        ),
        located(root, requested) is Err ==> located_at(root, requested, target) is Err,
        located_at(root, requested, target) is Ok <==> within(root, requested) && within(
            root,
            target,
        ),
{
    law_permitted_path_is_under_root(root, target);
}

} // verus!
