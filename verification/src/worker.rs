//! The per-task download worker, as a machine of decisions. Every step that
//! touches the filesystem or the network is performed by the caller, which
//! reports what it saw (a path's kind, a file's bytes, the response) and gets
//! back either the next thing to do or the task's final outcome.
//!
//! The order of steps for one task: resolve the filename; inspect the
//! destination directory and, when hash checking is on, the existing file;
//! fetch; filter by content type; either compare digests against the existing
//! file or write the body; then, when auto-rename applies, check the renamed
//! target, compare or copy, and remove the original extension-less file.

use vstd::prelude::*;

use crate::errors::Error;
use crate::registry::opt_str_view;
use crate::text::contains_seq;
use crate::text::content_subtype;
use crate::text::ext_of;
use crate::text::filename_tail_has_dot;
use crate::text::str_contains;
use crate::text::tail_has_dot;

verus! {

/// The digest the hash function assigns to a byte string.
pub uninterp spec fn blake3_of(bytes: Seq<u8>) -> Seq<u8>;

/// Relies on blake3::hash: a deterministic function of the input bytes alone,
/// yielding a 32-byte digest.
#[verifier::external_body]
fn blake3_digest(bytes: &Vec<u8>) -> (r: Vec<u8>)
    ensures
        r@ == blake3_of(bytes@),
        r@.len() == 32,
{
    blake3::hash(bytes.as_slice()).as_bytes().to_vec()
}

/// What URL parsing makes of a string: `None` when it is not a valid URL,
/// otherwise the last path segment (empty when the URL has none).
pub uninterp spec fn url_name_of(url: Seq<char>) -> Option<Seq<char>>;

/// Relies on reqwest::Url::parse and Url::path_segments, deterministic
/// functions of the URL string: parse failure yields `None`; otherwise the
/// URL's last path segment, or the empty string for a URL that cannot have
/// segments.
#[verifier::external_body]
fn url_last_segment(url: &String) -> (r: Option<String>)
    ensures
        r is None <==> url_name_of(url@) is None,
        r matches Some(s) ==> url_name_of(url@) == Option::Some(s@),
{
    match reqwest::Url::parse(url.as_str()) {
        Err(_) => None,
        Ok(u) => Some(match u.path_segments() {
            Some(segs) => match segs.last() {
                Some(seg) => seg.to_string(),
                None => String::new(),
            },
            None => String::new(),
        }),
    }
}

/// Byte-for-byte equality of two digests.
fn digest_eq(a: &Vec<u8>, b: &Vec<u8>) -> (r: bool)
    ensures
        r == (a@ == b@),
{
    if a.len() != b.len() {
        return false;
    }
    let n = a.len();
    let mut i: usize = 0;
    while i < n
        invariant
            n == a@.len() == b@.len(),
            0 <= i <= n,
            forall|j: int| 0 <= j < i ==> a@[j] == b@[j],
        decreases n - i,
    {
        if a[i] != b[i] {
            return false;
        }
        i += 1;
    }
    proof {
        assert(a@ =~= b@);
    }
    true
}

/// What a look at a path shows.
#[derive(Debug, Clone, Copy, PartialEq, Eq, Structural)]
pub enum PathKind {
    Missing,
    Directory,
    RegularFile,
}

/// What reading a file's bytes produced: the open failed with a message, the
/// read itself failed, or the contents.
#[derive(Debug)]
pub enum ReadOutcome {
    OpenFailed(String),
    ReadFailed,
    Content(Vec<u8>),
}

/// A completed HTTP exchange: the status, the `content-type` header if any,
/// and the body (empty unless the status was 200).
#[derive(Debug)]
pub struct FetchResponse {
    pub status: u16,
    pub content_type: Option<String>,
    pub body: Vec<u8>,
}

/// How the fetch went: a transport or protocol failure with its message, or a
/// response.
#[derive(Debug)]
pub enum FetchOutcome {
    Transport(String),
    Response(FetchResponse),
}

/// The filename a task resolves to: the explicit one when given, otherwise
/// the URL's last path segment. An unparsable URL is `UrlIllegal`; an empty
/// resolved name is `UrlCannotDownload`.
pub open spec fn spec_resolve_filename(url: Seq<char>, explicit: Option<Seq<char>>) -> Result<
    Seq<char>,
    Error,
> {
    match url_name_of(url) {
        Option::None => Result::Err(Error::UrlIllegal),
        Option::Some(seg) => {
            let name = match explicit {
                Option::Some(f) => f,
                Option::None => seg,
            };
            if name.len() == 0 {
                Result::Err(Error::UrlCannotDownload)
            } else {
                Result::Ok(name)
            }
        },
    }
}

/// The view of a resolution result.
pub open spec fn resolved_view(r: Result<String, Error>) -> Result<Seq<char>, Error> {
    match r {
        Result::Ok(s) => Result::Ok(s@),
        Result::Err(e) => Result::Err(e),
    }
}

/// Resolves the filename a task will be written under.
pub fn resolve_filename(url: &String, explicit: &Option<String>) -> (r: Result<String, Error>)
    ensures
        resolved_view(r) == spec_resolve_filename(url@, opt_str_view(*explicit)),
{
    match url_last_segment(url) {
        Option::None => Err(Error::UrlIllegal),
        Option::Some(seg) => {
            let name = match explicit {
                Option::Some(f) => f.clone(),
                Option::None => seg,
            };
            if name.as_str().unicode_len() == 0 {
                Err(Error::UrlCannotDownload)
            } else {
                Ok(name)
            }
        },
    }
}

/// The step after looking at the destination directory.
#[derive(Debug)]
pub enum DirStep {
    /// The directory exists: look at the target file next.
    StatFile,
    /// Nothing is there: create the directory (and missing ancestors).
    CreateFolder,
    Fail(Error),
}

/// The decision for a destination directory: a regular file in its place is
/// fatal, a missing one is created, an existing one is inspected further.
pub open spec fn spec_on_folder_stat(kind: PathKind) -> DirStep {
    match kind {
        PathKind::Directory => DirStep::StatFile,
        PathKind::Missing => DirStep::CreateFolder,
        PathKind::RegularFile => DirStep::Fail(Error::FolderExistedAsFile),
    }
}

/// Decides what to do after looking at the destination directory.
pub fn on_folder_stat(kind: PathKind) -> (r: DirStep)
    ensures
        r == spec_on_folder_stat(kind),
{
    match kind {
        PathKind::Directory => DirStep::StatFile,
        PathKind::Missing => DirStep::CreateFolder,
        PathKind::RegularFile => DirStep::Fail(Error::FolderExistedAsFile),
    }
}

/// Maps the attempt to create the destination directory to its outcome.
pub fn on_folder_created(ok: bool) -> (r: Result<(), Error>)
    ensures
        ok ==> r is Ok,
        !ok ==> r == Result::<(), Error>::Err(Error::FailedToCreateFolder),
{
    if ok {
        Ok(())
    } else {
        Err(Error::FailedToCreateFolder)
    }
}

/// The step after looking at the target file's path.
#[derive(Debug)]
pub enum FileStep {
    /// No prior file: fetch with no digest to compare against.
    Fetch,
    /// A file is already there and hash checking is on: read it so its digest
    /// can be compared with what the fetch returns.
    ReadExisting,
    Fail(Error),
}

/// The decision for the target file: a directory in its place is fatal; an
/// existing file stops the task (`FileExisted`) unless hash checking is on,
/// in which case its contents are read; a missing one is simply fetched.
pub open spec fn spec_on_file_stat(kind: PathKind, hash_check: bool) -> FileStep {
    match kind {
        PathKind::Missing => FileStep::Fetch,
        PathKind::Directory => FileStep::Fail(Error::FileExistedAsFolder),
        PathKind::RegularFile => if hash_check {
            FileStep::ReadExisting
        } else {
            FileStep::Fail(Error::FileExisted)
        },
    }
}

/// Decides what to do after looking at the target file's path.
pub fn on_file_stat(kind: PathKind, hash_check: bool) -> (r: FileStep)
    ensures
        r == spec_on_file_stat(kind, hash_check),
{
    match kind {
        PathKind::Missing => FileStep::Fetch,
        PathKind::Directory => FileStep::Fail(Error::FileExistedAsFolder),
        PathKind::RegularFile => if hash_check {
            FileStep::ReadExisting
        } else {
            FileStep::Fail(Error::FileExisted)
        },
    }
}

/// Turns the read of the existing file into the digest to compare against: a
/// failed open is `IoError`, a failed read is `HashingError`.
pub fn on_existing_read(outcome: ReadOutcome) -> (r: Result<Vec<u8>, Error>)
    ensures
        outcome matches ReadOutcome::OpenFailed(m) ==> r == Result::<Vec<u8>, Error>::Err(
            Error::IoError(m),
        ),
        outcome is ReadFailed ==> r == Result::<Vec<u8>, Error>::Err(Error::HashingError),
        outcome matches ReadOutcome::Content(b) ==> r matches Result::Ok(d) && d@ == blake3_of(b@),
{
    match outcome {
        ReadOutcome::OpenFailed(m) => Err(Error::IoError(m)),
        ReadOutcome::ReadFailed => Err(Error::HashingError),
        ReadOutcome::Content(b) => Ok(blake3_digest(&b)),
    }
}

/// Whether the binary-only filter rejects a response's content type: exactly
/// `application/javascript`, or anything containing `text/html`.
pub open spec fn rejects_content_type(ct: Option<Seq<char>>) -> bool {
    match ct {
        Option::None => false,
        Option::Some(c) => c == "application/javascript"@ || contains_seq(c, "text/html"@),
    }
}

/// Computes `rejects_content_type`.
fn content_type_rejected(ct: &Option<String>) -> (r: bool)
    ensures
        r == rejects_content_type(opt_str_view(*ct)),
{
    match ct {
        Option::None => false,
        Option::Some(c) => {
            let js: String = "application/javascript".to_owned();
            if *c == js {
                true
            } else {
                str_contains(c.as_str(), "text/html")
            }
        },
    }
}

/// The step after the fetch.
#[derive(Debug)]
pub enum FetchStep {
    Fail(Error),
    /// The existing file's digest matches the fetched body: the task is
    /// already satisfied and nothing is written.
    AlreadySatisfied,
    /// Write the body to the target file; the content type rides along for
    /// the rename decision.
    Write(Vec<u8>, Option<String>),
}

/// The decision for a fetch outcome. A transport failure is `HttpError`; 404
/// is `ResourceNotFound` and any other non-200 status `RequestNotOK` with the
/// code. For a 200: the binary-only filter may reject the content type;
/// otherwise, when a prior digest exists, equal digests mean the task is
/// already satisfied and unequal ones are a genuine conflict
/// (`DifferentFileExisted`); with no prior digest the body is written.
pub open spec fn spec_on_fetch(
    outcome: FetchOutcome,
    prior: Option<Vec<u8>>,
    only_binary: bool,
) -> FetchStep {
    match outcome {
        FetchOutcome::Transport(m) => FetchStep::Fail(Error::HttpError(m)),
        FetchOutcome::Response(resp) => if resp.status == 404 {
            FetchStep::Fail(Error::ResourceNotFound)
        } else if resp.status != 200 {
            FetchStep::Fail(Error::RequestNotOK(resp.status))
        } else if only_binary && rejects_content_type(opt_str_view(resp.content_type)) {
            FetchStep::Fail(Error::FileIsNotBinary)
        } else {
            match prior {
                Option::Some(d) => if blake3_of(resp.body@) == d@ {
                    FetchStep::AlreadySatisfied
                } else {
                    FetchStep::Fail(Error::DifferentFileExisted)
                },
                Option::None => FetchStep::Write(resp.body, resp.content_type),
            }
        },
    }
}

/// Decides what to do with a fetch outcome.
pub fn on_fetch(outcome: FetchOutcome, prior: Option<Vec<u8>>, only_binary: bool) -> (r: FetchStep)
    ensures
        r == spec_on_fetch(outcome, prior, only_binary),
{
    match outcome {
        FetchOutcome::Transport(m) => FetchStep::Fail(Error::HttpError(m)),
        FetchOutcome::Response(resp) => {
            if resp.status == 404 {
                FetchStep::Fail(Error::ResourceNotFound)
            } else if resp.status != 200 {
                FetchStep::Fail(Error::RequestNotOK(resp.status))
            } else if only_binary && content_type_rejected(&resp.content_type) {
                FetchStep::Fail(Error::FileIsNotBinary)
            } else {
                match prior {
                    Option::Some(d) => {
                        let h = blake3_digest(&resp.body);
                        if digest_eq(&h, &d) {
                            FetchStep::AlreadySatisfied
                        } else {
                            FetchStep::Fail(Error::DifferentFileExisted)
                        }
                    },
                    Option::None => FetchStep::Write(resp.body, resp.content_type),
                }
            }
        },
    }
}

/// Maps the attempt to write the body to its outcome: a failure to create or
/// fill the file is `IoError` with the underlying message.
pub fn on_write_result(result: Option<String>) -> (r: Result<(), Error>)
    ensures
        result matches Some(m) ==> r == Result::<(), Error>::Err(Error::IoError(m)),
        result is None ==> r is Ok,
{
    match result {
        Option::Some(m) => Err(Error::IoError(m)),
        Option::None => Ok(()),
    }
}

/// The filename the written file should be renamed to, when auto-rename
/// applies: only for a filename whose last path component has no `.`, by
/// appending the extension the content-type's subtype suggests. An empty
/// subtype leaves the name unchanged.
pub open spec fn spec_rename_plan(
    name: Seq<char>,
    ct: Option<Seq<char>>,
    auto_rename: bool,
) -> Option<Seq<char>> {
    if !auto_rename || tail_has_dot(name) {
        Option::None
    } else {
        let e = match ct {
            Option::None => Seq::<char>::empty(),
            Option::Some(c) => ext_of(c),
        };
        if e.len() == 0 {
            Option::Some(name)
        } else {
            Option::Some(name + seq!['.'] + e)
        }
    }
}

/// Computes `spec_rename_plan`: the target of the auto-rename, or `None` when
/// no rename is due.
pub fn plan_rename(name: &String, content_type: &Option<String>, auto_rename: bool) -> (r: Option<
    String,
>)
    ensures
        opt_str_view(r) == spec_rename_plan(name@, opt_str_view(*content_type), auto_rename),
{
    if !auto_rename {
        return None;
    }
    if filename_tail_has_dot(name.as_str()) {
        return None;
    }
    let ext: String = match content_type {
        Option::Some(c) => content_subtype(c.as_str()),
        Option::None => String::new(),
    };
    if ext.as_str().unicode_len() == 0 {
        Some(name.clone())
    } else {
        let mut n = name.clone();
        n.append(".");
        n.append(ext.as_str());
        proof {
            reveal_strlit(".");
            assert("."@ =~= seq!['.']);
            assert(n@ =~= name@ + seq!['.'] + ext@);
        }
        Some(n)
    }
}

/// The step after looking at the rename target's path.
#[derive(Debug)]
pub enum RenameStep {
    Fail(Error),
    /// The target exists as a file: read it and compare its digest with the
    /// fetched body's (carried here).
    CompareTarget(Vec<u8>),
    /// Nothing is there: copy the written file to the target, then remove the
    /// original.
    CopyToTarget,
}

/// Decides what to do after looking at the rename target: a directory there
/// gives up (`FileExistedAsFolderWhenRename`, ignorable); an existing file is
/// compared by digest; a missing one is copied to.
pub fn on_rename_stat(kind: PathKind, body: &Vec<u8>) -> (r: RenameStep)
    ensures
        kind is Directory ==> r == RenameStep::Fail(Error::FileExistedAsFolderWhenRename),
        kind is Missing ==> r is CopyToTarget,
        kind is RegularFile ==> (r matches RenameStep::CompareTarget(d) && d@ == blake3_of(body@)),
{
    match kind {
        PathKind::Directory => RenameStep::Fail(Error::FileExistedAsFolderWhenRename),
        PathKind::Missing => RenameStep::CopyToTarget,
        PathKind::RegularFile => RenameStep::CompareTarget(blake3_digest(body)),
    }
}

/// The step after reading the rename target.
#[derive(Debug)]
pub enum RenameReadStep {
    Fail(Error),
    /// The target already holds the same content: skip the copy and remove
    /// the original extension-less file.
    RemoveOriginal,
}

/// Decides what to do with the rename target's contents: a failed open is
/// `IoErrorWhenRename`, a failed read `HashingErrorWhenRename`; a digest
/// equal to the fetched body's means the target is already satisfied, an
/// unequal one is `DifferentFileExistedWhenRename` (ignorable) and the
/// original file stays.
pub fn on_rename_read(outcome: ReadOutcome, body_digest: &Vec<u8>) -> (r: RenameReadStep)
    ensures
        outcome matches ReadOutcome::OpenFailed(m) ==> r == RenameReadStep::Fail(
            Error::IoErrorWhenRename(m),
        ),
        outcome is ReadFailed ==> r == RenameReadStep::Fail(Error::HashingErrorWhenRename),
        outcome matches ReadOutcome::Content(b) ==> if blake3_of(b@) == body_digest@ {
            r is RemoveOriginal
        } else {
            r == RenameReadStep::Fail(Error::DifferentFileExistedWhenRename)
        },
{
    match outcome {
        ReadOutcome::OpenFailed(m) => RenameReadStep::Fail(Error::IoErrorWhenRename(m)),
        ReadOutcome::ReadFailed => RenameReadStep::Fail(Error::HashingErrorWhenRename),
        ReadOutcome::Content(b) => {
            let h = blake3_digest(&b);
            if digest_eq(&h, body_digest) {
                RenameReadStep::RemoveOriginal
            } else {
                RenameReadStep::Fail(Error::DifferentFileExistedWhenRename)
            }
        },
    }
}

/// Maps a copy or remove attempt on the rename path to its outcome: failures
/// here are `IoErrorWhenRename`, ignorable.
pub fn on_rename_io_result(result: Option<String>) -> (r: Result<(), Error>)
    ensures
        result matches Some(m) ==> r == Result::<(), Error>::Err(Error::IoErrorWhenRename(m)),
        result is None ==> r is Ok,
{
    match result {
        Option::Some(m) => Err(Error::IoErrorWhenRename(m)),
        Option::None => Ok(()),
    }
}

/// With hash checking on, a 200 response whose bytes are identical to the
/// existing file's bytes leaves the task already satisfied: nothing is
/// rewritten and no failure is recorded.
pub proof fn lemma_identical_content_satisfied(
    resp: FetchResponse,
    existing: Seq<u8>,
    prior: Vec<u8>,
    only_binary: bool,
)
    requires
        resp.status == 200,
        !(only_binary && rejects_content_type(opt_str_view(resp.content_type))),
        prior@ == blake3_of(existing),
        resp.body@ == existing,
    ensures
        spec_on_fetch(FetchOutcome::Response(resp), Option::Some(prior), only_binary)
            is AlreadySatisfied,
{
}

/// With hash checking on, a 200 response whose digest differs from the
/// existing file's digest is the genuine conflict `DifferentFileExisted`,
/// classified non-ignorable.
pub proof fn lemma_conflicting_content_fails(
    resp: FetchResponse,
    existing: Seq<u8>,
    prior: Vec<u8>,
    only_binary: bool,
)
    requires
        resp.status == 200,
        !(only_binary && rejects_content_type(opt_str_view(resp.content_type))),
        prior@ == blake3_of(existing),
        blake3_of(resp.body@) != blake3_of(existing),
    ensures
        spec_on_fetch(FetchOutcome::Response(resp), Option::Some(prior), only_binary)
            == FetchStep::Fail(Error::DifferentFileExisted),
        !Error::DifferentFileExisted.spec_ignorable(),
{
}

/// A 404 response is `ResourceNotFound`; any other non-200 status is
/// `RequestNotOK` carrying the code; both are non-ignorable.
pub proof fn lemma_status_classification(
    resp: FetchResponse,
    prior: Option<Vec<u8>>,
    only_binary: bool,
)
    requires
        resp.status != 200,
    ensures
        resp.status == 404 ==> spec_on_fetch(FetchOutcome::Response(resp), prior, only_binary)
            == FetchStep::Fail(Error::ResourceNotFound),
        resp.status != 404 ==> spec_on_fetch(FetchOutcome::Response(resp), prior, only_binary)
            == FetchStep::Fail(Error::RequestNotOK(resp.status)),
        !Error::ResourceNotFound.spec_ignorable(),
        !Error::RequestNotOK(resp.status).spec_ignorable(),
{
}

/// With the binary-only filter on, a 200 response whose content type the
/// filter rejects ends as `FileIsNotBinary`, classified ignorable, and the
/// body is never written.
pub proof fn lemma_binary_filter(resp: FetchResponse, prior: Option<Vec<u8>>)
    requires
        resp.status == 200,
        rejects_content_type(opt_str_view(resp.content_type)),
    ensures
        spec_on_fetch(FetchOutcome::Response(resp), prior, true) == FetchStep::Fail(
            Error::FileIsNotBinary,
        ),
        Error::FileIsNotBinary.spec_ignorable(),
        !(spec_on_fetch(FetchOutcome::Response(resp), prior, true) is Write),
{
}

} // verus!
