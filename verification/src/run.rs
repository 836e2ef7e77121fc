//! The run-level decisions around the scheduler: validating the destination
//! root before any task is dispatched, and aggregating per-task outcomes into
//! the final failure list.

use vstd::prelude::*;

use crate::errors::Error;
use crate::registry::DownloadFailed;
use crate::worker::PathKind;

verus! {

/// The pre-flight decision for the destination root: a regular file in its
/// place aborts the whole run with `FolderExistedAsFile` before any task is
/// dispatched; a missing root is to be created (`Ok(true)`); an existing
/// directory needs nothing (`Ok(false)`).
pub open spec fn spec_preflight_root(kind: PathKind) -> Result<bool, Error> {
    match kind {
        PathKind::RegularFile => Result::Err(Error::FolderExistedAsFile),
        PathKind::Missing => Result::Ok(true),
        PathKind::Directory => Result::Ok(false),
    }
}

/// Decides what to do with the destination root before the run starts.
pub fn preflight_root(kind: PathKind) -> (r: Result<bool, Error>)
    ensures
        r == spec_preflight_root(kind),
{
    match kind {
        PathKind::RegularFile => Err(Error::FolderExistedAsFile),
        PathKind::Missing => Ok(true),
        PathKind::Directory => Ok(false),
    }
}

/// Maps the attempt to create the destination root to its outcome.
pub fn on_root_created(ok: bool) -> (r: Result<(), Error>)
    ensures
        ok ==> r is Ok,
        !ok ==> r == Result::<(), Error>::Err(Error::FailedToCreateFolder),
{
    if ok {
        Ok(())
    } else {
        Err(Error::FailedToCreateFolder)
    }
}

/// The record a finished task leaves: none on success, otherwise the task's
/// identity together with its failure kind.
pub fn outcome_record(
    url: String,
    path: String,
    filename: Option<String>,
    result: Result<(), Error>,
) -> (r: Option<DownloadFailed>)
    ensures
        result is Ok ==> r is None,
        result matches Err(e) ==> r == Option::Some(DownloadFailed { url, path, filename, err: e }),
{
    match result {
        Ok(()) => None,
        Err(err) => Some(DownloadFailed { url, path, filename, err }),
    }
}

/// The failure records among a run's per-task outcomes, in task order;
/// successes leave no trace.
pub open spec fn spec_failures(s: Seq<Option<DownloadFailed>>) -> Seq<DownloadFailed>
    decreases s.len(),
{
    if s.len() == 0 {
        Seq::empty()
    } else {
        match s[0] {
            Option::Some(f) => seq![f] + spec_failures(s.skip(1)),
            Option::None => spec_failures(s.skip(1)),
        }
    }
}

/// Collects the failure records of a finished run, dropping the successes and
/// keeping the failures in task order.
pub fn collect_failures(results: Vec<Option<DownloadFailed>>) -> (r: Vec<DownloadFailed>)
    ensures
        r@ == spec_failures(results@),
{
    let ghost all = results@;
    let mut rest = results;
    let mut out: Vec<DownloadFailed> = Vec::new();
    while rest.len() > 0
        invariant
            spec_failures(all) =~= out@ + spec_failures(rest@),
        decreases rest.len(),
    {
        let ghost before = rest@;
        let x = rest.remove(0);
        proof {
            assert(rest@ =~= before.skip(1));
        }
        match x {
            Option::Some(f) => {
                out.push(f);
                proof {
                    assert(out@ + spec_failures(rest@) =~= spec_failures(all));
                }
            },
            Option::None => {},
        }
    }
    proof {
        assert(spec_failures(rest@) =~= Seq::<DownloadFailed>::empty());
        assert(out@ =~= spec_failures(all));
    }
    out
}

} // verus!
