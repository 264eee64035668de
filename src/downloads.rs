//! Which file to download next, and where it goes.
//!
//! The caller performs each download and reports its outcome; the builds of
//! a release are fetched one after another and the first failure ends the
//! run.

use vstd::prelude::*;
use crate::layout::{runtime_path, runtime_path_of, swf_path, swf_path_of, Variant};
use crate::manifest::Builds;

verus! {

/// A single file transfer: fetch `url` and store it at `path`.
#[derive(Debug, Clone)]
pub struct Download {
    pub path: String,
    pub url: String,
}

/// What a build download run does next.
#[derive(Debug)]
pub enum DownloadStep {
    /// Transfer one more file, then report how it went.
    Fetch(Download),
    /// The run is over, with this result.
    Done(Result<(), String>),
}

/// The transfer of build variant `v` of `version`.
pub open spec fn is_swf_download(d: Download, builds: Builds, version: Seq<char>, v: Variant) -> bool {
    &&& d.path@ == swf_path_of(v, version)
    &&& d.url == builds.spec_reference(v)
}

/// What follows once `completed` builds have been attempted and the latest
/// attempt (or, before the first one, `Ok`) gave `last`.
pub open spec fn is_next_swf_step(
    builds: Builds,
    version: Seq<char>,
    completed: int,
    last: Result<(), String>,
    step: DownloadStep,
) -> bool {
    match last {
        Err(e) => step == DownloadStep::Done(Err(e)),
        Ok(_) => if completed >= 3 {
            step == DownloadStep::Done(Ok(()))
        } else {
            step matches DownloadStep::Fetch(d) && is_swf_download(
                d,
                builds,
                version,
                Variant::spec_at(completed),
            )
        },
    }
}

/// Decides the next step of downloading the builds of `version`: the stable,
/// http and local variants in turn, each to its file under the builds folder.
/// A failed transfer ends the run with that transfer's error, unchanged.
pub fn next_swf_download(builds: &Builds, version: &str, completed: usize, last: Result<(), String>) -> (r: DownloadStep)
    requires
        completed <= 3,
    ensures
        is_next_swf_step(*builds, version@, completed as int, last, r),
{
    match last {
        Err(e) => DownloadStep::Done(Err(e)),
        Ok(()) => {
            if completed >= 3 {
                DownloadStep::Done(Ok(()))
            } else {
                let v = Variant::at(completed);
                let path = swf_path(v, version);
                let url = builds.reference(v).clone();
                DownloadStep::Fetch(Download { path, url })
            }
        },
    }
}

/// The transfer of the runtime named `file_name`. A runtime is referenced by
/// its own file name: that name is both what is fetched and what is stored
/// under the runtimes folder.
pub fn runtime_download(file_name: &str) -> (r: Download)
    ensures
        r.path@ == runtime_path_of(file_name@),
        r.url@ == file_name@,
{
    Download { path: runtime_path(file_name), url: String::from_str(file_name) }
}

/// A run of build downloads stops at the first failure: when the first
/// variant succeeds and the second fails with `e`, the first two are
/// attempted in order, and instead of the third the run ends with `e`.
pub proof fn lemma_swf_downloads_stop_at_failure(
    builds: Builds,
    version: Seq<char>,
    e: String,
    first: DownloadStep,
    second: DownloadStep,
    third: DownloadStep,
)
    requires
        is_next_swf_step(builds, version, 0, Ok(()), first),
        is_next_swf_step(builds, version, 1, Ok(()), second),
        is_next_swf_step(builds, version, 2, Err(e), third),
    ensures
        first matches DownloadStep::Fetch(d) && is_swf_download(d, builds, version, Variant::Stable),
        second matches DownloadStep::Fetch(d) && is_swf_download(d, builds, version, Variant::Http),
        third == DownloadStep::Done(Err(e)),
{
}

/// Whatever has been done so far, a failed transfer is never followed by
/// another one: the run ends with the failure's error.
pub proof fn lemma_failure_ends_run(
    builds: Builds,
    version: Seq<char>,
    completed: int,
    e: String,
    step: DownloadStep,
)
    requires
        is_next_swf_step(builds, version, completed, Err(e), step),
    ensures
        step == DownloadStep::Done(Err(e)),
{
}

} // verus!
