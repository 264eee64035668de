//! Where the launcher keeps downloaded files, and whether a release's builds
//! are all on disk.

use vstd::prelude::*;
use crate::manifest::Builds;

verus! {

/// Root of everything the launcher downloads.
pub const DOWNLOADS_FOLDER: &'static str = "bymr-downloads";

/// Folder of the game builds.
pub const BUILD_FOLDER: &'static str = "bymr-downloads/swfs";

/// Folder of the Flash runtimes.
pub const RUNTIME_FOLDER: &'static str = "bymr-downloads/runtimes";

/// One of the three build variants of a release.
#[derive(Debug, Clone, Copy, PartialEq, Eq, Structural)]
pub enum Variant {
    Stable,
    Http,
    Local,
}

impl Variant {
    /// The variants in the order they are checked and downloaded.
    pub open spec fn spec_at(i: int) -> Variant {
        if i == 0 {
            Variant::Stable
        } else if i == 1 {
            Variant::Http
        } else {
            Variant::Local
        }
    }

    pub fn at(i: usize) -> (v: Variant)
        requires
            i < 3,
        ensures
            v == Variant::spec_at(i as int),
    {
        if i == 0 {
            Variant::Stable
        } else if i == 1 {
            Variant::Http
        } else {
            Variant::Local
        }
    }

    pub open spec fn spec_name(self) -> Seq<char> {
        match self {
            Variant::Stable => "stable"@,
            Variant::Http => "http"@,
            Variant::Local => "local"@,
        }
    }

    /// The variant's name as it appears in file names.
    pub fn name(self) -> (r: &'static str)
        ensures
            r@ == self.spec_name(),
    {
        match self {
            Variant::Stable => "stable",
            Variant::Http => "http",
            Variant::Local => "local",
        }
    }
}

impl Builds {
    pub open spec fn spec_reference(&self, v: Variant) -> String {
        match v {
            Variant::Stable => self.stable,
            Variant::Http => self.http,
            Variant::Local => self.local,
        }
    }

    /// The remote reference of variant `v`.
    pub fn reference(&self, v: Variant) -> (r: &String)
        ensures
            *r == self.spec_reference(v),
    {
        match v {
            Variant::Stable => &self.stable,
            Variant::Http => &self.http,
            Variant::Local => &self.local,
        }
    }
}

/// `<builds folder>/bymr-<variant>-<version>.swf`
pub open spec fn swf_path_of(v: Variant, version: Seq<char>) -> Seq<char> {
    BUILD_FOLDER@ + "/bymr-"@ + v.spec_name() + "-"@ + version + ".swf"@
}

/// `<runtimes folder>/<file name>`
pub open spec fn runtime_path_of(file_name: Seq<char>) -> Seq<char> {
    RUNTIME_FOLDER@ + "/"@ + file_name
}

/// The local file of build variant `v` of release `version`. An empty
/// version is not special: it yields a name that is simply never present.
pub fn swf_path(v: Variant, version: &str) -> (r: String)
    ensures
        r@ == swf_path_of(v, version@),
{
    let mut p = String::from_str(BUILD_FOLDER);
    p.append("/bymr-");
    p.append(v.name());
    p.append("-");
    p.append(version);
    p.append(".swf");
    p
}

/// The local file of the runtime named `file_name`.
pub fn runtime_path(file_name: &str) -> (r: String)
    ensures
        r@ == runtime_path_of(file_name@),
{
    let mut p = String::from_str(RUNTIME_FOLDER);
    p.append("/");
    p.append(file_name);
    p
}

/// The local files of all three variants of `version`, stable first, then
/// http, then local.
pub fn swf_paths(version: &str) -> (r: Vec<String>)
    ensures
        r@.len() == 3,
        forall|i: int| 0 <= i < 3 ==> #[trigger] r@[i]@ == swf_path_of(Variant::spec_at(i), version@),
{
    let mut r: Vec<String> = Vec::new();
    let mut i: usize = 0;
    while i < 3
        invariant
            i <= 3,
            r@.len() == i,
            forall|k: int| 0 <= k < i ==> #[trigger] r@[k]@ == swf_path_of(Variant::spec_at(k), version@),
        decreases 3 - i,
    {
        r.push(swf_path(Variant::at(i), version));
        i = i + 1;
    }
    r
}

/// The folders the launcher needs, parents before children.
pub fn download_folders() -> (r: Vec<&'static str>)
    ensures
        r@.len() == 3,
        r@[0]@ == DOWNLOADS_FOLDER@,
        r@[1]@ == BUILD_FOLDER@,
        r@[2]@ == RUNTIME_FOLDER@,
{
    vec![DOWNLOADS_FOLDER, BUILD_FOLDER, RUNTIME_FOLDER]
}

/// Whether `path` is among the files `existing`.
pub open spec fn is_listed(existing: Seq<String>, path: Seq<char>) -> bool {
    exists|j: int| 0 <= j < existing.len() && #[trigger] existing[j]@ == path
}

/// Whether the file of variant `v` of `version` is among `existing`.
pub open spec fn swf_present(existing: Seq<String>, v: Variant, version: Seq<char>) -> bool {
    is_listed(existing, swf_path_of(v, version))
}

/// Whether the files of all three variants of `version` are among `existing`.
pub open spec fn all_swfs_present(existing: Seq<String>, version: Seq<char>) -> bool {
    &&& swf_present(existing, Variant::Stable, version)
    &&& swf_present(existing, Variant::Http, version)
    &&& swf_present(existing, Variant::Local, version)
}

fn is_listed_exec(existing: &Vec<String>, path: &String) -> (r: bool)
    ensures
        r == is_listed(existing@, path@),
{
    let mut j: usize = 0;
    while j < existing.len()
        invariant
            j <= existing@.len(),
            forall|k: int| 0 <= k < j ==> #[trigger] existing@[k]@ != path@,
        decreases existing@.len() - j,
    {
        if existing[j] == *path {
            return true;
        }
        j = j + 1;
    }
    false
}

/// Whether every build variant of `version` is already downloaded, given the
/// files `existing` found on disk. The variant references in `builds` play no
/// part: a file's name depends on the variant and the version alone.
pub fn do_all_swfs_exist(builds: &Builds, version: &str, existing: &Vec<String>) -> (r: bool)
    ensures
        r == all_swfs_present(existing@, version@),
{
    let mut i: usize = 0;
    while i < 3
        invariant
            i <= 3,
            forall|k: int| 0 <= k < i ==> swf_present(existing@, #[trigger] Variant::spec_at(k), version@),
        decreases 3 - i,
    {
        let path = swf_path(Variant::at(i), version);
        if !is_listed_exec(existing, &path) {
            return false;
        }
        i = i + 1;
    }
    assert(swf_present(existing@, Variant::spec_at(0), version@));
    assert(swf_present(existing@, Variant::spec_at(1), version@));
    assert(swf_present(existing@, Variant::spec_at(2), version@));
    true
}

/// With the other two variants of `version` on disk, the answer of
/// `do_all_swfs_exist` is exactly whether variant `v` is: adding or removing
/// that one file turns the answer over.
pub proof fn lemma_one_missing_build_decides(existing: Seq<String>, version: Seq<char>, v: Variant)
    requires
        forall|w: Variant| w != v ==> swf_present(existing, w, version),
    ensures
        all_swfs_present(existing, version) == swf_present(existing, v, version),
{
    assert(v == Variant::Stable || v == Variant::Http || v == Variant::Local);
}

} // verus!
