//! The remote and local version manifests and the platform runtime lookup.

use vstd::prelude::*;

verus! {

/// The three build variants a release is published in, each a reference
/// (a URL or a file name) to the same game asset.
#[derive(Debug, Clone)]
pub struct Builds {
    pub stable: String,
    pub http: String,
    pub local: String,
}

/// The Flash runtime file of each supported platform.
#[derive(Debug, Clone)]
pub struct FlashRuntimes {
    pub windows: String,
    pub darwin: String,
    pub linux: String,
}

/// The authoritative manifest served by the launcher endpoint.
///
/// `https_worked` records whether the secure transport reached the server
/// when this manifest was fetched; later downloads use the same transport.
#[derive(Debug, Clone)]
pub struct VersionManifest {
    pub current_game_version: String,
    pub current_launcher_version: String,
    pub builds: Builds,
    pub flash_runtimes: FlashRuntimes,
    pub https_worked: bool,
}

/// What the launcher believes is present on disk.
#[derive(Debug, Clone)]
pub struct LocalVersionManifest {
    pub current_game_version: String,
    pub current_launcher_version: String,
    pub builds: Builds,
    pub flash_runtimes: FlashRuntimes,
}

impl Builds {
    pub open spec fn is_empty(&self) -> bool {
        &&& self.stable@ == Seq::<char>::empty()
        &&& self.http@ == Seq::<char>::empty()
        &&& self.local@ == Seq::<char>::empty()
    }
}

impl FlashRuntimes {
    pub open spec fn is_empty(&self) -> bool {
        &&& self.windows@ == Seq::<char>::empty()
        &&& self.darwin@ == Seq::<char>::empty()
        &&& self.linux@ == Seq::<char>::empty()
    }
}

impl Default for Builds {
    fn default() -> (r: Self)
        ensures
            r.is_empty(),
    {
        Builds { stable: String::new(), http: String::new(), local: String::new() }
    }
}

impl Default for FlashRuntimes {
    fn default() -> (r: Self)
        ensures
            r.is_empty(),
    {
        FlashRuntimes { windows: String::new(), darwin: String::new(), linux: String::new() }
    }
}

impl Default for VersionManifest {
    fn default() -> (r: Self)
        ensures
            r.current_game_version@ == Seq::<char>::empty(),
            r.current_launcher_version@ == Seq::<char>::empty(),
            r.builds.is_empty(),
            r.flash_runtimes.is_empty(),
            !r.https_worked,
    {
        VersionManifest {
            current_game_version: String::new(),
            current_launcher_version: String::new(),
            builds: Builds::default(),
            flash_runtimes: FlashRuntimes::default(),
            https_worked: false,
        }
    }
}

impl Default for LocalVersionManifest {
    fn default() -> (r: Self)
        ensures
            r.current_game_version@ == Seq::<char>::empty(),
            r.current_launcher_version@ == Seq::<char>::empty(),
            r.builds.is_empty(),
            r.flash_runtimes.is_empty(),
    {
        LocalVersionManifest {
            current_game_version: String::new(),
            current_launcher_version: String::new(),
            builds: Builds::default(),
            flash_runtimes: FlashRuntimes::default(),
        }
    }
}

/// The error text for a platform that has no runtime.
pub open spec fn unsupported_platform_message(platform: Seq<char>) -> Seq<char> {
    "unsupported platform: "@ + platform
}

/// Whether `platform` is one of the identifiers the launcher ships a runtime for.
pub open spec fn is_supported_platform(platform: Seq<char>) -> bool {
    platform == "windows"@ || platform == "darwin"@ || platform == "linux"@
}

/// Picks the Flash runtime of `platform` out of a resolved manifest.
pub fn get_platform_flash_runtime(platform: &str, server_manifest: &VersionManifest) -> (r: Result<
    String,
    String,
>)
    ensures
        platform@ == "windows"@ ==> r == Ok::<String, String>(
            server_manifest.flash_runtimes.windows,
        ),
        platform@ == "darwin"@ ==> r == Ok::<String, String>(
            server_manifest.flash_runtimes.darwin,
        ),
        platform@ == "linux"@ ==> r == Ok::<String, String>(server_manifest.flash_runtimes.linux),
        !is_supported_platform(platform@) ==> (r matches Err(e) && e@
            == unsupported_platform_message(platform@)),
{
    proof {
        reveal_strlit("windows");
        reveal_strlit("darwin");
        reveal_strlit("linux");
        assert("windows"@.len() == 7 && "darwin"@.len() == 6 && "linux"@.len() == 5);
        assert("darwin"@[0] != "linux"@[0]);
    }
    let p = String::from_str(platform);
    let runtimes = &server_manifest.flash_runtimes;
    if p == String::from_str("windows") {
        Ok(runtimes.windows.clone())
    } else if p == String::from_str("darwin") {
        Ok(runtimes.darwin.clone())
    } else if p == String::from_str("linux") {
        Ok(runtimes.linux.clone())
    } else {
        let mut message = String::from_str("unsupported platform: ");
        message.append(platform);
        Err(message)
    }
}

} // verus!
