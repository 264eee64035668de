use bymr_launcher::downloads::{next_swf_download, runtime_download, DownloadStep};
use bymr_launcher::layout::{
    do_all_swfs_exist, download_folders, runtime_path, swf_path, swf_paths, Variant,
};
use bymr_launcher::manifest::{
    get_platform_flash_runtime, Builds, FlashRuntimes, LocalVersionManifest, VersionManifest,
};
use bymr_launcher::resolver::{
    after_fetch, decimal, download_url, finish_version_info, version_info_url, FetchOutcome,
    ResolveAction, Transport,
};

fn builds() -> Builds {
    Builds { stable: "u1".to_string(), http: "u2".to_string(), local: "u3".to_string() }
}

fn manifest() -> VersionManifest {
    VersionManifest {
        current_game_version: "1.2.3".to_string(),
        current_launcher_version: "0.4.0".to_string(),
        builds: builds(),
        flash_runtimes: FlashRuntimes {
            windows: "flashplayer.exe".to_string(),
            darwin: "flashplayer.dmg".to_string(),
            linux: "flashplayer".to_string(),
        },
        https_worked: false,
    }
}

fn unreachable(message: &str, status: Option<u16>, cause: &str) -> FetchOutcome {
    FetchOutcome::Unreachable {
        message: message.to_string(),
        status,
        cause: cause.to_string(),
    }
}

/// Drives a build download run, answering each transfer with the next of
/// `outcomes`; returns the transfers attempted and the run's result.
fn run_swf_downloads(
    b: &Builds,
    version: &str,
    outcomes: Vec<Result<(), String>>,
) -> (Vec<(String, String)>, Result<(), String>) {
    let mut attempted = Vec::new();
    let mut completed: usize = 0;
    let mut last: Result<(), String> = Ok(());
    loop {
        match next_swf_download(b, version, completed, last) {
            DownloadStep::Fetch(d) => {
                attempted.push((d.path, d.url));
                last = outcomes[completed].clone();
                completed += 1;
            }
            DownloadStep::Done(r) => return (attempted, r),
        }
    }
}

#[test]
fn platform_runtime_for_each_supported_platform() {
    let m = manifest();
    assert_eq!(get_platform_flash_runtime("windows", &m), Ok("flashplayer.exe".to_string()));
    assert_eq!(get_platform_flash_runtime("darwin", &m), Ok("flashplayer.dmg".to_string()));
    assert_eq!(get_platform_flash_runtime("linux", &m), Ok("flashplayer".to_string()));
}

#[test]
fn platform_runtime_unsupported_platforms() {
    let m = manifest();
    for p in ["freebsd", "", "Windows", "linux ", "win"] {
        assert_eq!(
            get_platform_flash_runtime(p, &m),
            Err(format!("unsupported platform: {}", p))
        );
    }
}

#[test]
fn https_success_reads_body_and_sets_flag() {
    let step = after_fetch(Transport::Https, FetchOutcome::Responded { status: 200 });
    assert_eq!(step.notice, Some("Launcher successfully connected over https".to_string()));
    assert!(matches!(step.action, ResolveAction::ReadBody { https_worked: true }));
    let r = finish_version_info(true, Ok(manifest())).unwrap();
    assert!(r.https_worked);
    assert_eq!(r.current_game_version, "1.2.3");
    assert_eq!(r.builds.http, "u2");
}

#[test]
fn https_failure_falls_back_to_http() {
    let first = after_fetch(Transport::Https, unreachable("dns error", None, "Some(dns)"));
    assert_eq!(
        first.notice,
        Some("Could not access over https, attempting http: dns error".to_string())
    );
    assert!(matches!(first.action, ResolveAction::Fetch(Transport::Http)));
    let second = after_fetch(Transport::Http, FetchOutcome::Responded { status: 204 });
    assert_eq!(second.notice, None);
    assert!(matches!(second.action, ResolveAction::ReadBody { https_worked: false }));
    let mut served = manifest();
    served.https_worked = true;
    let r = finish_version_info(false, Ok(served)).unwrap();
    assert!(!r.https_worked);
    assert_eq!(r.flash_runtimes.linux, "flashplayer");
}

#[test]
fn both_transports_unreachable_fail() {
    let first = after_fetch(Transport::Https, unreachable("refused", None, "None"));
    assert!(matches!(first.action, ResolveAction::Fetch(Transport::Http)));
    let second = after_fetch(Transport::Http, unreachable("refused", None, "Some(io)"));
    assert_eq!(
        second.notice,
        Some(
            "Could not access over http, please check the server status on our discord: refused"
                .to_string()
        )
    );
    match second.action {
        ResolveAction::Fail(e) => assert_eq!(e, "Error code: None, cause: Some(io)"),
        other => panic!("expected a failure, got {:?}", other),
    }
    let with_status = after_fetch(Transport::Http, unreachable("bad gateway", Some(502), "None"));
    match with_status.action {
        ResolveAction::Fail(e) => assert_eq!(e, "Error code: Some(502), cause: None"),
        other => panic!("expected a failure, got {:?}", other),
    }
}

#[test]
fn error_status_fails_without_fallback() {
    let step = after_fetch(Transport::Https, FetchOutcome::Responded { status: 404 });
    assert_eq!(step.notice, Some("Launcher successfully connected over https".to_string()));
    match step.action {
        ResolveAction::Fail(e) => assert_eq!(e, "Error code: 404"),
        other => panic!("expected a failure, got {:?}", other),
    }
    let step = after_fetch(Transport::Http, FetchOutcome::Responded { status: 500 });
    assert_eq!(step.notice, None);
    match step.action {
        ResolveAction::Fail(e) => assert_eq!(e, "Error code: 500"),
        other => panic!("expected a failure, got {:?}", other),
    }
}

#[test]
fn success_range_edges() {
    for (status, ok) in [(199u16, false), (200, true), (299, true), (300, false), (301, false)] {
        let step = after_fetch(Transport::Https, FetchOutcome::Responded { status });
        assert_eq!(matches!(step.action, ResolveAction::ReadBody { .. }), ok, "status {}", status);
    }
}

#[test]
fn undecodable_body_fails_with_its_error() {
    let r = finish_version_info(true, Err("expected value at line 1 column 1".to_string()));
    assert_eq!(r.unwrap_err(), "expected value at line 1 column 1");
}

#[test]
fn decimal_digits() {
    assert_eq!(decimal(0), "0");
    assert_eq!(decimal(7), "7");
    assert_eq!(decimal(10), "10");
    assert_eq!(decimal(404), "404");
    assert_eq!(decimal(65535), "65535");
}

#[test]
fn manifest_and_download_urls() {
    assert_eq!(version_info_url(Transport::Https), "https://api.bymrefitted.com/launcher.json");
    assert_eq!(version_info_url(Transport::Http), "http://api.bymrefitted.com/launcher.json");
    assert_eq!(
        download_url("flashplayer.exe", Transport::Http),
        "http://api.bymrefitted.com/launcher/downloads/flashplayer.exe"
    );
    assert_eq!(Transport::for_downloads(true), Transport::Https);
    assert_eq!(Transport::for_downloads(false), Transport::Http);
}

#[test]
fn probed_build_paths_for_version() {
    assert_eq!(
        swf_paths("1.2.3"),
        vec![
            "bymr-downloads/swfs/bymr-stable-1.2.3.swf".to_string(),
            "bymr-downloads/swfs/bymr-http-1.2.3.swf".to_string(),
            "bymr-downloads/swfs/bymr-local-1.2.3.swf".to_string(),
        ]
    );
    assert_eq!(swf_path(Variant::Local, ""), "bymr-downloads/swfs/bymr-local-.swf");
}

#[test]
fn all_builds_exist_iff_each_file_present() {
    let b = builds();
    let all = swf_paths("1.2.3");
    assert!(do_all_swfs_exist(&b, "1.2.3", &all));
    for missing in 0..3 {
        let mut some: Vec<String> = all.clone();
        some.remove(missing);
        some.push("bymr-downloads/swfs/unrelated.swf".to_string());
        assert!(!do_all_swfs_exist(&b, "1.2.3", &some));
    }
    assert!(!do_all_swfs_exist(&b, "1.2.4", &all));
    assert!(!do_all_swfs_exist(&b, "1.2.3", &Vec::new()));
    assert!(!do_all_swfs_exist(&b, "", &all));
}

#[test]
fn build_downloads_in_order() {
    let (attempted, r) = run_swf_downloads(&builds(), "1.2.3", vec![Ok(()), Ok(()), Ok(())]);
    assert_eq!(r, Ok(()));
    assert_eq!(
        attempted,
        vec![
            ("bymr-downloads/swfs/bymr-stable-1.2.3.swf".to_string(), "u1".to_string()),
            ("bymr-downloads/swfs/bymr-http-1.2.3.swf".to_string(), "u2".to_string()),
            ("bymr-downloads/swfs/bymr-local-1.2.3.swf".to_string(), "u3".to_string()),
        ]
    );
}

#[test]
fn build_downloads_stop_at_second_failure() {
    let (attempted, r) = run_swf_downloads(
        &builds(),
        "1.2.3",
        vec![Ok(()), Err("http variant failed".to_string()), Ok(())],
    );
    assert_eq!(r, Err("http variant failed".to_string()));
    assert_eq!(attempted.len(), 2);
    assert_eq!(attempted[0].1, "u1");
    assert_eq!(attempted[1].1, "u2");
}

#[test]
fn build_downloads_stop_at_first_failure() {
    let (attempted, r) =
        run_swf_downloads(&builds(), "9", vec![Err("offline".to_string()), Ok(()), Ok(())]);
    assert_eq!(r, Err("offline".to_string()));
    assert_eq!(attempted, vec![("bymr-downloads/swfs/bymr-stable-9.swf".to_string(), "u1".to_string())]);
}

#[test]
fn runtime_download_uses_file_name_as_reference() {
    let d = runtime_download("flashplayer.exe");
    assert_eq!(d.path, "bymr-downloads/runtimes/flashplayer.exe");
    assert_eq!(d.url, "flashplayer.exe");
    assert_eq!(runtime_path("x"), "bymr-downloads/runtimes/x");
}

#[test]
fn variant_names_and_references() {
    let b = builds();
    assert_eq!(Variant::at(0).name(), "stable");
    assert_eq!(Variant::at(1).name(), "http");
    assert_eq!(Variant::at(2).name(), "local");
    assert_eq!(b.reference(Variant::Http), "u2");
    assert_eq!(b.reference(Variant::Local), "u3");
}

#[test]
fn folders_parents_first() {
    assert_eq!(
        download_folders(),
        vec!["bymr-downloads", "bymr-downloads/swfs", "bymr-downloads/runtimes"]
    );
}

#[test]
fn defaults_are_empty() {
    let m = VersionManifest::default();
    assert_eq!(m.current_game_version, "");
    assert_eq!(m.builds.stable, "");
    assert_eq!(m.flash_runtimes.darwin, "");
    assert!(!m.https_worked);
    let l = LocalVersionManifest::default();
    assert_eq!(l.current_launcher_version, "");
    assert_eq!(l.builds.local, "");
    assert_eq!(l.flash_runtimes.windows, "");
}
