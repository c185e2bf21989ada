//! Whole resolution cycles driven against a simulated host: the machine makes
//! every decision, the simulation performs the actions and reports events, as
//! the editor glue would.

use cmake_tools::machine::{step, Action, DirFailure, Event, Status, Step};
use cmake_tools::platform::{Arch, Os};
use cmake_tools::release::{Asset, Release};
use cmake_tools::session::CMakeTools;

/// A simulated host: a working directory of regular files, a search path,
/// a platform, a release feed, and counters for what was performed.
struct SimHost {
    files: Vec<String>,
    path_hit: Option<String>,
    os: Os,
    arch: Arch,
    feed_error: Option<String>,
    release_version: String,
    release_assets: Vec<(String, String)>,
    download_error: Option<String>,
    listing_failure: Option<&'static str>,
    exec_error: Option<String>,
    downloads: usize,
    fetches: usize,
    lookups: usize,
    statuses: Vec<&'static str>,
    removed: Vec<String>,
}

impl SimHost {
    fn new(os: Os, arch: Arch) -> SimHost {
        SimHost {
            files: Vec::new(),
            path_hit: None,
            os,
            arch,
            feed_error: None,
            release_version: String::from("1.0.0"),
            release_assets: Vec::new(),
            download_error: None,
            listing_failure: None,
            exec_error: None,
            downloads: 0,
            fetches: 0,
            lookups: 0,
            statuses: Vec::new(),
            removed: Vec::new(),
        }
    }

    fn release(&self) -> Result<Release, String> {
        if let Some(e) = &self.feed_error {
            return Err(e.clone());
        }
        Ok(Release {
            version: self.release_version.clone(),
            assets: self
                .release_assets
                .iter()
                .map(|(n, u)| Asset { name: n.clone(), download_url: u.clone() })
                .collect(),
        })
    }
}

/// Runs one full resolution cycle, performing each requested action against
/// the simulated host and answering with the outcome, exactly as the editor
/// glue does against the real host.
fn resolve(session: &mut CMakeTools, host: &mut SimHost) -> Result<String, String> {
    let (mut state, mut actions) = session.start_resolution();
    loop {
        let mut event: Option<Event> = None;
        let mut stopped = false;
        for action in actions {
            match action {
                Action::EmitStatus { status } => {
                    host.statuses.push(match status {
                        Status::CheckingForUpdate => "checking",
                        Status::Downloading => "downloading",
                    });
                }
                Action::CheckFile { path } => {
                    event = Some(Event::FileChecked { is_file: host.files.contains(&path) });
                }
                Action::LookUpOnPath { name } => {
                    assert_eq!(name, "neocmakelsp");
                    host.lookups += 1;
                    event = Some(Event::PathFound { path: host.path_hit.clone() });
                }
                Action::QueryPlatform => {
                    event = Some(Event::PlatformKnown { os: host.os, arch: host.arch });
                }
                Action::FetchRelease { repo, require_assets, pre_release } => {
                    assert_eq!(repo, "Decodetalkers/neocmakelsp");
                    assert!(require_assets);
                    assert!(!pre_release);
                    host.fetches += 1;
                    event = Some(Event::ReleaseFetched { result: host.release() });
                }
                Action::Download { url: _, dest } => {
                    host.downloads += 1;
                    let result = match &host.download_error {
                        Some(e) => Err(e.clone()),
                        None => {
                            host.files.push(dest);
                            Ok(())
                        }
                    };
                    event = Some(Event::Downloaded { result });
                }
                Action::ListWorkDir => {
                    let result = match host.listing_failure {
                        Some("listing") => {
                            Err(DirFailure::Listing { cause: String::from("io oops") })
                        }
                        Some(_) => Err(DirFailure::Entry { cause: String::from("io oops") }),
                        None => Ok(host.files.clone()),
                    };
                    event = Some(Event::DirListed { result });
                }
                Action::Remove { names } => {
                    host.files.retain(|f| !names.contains(f));
                    host.removed.extend(names);
                }
                Action::MakeExecutable { path: _ } => {
                    let result = match &host.exec_error {
                        Some(e) => Err(e.clone()),
                        None => Ok(()),
                    };
                    event = Some(Event::ExecMarked { result });
                }
                Action::Stop => {
                    stopped = true;
                }
            }
        }
        if stopped {
            return match state {
                Step::Done { path } => {
                    session.note_resolved(&path);
                    Ok(path)
                }
                Step::Failed { error } => Err(error.message()),
                _ => panic!("the machine stopped in a non-terminal state"),
            };
        }
        let e = event.expect("a waiting state must have requested an answerable action");
        let (next, next_actions) = step(state, e);
        state = next;
        actions = next_actions;
    }
}

fn linux_host_with_release() -> SimHost {
    let mut host = SimHost::new(Os::Linux, Arch::X8664);
    host.release_assets = vec![
        (
            String::from("neocmakelsp-aarch64-unknown-linux-gnu"),
            String::from("https://feed/arm"),
        ),
        (
            String::from("neocmakelsp-x86_64-unknown-linux-gnu"),
            String::from("https://feed/x86_64"),
        ),
    ];
    host
}

#[test]
fn cache_hit_short_circuits() {
    let mut host = linux_host_with_release();
    host.files.push(String::from("neocmakelsp-0.9.9"));
    host.path_hit = Some(String::from("/usr/bin/neocmakelsp"));
    let mut session = CMakeTools::new();
    session.note_resolved(&String::from("neocmakelsp-0.9.9"));
    let resolved = resolve(&mut session, &mut host).unwrap();
    assert_eq!(resolved, "neocmakelsp-0.9.9");
    assert_eq!(host.lookups, 0, "the search path must not be consulted on a cache hit");
    assert_eq!(host.fetches, 0, "the feed must not be queried on a cache hit");
    assert_eq!(host.downloads, 0);
    assert!(host.statuses.is_empty());
}

#[test]
fn search_path_precedence() {
    let mut host = linux_host_with_release();
    host.files.push(String::from("unrelated.txt"));
    host.path_hit = Some(String::from("/usr/bin/neocmakelsp"));
    let mut session = CMakeTools::new();
    let resolved = resolve(&mut session, &mut host).unwrap();
    assert_eq!(resolved, "/usr/bin/neocmakelsp");
    assert_eq!(host.lookups, 1);
    assert_eq!(host.fetches, 0, "a search-path hit must not query the feed");
    assert_eq!(host.downloads, 0, "a search-path hit must not download");
    assert_eq!(host.files, vec![String::from("unrelated.txt")], "the working directory is untouched");
    assert!(host.removed.is_empty());
}

#[test]
fn full_provisioning_downloads_and_cleans() {
    let mut host = linux_host_with_release();
    host.files.push(String::from("neocmakelsp-0.9.0"));
    host.files.push(String::from("scratch.txt"));
    let mut session = CMakeTools::new();
    let resolved = resolve(&mut session, &mut host).unwrap();
    assert_eq!(resolved, "neocmakelsp-1.0.0");
    assert_eq!(host.downloads, 1);
    assert_eq!(host.statuses, vec!["checking", "downloading"]);
    assert_eq!(
        host.files,
        vec![String::from("neocmakelsp-1.0.0")],
        "exactly the current version survives the cleanup"
    );
    assert_eq!(session.lsp_path, "neocmakelsp-1.0.0");
}

#[test]
fn provisioning_twice_downloads_once() {
    let mut host = linux_host_with_release();
    let mut first = CMakeTools::new();
    resolve(&mut first, &mut host).unwrap();
    assert_eq!(host.downloads, 1);

    // A fresh session with no cached path and no search-path hit provisions
    // again for the same release version: the installed file is found and the
    // download is skipped.
    let mut second = CMakeTools::new();
    let resolved = resolve(&mut second, &mut host).unwrap();
    assert_eq!(resolved, "neocmakelsp-1.0.0");
    assert_eq!(host.downloads, 1, "the second cycle must not download again");
    assert_eq!(host.statuses, vec!["checking", "downloading", "checking"]);
    assert_eq!(host.files, vec![String::from("neocmakelsp-1.0.0")]);
}

#[test]
fn windows_provisioning_uses_exe_asset() {
    let mut host = SimHost::new(Os::Windows, Arch::X8664);
    host.release_version = String::from("0.8.23");
    host.release_assets = vec![(
        String::from("neocmakelsp-x86_64-pc-windows-msvc.exe"),
        String::from("https://feed/win"),
    )];
    let mut session = CMakeTools::new();
    let resolved = resolve(&mut session, &mut host).unwrap();
    assert_eq!(resolved, "neocmakelsp-0.8.23");
    assert_eq!(host.downloads, 1);
    assert_eq!(host.files, vec![String::from("neocmakelsp-0.8.23")]);
}

#[test]
fn unsupported_platform_makes_no_network_call() {
    let mut host = linux_host_with_release();
    host.os = Os::Windows;
    host.arch = Arch::Aarch64;
    let mut session = CMakeTools::new();
    let err = resolve(&mut session, &mut host).unwrap_err();
    assert_eq!(err, "unsupported platform aarch64");
    assert_eq!(host.fetches, 0, "an unsupported platform must not reach the feed");
    assert_eq!(host.downloads, 0);
}

#[test]
fn x86_makes_no_network_call() {
    let mut host = linux_host_with_release();
    host.arch = Arch::X86;
    let mut session = CMakeTools::new();
    let err = resolve(&mut session, &mut host).unwrap_err();
    assert_eq!(err, "unsupported platform x86");
    assert_eq!(host.fetches, 0);
    assert_eq!(host.downloads, 0);
}

#[test]
fn missing_asset_fails_and_leaves_directory_alone() {
    let mut host = SimHost::new(Os::Mac, Arch::Aarch64);
    host.release_assets = vec![(
        String::from("neocmakelsp-x86_64-apple-darwin"),
        String::from("https://feed/mac-x86_64"),
    )];
    host.files.push(String::from("neocmakelsp-0.9.0"));
    let mut session = CMakeTools::new();
    let err = resolve(&mut session, &mut host).unwrap_err();
    assert_eq!(err, "no asset found matching \"neocmakelsp-aarch64-apple-darwin\"");
    assert_eq!(host.downloads, 0);
    assert!(host.removed.is_empty());
    assert_eq!(host.files, vec![String::from("neocmakelsp-0.9.0")], "the working directory is unchanged");
}

#[test]
fn feed_failure_is_surfaced() {
    let mut host = linux_host_with_release();
    host.feed_error = Some(String::from("feed down"));
    let mut session = CMakeTools::new();
    let err = resolve(&mut session, &mut host).unwrap_err();
    assert_eq!(err, "feed down");
}

#[test]
fn download_failure_is_wrapped() {
    let mut host = linux_host_with_release();
    host.download_error = Some(String::from("timed out"));
    let mut session = CMakeTools::new();
    let err = resolve(&mut session, &mut host).unwrap_err();
    assert_eq!(err, "failed to download file: timed out");
}

#[test]
fn listing_failure_is_hard() {
    let mut host = linux_host_with_release();
    host.listing_failure = Some("listing");
    let mut session = CMakeTools::new();
    let err = resolve(&mut session, &mut host).unwrap_err();
    assert_eq!(err, "failed to list working directory io oops");
}

#[test]
fn entry_read_failure_is_hard() {
    let mut host = linux_host_with_release();
    host.listing_failure = Some("entry");
    let mut session = CMakeTools::new();
    let err = resolve(&mut session, &mut host).unwrap_err();
    assert_eq!(err, "failed to load directory entry io oops");
}

#[test]
fn permission_failure_is_surfaced() {
    let mut host = linux_host_with_release();
    host.exec_error = Some(String::from("denied"));
    let mut session = CMakeTools::new();
    let err = resolve(&mut session, &mut host).unwrap_err();
    assert_eq!(err, "denied");
}
