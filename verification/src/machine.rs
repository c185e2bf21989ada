//! The resolution and provisioning cycle as a state machine of decisions.
//!
//! The machine owns every decision of a resolution call: the order of the
//! three tiers (cached path, search-path lookup, provisioning), the early
//! platform check, the download-or-skip choice, the cleanup plan and the
//! terminal outcome. The host glue performs each requested [`Action`]
//! (a network fetch, a file check, a removal, a status signal) and hands the
//! outcome back as the next [`Event`]; it decides nothing itself.

use vstd::prelude::*;

use crate::cleanup::{names_of, stale_entries, stale_of};
use crate::errors::ProvisionError;
use crate::platform::{
    Arch, Os, asset_name, asset_name_of, supported, unsupported_arch_word,
};
use crate::release::{Release, find_asset_url, has_asset, install_path, install_path_of, is_first_asset};

verus! {

/// The two progress states shown to the user while provisioning runs.
pub enum Status {
    CheckingForUpdate,
    Downloading,
}

/// Where a resolution call stands. The machine starts at `CacheCheck` and
/// ends at `Done` or `Failed`; every other state waits for the outcome of
/// exactly one kind of action.
pub enum Step {
    /// Waiting to learn whether the session's cached path is a regular file.
    CacheCheck { cached: String },
    /// Waiting for the search-path lookup of the well-known binary name.
    PathLookup,
    /// Waiting to learn the host's (OS, architecture) pair.
    PlatformCheck,
    /// Waiting for the release feed; the asset name is already computed.
    FetchingRelease { asset: String },
    /// Waiting to learn whether the install path already is a regular file.
    InstallCheck { url: String, install: String },
    /// Waiting for the download of the asset to the install path.
    AwaitDownload { install: String },
    /// Waiting for the working-directory listing.
    ListingDir { install: String },
    /// Waiting for the resolved file to be marked executable.
    MarkingExecutable { install: String },
    /// Terminal: resolution succeeded with this path.
    Done { path: String },
    /// Terminal: resolution failed; the error is surfaced to the caller.
    Failed { error: ProvisionError },
}

/// The outcome of the last requested action, reported by the host glue.
pub enum Event {
    /// Whether the checked path exists as a regular file.
    FileChecked { is_file: bool },
    /// What the search-path lookup returned.
    PathFound { path: Option<String> },
    /// The host's platform pair.
    PlatformKnown { os: Os, arch: Arch },
    /// The feed's latest qualifying release, or the feed client's message.
    ReleaseFetched { result: Result<Release, String> },
    /// The download's outcome.
    Downloaded { result: Result<(), String> },
    /// The working-directory listing, or how it failed.
    DirListed { result: Result<Vec<String>, DirFailure> },
    /// The outcome of marking the file executable.
    ExecMarked { result: Result<(), String> },
}

/// How a working-directory listing failed: the listing itself, or the read
/// of one of its entries.
pub enum DirFailure {
    Listing { cause: String },
    Entry { cause: String },
}

/// What the machine asks the host glue to do next.
pub enum Action {
    /// Show a progress state to the user; fire-and-forget.
    EmitStatus { status: Status },
    /// Report whether this path exists as a regular file.
    CheckFile { path: String },
    /// Look the name up on the host's executable search path.
    LookUpOnPath { name: String },
    /// Report the host's (OS, architecture) pair.
    QueryPlatform,
    /// Fetch the latest release of this repository from the feed, filtered to
    /// releases with assets and to full releases.
    FetchRelease { repo: String, require_assets: bool, pre_release: bool },
    /// Download the asset at `url` to `dest` as an uncompressed artifact.
    Download { url: String, dest: String },
    /// List the names of the working directory's entries.
    ListWorkDir,
    /// Remove these entries recursively, ignoring each removal's own failure.
    Remove { names: Vec<String> },
    /// Mark this path executable.
    MakeExecutable { path: String },
    /// The cycle is over; read the terminal state.
    Stop,
}

/// Which event answers which waiting state. Terminal states expect none.
pub open spec fn expects(pre: Step, e: Event) -> bool {
    match (pre, e) {
        (Step::CacheCheck { .. }, Event::FileChecked { .. }) => true,
        (Step::PathLookup, Event::PathFound { .. }) => true,
        (Step::PlatformCheck, Event::PlatformKnown { .. }) => true,
        (Step::FetchingRelease { .. }, Event::ReleaseFetched { .. }) => true,
        (Step::InstallCheck { .. }, Event::FileChecked { .. }) => true,
        (Step::AwaitDownload { .. }, Event::Downloaded { .. }) => true,
        (Step::ListingDir { .. }, Event::DirListed { .. }) => true,
        (Step::MarkingExecutable { .. }, Event::ExecMarked { .. }) => true,
        _ => false,
    }
}

/// The transition relation of the machine: from state `pre` on event `e`,
/// the next state is `post` and the requested actions are `acts`, in order.
/// It pins both completely.
pub open spec fn step_rel(pre: Step, e: Event, post: Step, acts: Seq<Action>) -> bool {
    match (pre, e) {
        (Step::CacheCheck { cached }, Event::FileChecked { is_file }) => {
            if is_file {
                &&& post matches Step::Done { path } && path@ == cached@
                &&& acts.len() == 1 && acts[0] is Stop
            } else {
                &&& post is PathLookup
                &&& acts.len() == 1
                &&& acts[0] matches Action::LookUpOnPath { name } && name@ == "neocmakelsp"@
            }
        },
        (Step::PathLookup, Event::PathFound { path }) => {
            match path {
                Some(p) => {
                    &&& post matches Step::Done { path: q } && q@ == p@
                    &&& acts.len() == 1 && acts[0] is Stop
                },
                None => {
                    &&& post is PlatformCheck
                    &&& acts.len() == 2
                    &&& acts[0] matches Action::EmitStatus { status } && status
                        is CheckingForUpdate
                    &&& acts[1] is QueryPlatform
                },
            }
        },
        (Step::PlatformCheck, Event::PlatformKnown { os, arch }) => {
            if supported(os, arch) {
                &&& post matches Step::FetchingRelease { asset } && asset@ == asset_name_of(
                    os,
                    arch,
                )
                &&& acts.len() == 1
                &&& acts[0] matches Action::FetchRelease { repo, require_assets, pre_release }
                    && repo@ == "Decodetalkers/neocmakelsp"@ && require_assets && !pre_release
            } else {
                &&& post matches Step::Failed { error } && (error
                    matches ProvisionError::UnsupportedPlatform { arch_word } && arch_word@
                    == unsupported_arch_word(arch))
                &&& acts.len() == 1 && acts[0] is Stop
            }
        },
        (Step::FetchingRelease { asset }, Event::ReleaseFetched { result }) => {
            match result {
                Ok(rel) => {
                    if has_asset(rel.assets@, asset@) {
                        &&& post matches Step::InstallCheck { url, install } && (exists|i: int|
                            is_first_asset(rel.assets@, asset@, i) && url@
                                == rel.assets@[i].download_url@) && install@ == install_path_of(
                            rel.version@,
                        )
                        &&& acts.len() == 1
                        &&& acts[0] matches Action::CheckFile { path } && path@
                            == install_path_of(rel.version@)
                    } else {
                        &&& post matches Step::Failed { error } && (error
                            matches ProvisionError::AssetNotFound { asset_name } && asset_name@
                            == asset@)
                        &&& acts.len() == 1 && acts[0] is Stop
                    }
                },
                Err(m) => {
                    &&& post matches Step::Failed { error } && (error
                        matches ProvisionError::ReleaseFetch { cause } && cause@ == m@)
                    &&& acts.len() == 1 && acts[0] is Stop
                },
            }
        },
        (Step::InstallCheck { url, install }, Event::FileChecked { is_file }) => {
            if is_file {
                &&& post matches Step::ListingDir { install: i2 } && i2@ == install@
                &&& acts.len() == 1 && acts[0] is ListWorkDir
            } else {
                &&& post matches Step::AwaitDownload { install: i2 } && i2@ == install@
                &&& acts.len() == 2
                &&& acts[0] matches Action::EmitStatus { status } && status is Downloading
                &&& acts[1] matches Action::Download { url: u, dest: d } && u@ == url@ && d@
                    == install@
            }
        },
        (Step::AwaitDownload { install }, Event::Downloaded { result }) => {
            match result {
                Ok(_) => {
                    &&& post matches Step::ListingDir { install: i2 } && i2@ == install@
                    &&& acts.len() == 1 && acts[0] is ListWorkDir
                },
                Err(m) => {
                    &&& post matches Step::Failed { error } && (error
                        matches ProvisionError::Download { cause } && cause@ == m@)
                    &&& acts.len() == 1 && acts[0] is Stop
                },
            }
        },
        (Step::ListingDir { install }, Event::DirListed { result }) => {
            match result {
                Ok(names) => {
                    &&& post matches Step::MarkingExecutable { install: i2 } && i2@ == install@
                    &&& acts.len() == 2
                    &&& acts[0] matches Action::Remove { names: rm } && names_of(rm@) == stale_of(
                        names_of(names@),
                        install@,
                    )
                    &&& acts[1] matches Action::MakeExecutable { path } && path@ == install@
                },
                Err(DirFailure::Listing { cause }) => {
                    &&& post matches Step::Failed { error } && (error
                        matches ProvisionError::DirectoryList { cause: c } && c@ == cause@)
                    &&& acts.len() == 1 && acts[0] is Stop
                },
                Err(DirFailure::Entry { cause }) => {
                    &&& post matches Step::Failed { error } && (error
                        matches ProvisionError::EntryRead { cause: c } && c@ == cause@)
                    &&& acts.len() == 1 && acts[0] is Stop
                },
            }
        },
        (Step::MarkingExecutable { install }, Event::ExecMarked { result }) => {
            match result {
                Ok(_) => {
                    &&& post matches Step::Done { path } && path@ == install@
                    &&& acts.len() == 1 && acts[0] is Stop
                },
                Err(m) => {
                    &&& post matches Step::Failed { error } && (error
                        matches ProvisionError::Permission { cause } && cause@ == m@)
                    &&& acts.len() == 1 && acts[0] is Stop
                },
            }
        },
        _ => false,
    }
}

/// Performs one transition of the machine: consumes the waiting state and the
/// event that answers it, and returns the next state with the actions the
/// host glue must perform next, exactly as the transition relation states.
pub fn step(pre: Step, e: Event) -> (r: (Step, Vec<Action>))
    requires
        expects(pre, e),
    ensures
        step_rel(pre, e, r.0, r.1@),
{
    match (pre, e) {
        (Step::CacheCheck { cached }, Event::FileChecked { is_file }) => {
            if is_file {
                (Step::Done { path: cached }, vec![Action::Stop])
            } else {
                (
                    Step::PathLookup,
                    vec![Action::LookUpOnPath { name: String::from_str("neocmakelsp") }],
                )
            }
        },
        (Step::PathLookup, Event::PathFound { path }) => {
            match path {
                Some(p) => (Step::Done { path: p }, vec![Action::Stop]),
                None => (
                    Step::PlatformCheck,
                    vec![
                        Action::EmitStatus { status: Status::CheckingForUpdate },
                        Action::QueryPlatform,
                    ],
                ),
            }
        },
        (Step::PlatformCheck, Event::PlatformKnown { os, arch }) => {
            match asset_name(os, arch) {
                Ok(name) => (
                    Step::FetchingRelease { asset: name },
                    vec![
                        Action::FetchRelease {
                            repo: String::from_str("Decodetalkers/neocmakelsp"),
                            require_assets: true,
                            pre_release: false,
                        },
                    ],
                ),
                Err(error) => (Step::Failed { error }, vec![Action::Stop]),
            }
        },
        (Step::FetchingRelease { asset }, Event::ReleaseFetched { result }) => {
            match result {
                Ok(rel) => {
                    match find_asset_url(&rel, &asset) {
                        Some(url) => {
                            let install = install_path(&rel.version);
                            let check = install.clone();
                            (
                                Step::InstallCheck { url, install },
                                vec![Action::CheckFile { path: check }],
                            )
                        },
                        None => (
                            Step::Failed {
                                error: ProvisionError::AssetNotFound { asset_name: asset },
                            },
                            vec![Action::Stop],
                        ),
                    }
                },
                Err(m) => (
                    Step::Failed { error: ProvisionError::ReleaseFetch { cause: m } },
                    vec![Action::Stop],
                ),
            }
        },
        (Step::InstallCheck { url, install }, Event::FileChecked { is_file }) => {
            if is_file {
                (Step::ListingDir { install }, vec![Action::ListWorkDir])
            } else {
                let dest = install.clone();
                (
                    Step::AwaitDownload { install },
                    vec![
                        Action::EmitStatus { status: Status::Downloading },
                        Action::Download { url, dest },
                    ],
                )
            }
        },
        (Step::AwaitDownload { install }, Event::Downloaded { result }) => {
            match result {
                Ok(_) => (Step::ListingDir { install }, vec![Action::ListWorkDir]),
                Err(m) => (
                    Step::Failed { error: ProvisionError::Download { cause: m } },
                    vec![Action::Stop],
                ),
            }
        },
        (Step::ListingDir { install }, Event::DirListed { result }) => {
            match result {
                Ok(names) => {
                    let rm = stale_entries(&names, &install);
                    let exec_path = install.clone();
                    (
                        Step::MarkingExecutable { install },
                        vec![
                            Action::Remove { names: rm },
                            Action::MakeExecutable { path: exec_path },
                        ],
                    )
                },
                Err(DirFailure::Listing { cause }) => (
                    Step::Failed { error: ProvisionError::DirectoryList { cause } },
                    vec![Action::Stop],
                ),
                Err(DirFailure::Entry { cause }) => (
                    Step::Failed { error: ProvisionError::EntryRead { cause } },
                    vec![Action::Stop],
                ),
            }
        },
        (Step::MarkingExecutable { install }, Event::ExecMarked { result }) => {
            match result {
                Ok(_) => (Step::Done { path: install }, vec![Action::Stop]),
                Err(m) => (
                    Step::Failed { error: ProvisionError::Permission { cause: m } },
                    vec![Action::Stop],
                ),
            }
        },
        _ => vstd::pervasive::unreached(),
    }
}

} // verus!
