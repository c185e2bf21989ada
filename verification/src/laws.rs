//! The laws of the resolution cycle, proved of the machine's transition
//! relation: what the three-tier ordering short-circuits, when no network
//! action is ever requested, when a download is skipped, and what cleanup
//! leaves behind.

use vstd::prelude::*;

use crate::cleanup::{lemma_cleanup_invariant, lemma_stale_membership, names_of, stale_of};
use crate::errors::ProvisionError;
use crate::machine::{expects, Action, Event, Step, step_rel};
use crate::platform::{Arch, Os, supported};
use crate::release::has_asset;

verus! {

/// The actions that reach the network: the release-feed query and the
/// asset download.
pub open spec fn is_network_action(a: Action) -> bool {
    ||| a matches Action::FetchRelease { .. }
    ||| a matches Action::Download { .. }
}

/// The actions that change the working directory or what is in it: a
/// download writes into it, a removal deletes from it, and marking a file
/// executable changes an entry's metadata.
pub open spec fn alters_workdir(a: Action) -> bool {
    ||| a matches Action::Download { .. }
    ||| a matches Action::Remove { .. }
    ||| a matches Action::MakeExecutable { .. }
}

/// The transitions before the platform check — the cached-path check and the
/// search-path lookup — never request a network action, whatever their
/// events say.
pub proof fn lemma_no_network_before_platform_check(
    pre: Step,
    e: Event,
    post: Step,
    acts: Seq<Action>,
)
    requires
        step_rel(pre, e, post, acts),
        pre matches Step::CacheCheck { .. } || pre is PathLookup,
    ensures
        forall|i: int| 0 <= i < acts.len() ==> !is_network_action(#[trigger] acts[i]),
{
}

/// An unsupported (OS, architecture) pair — 32-bit x86 on any OS, or 64-bit
/// ARM on Windows — fails at the platform check with the
/// unsupported-platform error, and that transition requests no network
/// action. With [`lemma_no_network_before_platform_check`] covering every
/// earlier transition, a resolution on an unsupported platform performs no
/// network call at all.
pub proof fn lemma_unsupported_platform_fails(os: Os, arch: Arch, post: Step, acts: Seq<Action>)
    requires
        !supported(os, arch),
        step_rel(Step::PlatformCheck, Event::PlatformKnown { os, arch }, post, acts),
    ensures
        post matches Step::Failed { error } && error
            matches ProvisionError::UnsupportedPlatform { .. },
        forall|i: int| 0 <= i < acts.len() ==> !is_network_action(#[trigger] acts[i]),
{
}

/// Cache-hit short-circuit: when the session's stored path turns out to be an
/// existing regular file, resolution returns exactly that path and stops.
/// Every requested action is the terminal one, so no search-path lookup, no
/// feed query, no download and no change to the working directory follows.
pub proof fn lemma_cache_hit_short_circuit(pre: Step, post: Step, acts: Seq<Action>)
    requires
        pre matches Step::CacheCheck { .. },
        step_rel(pre, Event::FileChecked { is_file: true }, post, acts),
    ensures
        pre matches Step::CacheCheck { cached } ==> (post matches Step::Done { path } && path@
            == cached@),
        forall|i: int| 0 <= i < acts.len() ==> (#[trigger] acts[i]) is Stop,
        forall|i: int|
            0 <= i < acts.len() ==> !is_network_action(#[trigger] acts[i]) && !alters_workdir(
                acts[i],
            ),
{
}

/// Search-path precedence: when no cached file exists but the lookup finds
/// the well-known binary name on the host's search path, resolution returns
/// that path and stops — without any download and without touching the
/// working directory.
pub proof fn lemma_path_precedence(e: Event, post: Step, acts: Seq<Action>)
    requires
        e matches Event::PathFound { path } && path is Some,
        step_rel(Step::PathLookup, e, post, acts),
    ensures
        e matches Event::PathFound { path: Some(p) } ==> (post matches Step::Done { path: q }
            && q@ == p@),
        forall|i: int| 0 <= i < acts.len() ==> (#[trigger] acts[i]) is Stop,
        forall|i: int|
            0 <= i < acts.len() ==> !is_network_action(#[trigger] acts[i]) && !alters_workdir(
                acts[i],
            ),
{
}

/// Missing asset: when the fetched release has no asset bearing the computed
/// name, resolution fails with the asset-not-found error naming that asset,
/// and the transition requests nothing but the terminal action — the working
/// directory is left unchanged.
pub proof fn lemma_missing_asset(pre: Step, e: Event, post: Step, acts: Seq<Action>)
    requires
        step_rel(pre, e, post, acts),
        pre matches Step::FetchingRelease { asset } && (e matches Event::ReleaseFetched { result }
            && result matches Ok(rel) && !has_asset(rel.assets@, asset@)),
    ensures
        pre matches Step::FetchingRelease { asset } ==> (post matches Step::Failed { error }
            && error matches ProvisionError::AssetNotFound { asset_name } && asset_name@
            == asset@),
        forall|i: int| 0 <= i < acts.len() ==> (#[trigger] acts[i]) is Stop,
        forall|i: int| 0 <= i < acts.len() ==> !alters_workdir(#[trigger] acts[i]),
{
}

/// Idempotence, the skip half: when the install path for the resolved
/// version already exists as a regular file — as it does on any cycle after
/// a first successful one — the machine moves straight to cleanup and
/// requests no network action at all: the download is skipped.
pub proof fn lemma_repeat_provision_skips_download(pre: Step, post: Step, acts: Seq<Action>)
    requires
        pre matches Step::InstallCheck { .. },
        step_rel(pre, Event::FileChecked { is_file: true }, post, acts),
    ensures
        post matches Step::ListingDir { .. },
        forall|i: int| 0 <= i < acts.len() ==> !is_network_action(#[trigger] acts[i]),
{
}

/// Idempotence, the download half: when the install path is not yet present,
/// the machine requests exactly one download — of the located asset's URL to
/// the install path — and nothing else that reaches the network. Together
/// with [`lemma_repeat_provision_skips_download`] this gives one download
/// across repeated provisioning of one version: the first successful cycle
/// downloads, every later cycle finds the file and skips.
pub proof fn lemma_first_provision_downloads_once(pre: Step, post: Step, acts: Seq<Action>)
    requires
        pre matches Step::InstallCheck { .. },
        step_rel(pre, Event::FileChecked { is_file: false }, post, acts),
    ensures
        pre matches Step::InstallCheck { url, install } ==> {
            &&& post matches Step::AwaitDownload { install: i2 } && i2@ == install@
            &&& acts.len() == 2
            &&& acts[1] matches Action::Download { url: u, dest: d } && u@ == url@ && d@
                == install@
            &&& !is_network_action(acts[0])
        },
{
}

/// Cleanup invariant: on a working-directory listing that contains the
/// install path, the machine requests the removal of exactly the stale
/// entries, so that of the listed names the install path and nothing else
/// survives the cleanup.
pub proof fn lemma_cycle_cleanup(pre: Step, e: Event, post: Step, acts: Seq<Action>)
    requires
        step_rel(pre, e, post, acts),
        pre matches Step::ListingDir { install } && (e matches Event::DirListed { result }
            && result matches Ok(names) && names_of(names@).contains(install@)),
    ensures
        pre matches Step::ListingDir { install } ==> (e matches Event::DirListed {
            result: Ok(names) } ==> (acts[0] matches Action::Remove { names: rm } && forall|
            n: Seq<char>,
        |
            (names_of(names@).contains(n) && !names_of(rm@).contains(n)) <==> n == install@)),
{
    if let Step::ListingDir { install } = pre {
        if let Event::DirListed { result: Ok(names) } = e {
            lemma_cleanup_invariant(names_of(names@), install@);
        }
    }
}

/// A terminal state ends the cycle: once the machine is done or failed it
/// expects no further event, so a cache hit or a search-path hit really is a
/// short circuit — nothing can follow it in any run.
pub proof fn lemma_terminal_states_expect_nothing(s: Step, e: Event)
    requires
        s matches Step::Done { .. } || s matches Step::Failed { .. },
    ensures
        !expects(s, e),
{
}

/// One run of the machine: before anything it stands at `states[0]`, and for
/// each position it takes the event there, moves to the next state and
/// requests the actions there, as the transition relation says.
pub open spec fn is_run(states: Seq<Step>, events: Seq<Event>, actss: Seq<Seq<Action>>) -> bool {
    &&& states.len() == events.len() + 1
    &&& actss.len() == events.len()
    &&& forall|i: int|
        0 <= i < events.len() ==> #[trigger] step_rel(states[i], events[i], states[i + 1], actss[i])
}

/// Whether every platform report in a run names an unsupported pair.
pub open spec fn reports_only_unsupported(events: Seq<Event>) -> bool {
    forall|i: int|
        0 <= i < events.len() ==> ((#[trigger] events[i]) matches Event::PlatformKnown { os, arch }
            ==> !supported(os, arch))
}

/// The states a run reaches only by passing the platform check with a
/// supported pair.
pub open spec fn past_platform_check(s: Step) -> bool {
    ||| s matches Step::FetchingRelease { .. }
    ||| s matches Step::InstallCheck { .. }
    ||| s matches Step::AwaitDownload { .. }
    ||| s matches Step::ListingDir { .. }
    ||| s matches Step::MarkingExecutable { .. }
}

proof fn lemma_no_network_step(pre: Step, e: Event, post: Step, acts: Seq<Action>)
    requires
        step_rel(pre, e, post, acts),
        !past_platform_check(pre),
        e matches Event::PlatformKnown { os, arch } ==> !supported(os, arch),
    ensures
        !past_platform_check(post),
        forall|i: int| 0 <= i < acts.len() ==> !is_network_action(#[trigger] acts[i]),
{
}

proof fn lemma_run_stays_before_platform(
    states: Seq<Step>,
    events: Seq<Event>,
    actss: Seq<Seq<Action>>,
    k: int,
)
    requires
        is_run(states, events, actss),
        0 <= k < states.len(),
        !past_platform_check(states[0]),
        reports_only_unsupported(events),
    ensures
        !past_platform_check(states[k]),
    decreases k,
{
    if k > 0 {
        lemma_run_stays_before_platform(states, events, actss, k - 1);
        assert(step_rel(states[k - 1], events[k - 1], states[(k - 1) + 1], actss[k - 1]));
        lemma_no_network_step(states[k - 1], events[k - 1], states[k], actss[k - 1]);
    }
}

/// A resolution on an unsupported platform performs no network call at all:
/// along any run of the machine that starts at the cached-path check and
/// whose platform reports all name unsupported pairs, no requested action is
/// a release fetch or a download — whatever else the host answers, and
/// however long the run is.
pub proof fn lemma_unsupported_run_no_network(
    states: Seq<Step>,
    events: Seq<Event>,
    actss: Seq<Seq<Action>>,
)
    requires
        is_run(states, events, actss),
        states.len() > 0,
        states[0] matches Step::CacheCheck { .. },
        reports_only_unsupported(events),
    ensures
        forall|i: int, j: int|
            0 <= i < actss.len() && 0 <= j < actss[i].len() ==> !is_network_action(
                #[trigger] actss[i][j],
            ),
{
    assert forall|i: int, j: int|
        0 <= i < actss.len() && 0 <= j < actss[i].len() implies !is_network_action(
        actss[i][j],
    ) by {
        lemma_run_stays_before_platform(states, events, actss, i);
        lemma_no_network_step(states[i], events[i], states[i + 1], actss[i]);
    }
}

/// The working directory after one requested action, when the action
/// succeeds: a download puts its destination there, a removal takes the
/// removed names out, and nothing else changes which entries exist.
pub open spec fn dir_after_action(w: Set<Seq<char>>, a: Action) -> Set<Seq<char>> {
    match a {
        Action::Download { url: _, dest } => w.insert(dest@),
        Action::Remove { names } => w.difference(names_of(names@).to_set()),
        _ => w,
    }
}

/// The working directory after a list of requested actions, each succeeding,
/// performed in order.
pub open spec fn dir_after_actions(w: Set<Seq<char>>, acts: Seq<Action>) -> Set<Seq<char>>
    decreases acts.len(),
{
    if acts.len() == 0 {
        w
    } else {
        dir_after_actions(dir_after_action(w, acts[0]), acts.drop_first())
    }
}

/// A faithful host answer about the working directory `w`: the install check
/// reports whether the directory holds the install path, and a successful
/// listing reports exactly the names present. Answers about anything else
/// are unconstrained.
pub open spec fn answers_directory(w: Set<Seq<char>>, s: Step, e: Event) -> bool {
    match (s, e) {
        (Step::InstallCheck { url: _, install }, Event::FileChecked { is_file }) => is_file
            == w.contains(install@),
        (Step::ListingDir { install: _ }, Event::DirListed { result }) => result matches Ok(names)
            ==> names_of(names@).to_set() == w,
        _ => true,
    }
}

/// Idempotence at the directory: when the working directory already holds
/// the install path — as it does after a first successful cycle for the same
/// version, by [`lemma_cleanup_leaves_exactly_install`] — a faithfully
/// answered install check sends the machine straight to cleanup: no download
/// is requested and the directory is left as it is. Across repeated
/// provisioning of one version the asset is therefore downloaded exactly
/// once, by the first successful cycle.
pub proof fn lemma_present_install_skips_download(
    pre: Step,
    e: Event,
    post: Step,
    acts: Seq<Action>,
    w: Set<Seq<char>>,
)
    requires
        step_rel(pre, e, post, acts),
        pre matches Step::InstallCheck { url: _, install } && w.contains(install@),
        e matches Event::FileChecked { .. },
        answers_directory(w, pre, e),
    ensures
        post matches Step::ListingDir { .. },
        forall|i: int| 0 <= i < acts.len() ==> !is_network_action(#[trigger] acts[i]),
        dir_after_actions(w, acts) == w,
{
    let w1 = dir_after_action(w, acts[0]);
    assert(w1 == w);
    assert(acts.drop_first().len() == 0);
    assert(dir_after_actions(w1, acts.drop_first()) == w1);
    assert(dir_after_actions(w, acts) == dir_after_actions(w1, acts.drop_first()));
}

/// Cleanup at the directory: when the working directory holds the install
/// path and the host lists it faithfully, performing the requested removals
/// leaves the directory with exactly one entry — the current version's
/// install path.
pub proof fn lemma_cleanup_leaves_exactly_install(
    pre: Step,
    e: Event,
    post: Step,
    acts: Seq<Action>,
    w: Set<Seq<char>>,
)
    requires
        step_rel(pre, e, post, acts),
        pre matches Step::ListingDir { install } && w.contains(install@),
        e matches Event::DirListed { result } && result is Ok,
        answers_directory(w, pre, e),
    ensures
        pre matches Step::ListingDir { install } ==> dir_after_actions(w, acts)
            =~= Set::<Seq<char>>::empty().insert(install@),
{
    if let Step::ListingDir { install } = pre {
        if let Event::DirListed { result: Ok(names) } = e {
            let stale = stale_of(names_of(names@), install@);
            let w1 = dir_after_action(w, acts[0]);
            assert(w1 == w.difference(stale.to_set()));
            assert forall|x: Seq<char>| w1.contains(x) implies x == install@ by {
                lemma_stale_membership(names_of(names@), install@, x);
            }
            assert(!stale.to_set().contains(install@)) by {
                lemma_stale_membership(names_of(names@), install@, install@);
            }
            assert(w1.contains(install@));
            let d1 = acts.drop_first();
            assert(d1.len() == 1 && d1[0] == acts[1]);
            let w2 = dir_after_action(w1, d1[0]);
            assert(w2 == w1);
            assert(d1.drop_first().len() == 0);
            assert(dir_after_actions(w2, d1.drop_first()) == w2);
            assert(dir_after_actions(w1, d1) == dir_after_actions(w2, d1.drop_first()));
            assert(dir_after_actions(w, acts) == dir_after_actions(w1, d1));
            assert(dir_after_actions(w, acts) =~= Set::<Seq<char>>::empty().insert(install@));
        }
    }
}

/// Nothing after the cleanup changes the working directory: the last
/// transition of a provisioning cycle only marks the resolved file executable
/// and stops. A successful cycle therefore ends with the directory exactly as
/// [`lemma_cleanup_leaves_exactly_install`] left it: one entry, the current
/// version's install path, and on success the terminal state carries that
/// same path.
pub proof fn lemma_marking_changes_nothing(
    pre: Step,
    e: Event,
    post: Step,
    acts: Seq<Action>,
    w: Set<Seq<char>>,
)
    requires
        step_rel(pre, e, post, acts),
        pre matches Step::MarkingExecutable { .. },
    ensures
        dir_after_actions(w, acts) == w,
        pre matches Step::MarkingExecutable { install } ==> (e matches Event::ExecMarked {
            result: Ok(_) } ==> (post matches Step::Done { path } && path@ == install@)),
{
    let w1 = dir_after_action(w, acts[0]);
    assert(w1 == w);
    assert(acts.drop_first().len() == 0);
    assert(dir_after_actions(w1, acts.drop_first()) == w1);
    assert(dir_after_actions(w, acts) == dir_after_actions(w1, acts.drop_first()));
}

/// The working directory as the host sees it when answering the event at
/// position `k` of a run: the initial directory with the first `k` action
/// lists applied, each action succeeding.
pub open spec fn world_at(w0: Set<Seq<char>>, actss: Seq<Seq<Action>>, k: int) -> Set<Seq<char>>
    decreases k,
{
    if k <= 0 {
        w0
    } else {
        dir_after_actions(world_at(w0, actss, k - 1), actss[k - 1])
    }
}

/// A run whose answers about the working directory are all faithful: every
/// event that reports on the directory is answered from the directory as it
/// stands when the event arrives.
pub open spec fn faithful_run(
    w0: Set<Seq<char>>,
    states: Seq<Step>,
    events: Seq<Event>,
    actss: Seq<Seq<Action>>,
) -> bool {
    forall|i: int|
        0 <= i < events.len() ==> answers_directory(
            #[trigger] world_at(w0, actss, i),
            states[i],
            events[i],
        )
}

/// Cleanup invariant over a whole run: once a faithful run performs the
/// cleanup from a directory that holds the install path, the working
/// directory holds exactly that install path at every later point of the
/// run — a successful provisioning cycle ends with one entry, the current
/// version's install path, and what follows the cleanup is at most the
/// marking transition and a terminal state.
pub proof fn lemma_directory_after_cleanup(
    w0: Set<Seq<char>>,
    states: Seq<Step>,
    events: Seq<Event>,
    actss: Seq<Seq<Action>>,
    m: int,
    k: int,
)
    requires
        is_run(states, events, actss),
        faithful_run(w0, states, events, actss),
        0 <= m < events.len(),
        states[m] matches Step::ListingDir { install } && world_at(w0, actss, m).contains(
            install@,
        ),
        events[m] matches Event::DirListed { result } && result is Ok,
        m < k <= events.len(),
    ensures
        states[m] matches Step::ListingDir { install } ==> {
            &&& world_at(w0, actss, k) =~= Set::<Seq<char>>::empty().insert(install@)
            &&& (states[k] matches Step::MarkingExecutable { install: i2 } && i2@ == install@)
                || states[k] matches Step::Done { .. } || states[k] matches Step::Failed { .. }
        },
    decreases k,
{
    if let Step::ListingDir { install } = states[m] {
        if k == m + 1 {
            assert(step_rel(states[m], events[m], states[m + 1], actss[m]));
            lemma_cleanup_leaves_exactly_install(
                states[m],
                events[m],
                states[m + 1],
                actss[m],
                world_at(w0, actss, m),
            );
            assert(world_at(w0, actss, k) == dir_after_actions(
                world_at(w0, actss, k - 1),
                actss[k - 1],
            ));
        } else {
            lemma_directory_after_cleanup(w0, states, events, actss, m, k - 1);
            assert(step_rel(states[k - 1], events[k - 1], states[(k - 1) + 1], actss[k - 1]));
            if let Step::MarkingExecutable { install: _ } = states[k - 1] {
                lemma_marking_changes_nothing(
                    states[k - 1],
                    events[k - 1],
                    states[k],
                    actss[k - 1],
                    world_at(w0, actss, k - 1),
                );
                assert(world_at(w0, actss, k) == dir_after_actions(
                    world_at(w0, actss, k - 1),
                    actss[k - 1],
                ));
            }
        }
    }
}

/// How far along the cycle a state stands. Every transition strictly
/// increases it, so no state is ever revisited within one run.
pub open spec fn rank(s: Step) -> int {
    match s {
        Step::CacheCheck { .. } => 0,
        Step::PathLookup => 1,
        Step::PlatformCheck => 2,
        Step::FetchingRelease { .. } => 3,
        Step::InstallCheck { .. } => 4,
        Step::AwaitDownload { .. } => 5,
        Step::ListingDir { .. } => 6,
        Step::MarkingExecutable { .. } => 7,
        Step::Done { .. } => 8,
        Step::Failed { .. } => 8,
    }
}

proof fn lemma_rank_increases(pre: Step, e: Event, post: Step, acts: Seq<Action>)
    requires
        step_rel(pre, e, post, acts),
    ensures
        rank(pre) < rank(post),
{
}

proof fn lemma_rank_monotone(states: Seq<Step>, events: Seq<Event>, actss: Seq<Seq<Action>>, i: int, j: int)
    requires
        is_run(states, events, actss),
        0 <= i < j < states.len(),
    ensures
        rank(states[i]) < rank(states[j]),
    decreases j - i,
{
    assert(step_rel(states[j - 1], events[j - 1], states[(j - 1) + 1], actss[j - 1]));
    lemma_rank_increases(states[j - 1], events[j - 1], states[j], actss[j - 1]);
    if i < j - 1 {
        lemma_rank_monotone(states, events, actss, i, j - 1);
    }
}

/// Only the install check downloads: a transition that requests a download
/// starts at the install-check state, and it requests exactly one download,
/// as its second action.
pub proof fn lemma_download_only_from_install_check(
    pre: Step,
    e: Event,
    post: Step,
    acts: Seq<Action>,
    j: int,
)
    requires
        step_rel(pre, e, post, acts),
        0 <= j < acts.len(),
        acts[j] matches Action::Download { .. },
    ensures
        pre matches Step::InstallCheck { .. },
        j == 1,
        forall|j2: int|
            0 <= j2 < acts.len() && j2 != 1 ==> !((#[trigger] acts[j2])
                matches Action::Download { .. }),
{
}

/// Within any one run the machine requests at most one download: the ranks
/// of the states strictly increase along a run, so the install check — the
/// only transition that can request a download — is passed at most once.
pub proof fn lemma_run_downloads_at_most_once(
    states: Seq<Step>,
    events: Seq<Event>,
    actss: Seq<Seq<Action>>,
)
    requires
        is_run(states, events, actss),
    ensures
        forall|i: int, j: int, i2: int, j2: int|
            (0 <= i < actss.len() && 0 <= j < actss[i].len() && 0 <= i2 < actss.len() && 0 <= j2
                < actss[i2].len() && ((#[trigger] actss[i][j]) matches Action::Download { .. })
                && ((#[trigger] actss[i2][j2]) matches Action::Download { .. })) ==> i == i2 && j
                == j2,
{
    assert forall|i: int, j: int, i2: int, j2: int|
        (0 <= i < actss.len() && 0 <= j < actss[i].len() && 0 <= i2 < actss.len() && 0 <= j2
            < actss[i2].len() && ((#[trigger] actss[i][j]) matches Action::Download { .. })
            && ((#[trigger] actss[i2][j2]) matches Action::Download { .. })) implies i == i2 && j
            == j2 by {
        assert(step_rel(states[i], events[i], states[i + 1], actss[i]));
        assert(step_rel(states[i2], events[i2], states[i2 + 1], actss[i2]));
        lemma_download_only_from_install_check(states[i], events[i], states[i + 1], actss[i], j);
        lemma_download_only_from_install_check(
            states[i2],
            events[i2],
            states[i2 + 1],
            actss[i2],
            j2,
        );
        if i < i2 {
            lemma_rank_monotone(states, events, actss, i, i2);
        }
        if i2 < i {
            lemma_rank_monotone(states, events, actss, i2, i);
        }
    }
}

/// Idempotence over a whole run: along a faithful run in which the working
/// directory already holds the install path whenever the install check runs
/// — as it does on any run after a first successful cycle for the same
/// release version, by [`lemma_directory_after_cleanup`] — no download at
/// all is requested. With [`lemma_run_downloads_at_most_once`] for the first
/// cycle, repeated provisioning of one version downloads its asset exactly
/// once.
pub proof fn lemma_run_with_present_install_never_downloads(
    w0: Set<Seq<char>>,
    states: Seq<Step>,
    events: Seq<Event>,
    actss: Seq<Seq<Action>>,
)
    requires
        is_run(states, events, actss),
        faithful_run(w0, states, events, actss),
        forall|i: int|
            0 <= i < events.len() ==> ((#[trigger] states[i]) matches Step::InstallCheck {
                url: _, install } ==> world_at(w0, actss, i).contains(install@)),
    ensures
        forall|i: int, j: int|
            0 <= i < actss.len() && 0 <= j < actss[i].len() ==> !((#[trigger] actss[i][j])
                matches Action::Download { .. }),
{
    assert forall|i: int, j: int|
        0 <= i < actss.len() && 0 <= j < actss[i].len() implies !((#[trigger] actss[i][j])
        matches Action::Download { .. }) by {
        if actss[i][j] matches Action::Download { .. } {
            assert(step_rel(states[i], events[i], states[i + 1], actss[i]));
            lemma_download_only_from_install_check(
                states[i],
                events[i],
                states[i + 1],
                actss[i],
                j,
            );
            assert(answers_directory(world_at(w0, actss, i), states[i], events[i]));
        }
    }
}

} // verus!
