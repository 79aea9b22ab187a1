//! What holds of every resolution, on every host.

use vstd::prelude::*;
use crate::chain::{
    cache_after, downloads_of, installed, outcome_of, remembers_file, statuses_of,
};
use crate::error::ResolveErrorView;
use crate::host::{downloaded, reported, resolve, run, DownloadTarget, Host};
use crate::machine::{begin, local_path, next, Phase, ResolverView, Strategy};
use crate::platform::{supported, url_for};
use crate::protocol::{ActionView, InstallationStatus};

verus! {

/// The status that `action` shows, if it shows one.
pub open spec fn status_in(action: ActionView) -> Seq<InstallationStatus> {
    match action {
        ActionView::Report { status } => seq![status],
        _ => Seq::empty(),
    }
}

/// The download that `action` asks for, if it asks for one.
pub open spec fn download_in(action: ActionView) -> Seq<DownloadTarget> {
    match action {
        ActionView::Download { url, path } => seq![DownloadTarget { url, path }],
        _ => Seq::empty(),
    }
}

/// The statuses of a sequence of actions are those of its first action
/// followed by those of the others.
pub proof fn lemma_reported_prepend(first: ActionView, rest: Seq<ActionView>)
    ensures
        reported(seq![first] + rest) == status_in(first) + reported(rest),
        reported(seq![first]) == status_in(first),
    decreases rest.len(),
{
    let all = seq![first] + rest;
    assert(reported(Seq::<ActionView>::empty()) =~= Seq::empty());
    assert(seq![first].drop_last() =~= Seq::empty());
    assert(seq![first].last() == first);
    assert(reported(seq![first]) =~= status_in(first));
    if rest.len() == 0 {
        assert(all =~= seq![first]);
        assert(status_in(first) + reported(rest) =~= status_in(first));
    } else {
        lemma_reported_prepend(first, rest.drop_last());
        assert(all.drop_last() =~= seq![first] + rest.drop_last());
        assert(all.last() == rest.last());
        let before = reported(rest.drop_last());
        match rest.last() {
            ActionView::Report { status } => {
                assert((status_in(first) + before).push(status) =~= status_in(first)
                    + before.push(status));
            },
            _ => {},
        }
    }
}

/// The downloads of a sequence of actions are that of its first action
/// followed by those of the others.
pub proof fn lemma_downloaded_prepend(first: ActionView, rest: Seq<ActionView>)
    ensures
        downloaded(seq![first] + rest) == download_in(first) + downloaded(rest),
        downloaded(seq![first]) == download_in(first),
    decreases rest.len(),
{
    let all = seq![first] + rest;
    assert(downloaded(Seq::<ActionView>::empty()) =~= Seq::empty());
    assert(seq![first].drop_last() =~= Seq::empty());
    assert(seq![first].last() == first);
    assert(downloaded(seq![first]) =~= download_in(first));
    if rest.len() == 0 {
        assert(all =~= seq![first]);
        assert(download_in(first) + downloaded(rest) =~= download_in(first));
    } else {
        lemma_downloaded_prepend(first, rest.drop_last());
        assert(all.drop_last() =~= seq![first] + rest.drop_last());
        assert(all.last() == rest.last());
        let before = downloaded(rest.drop_last());
        match rest.last() {
            ActionView::Download { url, path } => {
                let target = DownloadTarget { url, path };
                assert((download_in(first) + before).push(target) =~= download_in(first)
                    + before.push(target));
            },
            _ => {},
        }
    }
}

proof fn lemma_prepend_everywhere()
    ensures
        forall|first: ActionView, rest: Seq<ActionView>| #[trigger]
            reported(seq![first] + rest) == status_in(first) + reported(rest),
        forall|only: ActionView| #[trigger] reported(seq![only]) == status_in(only),
        forall|first: ActionView, rest: Seq<ActionView>| #[trigger]
            downloaded(seq![first] + rest) == download_in(first) + downloaded(rest),
        forall|only: ActionView| #[trigger] downloaded(seq![only]) == download_in(only),
{
    assert forall|first: ActionView, rest: Seq<ActionView>| #[trigger]
        reported(seq![first] + rest) == status_in(first) + reported(rest) by {
        lemma_reported_prepend(first, rest);
    }
    assert forall|only: ActionView| #[trigger] reported(seq![only]) == status_in(only) by {
        lemma_reported_prepend(only, Seq::empty());
    }
    assert forall|first: ActionView, rest: Seq<ActionView>| #[trigger]
        downloaded(seq![first] + rest) == download_in(first) + downloaded(rest) by {
        lemma_downloaded_prepend(first, rest);
    }
    assert forall|only: ActionView| #[trigger] downloaded(seq![only]) == download_in(only) by {
        lemma_downloaded_prepend(only, Seq::empty());
    }
}

/// Every resolution comes to an end: after nine actions at most the host is
/// given a `Finish`, the only one, and the resolver is idle again, with its
/// strategy unchanged.
pub proof fn resolution_ends(s: ResolverView, tool: Seq<char>, host: Host)
    ensures
        2 <= resolve(s, tool, host).actions.len() <= 9,
        resolve(s, tool, host).actions.last() is Finish,
        forall|i: int|
            0 <= i < resolve(s, tool, host).actions.len() - 1 ==> !(#[trigger] resolve(
                s,
                tool,
                host,
            ).actions[i] is Finish),
        resolve(s, tool, host).end.phase == Phase::Idle,
        resolve(s, tool, host).end.strategy == s.strategy,
        resolve(s, tool, host).end.tool == tool,
{
    reveal_with_fuel(run, 10);
}

/// The four things that the chain says of a resolution.
spec fn follows_chain(s: ResolverView, tool: Seq<char>, host: Host) -> bool {
    &&& resolve(s, tool, host).outcome() == outcome_of(s, tool, host)
    &&& resolve(s, tool, host).end.cached == cache_after(s, tool, host)
    &&& resolve(s, tool, host).statuses() == statuses_of(s, tool, host)
    &&& resolve(s, tool, host).downloads() == downloads_of(s, tool, host)
}

proof fn lemma_chain_without_download(s: ResolverView, tool: Seq<char>, host: Host)
    requires
        remembers_file(s, host) || s.strategy == Strategy::SearchPath || host.files.contains(
            local_path(tool),
        ),
    ensures
        follows_chain(s, tool, host),
{
    reveal_with_fuel(run, 6);
    lemma_prepend_everywhere();
    assert(resolve(s, tool, host).statuses() =~= statuses_of(s, tool, host));
    assert(resolve(s, tool, host).downloads() =~= downloads_of(s, tool, host));
}

proof fn lemma_chain_of_failed_install(s: ResolverView, tool: Seq<char>, host: Host)
    requires
        !remembers_file(s, host),
        s.strategy == Strategy::Download,
        !host.files.contains(local_path(tool)),
        installed(tool, host) is Err,
    ensures
        follows_chain(s, tool, host),
{
    reveal_with_fuel(run, 9);
    lemma_prepend_everywhere();
    assert(resolve(s, tool, host).statuses() =~= statuses_of(s, tool, host));
    assert(resolve(s, tool, host).downloads() =~= downloads_of(s, tool, host));
}

proof fn lemma_chain_of_install(s: ResolverView, tool: Seq<char>, host: Host)
    requires
        !remembers_file(s, host),
        s.strategy == Strategy::Download,
        !host.files.contains(local_path(tool)),
        installed(tool, host) is Ok,
    ensures
        follows_chain(s, tool, host),
{
    reveal_with_fuel(run, 10);
    lemma_prepend_everywhere();
    assert(resolve(s, tool, host).statuses() =~= statuses_of(s, tool, host));
    assert(resolve(s, tool, host).downloads() =~= downloads_of(s, tool, host));
}

/// A resolution does what the chain says: it hands out that path or fails for
/// that reason, remembers the path it handed out, shows those statuses and
/// asks for those downloads.
pub proof fn resolution_follows_chain(s: ResolverView, tool: Seq<char>, host: Host)
    ensures
        resolve(s, tool, host).outcome() == outcome_of(s, tool, host),
        resolve(s, tool, host).end.cached == cache_after(s, tool, host),
        resolve(s, tool, host).statuses() == statuses_of(s, tool, host),
        resolve(s, tool, host).downloads() == downloads_of(s, tool, host),
{
    if remembers_file(s, host) || s.strategy == Strategy::SearchPath || host.files.contains(
        local_path(tool),
    ) {
        lemma_chain_without_download(s, tool, host);
    } else if installed(tool, host) is Err {
        lemma_chain_of_failed_install(s, tool, host);
    } else {
        lemma_chain_of_install(s, tool, host);
    }
}

/// Which path is remembered does not change what the host is asked, once the
/// remembered path has been dealt with.
proof fn lemma_run_ignores_cache(
    s: ResolverView,
    action: ActionView,
    host: Host,
    cached: Option<Seq<char>>,
)
    requires
        s.phase != Phase::ValidatingCache,
    ensures
        run(ResolverView { cached, ..s }, action, host).actions == run(s, action, host).actions,
    decreases s.phase.events_left(),
{
    let t = ResolverView { cached, ..s };
    match host.answer(action) {
        Some(event) => match next(s, event) {
            Some((after, then)) => {
                let step = next(t, event)->0;
                let other = step.0;
                assert(next(t, event) == Some((other, then)));
                assert(other == ResolverView { cached: other.cached, ..after });
                lemma_run_ignores_cache(after, then, host, other.cached);
            },
            None => {},
        },
        None => {},
    }
}

/// A remembered path is never handed out unchecked: whenever a path is
/// remembered, the first thing the host is asked is whether it is a file.
/// If it is, it is handed out at once, and nothing else happens.
pub proof fn remembered_path_is_checked_first(
    s: ResolverView,
    tool: Seq<char>,
    host: Host,
    path: Seq<char>,
)
    requires
        s.cached == Some(path),
    ensures
        resolve(s, tool, host).actions[0] == (ActionView::ProbeFile { path }),
        host.files.contains(path) ==> resolve(s, tool, host).actions == seq![
            ActionView::ProbeFile { path },
            ActionView::Finish { outcome: Ok(path) },
        ],
{
    reveal_with_fuel(run, 3);
    if host.files.contains(path) {
        assert(resolve(s, tool, host).actions =~= seq![
            ActionView::ProbeFile { path },
            ActionView::Finish { outcome: Ok(path) },
        ]);
    }
}

/// A remembered path that is no file any more is not handed out. Once the
/// host has said so, the resolution goes on exactly as that of a resolver that
/// remembers nothing.
pub proof fn stale_cache_starts_over(s: ResolverView, tool: Seq<char>, host: Host, path: Seq<char>)
    requires
        s.cached == Some(path),
        !host.files.contains(path),
    ensures
        resolve(s, tool, host).actions == seq![ActionView::ProbeFile { path }] + resolve(
            ResolverView { cached: None, ..s },
            tool,
            host,
        ).actions,
        resolve(s, tool, host).outcome() == resolve(
            ResolverView { cached: None, ..s },
            tool,
            host,
        ).outcome(),
{
    let named = ResolverView { tool, ..s };
    let (first, action) = named.search();
    lemma_run_ignores_cache(first, action, host, None);
    let forgetful = ResolverView { cached: None, ..s };
    assert(begin(forgetful, tool) == (ResolverView { cached: None, ..first }, action));
    assert(resolve(s, tool, host).actions =~= seq![ActionView::ProbeFile { path }] + run(
        first,
        action,
        host,
    ).actions) by {
        reveal_with_fuel(run, 2);
    }
    resolution_ends(forgetful, tool, host);
}

/// On a platform for which no release carries a binary, nothing is ever
/// downloaded; and a resolution that has to install the binary fails with
/// `UnsupportedPlatform`.
pub proof fn unsupported_platform_downloads_nothing(s: ResolverView, tool: Seq<char>, host: Host)
    requires
        !supported(host.platform),
    ensures
        resolve(s, tool, host).downloads().len() == 0,
        s.strategy == Strategy::Download && !remembers_file(s, host) && !host.files.contains(
            local_path(tool),
        ) ==> resolve(s, tool, host).outcome() == Err::<Seq<char>, ResolveErrorView>(
            ResolveErrorView::UnsupportedPlatform,
        ),
{
    resolution_follows_chain(s, tool, host);
}

/// A resolution fails with `UnsupportedPlatform` only where it has to install
/// the binary and no release carries one for the host's platform.
pub proof fn unsupported_platform_is_the_only_cause(
    s: ResolverView,
    tool: Seq<char>,
    host: Host,
)
    requires
        resolve(s, tool, host).outcome() == Err::<Seq<char>, ResolveErrorView>(
            ResolveErrorView::UnsupportedPlatform,
        ),
    ensures
        !supported(host.platform),
        s.strategy == Strategy::Download,
        !remembers_file(s, host),
        !host.files.contains(local_path(tool)),
{
    resolution_follows_chain(s, tool, host);
}

/// Where the binary is already at its local path, nothing is downloaded; and
/// a resolution that would install it hands out the local path, remembers it,
/// and shows `CheckingForUpdate` and then `Idle`.
pub proof fn present_binary_is_not_downloaded(s: ResolverView, tool: Seq<char>, host: Host)
    requires
        host.files.contains(local_path(tool)),
    ensures
        resolve(s, tool, host).downloads().len() == 0,
        s.strategy == Strategy::Download && !remembers_file(s, host) ==> {
            &&& resolve(s, tool, host).outcome() == Ok::<Seq<char>, ResolveErrorView>(
                local_path(tool),
            )
            &&& resolve(s, tool, host).end.cached == Some(local_path(tool))
            &&& resolve(s, tool, host).statuses() == seq![
                InstallationStatus::CheckingForUpdate,
                InstallationStatus::Idle,
            ]
        },
{
    resolution_follows_chain(s, tool, host);
}

/// With the search-path strategy, and no remembered path of use, the search
/// path decides: the path it gives is handed out and remembered; where it
/// gives none, the resolution fails with `BinaryNotFound` and what was
/// remembered stays. No status is shown and nothing is downloaded.
pub proof fn search_path_decides(s: ResolverView, tool: Seq<char>, host: Host)
    requires
        s.strategy == Strategy::SearchPath,
        !remembers_file(s, host),
    ensures
        match host.which(tool) {
            Some(path) => {
                &&& resolve(s, tool, host).outcome() == Ok::<Seq<char>, ResolveErrorView>(path)
                &&& resolve(s, tool, host).end.cached == Some(path)
            },
            None => {
                &&& resolve(s, tool, host).outcome() == Err::<Seq<char>, ResolveErrorView>(
                    ResolveErrorView::BinaryNotFound { tool },
                )
                &&& resolve(s, tool, host).end.cached == s.cached
            },
        },
        resolve(s, tool, host).statuses().len() == 0,
        resolve(s, tool, host).downloads().len() == 0,
{
    resolution_follows_chain(s, tool, host);
}

/// What the host is asked, in order, when the binary has to be downloaded
/// from `url` and all goes well.
pub open spec fn download_script(tool: Seq<char>, url: Seq<char>) -> Seq<ActionView> {
    seq![
        ActionView::Report { status: InstallationStatus::CheckingForUpdate },
        ActionView::ProbeFile { path: local_path(tool) },
        ActionView::Report { status: InstallationStatus::Downloading },
        ActionView::QueryPlatform,
        ActionView::Download { url, path: local_path(tool) },
        ActionView::MakeExecutable { path: local_path(tool) },
        ActionView::Report { status: InstallationStatus::Idle },
        ActionView::Finish { outcome: Ok(local_path(tool)) },
    ]
}

/// A download from scratch that goes well shows exactly `CheckingForUpdate`,
/// then `Downloading`, then `Idle`. It asks for one download, of the
/// platform's binary to the local path, and hands out and remembers that path.
pub proof fn cold_download_shows_three_statuses(s: ResolverView, tool: Seq<char>, host: Host)
    requires
        s.strategy == Strategy::Download,
        !remembers_file(s, host),
        !host.files.contains(local_path(tool)),
        supported(host.platform),
        host.download is Ok,
        host.make_executable is Ok,
    ensures
        resolve(s, tool, host).statuses() == seq![
            InstallationStatus::CheckingForUpdate,
            InstallationStatus::Downloading,
            InstallationStatus::Idle,
        ],
        resolve(s, tool, host).downloads() == seq![
            DownloadTarget { url: url_for(host.platform)->0, path: local_path(tool) },
        ],
        resolve(s, tool, host).outcome() == Ok::<Seq<char>, ResolveErrorView>(local_path(tool)),
        resolve(s, tool, host).end.cached == Some(local_path(tool)),
        s.cached is None ==> resolve(s, tool, host).actions == download_script(
            tool,
            url_for(host.platform)->0,
        ),
{
    resolution_follows_chain(s, tool, host);
    if s.cached is None {
        reveal_with_fuel(run, 9);
        assert(resolve(s, tool, host).actions =~= download_script(
            tool,
            url_for(host.platform)->0,
        ));
    }
}

/// A resolution that fails leaves the remembered path as it was; one that
/// succeeds remembers the path it handed out.
pub proof fn cache_changes_only_on_success(s: ResolverView, tool: Seq<char>, host: Host)
    ensures
        match resolve(s, tool, host).outcome() {
            Ok(path) => resolve(s, tool, host).end.cached == Some(path),
            Err(_) => resolve(s, tool, host).end.cached == s.cached,
        },
{
    resolution_follows_chain(s, tool, host);
}

} // verus!
