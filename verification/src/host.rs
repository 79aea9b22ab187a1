//! A mathematical host, and whole resolutions run against it.

use vstd::prelude::*;
use crate::error::ResolveErrorView;
use crate::machine::{begin, next, ResolverView};
use crate::platform::PlatformKey;
use crate::protocol::{ActionView, EventView, InstallationStatus};

verus! {

/// What a host would answer in the course of one resolution.
pub ghost struct Host {
    /// The paths at which there is a regular file.
    pub files: Set<Seq<char>>,
    /// The names that the search path resolves, each with its path.
    pub search_path: Map<Seq<char>, Seq<char>>,
    pub platform: PlatformKey,
    /// How a download ends.
    pub download: Result<(), Seq<char>>,
    /// How marking a file executable ends.
    pub make_executable: Result<(), Seq<char>>,
}

/// A download that the host is told to make: the source and where it goes.
pub ghost struct DownloadTarget {
    pub url: Seq<char>,
    pub path: Seq<char>,
}

impl Host {
    /// Where the search path finds `name`, if it does.
    pub open spec fn which(self, name: Seq<char>) -> Option<Seq<char>> {
        if self.search_path.dom().contains(name) {
            Some(self.search_path[name])
        } else {
            None
        }
    }

    /// The event with which the host answers `action`; `Finish` asks nothing of it.
    pub open spec fn answer(self, action: ActionView) -> Option<EventView> {
        match action {
            ActionView::ProbeFile { path } => Some(
                EventView::Probed { is_file: self.files.contains(path) },
            ),
            ActionView::SearchPath { name } => Some(EventView::Searched { found: self.which(name) }),
            ActionView::Report { status } => Some(EventView::Reported),
            ActionView::QueryPlatform => Some(EventView::Platform { key: self.platform }),
            ActionView::Download { url, path } => Some(
                EventView::Downloaded { result: self.download },
            ),
            ActionView::MakeExecutable { path } => Some(
                EventView::MadeExecutable { result: self.make_executable },
            ),
            ActionView::Finish { outcome } => None,
        }
    }
}

/// A resolution from its first action to its last.
pub ghost struct Run {
    /// The resolver when the last action was handed out.
    pub end: ResolverView,
    /// The actions that the host was given, in order.
    pub actions: Seq<ActionView>,
}

impl Run {
    /// What the resolution handed to the host at its end.
    pub open spec fn outcome(self) -> Result<Seq<char>, ResolveErrorView>
        recommends
            self.actions.len() > 0,
            self.actions.last() is Finish,
    {
        self.actions.last()->outcome
    }

    /// The downloads that the host was told to make, in order.
    pub open spec fn downloads(self) -> Seq<DownloadTarget> {
        downloaded(self.actions)
    }

    /// The statuses that the user was shown, in order.
    pub open spec fn statuses(self) -> Seq<InstallationStatus> {
        reported(self.actions)
    }
}

/// The statuses among `actions`, in order.
pub open spec fn reported(actions: Seq<ActionView>) -> Seq<InstallationStatus>
    decreases actions.len(),
{
    if actions.len() == 0 {
        Seq::empty()
    } else {
        let before = reported(actions.drop_last());
        match actions.last() {
            ActionView::Report { status } => before.push(status),
            _ => before,
        }
    }
}

/// The downloads among `actions`, in order.
pub open spec fn downloaded(actions: Seq<ActionView>) -> Seq<DownloadTarget>
    decreases actions.len(),
{
    if actions.len() == 0 {
        Seq::empty()
    } else {
        let before = downloaded(actions.drop_last());
        match actions.last() {
            ActionView::Download { url, path } => before.push(DownloadTarget { url, path }),
            _ => before,
        }
    }
}

/// The host performs `action` and each action that follows from its answers,
/// until one asks nothing of it.
pub open spec fn run(s: ResolverView, action: ActionView, host: Host) -> Run
    decreases s.phase.events_left(),
{
    match host.answer(action) {
        Some(event) => match next(s, event) {
            Some((after, then)) => {
                let rest = run(after, then, host);
                Run { end: rest.end, actions: seq![action] + rest.actions }
            },
            None => Run { end: s, actions: seq![action] },
        },
        None => Run { end: s, actions: seq![action] },
    }
}

/// The resolution of `tool` by a resolver in state `s`, on `host`.
pub open spec fn resolve(s: ResolverView, tool: Seq<char>, host: Host) -> Run {
    let (first, action) = begin(s, tool);
    run(first, action, host)
}

} // verus!
