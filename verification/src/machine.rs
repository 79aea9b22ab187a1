//! The resolver as a transition system over plain mathematical values.
//!
//! A resolution starts with [`begin`] and goes on with [`next`], one event of
//! the host at a time, until an action is `Finish`.

use vstd::prelude::*;
use crate::error::ResolveErrorView;
use crate::platform::url_for;
use crate::protocol::{ActionView, EventView, InstallationStatus};

verus! {

/// How a binary is looked for once the remembered path is of no use.
#[derive(Clone, Copy, Debug, PartialEq, Eq, Structural)]
pub enum Strategy {
    /// The user builds the binary; it is looked up on the search path.
    SearchPath,
    /// A release carries the binary; it is downloaded unless it is already there.
    Download,
}

/// What a resolver is waiting for.
#[derive(Clone, Copy, Debug, PartialEq, Eq, Structural)]
pub enum Phase {
    /// No resolution is under way.
    Idle,
    /// Whether the remembered path is still a file.
    ValidatingCache,
    /// The search path's answer.
    Locating,
    /// The report of `CheckingForUpdate`.
    AnnouncingCheck,
    /// Whether the binary is already at its local path.
    ProbingLocal,
    /// The report of `Downloading`.
    AnnouncingDownload,
    /// The host's platform.
    QueryingPlatform,
    /// The end of the download.
    Fetching,
    /// The end of marking the file executable.
    MarkingExecutable,
    /// The report of `Idle`, after which the local path is handed out.
    AnnouncingDone,
}

impl Phase {
    /// The most events a resolution in this phase can still take.
    pub open spec fn events_left(self) -> nat {
        match self {
            Phase::Idle => 0,
            Phase::Locating => 1,
            Phase::AnnouncingDone => 1,
            Phase::MarkingExecutable => 2,
            Phase::Fetching => 3,
            Phase::QueryingPlatform => 4,
            Phase::AnnouncingDownload => 5,
            Phase::ProbingLocal => 6,
            Phase::AnnouncingCheck => 7,
            Phase::ValidatingCache => 8,
        }
    }
}

/// The state of a resolver.
pub struct ResolverView {
    pub strategy: Strategy,
    /// The path that the last successful resolution handed out.
    pub cached: Option<Seq<char>>,
    /// The tool that the resolution under way, or the last one, is about.
    pub tool: Seq<char>,
    pub phase: Phase,
}

/// Where a downloaded `tool` lies, relative to the host's working directory.
pub open spec fn local_path(tool: Seq<char>) -> Seq<char> {
    "./"@ + tool
}

impl ResolverView {
    /// A resolver that has resolved nothing yet.
    pub open spec fn fresh(strategy: Strategy) -> ResolverView {
        ResolverView { strategy, cached: None, tool: Seq::empty(), phase: Phase::Idle }
    }

    /// This resolver, waiting for something else.
    pub open spec fn at(self, phase: Phase) -> ResolverView {
        ResolverView { phase, ..self }
    }

    /// The end of a resolution that failed: nothing is remembered of it.
    pub open spec fn fail(self, error: ResolveErrorView) -> (ResolverView, ActionView) {
        (self.at(Phase::Idle), ActionView::Finish { outcome: Err(error) })
    }

    /// The first step of the strategy, taken when no remembered path is of use.
    pub open spec fn search(self) -> (ResolverView, ActionView) {
        match self.strategy {
            Strategy::SearchPath => (
                self.at(Phase::Locating),
                ActionView::SearchPath { name: self.tool },
            ),
            Strategy::Download => (
                self.at(Phase::AnnouncingCheck),
                ActionView::Report { status: InstallationStatus::CheckingForUpdate },
            ),
        }
    }

    /// The binary is at its local path: remember the path and tell the user
    /// that nothing is going on any more.
    pub open spec fn settle(self) -> (ResolverView, ActionView) {
        (
            ResolverView {
                cached: Some(local_path(self.tool)),
                phase: Phase::AnnouncingDone,
                ..self
            },
            ActionView::Report { status: InstallationStatus::Idle },
        )
    }
}

/// Starts a resolution of `tool`, whatever went on before. A remembered path
/// is never handed out unchecked: the host is first asked whether it is still
/// a file.
pub open spec fn begin(s: ResolverView, tool: Seq<char>) -> (ResolverView, ActionView) {
    let s = ResolverView { tool, ..s };
    match s.cached {
        Some(path) => (s.at(Phase::ValidatingCache), ActionView::ProbeFile { path }),
        None => s.search(),
    }
}

/// The step taken on event `e`, or `None` where `e` does not answer what the
/// resolver is waiting for.
pub open spec fn next(s: ResolverView, e: EventView) -> Option<(ResolverView, ActionView)> {
    match (s.phase, e) {
        (Phase::ValidatingCache, EventView::Probed { is_file }) => match s.cached {
            Some(path) if is_file => Some(
                (s.at(Phase::Idle), ActionView::Finish { outcome: Ok(path) }),
            ),
            _ => Some(s.search()),
        },
        (Phase::Locating, EventView::Searched { found }) => match found {
            Some(path) => Some(
                (
                    ResolverView { cached: Some(path), phase: Phase::Idle, ..s },
                    ActionView::Finish { outcome: Ok(path) },
                ),
            ),
            None => Some(s.fail(ResolveErrorView::BinaryNotFound { tool: s.tool })),
        },
        (Phase::AnnouncingCheck, EventView::Reported) => Some(
            (s.at(Phase::ProbingLocal), ActionView::ProbeFile { path: local_path(s.tool) }),
        ),
        (Phase::ProbingLocal, EventView::Probed { is_file }) => if is_file {
            Some(s.settle())
        } else {
            Some(
                (
                    s.at(Phase::AnnouncingDownload),
                    ActionView::Report { status: InstallationStatus::Downloading },
                ),
            )
        },
        (Phase::AnnouncingDownload, EventView::Reported) => Some(
            (s.at(Phase::QueryingPlatform), ActionView::QueryPlatform),
        ),
        (Phase::QueryingPlatform, EventView::Platform { key }) => match url_for(key) {
            Some(url) => Some(
                (s.at(Phase::Fetching), ActionView::Download { url, path: local_path(s.tool) }),
            ),
            None => Some(s.fail(ResolveErrorView::UnsupportedPlatform)),
        },
        (Phase::Fetching, EventView::Downloaded { result }) => match result {
            Ok(_) => Some(
                (
                    s.at(Phase::MarkingExecutable),
                    ActionView::MakeExecutable { path: local_path(s.tool) },
                ),
            ),
            Err(cause) => Some(s.fail(ResolveErrorView::DownloadFailed { cause })),
        },
        (Phase::MarkingExecutable, EventView::MadeExecutable { result }) => match result {
            Ok(_) => Some(s.settle()),
            Err(cause) => Some(s.fail(ResolveErrorView::MakeExecutableFailed { cause })),
        },
        (Phase::AnnouncingDone, EventView::Reported) => Some(
            (s.at(Phase::Idle), ActionView::Finish { outcome: Ok(local_path(s.tool)) }),
        ),
        _ => None,
    }
}

} // verus!
