//! The resolver that a host drives.

use vstd::prelude::*;
use crate::error::ResolveError;
use crate::machine::{begin, local_path, next, Phase, ResolverView, Strategy};
use crate::protocol::{Action, Event, InstallationStatus};

verus! {

/// Finds the binary of a tool: it remembers the path it handed out last, and
/// tells the host, step by step, what to look at and what to fetch.
///
/// The host calls [`BinaryResolver::begin`], performs the action it gets, and
/// hands what came of it to [`BinaryResolver::advance`], until the action is
/// `Finish`.
#[derive(Debug)]
pub struct BinaryResolver {
    strategy: Strategy,
    cached_binary_path: Option<String>,
    tool: String,
    phase: Phase,
}

impl View for BinaryResolver {
    type V = ResolverView;

    closed spec fn view(&self) -> ResolverView {
        ResolverView {
            strategy: self.strategy,
            cached: self.cached_binary_path.deep_view(),
            tool: self.tool@,
            phase: self.phase,
        }
    }
}

/// The path of a downloaded `tool`, relative to the host's working directory.
pub fn local_binary_path(tool: &str) -> (path: String)
    ensures
        path@ == local_path(tool@),
{
    let mut path = "./".to_owned();
    path.append(tool);
    path
}

impl BinaryResolver {
    /// A resolver that remembers no path.
    pub fn new(strategy: Strategy) -> (resolver: BinaryResolver)
        ensures
            resolver@ == ResolverView::fresh(strategy),
    {
        BinaryResolver {
            strategy,
            cached_binary_path: None,
            tool: String::new(),
            phase: Phase::Idle,
        }
    }

    pub fn strategy(&self) -> (strategy: Strategy)
        ensures
            strategy == self@.strategy,
    {
        self.strategy
    }

    pub fn phase(&self) -> (phase: Phase)
        ensures
            phase == self@.phase,
    {
        self.phase
    }

    /// The path that the last successful resolution handed out.
    pub fn cached_binary_path(&self) -> (path: Option<String>)
        ensures
            path.deep_view() == self@.cached,
    {
        match &self.cached_binary_path {
            Some(path) => Some(path.clone()),
            None => None,
        }
    }

    /// Starts resolving `tool` and returns the first thing for the host to do.
    /// A resolution that was under way is given up. The name decides what is
    /// looked up on the search path and where a download is put; what is
    /// downloaded is the language server of the release table.
    pub fn begin(&mut self, tool: &str) -> (action: Action)
        ensures
            (final(self)@, action@) == begin(old(self)@, tool@),
    {
        self.tool = tool.to_owned();
        match &self.cached_binary_path {
            Some(path) => {
                let path = path.clone();
                self.phase = Phase::ValidatingCache;
                Action::ProbeFile { path }
            },
            None => self.search(),
        }
    }

    /// Takes what the host found or did and returns the next thing for it to
    /// do. An event that does not answer the action handed out last is
    /// refused: the result is `None` and the resolver stays as it is.
    pub fn advance(&mut self, event: Event) -> (action: Option<Action>)
        ensures
            match next(old(self)@, event@) {
                Some(step) => final(self)@ == step.0 && action.is_some() && action.unwrap()@
                    == step.1,
                None => final(self)@ == old(self)@ && action.is_none(),
            },
    {
        match (self.phase, event) {
            (Phase::ValidatingCache, Event::Probed { is_file }) => {
                if is_file {
                    if let Some(path) = &self.cached_binary_path {
                        let path = path.clone();
                        self.phase = Phase::Idle;
                        return Some(Action::Finish { outcome: Ok(path) });
                    }
                }
                Some(self.search())
            },
            (Phase::Locating, Event::Searched { found }) => match found {
                Some(path) => {
                    self.cached_binary_path = Some(path.clone());
                    self.phase = Phase::Idle;
                    Some(Action::Finish { outcome: Ok(path) })
                },
                None => {
                    let tool = self.tool.clone();
                    Some(self.fail(ResolveError::BinaryNotFound { tool }))
                },
            },
            (Phase::AnnouncingCheck, Event::Reported) => {
                self.phase = Phase::ProbingLocal;
                Some(Action::ProbeFile { path: local_binary_path(self.tool.as_str()) })
            },
            (Phase::ProbingLocal, Event::Probed { is_file }) => {
                if is_file {
                    Some(self.settle())
                } else {
                    self.phase = Phase::AnnouncingDownload;
                    Some(Action::Report { status: InstallationStatus::Downloading })
                }
            },
            (Phase::AnnouncingDownload, Event::Reported) => {
                self.phase = Phase::QueryingPlatform;
                Some(Action::QueryPlatform)
            },
            (Phase::QueryingPlatform, Event::Platform { key }) => match key.download_url() {
                Some(url) => {
                    self.phase = Phase::Fetching;
                    Some(Action::Download { url, path: local_binary_path(self.tool.as_str()) })
                },
                None => Some(self.fail(ResolveError::UnsupportedPlatform)),
            },
            (Phase::Fetching, Event::Downloaded { result }) => match result {
                Ok(_) => {
                    self.phase = Phase::MarkingExecutable;
                    Some(Action::MakeExecutable { path: local_binary_path(self.tool.as_str()) })
                },
                Err(cause) => Some(self.fail(ResolveError::DownloadFailed { cause })),
            },
            (Phase::MarkingExecutable, Event::MadeExecutable { result }) => match result {
                Ok(_) => Some(self.settle()),
                Err(cause) => Some(self.fail(ResolveError::MakeExecutableFailed { cause })),
            },
            (Phase::AnnouncingDone, Event::Reported) => {
                self.phase = Phase::Idle;
                Some(Action::Finish { outcome: Ok(local_binary_path(self.tool.as_str())) })
            },
            _ => None,
        }
    }

    fn search(&mut self) -> (action: Action)
        ensures
            (final(self)@, action@) == old(self)@.search(),
    {
        match self.strategy {
            Strategy::SearchPath => {
                self.phase = Phase::Locating;
                Action::SearchPath { name: self.tool.clone() }
            },
            Strategy::Download => {
                self.phase = Phase::AnnouncingCheck;
                Action::Report { status: InstallationStatus::CheckingForUpdate }
            },
        }
    }

    fn settle(&mut self) -> (action: Action)
        ensures
            (final(self)@, action@) == old(self)@.settle(),
    {
        self.cached_binary_path = Some(local_binary_path(self.tool.as_str()));
        self.phase = Phase::AnnouncingDone;
        Action::Report { status: InstallationStatus::Idle }
    }

    fn fail(&mut self, error: ResolveError) -> (action: Action)
        ensures
            (final(self)@, action@) == old(self)@.fail(error@),
    {
        self.phase = Phase::Idle;
        Action::Finish { outcome: Err(error) }
    }
}

} // verus!
