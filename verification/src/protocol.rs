//! What the resolver asks of the host, and what the host tells it.

use vstd::prelude::*;
use crate::error::{ResolveError, ResolveErrorView};
use crate::platform::PlatformKey;

verus! {

/// The progress shown to the user while a binary is being installed.
#[derive(Clone, Copy, Debug, PartialEq, Eq, Structural)]
pub enum InstallationStatus {
    /// Nothing is going on.
    Idle,
    CheckingForUpdate,
    Downloading,
}

/// What the host is to do next.
#[derive(Debug, PartialEq, Eq)]
pub enum Action {
    /// Find out whether `path` is a regular file.
    ProbeFile { path: String },
    /// Look `name` up on the search path.
    SearchPath { name: String },
    /// Show `status` to the user.
    Report { status: InstallationStatus },
    /// Find out which platform the host runs on.
    QueryPlatform,
    /// Fetch `url` into the file `path`, as it is, without unpacking.
    Download { url: String, path: String },
    /// Mark the file `path` executable.
    MakeExecutable { path: String },
    /// The resolution is over: `outcome` is the binary's path, or why there is none.
    Finish { outcome: Result<String, ResolveError> },
}

/// What the host found or did, in answer to an [`Action`].
#[derive(Debug, PartialEq, Eq)]
pub enum Event {
    /// Answers `ProbeFile`.
    Probed { is_file: bool },
    /// Answers `SearchPath`.
    Searched { found: Option<String> },
    /// Answers `Report`.
    Reported,
    /// Answers `QueryPlatform`.
    Platform { key: PlatformKey },
    /// Answers `Download`.
    Downloaded { result: Result<(), String> },
    /// Answers `MakeExecutable`.
    MadeExecutable { result: Result<(), String> },
}

/// An [`Action`] with its texts as sequences of characters.
pub enum ActionView {
    ProbeFile { path: Seq<char> },
    SearchPath { name: Seq<char> },
    Report { status: InstallationStatus },
    QueryPlatform,
    Download { url: Seq<char>, path: Seq<char> },
    MakeExecutable { path: Seq<char> },
    Finish { outcome: Result<Seq<char>, ResolveErrorView> },
}

/// An [`Event`] with its texts as sequences of characters.
pub enum EventView {
    Probed { is_file: bool },
    Searched { found: Option<Seq<char>> },
    Reported,
    Platform { key: PlatformKey },
    Downloaded { result: Result<(), Seq<char>> },
    MadeExecutable { result: Result<(), Seq<char>> },
}

/// The view of a resolution's outcome.
pub open spec fn outcome_view(outcome: Result<String, ResolveError>) -> Result<
    Seq<char>,
    ResolveErrorView,
> {
    match outcome {
        Ok(path) => Ok(path@),
        Err(error) => Err(error@),
    }
}

/// The view of what the host says of an effect.
pub open spec fn effect_view(result: Result<(), String>) -> Result<(), Seq<char>> {
    match result {
        Ok(_) => Ok(()),
        Err(cause) => Err(cause@),
    }
}

impl View for Action {
    type V = ActionView;

    open spec fn view(&self) -> ActionView {
        match self {
            Action::ProbeFile { path } => ActionView::ProbeFile { path: path@ },
            Action::SearchPath { name } => ActionView::SearchPath { name: name@ },
            Action::Report { status } => ActionView::Report { status: *status },
            Action::QueryPlatform => ActionView::QueryPlatform,
            Action::Download { url, path } => ActionView::Download { url: url@, path: path@ },
            Action::MakeExecutable { path } => ActionView::MakeExecutable { path: path@ },
            Action::Finish { outcome } => ActionView::Finish { outcome: outcome_view(*outcome) },
        }
    }
}

impl View for Event {
    type V = EventView;

    open spec fn view(&self) -> EventView {
        match self {
            Event::Probed { is_file } => EventView::Probed { is_file: *is_file },
            Event::Searched { found } => EventView::Searched { found: found.deep_view() },
            Event::Reported => EventView::Reported,
            Event::Platform { key } => EventView::Platform { key: *key },
            Event::Downloaded { result } => EventView::Downloaded { result: effect_view(*result) },
            Event::MadeExecutable { result } => EventView::MadeExecutable {
                result: effect_view(*result),
            },
        }
    }
}

} // verus!
