//! Why a resolution can fail.

use vstd::prelude::*;

verus! {

/// The reason a resolution ended without a binary. Each one ends the attempt;
/// nothing is tried again.
#[derive(Debug, PartialEq, Eq)]
pub enum ResolveError {
    /// The download table has no entry for the host's platform.
    UnsupportedPlatform,
    /// The host could not fetch the binary; `cause` is what it said.
    DownloadFailed { cause: String },
    /// The host could not mark the fetched file executable; `cause` is what it said.
    MakeExecutableFailed { cause: String },
    /// The search path holds no binary named `tool`.
    BinaryNotFound { tool: String },
}

/// A [`ResolveError`] with its texts as sequences of characters.
pub enum ResolveErrorView {
    UnsupportedPlatform,
    DownloadFailed { cause: Seq<char> },
    MakeExecutableFailed { cause: Seq<char> },
    BinaryNotFound { tool: Seq<char> },
}

impl View for ResolveError {
    type V = ResolveErrorView;

    open spec fn view(&self) -> ResolveErrorView {
        match self {
            ResolveError::UnsupportedPlatform => ResolveErrorView::UnsupportedPlatform,
            ResolveError::DownloadFailed { cause } => ResolveErrorView::DownloadFailed {
                cause: cause@,
            },
            ResolveError::MakeExecutableFailed { cause } => ResolveErrorView::MakeExecutableFailed {
                cause: cause@,
            },
            ResolveError::BinaryNotFound { tool } => ResolveErrorView::BinaryNotFound { tool: tool@ },
        }
    }
}

impl Clone for ResolveError {
    fn clone(&self) -> (copy: ResolveError)
        ensures
            copy == *self,
    {
        match self {
            ResolveError::UnsupportedPlatform => ResolveError::UnsupportedPlatform,
            ResolveError::DownloadFailed { cause } => ResolveError::DownloadFailed {
                cause: cause.clone(),
            },
            ResolveError::MakeExecutableFailed { cause } => ResolveError::MakeExecutableFailed {
                cause: cause.clone(),
            },
            ResolveError::BinaryNotFound { tool } => ResolveError::BinaryNotFound {
                tool: tool.clone(),
            },
        }
    }
}

impl ResolveErrorView {
    /// The text shown to the user. A failed download is introduced by a fixed
    /// prefix; a failure to mark the file executable is passed on as the host
    /// worded it; a missing binary tells the user what to do about it.
    pub open spec fn message(self) -> Seq<char> {
        match self {
            ResolveErrorView::UnsupportedPlatform => "Unsupported platform"@,
            ResolveErrorView::DownloadFailed { cause } => "Failed to download LSP: "@ + cause,
            ResolveErrorView::MakeExecutableFailed { cause } => cause,
            ResolveErrorView::BinaryNotFound { tool } => tool
                + " was not found on the search path: build it and place the binary on your PATH"@,
        }
    }
}

impl ResolveError {
    /// The text shown to the user.
    pub fn message(&self) -> (text: String)
        ensures
            text@ == self@.message(),
    {
        match self {
            ResolveError::UnsupportedPlatform => "Unsupported platform".to_owned(),
            ResolveError::DownloadFailed { cause } => {
                let mut text = "Failed to download LSP: ".to_owned();
                text.append(cause.as_str());
                text
            },
            ResolveError::MakeExecutableFailed { cause } => cause.clone(),
            ResolveError::BinaryNotFound { tool } => {
                let mut text = tool.clone();
                text.append(
                    " was not found on the search path: build it and place the binary on your PATH",
                );
                text
            },
        }
    }
}

} // verus!
