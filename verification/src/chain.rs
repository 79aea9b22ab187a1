//! What a resolution comes to, said at once rather than step by step.
//!
//! The remembered path is taken if it is still a file. Otherwise the strategy
//! decides: the search path is asked, or the binary is installed at its local
//! path unless it is already there.

use vstd::prelude::*;
use crate::error::ResolveErrorView;
use crate::host::{DownloadTarget, Host};
use crate::machine::{local_path, ResolverView, Strategy};
use crate::platform::{supported, url_for};
use crate::protocol::InstallationStatus;

verus! {

/// Whether the path that `s` remembers is still a file on `host`.
pub open spec fn remembers_file(s: ResolverView, host: Host) -> bool {
    s.cached matches Some(path) && host.files.contains(path)
}

/// Whether a resolution of `tool` gets as far as asking for a download: the
/// strategy is to download, no remembered path is of use, the binary is not
/// there yet, and a release carries one for the host's platform.
pub open spec fn must_download(s: ResolverView, tool: Seq<char>, host: Host) -> bool {
    &&& s.strategy == Strategy::Download
    &&& !remembers_file(s, host)
    &&& !host.files.contains(local_path(tool))
    &&& supported(host.platform)
}

/// What installing `tool` at its local path comes to.
pub open spec fn installed(tool: Seq<char>, host: Host) -> Result<Seq<char>, ResolveErrorView> {
    if host.files.contains(local_path(tool)) {
        Ok(local_path(tool))
    } else if !supported(host.platform) {
        Err(ResolveErrorView::UnsupportedPlatform)
    } else if host.download is Err {
        Err(ResolveErrorView::DownloadFailed { cause: host.download->Err_0 })
    } else if host.make_executable is Err {
        Err(ResolveErrorView::MakeExecutableFailed { cause: host.make_executable->Err_0 })
    } else {
        Ok(local_path(tool))
    }
}

/// What looking `tool` up on the search path comes to.
pub open spec fn located(tool: Seq<char>, host: Host) -> Result<Seq<char>, ResolveErrorView> {
    match host.which(tool) {
        Some(path) => Ok(path),
        None => Err(ResolveErrorView::BinaryNotFound { tool }),
    }
}

/// The path that a resolution of `tool` hands out, or why it hands out none.
pub open spec fn outcome_of(s: ResolverView, tool: Seq<char>, host: Host) -> Result<
    Seq<char>,
    ResolveErrorView,
> {
    if remembers_file(s, host) {
        Ok(s.cached->0)
    } else {
        match s.strategy {
            Strategy::SearchPath => located(tool, host),
            Strategy::Download => installed(tool, host),
        }
    }
}

/// The path remembered after a resolution of `tool`: the one handed out, or,
/// after a failure, the one remembered before.
pub open spec fn cache_after(s: ResolverView, tool: Seq<char>, host: Host) -> Option<Seq<char>> {
    match outcome_of(s, tool, host) {
        Ok(path) => Some(path),
        Err(_) => s.cached,
    }
}

/// The statuses that a resolution of `tool` shows. Only the download strategy
/// shows any, and only once the remembered path has proved of no use; a
/// failure leaves the last status standing.
pub open spec fn statuses_of(s: ResolverView, tool: Seq<char>, host: Host) -> Seq<
    InstallationStatus,
> {
    if remembers_file(s, host) || s.strategy == Strategy::SearchPath {
        Seq::empty()
    } else if host.files.contains(local_path(tool)) {
        seq![InstallationStatus::CheckingForUpdate, InstallationStatus::Idle]
    } else if installed(tool, host) is Ok {
        seq![
            InstallationStatus::CheckingForUpdate,
            InstallationStatus::Downloading,
            InstallationStatus::Idle,
        ]
    } else {
        seq![InstallationStatus::CheckingForUpdate, InstallationStatus::Downloading]
    }
}

/// The downloads that a resolution of `tool` asks for: one at most, of the
/// platform's binary to the local path.
pub open spec fn downloads_of(s: ResolverView, tool: Seq<char>, host: Host) -> Seq<
    DownloadTarget,
> {
    if must_download(s, tool, host) {
        seq![DownloadTarget { url: url_for(host.platform)->0, path: local_path(tool) }]
    } else {
        Seq::empty()
    }
}

} // verus!
