//! Platforms and the table of release downloads.

use vstd::prelude::*;

verus! {

/// An operating system a host can run on.
#[derive(Clone, Copy, Debug, PartialEq, Eq, Structural)]
pub enum Os {
    Mac,
    Linux,
    Windows,
}

/// A processor architecture a host can run on.
#[derive(Clone, Copy, Debug, PartialEq, Eq, Structural)]
pub enum Architecture {
    Aarch64,
    X86,
    X8664,
}

/// The key under which the download table is searched.
#[derive(Clone, Copy, Debug, PartialEq, Eq, Structural)]
pub struct PlatformKey {
    pub os: Os,
    pub arch: Architecture,
}

/// The repository whose releases carry the binaries.
pub const REPOSITORY: &'static str = "https://github.com/andrinoff/cambridge-lang";

/// The release that this build downloads from.
pub const RELEASE_TAG: &'static str = "v0.0.1";

/// The platforms for which a release carries a binary: every Linux and
/// Windows host, and macOS on the two 64-bit architectures.
pub open spec fn supported(key: PlatformKey) -> bool {
    match key.os {
        Os::Mac => key.arch == Architecture::Aarch64 || key.arch == Architecture::X8664,
        Os::Linux => true,
        Os::Windows => true,
    }
}

/// The file name of the binary that a release carries for `key`. Linux and
/// Windows have one binary each, whatever the architecture.
pub open spec fn asset_name(key: PlatformKey) -> Seq<char>
    recommends
        supported(key),
{
    match key.os {
        Os::Mac => if key.arch == Architecture::Aarch64 {
            "cambridge-lsp-macos-arm64"@
        } else {
            "cambridge-lsp-macos-intel"@
        },
        Os::Linux => "cambridge-lsp-linux"@,
        Os::Windows => "cambridge-lsp.exe"@,
    }
}

/// Where a release publishes the file `asset`.
pub open spec fn release_url(asset: Seq<char>) -> Seq<char> {
    REPOSITORY@ + "/releases/download/"@ + RELEASE_TAG@ + "/"@ + asset
}

/// The download table: the one URL of a supported platform, none for the others.
pub open spec fn url_for(key: PlatformKey) -> Option<Seq<char>> {
    if supported(key) {
        Some(release_url(asset_name(key)))
    } else {
        None
    }
}

/// The table holds the supported platforms and no others.
pub proof fn table_holds_supported_platforms_only(key: PlatformKey)
    ensures
        url_for(key) is Some <==> supported(key),
{
}

/// The URL of a supported platform is the repository's address, then
/// `/releases/download/`, the release tag, `/`, and the platform's file name.
/// The tag and the file name are one path segment each: neither is empty and
/// neither holds a `/`.
pub proof fn supported_platform_has_release_url(key: PlatformKey)
    requires
        supported(key),
    ensures
        url_for(key) == Some(
            REPOSITORY@ + "/releases/download/"@ + RELEASE_TAG@ + "/"@ + asset_name(key),
        ),
        RELEASE_TAG@.len() > 0 && !RELEASE_TAG@.contains('/'),
        asset_name(key).len() > 0 && !asset_name(key).contains('/'),
{
    reveal_strlit("v0.0.1");
    reveal_strlit("cambridge-lsp-macos-arm64");
    reveal_strlit("cambridge-lsp-macos-intel");
    reveal_strlit("cambridge-lsp-linux");
    reveal_strlit("cambridge-lsp.exe");
}

impl PlatformKey {
    pub fn new(os: Os, arch: Architecture) -> (key: PlatformKey)
        ensures
            key == (PlatformKey { os, arch }),
    {
        PlatformKey { os, arch }
    }

    /// Whether a release carries a binary for this platform.
    pub fn is_supported(&self) -> (yes: bool)
        ensures
            yes == supported(*self),
    {
        match self.os {
            Os::Mac => match self.arch {
                Architecture::Aarch64 => true,
                Architecture::X8664 => true,
                Architecture::X86 => false,
            },
            Os::Linux => true,
            Os::Windows => true,
        }
    }

    /// The file name of this platform's binary in a release.
    pub fn asset(&self) -> (name: Option<&'static str>)
        ensures
            name is Some <==> supported(*self),
            name matches Some(n) ==> n@ == asset_name(*self),
    {
        match self.os {
            Os::Mac => match self.arch {
                Architecture::Aarch64 => Some("cambridge-lsp-macos-arm64"),
                Architecture::X8664 => Some("cambridge-lsp-macos-intel"),
                Architecture::X86 => None,
            },
            Os::Linux => Some("cambridge-lsp-linux"),
            Os::Windows => Some("cambridge-lsp.exe"),
        }
    }

    /// Looks this platform up in the download table.
    pub fn download_url(&self) -> (url: Option<String>)
        ensures
            url.deep_view() == url_for(*self),
    {
        match self.asset() {
            Some(name) => {
                let mut url = REPOSITORY.to_owned();
                url.append("/releases/download/");
                url.append(RELEASE_TAG);
                url.append("/");
                url.append(name);
                Some(url)
            },
            None => None,
        }
    }
}

} // verus!
