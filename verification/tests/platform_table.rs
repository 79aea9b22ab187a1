use lsp_resolver::platform::{Architecture, Os, PlatformKey, RELEASE_TAG, REPOSITORY};

fn url(os: Os, arch: Architecture) -> Option<String> {
    PlatformKey::new(os, arch).download_url()
}

#[test]
fn mac_on_apple_silicon_has_its_own_binary() {
    assert_eq!(
        url(Os::Mac, Architecture::Aarch64).as_deref(),
        Some("https://github.com/andrinoff/cambridge-lang/releases/download/v0.0.1/cambridge-lsp-macos-arm64")
    );
}

#[test]
fn mac_on_intel_has_its_own_binary() {
    assert_eq!(
        url(Os::Mac, Architecture::X8664).as_deref(),
        Some("https://github.com/andrinoff/cambridge-lang/releases/download/v0.0.1/cambridge-lsp-macos-intel")
    );
}

#[test]
fn mac_on_32_bit_x86_is_not_supported() {
    let key = PlatformKey::new(Os::Mac, Architecture::X86);
    assert!(!key.is_supported());
    assert_eq!(key.asset(), None);
    assert_eq!(key.download_url(), None);
}

#[test]
fn linux_has_one_binary_for_every_architecture() {
    let expected =
        "https://github.com/andrinoff/cambridge-lang/releases/download/v0.0.1/cambridge-lsp-linux";
    for arch in [Architecture::Aarch64, Architecture::X86, Architecture::X8664] {
        assert_eq!(url(Os::Linux, arch).as_deref(), Some(expected));
    }
}

#[test]
fn windows_has_one_binary_for_every_architecture() {
    let expected =
        "https://github.com/andrinoff/cambridge-lang/releases/download/v0.0.1/cambridge-lsp.exe";
    for arch in [Architecture::Aarch64, Architecture::X86, Architecture::X8664] {
        assert_eq!(url(Os::Windows, arch).as_deref(), Some(expected));
    }
}

#[test]
fn every_supported_platform_has_a_url_of_the_release_shape() {
    let mut supported: u32 = 0;
    for os in [Os::Mac, Os::Linux, Os::Windows] {
        for arch in [Architecture::Aarch64, Architecture::X86, Architecture::X8664] {
            let key = PlatformKey::new(os, arch);
            assert_eq!(key.os, os);
            assert_eq!(key.arch, arch);
            assert_eq!(key.is_supported(), key.download_url().is_some());
            assert_eq!(key.is_supported(), key.asset().is_some());
            if let Some(url) = key.download_url() {
                supported += 1;
                let asset = key.asset().unwrap();
                assert!(!asset.is_empty());
                assert!(!asset.contains('/'));
                assert_eq!(
                    url,
                    format!("{}/releases/download/{}/{}", REPOSITORY, RELEASE_TAG, asset)
                );
            }
        }
    }
    assert_eq!(supported, 8);
}

#[test]
fn release_constants_are_the_published_ones() {
    assert_eq!(REPOSITORY, "https://github.com/andrinoff/cambridge-lang");
    assert_eq!(RELEASE_TAG, "v0.0.1");
}

#[test]
fn asset_names_are_the_published_ones() {
    assert_eq!(
        PlatformKey::new(Os::Mac, Architecture::Aarch64).asset(),
        Some("cambridge-lsp-macos-arm64")
    );
    assert_eq!(
        PlatformKey::new(Os::Mac, Architecture::X8664).asset(),
        Some("cambridge-lsp-macos-intel")
    );
    assert_eq!(PlatformKey::new(Os::Linux, Architecture::X86).asset(), Some("cambridge-lsp-linux"));
    assert_eq!(
        PlatformKey::new(Os::Windows, Architecture::Aarch64).asset(),
        Some("cambridge-lsp.exe")
    );
}
