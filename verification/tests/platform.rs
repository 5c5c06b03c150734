use greycat_zed::platform::{asset_filename_for_platform, binary_filename, Architecture, Os};

#[test]
fn supported_platforms_have_archives() {
    assert_eq!(
        asset_filename_for_platform(Os::Linux, Architecture::X8664),
        Ok("greycat-analyzer-x86_64-unknown-linux-gnu.zip")
    );
    assert_eq!(
        asset_filename_for_platform(Os::Mac, Architecture::Aarch64),
        Ok("greycat-analyzer-aarch64-apple-darwin.zip")
    );
    assert_eq!(
        asset_filename_for_platform(Os::Windows, Architecture::X8664),
        Ok("greycat-analyzer-x86_64-pc-windows-msvc.zip")
    );
}

#[test]
fn intel_mac_has_no_archive() {
    assert_eq!(
        asset_filename_for_platform(Os::Mac, Architecture::X8664),
        Err("no prebuilt greycat-analyzer artifact for Os::Mac/Architecture::X8664; install manually \u{2014} see https://github.com/maxleiko/greycat-analyzer#install".to_string())
    );
    assert!(asset_filename_for_platform(Os::Linux, Architecture::Aarch64).is_err());
    assert!(asset_filename_for_platform(Os::Windows, Architecture::X86).is_err());
}

#[test]
fn windows_binary_has_exe_suffix() {
    assert_eq!(binary_filename(Os::Windows), "greycat-analyzer.exe");
    assert_eq!(binary_filename(Os::Linux), "greycat-analyzer");
    assert_eq!(binary_filename(Os::Mac), "greycat-analyzer");
}
