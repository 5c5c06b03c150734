//! Host platforms and the analyzer artifacts that exist for them.

use vstd::prelude::*;

verus! {

/// An operating system, as the editor host reports it.
#[derive(Clone, Copy, Debug, PartialEq, Eq)]
pub enum Os {
    Mac,
    Linux,
    Windows,
}

/// A processor architecture, as the editor host reports it.
#[derive(Clone, Copy, Debug, PartialEq, Eq)]
pub enum Architecture {
    Aarch64,
    X86,
    X8664,
}

/// Name of the prebuilt archive for a platform, if one is published.
pub open spec fn spec_asset_name(os: Os, arch: Architecture) -> Option<Seq<char>> {
    match (os, arch) {
        (Os::Linux, Architecture::X8664) => Some("greycat-analyzer-x86_64-unknown-linux-gnu.zip"@),
        (Os::Mac, Architecture::Aarch64) => Some("greycat-analyzer-aarch64-apple-darwin.zip"@),
        (Os::Windows, Architecture::X8664) => Some("greycat-analyzer-x86_64-pc-windows-msvc.zip"@),
        _ => None,
    }
}

/// How the host spells an operating system in diagnostics.
pub open spec fn spec_os_label(os: Os) -> Seq<char> {
    match os {
        Os::Mac => "Os::Mac"@,
        Os::Linux => "Os::Linux"@,
        Os::Windows => "Os::Windows"@,
    }
}

/// How the host spells an architecture in diagnostics.
pub open spec fn spec_arch_label(arch: Architecture) -> Seq<char> {
    match arch {
        Architecture::Aarch64 => "Architecture::Aarch64"@,
        Architecture::X86 => "Architecture::X86"@,
        Architecture::X8664 => "Architecture::X8664"@,
    }
}

/// The message given for a platform without a prebuilt archive.
pub open spec fn spec_unsupported_platform_message(os: Os, arch: Architecture) -> Seq<char> {
    "no prebuilt greycat-analyzer artifact for "@ + spec_os_label(os) + "/"@
        + spec_arch_label(arch)
        + "; install manually \u{2014} see https://github.com/maxleiko/greycat-analyzer#install"@
}

/// The host's diagnostic spelling of an operating system.
pub fn os_label(os: Os) -> (res: &'static str)
    ensures
        res@ == spec_os_label(os),
{
    match os {
        Os::Mac => "Os::Mac",
        Os::Linux => "Os::Linux",
        Os::Windows => "Os::Windows",
    }
}

/// The host's diagnostic spelling of an architecture.
pub fn arch_label(arch: Architecture) -> (res: &'static str)
    ensures
        res@ == spec_arch_label(arch),
{
    match arch {
        Architecture::Aarch64 => "Architecture::Aarch64",
        Architecture::X86 => "Architecture::X86",
        Architecture::X8664 => "Architecture::X8664",
    }
}

/// Archive name for the platform, e.g. `greycat-analyzer-aarch64-apple-darwin.zip`.
/// Platforms with no native artifact (today: Intel Mac, and every 32-bit x86) are
/// refused with a message that tells the user to install by hand.
pub fn asset_filename_for_platform(os: Os, arch: Architecture) -> (res: Result<&'static str, String>)
    ensures
        match res {
            Ok(name) => spec_asset_name(os, arch) == Some(name@),
            Err(msg) => spec_asset_name(os, arch) is None
                && msg@ == spec_unsupported_platform_message(os, arch),
        },
{
    match (os, arch) {
        (Os::Linux, Architecture::X8664) => Ok("greycat-analyzer-x86_64-unknown-linux-gnu.zip"),
        (Os::Mac, Architecture::Aarch64) => Ok("greycat-analyzer-aarch64-apple-darwin.zip"),
        (Os::Windows, Architecture::X8664) => Ok("greycat-analyzer-x86_64-pc-windows-msvc.zip"),
        _ => {
            let mut msg = String::from_str("no prebuilt greycat-analyzer artifact for ");
            msg.append(os_label(os));
            msg.append("/");
            msg.append(arch_label(arch));
            msg.append("; install manually \u{2014} see https://github.com/maxleiko/greycat-analyzer#install");
            Err(msg)
        },
    }
}

/// Name of the analyzer executable inside the extracted archive.
pub open spec fn spec_binary_filename(os: Os) -> Seq<char> {
    match os {
        Os::Windows => "greycat-analyzer.exe"@,
        _ => "greycat-analyzer"@,
    }
}

/// Name of the analyzer executable inside the extracted archive.
pub fn binary_filename(os: Os) -> (res: &'static str)
    ensures
        res@ == spec_binary_filename(os),
{
    match os {
        Os::Windows => "greycat-analyzer.exe",
        _ => "greycat-analyzer",
    }
}

} // verus!
