//! Host platform identification and the platform-to-asset-name mapping.

use vstd::prelude::*;

use crate::errors::ProvisionError;

verus! {

/// Operating systems the release feed publishes binaries for.
#[derive(Clone, Copy, PartialEq, Eq, Structural, Debug)]
pub enum Os {
    Mac,
    Linux,
    Windows,
}

/// Processor architectures a host may report.
#[derive(Clone, Copy, PartialEq, Eq, Structural, Debug)]
pub enum Arch {
    Aarch64,
    X8664,
    X86,
}

/// The operating-system part of an asset name.
pub open spec fn os_token(os: Os) -> Seq<char> {
    match os {
        Os::Mac => "apple-darwin"@,
        Os::Linux => "unknown-linux-gnu"@,
        Os::Windows => "pc-windows-msvc.exe"@,
    }
}

/// The architecture part of an asset name; empty for an architecture that
/// never has an asset.
pub open spec fn arch_token(arch: Arch) -> Seq<char> {
    match arch {
        Arch::Aarch64 => "aarch64"@,
        Arch::X8664 => "x86_64"@,
        Arch::X86 => Seq::<char>::empty(),
    }
}

/// The (OS, architecture) pairs for which the release feed defines an asset:
/// 32-bit x86 never has one, and 64-bit ARM has none on Windows.
pub open spec fn supported(os: Os, arch: Arch) -> bool {
    match arch {
        Arch::Aarch64 => os != Os::Windows,
        Arch::X8664 => true,
        Arch::X86 => false,
    }
}

/// The word naming the architecture in the unsupported-platform error.
pub open spec fn unsupported_arch_word(arch: Arch) -> Seq<char> {
    match arch {
        Arch::Aarch64 => "aarch64"@,
        Arch::X8664 => Seq::<char>::empty(),
        Arch::X86 => "x86"@,
    }
}

/// The asset name for a supported pair: the product prefix, then the
/// architecture token, then the operating-system token.
pub open spec fn asset_name_of(os: Os, arch: Arch) -> Seq<char> {
    "neocmakelsp-"@ + arch_token(arch) + "-"@ + os_token(os)
}

/// Computes the release asset name for the given platform, or reports the
/// platform as unsupported. Succeeds exactly on the supported pairs.
pub fn asset_name(os: Os, arch: Arch) -> (r: Result<String, ProvisionError>)
    ensures
        r is Ok <==> supported(os, arch),
        r matches Ok(name) ==> name@ == asset_name_of(os, arch),
        r matches Err(e) ==> (e matches ProvisionError::UnsupportedPlatform { arch_word }
            && arch_word@ == unsupported_arch_word(arch)),
{
    let arch_part: &str = match arch {
        Arch::Aarch64 => {
            if os == Os::Windows {
                return Err(ProvisionError::UnsupportedPlatform {
                    arch_word: String::from_str("aarch64"),
                });
            }
            "aarch64"
        },
        Arch::X8664 => "x86_64",
        Arch::X86 => {
            return Err(ProvisionError::UnsupportedPlatform {
                arch_word: String::from_str("x86"),
            });
        },
    };
    let os_part: &str = match os {
        Os::Mac => "apple-darwin",
        Os::Linux => "unknown-linux-gnu",
        Os::Windows => "pc-windows-msvc.exe",
    };
    let name = String::from_str("neocmakelsp-").concat(arch_part).concat("-").concat(os_part);
    Ok(name)
}

} // verus!
