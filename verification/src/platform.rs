//! The operating systems and processors a wheel can be built for.

use vstd::prelude::*;

verus! {

/// Operating system of a target platform.
#[derive(Clone, Copy, Debug, PartialEq, Eq, Structural)]
pub enum Os {
    Macos,
    Linux,
    Windows,
}

/// Processor architecture of a target platform.
#[derive(Clone, Copy, Debug, PartialEq, Eq, Structural)]
pub enum Cpu {
    X86_64,
    Aarch64,
}

/// A compiled extension for one platform.
#[derive(Debug)]
pub struct LoadableFile {
    /// The file name without its extension, by which SQLite loads it.
    pub file_stem: String,
    /// The file name.
    pub name: String,
    /// What the file holds.
    pub data: Vec<u8>,
}

/// What was compiled for one platform.
#[derive(Debug)]
pub struct PlatformDirectory {
    pub os: Os,
    pub cpu: Cpu,
    /// The loadable files, the entry point first.
    pub loadable_files: Vec<LoadableFile>,
}

/// The compatibility tag of each supported pair, `None` for a pair that no
/// wheel can be built for.
pub open spec fn platform_tag(os: Os, cpu: Cpu) -> Option<Seq<char>> {
    match (os, cpu) {
        (Os::Macos, Cpu::X86_64) => Some("macosx_10_6_x86_64"@),
        (Os::Macos, Cpu::Aarch64) => Some("macosx_11_0_arm64"@),
        (Os::Linux, Cpu::X86_64) => Some(
            "manylinux_2_17_x86_64.manylinux2014_x86_64.manylinux1_x86_64"@,
        ),
        (Os::Linux, Cpu::Aarch64) => Some("manylinux_2_17_aarch64.manylinux2014_aarch64"@),
        (Os::Windows, Cpu::X86_64) => Some("win_amd64"@),
        (Os::Windows, Cpu::Aarch64) => None,
    }
}

/// The platform that a pair of references names.
pub open spec fn platform_of(platform: Option<(&Os, &Cpu)>) -> Option<(Os, Cpu)> {
    match platform {
        Some((os, cpu)) => Some((*os, *cpu)),
        None => None,
    }
}

/// The tag of a wheel: that of its platform, or `any` for a wheel that holds
/// no native code.
pub open spec fn wheel_tag(platform: Option<(Os, Cpu)>) -> Option<Seq<char>> {
    match platform {
        Some((os, cpu)) => platform_tag(os, cpu),
        None => Some("any"@),
    }
}

} // verus!
