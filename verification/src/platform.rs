//! Operating system and CPU architecture of the machine the editor runs on,
//! and the per-platform names derived from them.

use vstd::prelude::*;

verus! {

/// The operating systems the editor runs on.
#[derive(Clone, Copy, Debug, PartialEq, Eq, Structural)]
pub enum Os {
    Mac,
    Linux,
    Windows,
}

/// The CPU architectures the editor runs on.
#[derive(Clone, Copy, Debug, PartialEq, Eq, Structural)]
pub enum Architecture {
    Aarch64,
    X8664,
    X86,
}

/// An operating system together with a CPU architecture.
#[derive(Clone, Copy, Debug, PartialEq, Eq, Structural)]
pub struct PlatformId {
    pub os: Os,
    pub arch: Architecture,
}

/// The name by which language-server releases call an operating system.
pub open spec fn os_label_spec(os: Os) -> Seq<char> {
    match os {
        Os::Mac => "darwin"@,
        Os::Linux => "linux"@,
        Os::Windows => "win32"@,
    }
}

/// The archive format in which language-server releases ship for an
/// operating system.
pub open spec fn archive_extension_spec(os: Os) -> Seq<char> {
    match os {
        Os::Mac | Os::Linux => "tar.gz"@,
        Os::Windows => "zip"@,
    }
}

/// The suffix of an executable file's name on an operating system.
pub open spec fn exe_suffix_spec(os: Os) -> Seq<char> {
    match os {
        Os::Mac | Os::Linux => ""@,
        Os::Windows => ".exe"@,
    }
}

/// The name by which language-server releases call an architecture, where
/// they ship for it.
pub open spec fn arch_label_spec(arch: Architecture) -> Option<Seq<char>> {
    match arch {
        Architecture::Aarch64 => Some("arm64"@),
        Architecture::X8664 => Some("x64"@),
        Architecture::X86 => None,
    }
}

impl PlatformId {
    /// The platform of an operating system and an architecture.
    pub fn new(os: Os, arch: Architecture) -> (p: PlatformId)
        ensures
            p.os == os,
            p.arch == arch,
    {
        PlatformId { os, arch }
    }

    /// Whether language-server releases ship for this platform.
    pub open spec fn supported_spec(&self) -> bool {
        self.arch != Architecture::X86
    }

    /// Whether language-server releases ship for this platform.
    #[verifier::when_used_as_spec(supported_spec)]
    pub fn supported(&self) -> (b: bool)
        ensures
            b == self.supported_spec(),
    {
        match self.arch {
            Architecture::X86 => false,
            _ => true,
        }
    }
}

/// The name by which language-server releases call an operating system.
pub fn os_label(os: Os) -> (s: &'static str)
    ensures
        s@ == os_label_spec(os),
{
    match os {
        Os::Mac => "darwin",
        Os::Linux => "linux",
        Os::Windows => "win32",
    }
}

/// The extension of the archive for an operating system.
pub fn archive_extension(os: Os) -> (s: &'static str)
    ensures
        s@ == archive_extension_spec(os),
{
    match os {
        Os::Mac | Os::Linux => "tar.gz",
        Os::Windows => "zip",
    }
}

/// The suffix of an executable file's name on an operating system.
pub fn exe_suffix(os: Os) -> (s: &'static str)
    ensures
        s@ == exe_suffix_spec(os),
{
    match os {
        Os::Mac | Os::Linux => "",
        Os::Windows => ".exe",
    }
}

/// The name by which language-server releases call an architecture; none
/// for the one they do not ship for.
pub fn arch_label(arch: Architecture) -> (s: Option<&'static str>)
    ensures
        s is Some <==> arch_label_spec(arch) is Some,
        s is Some ==> s->0@ == arch_label_spec(arch)->0,
{
    match arch {
        Architecture::Aarch64 => Some("arm64"),
        Architecture::X8664 => Some("x64"),
        Architecture::X86 => None,
    }
}

} // verus!
