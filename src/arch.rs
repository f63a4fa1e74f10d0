//! Processor architectures a build can target.

use vstd::prelude::*;

verus! {

#[derive(Clone, Copy, Debug, PartialEq, Eq, Structural)]
pub enum Arch {
    X86,
    X64,
    Arm64,
    Armv7l,
    Ppc64le,
    Ppc64,
    S390x,
}

impl Arch {
    /// The conventional name of the architecture.
    pub fn as_str(&self) -> (r: &'static str)
        ensures
            r@ == arch_name(*self),
    {
        match self {
            Arch::X86 => "x86",
            Arch::X64 => "x64",
            Arch::Arm64 => "arm64",
            Arch::Armv7l => "armv7l",
            Arch::Ppc64le => "ppc64le",
            Arch::Ppc64 => "ppc64",
            Arch::S390x => "s390x",
        }
    }

    /// The architecture used when none is configured.
    pub fn default_arch() -> (r: Arch)
        ensures
            r == Arch::X64,
    {
        Arch::X64
    }
}

pub open spec fn arch_name(a: Arch) -> Seq<char> {
    match a {
        Arch::X86 => "x86"@,
        Arch::X64 => "x64"@,
        Arch::Arm64 => "arm64"@,
        Arch::Armv7l => "armv7l"@,
        Arch::Ppc64le => "ppc64le"@,
        Arch::Ppc64 => "ppc64"@,
        Arch::S390x => "s390x"@,
    }
}

} // verus!
