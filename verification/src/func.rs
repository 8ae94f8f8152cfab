//! Calling conventions of function pointers, and which of them may unwind
//! into their caller.
use vstd::prelude::*;

verus! {

/// The calling conventions a function pointer can carry.
#[derive(Debug, Clone, Copy, PartialEq, Eq, Hash, Structural)]
#[non_exhaustive]
pub enum CallConv {
    /// The `Rust` calling convention.
    Rust,
    /// The `C` calling convention.
    C,
    /// The `C-unwind` calling convention.
    CUnwind,
    /// The `system` calling convention.
    System,
    /// The `system-unwind` calling convention.
    SystemUnwind,
    /// The `cdecl` calling convention.
    Cdecl,
    /// The `cdecl-unwind` calling convention.
    CdeclUnwind,
    /// The `stdcall` calling convention.
    Stdcall,
    /// The `stdcall-unwind` calling convention.
    StdcallUnwind,
    /// The `win64` calling convention.
    Win64,
    /// The `win64-unwind` calling convention.
    Win64Unwind,
    /// The `sysv64` calling convention.
    Sysv64,
    /// The `sysv64-unwind` calling convention.
    Sysv64Unwind,
    /// The `aapcs` calling convention.
    Aapcs,
    /// The `aapcs-unwind` calling convention.
    AapcsUnwind,
    /// The `fastcall` calling convention.
    Fastcall,
    /// The `fastcall-unwind` calling convention.
    FastcallUnwind,
    /// The `thiscall` calling convention.
    Thiscall,
    /// The `thiscall-unwind` calling convention.
    ThiscallUnwind,
}

impl CallConv {
    /// Whether an unwind started under this convention may cross back into
    /// the caller: true exactly for the `Rust` convention and the `-unwind`
    /// variants of the foreign ones.
    pub open spec fn spec_can_unwind(self) -> bool {
        match self {
            CallConv::Rust => true,
            CallConv::CUnwind => true,
            CallConv::SystemUnwind => true,
            CallConv::CdeclUnwind => true,
            CallConv::StdcallUnwind => true,
            CallConv::Win64Unwind => true,
            CallConv::Sysv64Unwind => true,
            CallConv::AapcsUnwind => true,
            CallConv::FastcallUnwind => true,
            CallConv::ThiscallUnwind => true,
            CallConv::C => false,
            CallConv::System => false,
            CallConv::Cdecl => false,
            CallConv::Stdcall => false,
            CallConv::Win64 => false,
            CallConv::Sysv64 => false,
            CallConv::Aapcs => false,
            CallConv::Fastcall => false,
            CallConv::Thiscall => false,
        }
    }

    /// Returns whether this calling convention can unwind into its caller.
    pub fn can_unwind(self) -> (r: bool)
        ensures
            r == self.spec_can_unwind(),
    {
        match self {
            CallConv::Rust
            | CallConv::CUnwind
            | CallConv::SystemUnwind
            | CallConv::CdeclUnwind
            | CallConv::StdcallUnwind
            | CallConv::Win64Unwind
            | CallConv::Sysv64Unwind
            | CallConv::AapcsUnwind
            | CallConv::FastcallUnwind
            | CallConv::ThiscallUnwind => true,
            CallConv::C
            | CallConv::System
            | CallConv::Cdecl
            | CallConv::Stdcall
            | CallConv::Win64
            | CallConv::Sysv64
            | CallConv::Aapcs
            | CallConv::Fastcall
            | CallConv::Thiscall => false,
        }
    }

    /// The name of the calling convention, as it is written at a function
    /// pointer type.
    pub fn name(self) -> (r: &'static str)
        ensures
            r@ == self.spec_name(),
    {
        match self {
            CallConv::Rust => "Rust",
            CallConv::C => "C",
            CallConv::CUnwind => "C-unwind",
            CallConv::System => "system",
            CallConv::SystemUnwind => "system-unwind",
            CallConv::Cdecl => "cdecl",
            CallConv::CdeclUnwind => "cdecl-unwind",
            CallConv::Stdcall => "stdcall",
            CallConv::StdcallUnwind => "stdcall-unwind",
            CallConv::Win64 => "win64",
            CallConv::Win64Unwind => "win64-unwind",
            CallConv::Sysv64 => "sysv64",
            CallConv::Sysv64Unwind => "sysv64-unwind",
            CallConv::Aapcs => "aapcs",
            CallConv::AapcsUnwind => "aapcs-unwind",
            CallConv::Fastcall => "fastcall",
            CallConv::FastcallUnwind => "fastcall-unwind",
            CallConv::Thiscall => "thiscall",
            CallConv::ThiscallUnwind => "thiscall-unwind",
        }
    }

    /// The name of the calling convention, as a sequence of characters.
    pub open spec fn spec_name(self) -> Seq<char> {
        match self {
            CallConv::Rust => "Rust"@,
            CallConv::C => "C"@,
            CallConv::CUnwind => "C-unwind"@,
            CallConv::System => "system"@,
            CallConv::SystemUnwind => "system-unwind"@,
            CallConv::Cdecl => "cdecl"@,
            CallConv::CdeclUnwind => "cdecl-unwind"@,
            CallConv::Stdcall => "stdcall"@,
            CallConv::StdcallUnwind => "stdcall-unwind"@,
            CallConv::Win64 => "win64"@,
            CallConv::Win64Unwind => "win64-unwind"@,
            CallConv::Sysv64 => "sysv64"@,
            CallConv::Sysv64Unwind => "sysv64-unwind"@,
            CallConv::Aapcs => "aapcs"@,
            CallConv::AapcsUnwind => "aapcs-unwind"@,
            CallConv::Fastcall => "fastcall"@,
            CallConv::FastcallUnwind => "fastcall-unwind"@,
            CallConv::Thiscall => "thiscall"@,
            CallConv::ThiscallUnwind => "thiscall-unwind"@,
        }
    }
}

impl Default for CallConv {
    /// The `Rust` convention is the default.
    fn default() -> (r: CallConv)
        ensures
            r == CallConv::Rust,
    {
        CallConv::Rust
    }
}

} // verus!
