use bitlayout::func::CallConv;

#[test]
fn rust_and_unwind_conventions_can_unwind() {
    assert!(CallConv::Rust.can_unwind());
    assert!(CallConv::CUnwind.can_unwind());
    assert!(CallConv::SystemUnwind.can_unwind());
    assert!(CallConv::CdeclUnwind.can_unwind());
    assert!(CallConv::StdcallUnwind.can_unwind());
    assert!(CallConv::Win64Unwind.can_unwind());
    assert!(CallConv::Sysv64Unwind.can_unwind());
    assert!(CallConv::AapcsUnwind.can_unwind());
    assert!(CallConv::FastcallUnwind.can_unwind());
    assert!(CallConv::ThiscallUnwind.can_unwind());
}

#[test]
fn foreign_conventions_cannot_unwind() {
    assert!(!CallConv::C.can_unwind());
    assert!(!CallConv::System.can_unwind());
    assert!(!CallConv::Cdecl.can_unwind());
    assert!(!CallConv::Stdcall.can_unwind());
    assert!(!CallConv::Win64.can_unwind());
    assert!(!CallConv::Sysv64.can_unwind());
    assert!(!CallConv::Aapcs.can_unwind());
    assert!(!CallConv::Fastcall.can_unwind());
    assert!(!CallConv::Thiscall.can_unwind());
}

#[test]
fn convention_names() {
    assert_eq!(CallConv::Rust.name(), "Rust");
    assert_eq!(CallConv::C.name(), "C");
    assert_eq!(CallConv::CUnwind.name(), "C-unwind");
    assert_eq!(CallConv::System.name(), "system");
    assert_eq!(CallConv::Sysv64Unwind.name(), "sysv64-unwind");
    assert_eq!(CallConv::Thiscall.name(), "thiscall");
}

#[test]
fn default_convention_is_rust() {
    assert_eq!(CallConv::default(), CallConv::Rust);
}
