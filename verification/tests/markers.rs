use bitlayout::array::Length;
use bitlayout::array::NonEmpty;
use bitlayout::forget::Forget;
use bitlayout::freeze::Freeze;
use bitlayout::inhabit::Always;
use bitlayout::inhabit::Inhabited;
use bitlayout::ptr::Pointee;
use bitlayout::ptr::Thin;
use bitlayout::unaligned::Unaligned;
use bitlayout::unaligned::UnalignedInOption;
use bitlayout::zeroable::ZeroableInOption;

fn is_freeze<T: Freeze>() {}
fn is_forget<T: Forget>() {}
fn is_unaligned<T: Unaligned>() {}
fn is_unaligned_in_option<T: UnalignedInOption>() {}
fn is_zeroable_in_option<T: ZeroableInOption>() {}
fn is_thin<T: Thin>() {}
fn is_wide<T: Pointee<Metadata = usize>>() {}
fn is_non_empty<T: NonEmpty>() {}
fn is_inhabited<T: Inhabited>() {}

#[test]
fn capability_markers_hold_for_primitives() {
    is_freeze::<u8>();
    is_freeze::<char>();
    is_freeze::<Vec<u32>>();
    is_forget::<u64>();
    is_forget::<Option<bool>>();
    is_unaligned::<u8>();
    is_unaligned::<i8>();
    is_unaligned::<bool>();
    is_unaligned_in_option::<u8>();
    is_unaligned::<Option<bool>>();
    is_zeroable_in_option::<bitlayout::ptr::RawNonNull<Vec<u8>>>();
}

#[test]
fn pointee_shapes() {
    is_thin::<u8>();
    is_thin::<()>();
    is_thin::<char>();
    is_wide::<Vec<u8>>();
    is_wide::<String>();
}

#[test]
fn length_witnesses() {
    is_non_empty::<Length<1>>();
    is_non_empty::<Length<16>>();
    let _witness: Length<4> = Length {};
}

#[test]
fn inhabited_shapes() {
    is_inhabited::<u8>();
    is_inhabited::<bool>();
    is_inhabited::<Always>();
}
