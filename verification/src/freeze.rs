//! Shapes free of hidden in-place mutability: a shared view of such a value
//! can be read byte by byte without any other holder changing it underneath.
use vstd::prelude::*;

verus! {

/// Marker for shapes with no interior mutability anywhere in their structure,
/// ignoring anything behind indirection. Required for shared-borrow
/// validation and shared byte export.
pub trait Freeze {

}

impl Freeze for u8 {

}

impl Freeze for u16 {

}

impl Freeze for u32 {

}

impl Freeze for u64 {

}

impl Freeze for u128 {

}

impl Freeze for i128 {

}

impl Freeze for i8 {

}

impl Freeze for i16 {

}

impl Freeze for i32 {

}

impl Freeze for i64 {

}

impl Freeze for bool {

}

impl Freeze for char {

}

impl Freeze for () {

}

impl Freeze for core::cmp::Ordering {

}

impl<T: Freeze> Freeze for Vec<T> {

}

impl<T: Freeze> Freeze for Option<T> {

}

impl<T: Freeze, E: Freeze> Freeze for Result<T, E> {

}

} // verus!
