//! The [`Forget`] trait marks shapes whose destructor, if any, can be
//! disregarded: dropping and forgetting a value come to the same thing. It
//! is a hint for programmers, not a guarantee to build safety arguments on.
use vstd::prelude::*;

verus! {

/// Marker suggesting that a shape has no destructor worth running.
pub trait Forget {

}

impl Forget for u8 {

}

impl Forget for u16 {

}

impl Forget for u32 {

}

impl Forget for u64 {

}

impl Forget for u128 {

}

impl Forget for i128 {

}

impl Forget for i8 {

}

impl Forget for i16 {

}

impl Forget for i32 {

}

impl Forget for i64 {

}

impl Forget for bool {

}

impl Forget for char {

}

impl Forget for usize {

}

impl Forget for isize {

}

impl Forget for () {

}

impl<T: Forget> Forget for Option<T> {

}

impl<T: Forget, E: Forget> Forget for Result<T, E> {

}

impl Forget for core::cmp::Ordering {

}

} // verus!
