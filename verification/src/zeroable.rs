//! Shapes for which the all-zero bit pattern is a legal value, and the
//! operations that produce that value.
use vstd::prelude::*;
use crate::ptr::Pointee;
use crate::ptr::RawNonNull;

verus! {

/// Shapes whose all-zero bit pattern is a legal value. `zero_spec()` is that
/// value, the one every zeroing operation yields.
pub trait Zeroable: Sized {
    /// The value carried by the all-zero bit pattern.
    spec fn zero_spec() -> Self;

    /// Produce the all-zero value.
    fn make_zero() -> (r: Self)
        ensures
            r == Self::zero_spec(),
    ;
}

/// Create a new `T` filled with all zeroes.
pub fn zeroed<T: Zeroable>() -> (r: T)
    ensures
        r == T::zero_spec(),
{
    T::make_zero()
}

/// Overwrite some `T` with all zeroes: afterwards it reads back as the
/// shape's all-zero logical value.
pub fn fill_zeroes<T: Zeroable>(dst: &mut T)
    ensures
        *final(dst) == T::zero_spec(),
{
    *dst = T::make_zero();
}

/// Convenience methods available on every [`Zeroable`] shape.
pub trait ZeroableExt: Zeroable {
    /// Produce the all-zero value, as [`zeroed`] does.
    fn zeroed() -> (r: Self)
        ensures
            r == Self::zero_spec(),
    {
        Self::make_zero()
    }

    /// Overwrite `self` with all zeroes, as [`fill_zeroes`] does.
    fn fill_zeroes(&mut self)
        ensures
            *final(self) == Self::zero_spec(),
    {
        *self = Self::make_zero();
    }
}

impl<T: Zeroable> ZeroableExt for T {

}

/// Shapes that make `Option<Self>` zeroable: the all-zero pattern of the
/// option is its `None` value.
pub trait ZeroableInOption: Sized {

}

impl<T: ZeroableInOption> Zeroable for Option<T> {
    open spec fn zero_spec() -> Self {
        None
    }

    fn make_zero() -> Self {
        None
    }
}

impl<T: Pointee> ZeroableInOption for RawNonNull<T> {

}

impl Zeroable for u8 {
    open spec fn zero_spec() -> Self {
        0
    }

    fn make_zero() -> Self {
        0
    }
}

impl Zeroable for u16 {
    open spec fn zero_spec() -> Self {
        0
    }

    fn make_zero() -> Self {
        0
    }
}

impl Zeroable for u32 {
    open spec fn zero_spec() -> Self {
        0
    }

    fn make_zero() -> Self {
        0
    }
}

impl Zeroable for u64 {
    open spec fn zero_spec() -> Self {
        0
    }

    fn make_zero() -> Self {
        0
    }
}

impl Zeroable for i8 {
    open spec fn zero_spec() -> Self {
        0
    }

    fn make_zero() -> Self {
        0
    }
}

impl Zeroable for i16 {
    open spec fn zero_spec() -> Self {
        0
    }

    fn make_zero() -> Self {
        0
    }
}

impl Zeroable for i32 {
    open spec fn zero_spec() -> Self {
        0
    }

    fn make_zero() -> Self {
        0
    }
}

impl Zeroable for i64 {
    open spec fn zero_spec() -> Self {
        0
    }

    fn make_zero() -> Self {
        0
    }
}

impl Zeroable for u128 {
    open spec fn zero_spec() -> Self {
        0
    }

    fn make_zero() -> Self {
        0
    }
}

impl Zeroable for i128 {
    open spec fn zero_spec() -> Self {
        0
    }

    fn make_zero() -> Self {
        0
    }
}

impl Zeroable for bool {
    open spec fn zero_spec() -> Self {
        false
    }

    fn make_zero() -> Self {
        false
    }
}

impl Zeroable for char {
    open spec fn zero_spec() -> Self {
        '\0'
    }

    fn make_zero() -> Self {
        '\0'
    }
}

impl Zeroable for core::cmp::Ordering {
    open spec fn zero_spec() -> Self {
        core::cmp::Ordering::Equal
    }

    fn make_zero() -> Self {
        core::cmp::Ordering::Equal
    }
}

impl Zeroable for () {
    open spec fn zero_spec() -> Self {
        ()
    }

    fn make_zero() -> Self {
        ()
    }
}

/// The all-zero carrier pattern of the boolean leaf is legal and decodes to
/// the shape's all-zero logical value.
pub proof fn lemma_zero_pattern_bool()
    ensures
        <bool as crate::check_bits::CheckBits>::valid_bits(0),
        <bool as crate::check_bits::CheckBits>::is_decoding(0, bool::zero_spec()),
{
}

/// The all-zero carrier pattern of the Unicode scalar leaf is legal and
/// decodes to the shape's all-zero logical value.
pub proof fn lemma_zero_pattern_char()
    ensures
        <char as crate::check_bits::CheckBits>::valid_bits(0),
        <char as crate::check_bits::CheckBits>::is_decoding(0, char::zero_spec()),
{
    assert('\0' as u32 == 0);
}

/// Overwrite every element of a sequence with the all-zero value, keeping
/// the length: the sequence form of [`fill_zeroes`].
pub fn fill_zeroes_slice<T: Zeroable>(dst: &mut Vec<T>)
    ensures
        final(dst)@.len() == old(dst)@.len(),
        forall|i: int| 0 <= i < final(dst)@.len() ==> final(dst)@[i] == T::zero_spec(),
{
    let n = dst.len();
    let mut i: usize = 0;
    while i < n
        invariant
            n == dst@.len(),
            0 <= i <= n,
            forall|j: int| 0 <= j < i ==> dst@[j] == T::zero_spec(),
        decreases n - i,
    {
        dst[i] = T::make_zero();
        i = i + 1;
    }
}

} // verus!
