//! Bit-level layout toolkit: decides whether raw bytes legally represent a
//! value of a given shape, encodes references to variably-sized values as an
//! (address, metadata) pair, and offers a packed, alignment-free storage cell
//! with failure-safe mutation.
//!
//! Memory is modelled as sequences of bytes: every shape that takes part in
//! the byte-level reasoning describes its own representation as a `Seq<u8>`,
//! and all layout claims are proved against that model.
use vstd::prelude::*;

pub mod array;
pub mod check_bits;
pub mod forget;
pub mod freeze;
pub mod func;
pub mod inhabit;
pub mod no_uninit;
pub mod no_uninit_in_option;
pub mod ptr;
pub mod text;
pub mod unaligned;
pub mod util;
pub mod zeroable;

verus! {

/// Export the exact bytes of a value: always `size_spec()` bytes, the
/// value's little-endian image. Shared export demands a shape free of
/// interior mutation, so the bytes cannot change while they are read.
pub fn bytes_of<T: no_uninit::NoUninit + freeze::Freeze>(src: &T) -> (r: Vec<u8>)
    ensures
        r@ == src.to_bytes(),
        r@.len() == T::size_spec(),
{
    proof {
        let v = *src;
        v.to_bytes_len();
    }
    src.bytes_of_value()
}

} // verus!
