//! Byte-buffer utilities shared by the layout model.
use vstd::prelude::*;
use crate::no_uninit::NoUninit;

verus! {

/// Bitwise reinterpretation: read a value of shape `Dst` out of exactly the
/// bytes of a value of shape `Src`. Callable only where the shapes' sizes
/// agree and the source's image is some destination value's image — each
/// call site carries that proof.
pub fn transmute_bytes<Src: NoUninit, Dst: NoUninit>(src: Src) -> (r: Dst)
    requires
        Src::size_spec() == Dst::size_spec(),
        exists|d: Dst| d.to_bytes() == src.to_bytes(),
    ensures
        r.to_bytes() == src.to_bytes(),
{
    let bytes = src.bytes_of_value();
    Dst::of_bytes(&bytes)
}

/// Overwrite every byte of a buffer with one value, keeping its length.
pub fn memset(dst: &mut Vec<u8>, val: u8)
    ensures
        final(dst)@.len() == old(dst)@.len(),
        forall|i: int| 0 <= i < final(dst)@.len() ==> final(dst)@[i] == val,
{
    let n = dst.len();
    let mut i: usize = 0;
    while i < n
        invariant
            n == dst@.len(),
            0 <= i <= n,
            forall|j: int| 0 <= j < i ==> dst@[j] == val,
        decreases n - i,
    {
        dst[i] = val;
        i = i + 1;
    }
}

} // verus!
