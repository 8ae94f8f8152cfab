//! Packed, alignment-free storage: a cell that carries exactly the bytes of
//! one value of shape `T` at an address with no alignment guarantee, with
//! safe load/store by byte copy and a failure-safe update protocol.
use vstd::prelude::*;
use crate::no_uninit::NoUninit;

verus! {

/// Marker for shapes with no alignment requirement beyond one byte.
pub trait Unaligned: NoUninit {
    /// The shape's natural alignment is exactly one byte.
    proof fn align_is_one()
        ensures
            Self::align_spec() == 1,
    ;
}

impl Unaligned for u8 {
    proof fn align_is_one() {
    }
}

impl Unaligned for i8 {
    proof fn align_is_one() {
    }
}

impl Unaligned for bool {
    proof fn align_is_one() {
    }
}

impl Unaligned for () {
    proof fn align_is_one() {
    }
}

impl Unaligned for core::cmp::Ordering {
    proof fn align_is_one() {
    }
}

/// Marker for shapes that keep their one-byte alignment when wrapped in an
/// `Option`.
pub trait UnalignedInOption: Unaligned {

}

impl UnalignedInOption for u8 {

}

impl UnalignedInOption for i8 {

}

impl UnalignedInOption for bool {

}

impl<T: UnalignedInOption + crate::no_uninit_in_option::NoUninitInOption> Unaligned for Option<
    T,
> {
    proof fn align_is_one() {
        T::align_is_one();
    }
}

/// A packed carrier for a value of shape `T`: exactly `size_spec()` bytes,
/// the value's image, placed at an address that need not satisfy `T`'s
/// natural alignment. The cell always contains exactly one logical value's
/// bytes — also at every observable point during an update.
pub struct Unalign<T: NoUninit> {
    bytes: Vec<u8>,
    addr: usize,
    value: Ghost<T>,
}

impl<T: NoUninit> Unalign<T> {
    /// Well-formedness: the cell holds exactly the bytes of its one logical
    /// value.
    pub closed spec fn wf(self) -> bool {
        self.bytes@ == self.value@.to_bytes()
    }

    /// The logical value whose bytes the cell carries.
    pub closed spec fn value_spec(self) -> T {
        self.value@
    }

    /// The address the cell models itself as placed at.
    pub closed spec fn addr_spec(self) -> usize {
        self.addr
    }

    /// Whether the cell's address happens to satisfy `T`'s natural alignment.
    pub open spec fn spec_is_aligned(self) -> bool {
        self.addr_spec() as nat % T::align_spec() == 0
    }

    /// Wrap a value into a packed cell by pure byte copy.
    pub fn new(x: T) -> (r: Unalign<T>)
        ensures
            r.wf(),
            r.value_spec() == x,
            r.addr_spec() == 0,
    {
        let bytes = x.bytes_of_value();
        Unalign { bytes, addr: 0, value: Ghost(x) }
    }

    /// Wrap a value into a packed cell placed at a chosen address, which may
    /// violate `T`'s natural alignment.
    pub fn new_at(x: T, addr: usize) -> (r: Unalign<T>)
        ensures
            r.wf(),
            r.value_spec() == x,
            r.addr_spec() == addr,
    {
        let bytes = x.bytes_of_value();
        Unalign { bytes, addr, value: Ghost(x) }
    }

    /// Unwrap the cell back into its value, a pure bitwise move.
    pub fn into_inner(self) -> (r: T)
        requires
            self.wf(),
        ensures
            r == self.value_spec(),
    {
        let r = T::of_bytes(&self.bytes);
        proof {
            T::to_bytes_injective(r, self.value@);
        }
        r
    }

    /// The cell's address.
    pub fn as_ptr(&self) -> (r: usize)
        ensures
            r == self.addr_spec(),
    {
        self.addr
    }

    /// The cell's address, through an exclusive borrow.
    pub fn as_ptr_mut(&mut self) -> (r: usize)
        ensures
            *final(self) == *old(self),
            r == old(self).addr_spec(),
    {
        self.addr
    }

    /// Whether the cell's address satisfies `T`'s natural alignment.
    pub fn is_aligned(&self) -> (r: bool)
        ensures
            r == self.spec_is_aligned(),
    {
        proof {
            T::align_positive();
        }
        let a = T::align_val();
        self.addr % a == 0
    }

    /// Aligned access without the runtime check: the caller must have
    /// established alignment independently beforehand. What is undefined
    /// behavior at a raw packed pointer is a precondition here, discharged
    /// by proof; the checked form below stays the recommended default.
    pub fn as_ref_unchecked(&self) -> (r: T)
        requires
            self.wf(),
            self.spec_is_aligned(),
        ensures
            r == self.value_spec(),
    {
        let r = T::of_bytes(&self.bytes);
        proof {
            T::to_bytes_injective(r, self.value@);
        }
        r
    }

    /// Checked access: the logical value when the address is aligned, or an
    /// absence signal when it is not. Misalignment is an expected,
    /// recoverable condition, not a defect.
    pub fn as_ref_checked(&self) -> (r: Option<T>)
        requires
            self.wf(),
        ensures
            self.spec_is_aligned() ==> r == Some(self.value_spec()),
            !self.spec_is_aligned() ==> r is None,
    {
        if self.is_aligned() {
            let v = T::of_bytes(&self.bytes);
            proof {
                T::to_bytes_injective(v, self.value@);
            }
            Some(v)
        } else {
            None
        }
    }

    /// Store a new value, handing the old one back.
    pub fn replace(&mut self, value: T) -> (r: T)
        requires
            old(self).wf(),
        ensures
            final(self).wf(),
            final(self).value_spec() == value,
            final(self).addr_spec() == old(self).addr_spec(),
            r == old(self).value_spec(),
    {
        let r = T::of_bytes(&self.bytes);
        proof {
            T::to_bytes_injective(r, self.value@);
        }
        self.bytes = value.bytes_of_value();
        self.value = Ghost(value);
        r
    }

    /// Store a new value.
    pub fn set(&mut self, value: T)
        ensures
            final(self).wf(),
            final(self).value_spec() == value,
            final(self).addr_spec() == old(self).addr_spec(),
    {
        self.bytes = value.bytes_of_value();
        self.value = Ghost(value);
    }

    /// Read the logical value out by byte copy, whatever the alignment.
    pub fn get(&self) -> (r: T)
        requires
            self.wf(),
        ensures
            r == self.value_spec(),
    {
        let r = T::of_bytes(&self.bytes);
        proof {
            T::to_bytes_injective(r, self.value@);
        }
        r
    }

    /// Apply a mutation to the logical value in place, whatever the
    /// alignment: the packed bytes are copied out into an aligned scratch
    /// value, the mutation runs on the scratch, and the scratch's bytes are
    /// committed back into the packed slot before `update` returns. In this
    /// byte model every packed access is a byte copy, so the aligned and the
    /// misaligned case are served by the same copy-out/write-back protocol.
    pub fn update<O, F: FnOnce(T) -> (T, O)>(&mut self, f: F) -> (o: O)
        requires
            old(self).wf(),
            call_requires(f, (old(self).value_spec(),)),
        ensures
            final(self).wf(),
            final(self).addr_spec() == old(self).addr_spec(),
            call_ensures(f, (old(self).value_spec(),), (final(self).value_spec(), o)),
    {
        let scratch = T::of_bytes(&self.bytes);
        proof {
            T::to_bytes_injective(scratch, self.value@);
        }
        let (v2, o) = f(scratch);
        self.bytes = v2.bytes_of_value();
        self.value = Ghost(v2);
        o
    }

    /// Apply a mutation that can fail partway through. The write-back
    /// obligation fires exactly once on every exit: the cell ends up holding
    /// the value the mutation produced — also when the mutation reports
    /// failure — and the failure is propagated to the caller only after the
    /// write-back has completed. No in-flight value is ever lost and the
    /// cell is never left straddling two values' bytes.
    pub fn try_update<O, E, F: FnOnce(T) -> (T, Result<O, E>)>(&mut self, f: F) -> (r: Result<O, E>)
        requires
            old(self).wf(),
            call_requires(f, (old(self).value_spec(),)),
        ensures
            final(self).wf(),
            final(self).addr_spec() == old(self).addr_spec(),
            call_ensures(f, (old(self).value_spec(),), (final(self).value_spec(), r)),
    {
        let scratch = T::of_bytes(&self.bytes);
        proof {
            T::to_bytes_injective(scratch, self.value@);
        }
        let (v2, r) = f(scratch);
        self.bytes = v2.bytes_of_value();
        self.value = Ghost(v2);
        r
    }
}

impl<T: NoUninit + crate::freeze::Freeze> crate::freeze::Freeze for Unalign<T> {

}

/// A cell of an alignment-free shape is aligned wherever it sits.
pub proof fn lemma_unaligned_always_aligned<T: Unaligned>(c: Unalign<T>)
    ensures
        c.spec_is_aligned(),
{
    T::align_is_one();
}

} // verus!
