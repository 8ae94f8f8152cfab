//! Array-length witnesses: a type per length, and a sealed marker for the
//! lengths of non-empty arrays. The set of lengths given the marker is a
//! bounded, pre-computed table supplied to the core as declarations; the
//! core does not derive it.
use vstd::prelude::*;

verus! {

/// A type-level witness for the array length `N`.
#[derive(Debug, Clone, Copy)]
pub struct Length<const N: usize> {

}

/// Seals [`NonEmpty`]: only [`Length`] witnesses can carry it.
pub trait Sealed {

}

impl<const N: usize> Sealed for Length<N> {

}

/// Marker for array lengths that are not zero — the array is not empty.
pub trait NonEmpty: Sealed {
    /// The length this witness stands for.
    spec fn spec_len() -> nat;

    /// A non-empty array's length is positive.
    proof fn len_positive()
        ensures
            Self::spec_len() > 0,
    ;
}

impl NonEmpty for Length<1> {
    open spec fn spec_len() -> nat {
        1
    }

    proof fn len_positive() {
    }
}

impl NonEmpty for Length<2> {
    open spec fn spec_len() -> nat {
        2
    }

    proof fn len_positive() {
    }
}

impl NonEmpty for Length<3> {
    open spec fn spec_len() -> nat {
        3
    }

    proof fn len_positive() {
    }
}

impl NonEmpty for Length<4> {
    open spec fn spec_len() -> nat {
        4
    }

    proof fn len_positive() {
    }
}

impl NonEmpty for Length<8> {
    open spec fn spec_len() -> nat {
        8
    }

    proof fn len_positive() {
    }
}

impl NonEmpty for Length<16> {
    open spec fn spec_len() -> nat {
        16
    }

    proof fn len_positive() {
    }
}

} // verus!
