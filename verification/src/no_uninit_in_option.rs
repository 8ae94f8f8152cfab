//! Niche-carrying shapes: a shape whose byte images leave at least one
//! pattern unused can represent `Option<Self>` in the same bytes, spending
//! the spare pattern on `None`. Wrapped in an `Option`, such a shape still
//! has no uninitialized byte.
use vstd::prelude::*;
use crate::no_uninit::NoUninit;

verus! {

/// Shapes that keep every byte initialized even inside an `Option`: the
/// shape names a spare byte pattern — its niche — that no value uses, and
/// `None` is stored as exactly that pattern.
pub trait NoUninitInOption: Sized + NoUninit {
    /// The byte image that stands for `None`.
    spec fn none_bytes() -> Seq<u8>;

    /// The `None` image is exactly one value wide.
    proof fn none_bytes_len()
        ensures
            Self::none_bytes().len() == Self::size_spec(),
    ;

    /// No value's image collides with the `None` image.
    proof fn none_bytes_free(v: Self)
        ensures
            v.to_bytes() != Self::none_bytes(),
    ;

    /// The `None` image, as a runtime value.
    fn make_none_bytes() -> (r: Vec<u8>)
        ensures
            r@ == Self::none_bytes(),
    ;

    /// Whether the given bytes are the `None` image.
    fn is_none_bytes(bytes: &Vec<u8>) -> (r: bool)
        ensures
            r == (bytes@ == Self::none_bytes()),
    ;
}

impl<T: NoUninitInOption> NoUninit for Option<T> {
    open spec fn size_spec() -> nat {
        T::size_spec()
    }

    open spec fn align_spec() -> nat {
        T::align_spec()
    }

    open spec fn to_bytes(self) -> Seq<u8> {
        match self {
            None => T::none_bytes(),
            Some(v) => v.to_bytes(),
        }
    }

    proof fn align_positive() {
        T::align_positive();
    }

    proof fn to_bytes_len(self) {
        match self {
            None => T::none_bytes_len(),
            Some(v) => v.to_bytes_len(),
        }
    }

    proof fn to_bytes_injective(a: Option<T>, b: Option<T>) {
        if a.to_bytes() == b.to_bytes() {
            match (a, b) {
                (None, None) => {
                },
                (None, Some(v)) => {
                    T::none_bytes_free(v);
                },
                (Some(v), None) => {
                    T::none_bytes_free(v);
                },
                (Some(va), Some(vb)) => {
                    T::to_bytes_injective(va, vb);
                },
            }
        }
    }

    fn size_val() -> usize {
        T::size_val()
    }

    fn align_val() -> usize {
        T::align_val()
    }

    fn bytes_of_value(&self) -> (r: Vec<u8>) {
        match self {
            None => T::make_none_bytes(),
            Some(v) => v.bytes_of_value(),
        }
    }

    fn of_bytes(bytes: &Vec<u8>) -> (r: Option<T>) {
        if T::is_none_bytes(bytes) {
            None
        } else {
            proof {
                let w = choose|w: Option<T>| w.to_bytes() == bytes@;
                assert(w is Some && (w->0).to_bytes() == bytes@);
            }
            Some(T::of_bytes(bytes))
        }
    }
}

impl NoUninitInOption for bool {
    open spec fn none_bytes() -> Seq<u8> {
        seq![2u8]
    }

    proof fn none_bytes_len() {
    }

    proof fn none_bytes_free(v: bool) {
        assert(v.to_bytes()[0] != 2);
    }

    fn make_none_bytes() -> (r: Vec<u8>) {
        let mut r = Vec::new();
        r.push(2u8);
        proof {
            assert(r@ =~= seq![2u8]);
        }
        r
    }

    fn is_none_bytes(bytes: &Vec<u8>) -> (r: bool) {
        if bytes.len() == 1 {
            let b = bytes[0];
            proof {
                if b == 2 {
                    assert(bytes@ =~= seq![2u8]);
                }
            }
            b == 2
        } else {
            false
        }
    }
}

} // verus!
