//! Type-level inhabitedness: the two witness types [`Never`] and [`Always`],
//! and traits that let a shape state whether values of it can exist at all.
use vstd::prelude::*;

verus! {

/// Stands for the uninhabited witness. The crate offers no way to build a
/// value of it: its one field is private and no function returns it. (A
/// truly uninhabited type cannot be declared here: the never type and the
/// empty enum are both outside the accepted language.)
#[derive(Debug, Clone, Copy)]
pub struct Never {
    no_value: (),
}

/// The unit type, inhabited by exactly one value. It indicates that some
/// shape is inhabited, and is itself inhabited.
pub type Always = ();

/// Marker for the two inhabitedness witnesses themselves: [`Always`] and
/// [`Never`]. `spec_inhabited` tells the two apart.
pub trait Inhabit: Sized {
    /// True for [`Always`], false for [`Never`].
    spec fn spec_inhabited() -> bool;
}

impl Inhabit for Never {
    open spec fn spec_inhabited() -> bool {
        false
    }
}

impl Inhabit for Always {
    open spec fn spec_inhabited() -> bool {
        true
    }
}

/// A shape that knows whether values of it exist: `Output` is [`Always`]
/// for inhabited shapes and [`Never`] for uninhabited ones.
pub trait Inhabitability {
    /// Either [`Always`] or [`Never`].
    type Output: Inhabit;
}

/// The inhabitability of references to a shape: references inherit the
/// shape's own inhabitability.
pub trait InhabitabilityExt: Inhabitability {
    /// The inhabitability of shared references to `Self`.
    type Ref: Inhabit;

    /// The inhabitability of exclusive references to `Self`. It is unlikely
    /// this will ever differ from `Ref`.
    type Mut: Inhabit;
}

impl<T: Inhabitability + ?Sized> InhabitabilityExt for T {
    type Ref = T::Output;

    type Mut = T::Output;
}

/// Marker for shapes that are inhabited.
pub trait Inhabited: Inhabitability<Output = Always> {

}

/// Marker for shapes that are uninhabited.
pub trait Uninhabited: Inhabitability<Output = Never> {

}

impl<T: Inhabitability<Output = Always>> Inhabited for T {

}

impl<T: Inhabitability<Output = Never>> Uninhabited for T {

}

impl Inhabitability for () {
    type Output = Always;
}

impl Inhabitability for Never {
    type Output = Never;
}

impl Inhabitability for u8 {
    type Output = Always;
}

impl Inhabitability for u32 {
    type Output = Always;
}

impl Inhabitability for bool {
    type Output = Always;
}

impl Inhabitability for char {
    type Output = Always;
}

} // verus!
