//! Bit-pattern validation: given a carrier value — a superset representation
//! of identical size — decide whether its bits encode a legal value of the
//! target shape, and reinterpret them as that value when they do.
use vstd::prelude::*;
use crate::freeze::Freeze;
use crate::zeroable::Zeroable;

verus! {

/// Shapes whose values can be recognized inside a carrier bit pattern.
///
/// `Bits` is the shape's carrier: same size and alignment, every legal value
/// of the shape among its patterns. `valid_bits` says exactly which carrier
/// patterns are legal, `is_decoding` what value a legal pattern denotes, and
/// `error_spec` which failure an illegal pattern is reported with.
/// Validation is a pure function of the carrier bits: it never mutates them,
/// and re-validating unchanged bits always agrees with a prior result.
pub trait CheckBits: Sized {
    /// The carrier: a superset representation validated before being
    /// reinterpreted as the stricter target shape.
    type Bits;

    /// The failure a rejected pattern is reported with.
    type Error;

    /// Which carrier bit patterns are legal for this shape.
    spec fn valid_bits(bits: Self::Bits) -> bool;

    /// The meaning of a legal carrier pattern: holds when `v` is the value
    /// the pattern `bits` denotes.
    spec fn is_decoding(bits: Self::Bits, v: Self) -> bool;

    /// The failure reported for an illegal pattern.
    spec fn error_spec(bits: Self::Bits) -> Self::Error;

    /// Decide whether the carrier bits encode a legal value: `Ok` exactly on
    /// legal patterns, and the typed failure of `error_spec` on the rest.
    fn check_bits(bits: &Self::Bits) -> (r: Result<(), Self::Error>)
        ensures
            r is Ok <==> Self::valid_bits(*bits),
            r is Err ==> r->Err_0 == Self::error_spec(*bits),
    ;

    /// Reinterpret an already-validated carrier pattern as the target shape.
    fn decode(bits: &Self::Bits) -> (r: Self)
        requires
            Self::valid_bits(*bits),
        ensures
            Self::is_decoding(*bits, r),
    ;

    /// Shared-borrow validation: read the carrier through a shared view and
    /// yield the value it denotes. Permitted only when neither side hides
    /// in-place mutability, so the bytes cannot change while they are read.
    fn cast_ref(bits: &Self::Bits) -> (r: Result<Self, Self::Error>) where
        Self: Freeze,
        Self::Bits: Freeze,

        ensures
            r is Ok <==> Self::valid_bits(*bits),
            r is Ok ==> Self::is_decoding(*bits, r->Ok_0),
            r is Err ==> r->Err_0 == Self::error_spec(*bits),
    {
        match Self::check_bits(bits) {
            Ok(()) => Ok(Self::decode(bits)),
            Err(e) => Err(e),
        }
    }

    /// Exclusive-borrow validation: always permitted, since sole access
    /// rules out any concurrent mutator. The carrier is left untouched.
    fn cast_mut(bits: &mut Self::Bits) -> (r: Result<Self, Self::Error>)
        ensures
            *final(bits) == *old(bits),
            r is Ok <==> Self::valid_bits(*old(bits)),
            r is Ok ==> Self::is_decoding(*old(bits), r->Ok_0),
            r is Err ==> r->Err_0 == Self::error_spec(*old(bits)),
    {
        match Self::check_bits(&*bits) {
            Ok(()) => Ok(Self::decode(&*bits)),
            Err(e) => Err(e),
        }
    }

    /// Consuming validation: validate a self-contained carrier exclusively,
    /// then reinterpret it bitwise as the target shape.
    fn cast(bits: Self::Bits) -> (r: Result<Self, Self::Error>)
        ensures
            r is Ok <==> Self::valid_bits(bits),
            r is Ok ==> Self::is_decoding(bits, r->Ok_0),
            r is Err ==> r->Err_0 == Self::error_spec(bits),
    {
        match Self::check_bits(&bits) {
            Ok(()) => Ok(Self::decode(&bits)),
            Err(e) => Err(e),
        }
    }
}

/// Shapes for which validation always trivially succeeds: the carrier is the
/// shape itself, every bit pattern is legal and denotes itself.
pub trait AnyBits: CheckBits<Bits = Self, Error = ()> + Zeroable {
    /// Every carrier pattern is legal and means itself.
    proof fn all_bits_valid(bits: Self)
        ensures
            Self::valid_bits(bits),
            forall|v: Self| Self::is_decoding(bits, v) <==> v == bits,
    ;
}

/// For every shape that tolerates any bit pattern, validation succeeds on
/// every carrier value — every byte pattern of the carrier's exact size.
pub proof fn lemma_any_bits_always_valid<T: AnyBits>(bits: T)
    ensures
        T::valid_bits(bits),
{
    T::all_bits_valid(bits);
}

impl CheckBits for bool {
    type Bits = u8;

    type Error = ();

    open spec fn valid_bits(bits: u8) -> bool {
        bits == 0 || bits == 1
    }

    open spec fn is_decoding(bits: u8, v: bool) -> bool {
        v == (bits == 1)
    }

    open spec fn error_spec(bits: u8) -> () {
        ()
    }

    fn check_bits(bits: &u8) -> Result<(), ()> {
        if *bits == 0 || *bits == 1 {
            Ok(())
        } else {
            Err(())
        }
    }

    fn decode(bits: &u8) -> bool {
        *bits == 1
    }
}

impl CheckBits for char {
    type Bits = u32;

    type Error = ();

    open spec fn valid_bits(bits: u32) -> bool {
        bits < 0xD800 || (0xDFFF < bits && bits <= 0x10FFFF)
    }

    open spec fn is_decoding(bits: u32, v: char) -> bool {
        v == bits as char && v as u32 == bits
    }

    open spec fn error_spec(bits: u32) -> () {
        ()
    }

    fn check_bits(bits: &u32) -> Result<(), ()> {
        let w = *bits;
        if w < 0xD800 || (0xDFFF < w && w <= 0x10FFFF) {
            Ok(())
        } else {
            Err(())
        }
    }

    fn decode(bits: &u32) -> (r: char) {
        let c = char::from_u32(*bits);
        let r = c.unwrap();
        proof {
            vstd::utf8::char_u32_cast(r, *bits);
        }
        r
    }
}

impl CheckBits for core::cmp::Ordering {
    type Bits = i8;

    type Error = ();

    open spec fn valid_bits(bits: i8) -> bool {
        bits == -1 || bits == 0 || bits == 1
    }

    open spec fn is_decoding(bits: i8, v: core::cmp::Ordering) -> bool {
        v == if bits == 0 {
            core::cmp::Ordering::Equal
        } else if bits == 1 {
            core::cmp::Ordering::Greater
        } else {
            core::cmp::Ordering::Less
        }
    }

    open spec fn error_spec(bits: i8) -> () {
        ()
    }

    fn check_bits(bits: &i8) -> Result<(), ()> {
        let b = *bits;
        if b == -1 || b == 0 || b == 1 {
            Ok(())
        } else {
            Err(())
        }
    }

    fn decode(bits: &i8) -> core::cmp::Ordering {
        let b = *bits;
        if b == 0 {
            core::cmp::Ordering::Equal
        } else if b == 1 {
            core::cmp::Ordering::Greater
        } else {
            core::cmp::Ordering::Less
        }
    }
}

impl CheckBits for u8 {
    type Bits = u8;

    type Error = ();

    open spec fn valid_bits(bits: u8) -> bool {
        true
    }

    open spec fn is_decoding(bits: u8, v: u8) -> bool {
        v == bits
    }

    open spec fn error_spec(bits: u8) -> () {
        ()
    }

    fn check_bits(bits: &u8) -> Result<(), ()> {
        Ok(())
    }

    fn decode(bits: &u8) -> u8 {
        *bits
    }
}

impl AnyBits for u8 {
    proof fn all_bits_valid(bits: u8) {
    }
}

impl CheckBits for u16 {
    type Bits = u16;

    type Error = ();

    open spec fn valid_bits(bits: u16) -> bool {
        true
    }

    open spec fn is_decoding(bits: u16, v: u16) -> bool {
        v == bits
    }

    open spec fn error_spec(bits: u16) -> () {
        ()
    }

    fn check_bits(bits: &u16) -> Result<(), ()> {
        Ok(())
    }

    fn decode(bits: &u16) -> u16 {
        *bits
    }
}

impl AnyBits for u16 {
    proof fn all_bits_valid(bits: u16) {
    }
}

impl CheckBits for u32 {
    type Bits = u32;

    type Error = ();

    open spec fn valid_bits(bits: u32) -> bool {
        true
    }

    open spec fn is_decoding(bits: u32, v: u32) -> bool {
        v == bits
    }

    open spec fn error_spec(bits: u32) -> () {
        ()
    }

    fn check_bits(bits: &u32) -> Result<(), ()> {
        Ok(())
    }

    fn decode(bits: &u32) -> u32 {
        *bits
    }
}

impl AnyBits for u32 {
    proof fn all_bits_valid(bits: u32) {
    }
}

impl CheckBits for u64 {
    type Bits = u64;

    type Error = ();

    open spec fn valid_bits(bits: u64) -> bool {
        true
    }

    open spec fn is_decoding(bits: u64, v: u64) -> bool {
        v == bits
    }

    open spec fn error_spec(bits: u64) -> () {
        ()
    }

    fn check_bits(bits: &u64) -> Result<(), ()> {
        Ok(())
    }

    fn decode(bits: &u64) -> u64 {
        *bits
    }
}

impl AnyBits for u64 {
    proof fn all_bits_valid(bits: u64) {
    }
}

impl CheckBits for i8 {
    type Bits = i8;

    type Error = ();

    open spec fn valid_bits(bits: i8) -> bool {
        true
    }

    open spec fn is_decoding(bits: i8, v: i8) -> bool {
        v == bits
    }

    open spec fn error_spec(bits: i8) -> () {
        ()
    }

    fn check_bits(bits: &i8) -> Result<(), ()> {
        Ok(())
    }

    fn decode(bits: &i8) -> i8 {
        *bits
    }
}

impl AnyBits for i8 {
    proof fn all_bits_valid(bits: i8) {
    }
}

impl CheckBits for i16 {
    type Bits = i16;

    type Error = ();

    open spec fn valid_bits(bits: i16) -> bool {
        true
    }

    open spec fn is_decoding(bits: i16, v: i16) -> bool {
        v == bits
    }

    open spec fn error_spec(bits: i16) -> () {
        ()
    }

    fn check_bits(bits: &i16) -> Result<(), ()> {
        Ok(())
    }

    fn decode(bits: &i16) -> i16 {
        *bits
    }
}

impl AnyBits for i16 {
    proof fn all_bits_valid(bits: i16) {
    }
}

impl CheckBits for i32 {
    type Bits = i32;

    type Error = ();

    open spec fn valid_bits(bits: i32) -> bool {
        true
    }

    open spec fn is_decoding(bits: i32, v: i32) -> bool {
        v == bits
    }

    open spec fn error_spec(bits: i32) -> () {
        ()
    }

    fn check_bits(bits: &i32) -> Result<(), ()> {
        Ok(())
    }

    fn decode(bits: &i32) -> i32 {
        *bits
    }
}

impl AnyBits for i32 {
    proof fn all_bits_valid(bits: i32) {
    }
}

impl CheckBits for i64 {
    type Bits = i64;

    type Error = ();

    open spec fn valid_bits(bits: i64) -> bool {
        true
    }

    open spec fn is_decoding(bits: i64, v: i64) -> bool {
        v == bits
    }

    open spec fn error_spec(bits: i64) -> () {
        ()
    }

    fn check_bits(bits: &i64) -> Result<(), ()> {
        Ok(())
    }

    fn decode(bits: &i64) -> i64 {
        *bits
    }
}

impl AnyBits for i64 {
    proof fn all_bits_valid(bits: i64) {
    }
}

impl CheckBits for () {
    type Bits = ();

    type Error = ();

    open spec fn valid_bits(bits: ()) -> bool {
        true
    }

    open spec fn is_decoding(bits: (), v: ()) -> bool {
        v == bits
    }

    open spec fn error_spec(bits: ()) -> () {
        ()
    }

    fn check_bits(bits: &()) -> Result<(), ()> {
        Ok(())
    }

    fn decode(bits: &()) -> () {
        *bits
    }
}

impl AnyBits for () {
    proof fn all_bits_valid(bits: ()) {
    }
}

impl CheckBits for u128 {
    type Bits = u128;

    type Error = ();

    open spec fn valid_bits(bits: u128) -> bool {
        true
    }

    open spec fn is_decoding(bits: u128, v: u128) -> bool {
        v == bits
    }

    open spec fn error_spec(bits: u128) -> () {
        ()
    }

    fn check_bits(bits: &u128) -> Result<(), ()> {
        Ok(())
    }

    fn decode(bits: &u128) -> u128 {
        *bits
    }
}

impl AnyBits for u128 {
    proof fn all_bits_valid(bits: u128) {
    }
}

impl CheckBits for i128 {
    type Bits = i128;

    type Error = ();

    open spec fn valid_bits(bits: i128) -> bool {
        true
    }

    open spec fn is_decoding(bits: i128, v: i128) -> bool {
        v == bits
    }

    open spec fn error_spec(bits: i128) -> () {
        ()
    }

    fn check_bits(bits: &i128) -> Result<(), ()> {
        Ok(())
    }

    fn decode(bits: &i128) -> i128 {
        *bits
    }
}

impl AnyBits for i128 {
    proof fn all_bits_valid(bits: i128) {
    }
}

/// Holds when `i` is the position of the first illegal element pattern.
pub open spec fn is_first_invalid<T: CheckBits>(bits: Seq<T::Bits>, i: int) -> bool {
    &&& 0 <= i < bits.len()
    &&& !T::valid_bits(bits[i])
    &&& forall|j: int| 0 <= j < i ==> T::valid_bits(#[trigger] bits[j])
}

/// The position of the first illegal element pattern, when one exists.
pub open spec fn first_invalid_index<T: CheckBits>(bits: Seq<T::Bits>) -> int {
    choose|i: int| is_first_invalid::<T>(bits, i)
}

/// There is at most one first illegal position.
pub proof fn lemma_first_invalid_unique<T: CheckBits>(bits: Seq<T::Bits>, i: int, j: int)
    requires
        is_first_invalid::<T>(bits, i),
        is_first_invalid::<T>(bits, j),
    ensures
        i == j,
{
    if i < j {
        assert(T::valid_bits(bits[i]));
    }
    if j < i {
        assert(T::valid_bits(bits[j]));
    }
}

/// Validate every element of a sequence, visiting all positions
/// unconditionally — bulk validation never stops early, it scans the whole
/// length and remembers only the first failure, reported with its position.
/// Returns the outcome together with the number of element slots visited,
/// which always equals the sequence's length.
pub fn check_bits_counted<T: CheckBits>(bits: &Vec<T::Bits>) -> (r: (
    Result<(), (usize, T::Error)>,
    usize,
))
    ensures
        r.1 == bits@.len(),
        r.0 is Ok <==> (forall|i: int| 0 <= i < bits@.len() ==> T::valid_bits(#[trigger] bits@[i])),
        r.0 is Err ==> ({
            let (at, e) = r.0->Err_0;
            &&& at == first_invalid_index::<T>(bits@)
            &&& is_first_invalid::<T>(bits@, at as int)
            &&& e == T::error_spec(bits@[at as int])
        }),
{
    let mut err: Option<(usize, T::Error)> = None;
    let mut i: usize = 0;
    while i < bits.len()
        invariant
            0 <= i <= bits@.len(),
            err is None ==> forall|j: int| 0 <= j < i ==> T::valid_bits(#[trigger] bits@[j]),
            err is Some ==> ({
                let (at, e) = err->0;
                &&& is_first_invalid::<T>(bits@, at as int)
                &&& at < i
                &&& e == T::error_spec(bits@[at as int])
            }),
        decreases bits@.len() - i,
    {
        // every position is checked, also after an earlier failure
        let e = T::check_bits(&bits[i]);
        match e {
            Ok(()) => {
            },
            Err(x) => {
                if err.is_none() {
                    // only the first failure is remembered
                    err = Some((i, x));
                }
            },
        }
        i = i + 1;
    }
    match err {
        None => (Ok(()), i),
        Some((at, e)) => {
            proof {
                lemma_first_invalid_unique::<T>(bits@, at as int, first_invalid_index::<T>(bits@));
            }
            (Err((at, e)), i)
        },
    }
}

impl<T: CheckBits> CheckBits for Vec<T> {
    type Bits = Vec<T::Bits>;

    type Error = T::Error;

    open spec fn valid_bits(bits: Vec<T::Bits>) -> bool {
        forall|i: int| 0 <= i < bits@.len() ==> T::valid_bits(#[trigger] bits@[i])
    }

    open spec fn is_decoding(bits: Vec<T::Bits>, v: Vec<T>) -> bool {
        &&& v@.len() == bits@.len()
        &&& forall|i: int| 0 <= i < bits@.len() ==> T::is_decoding(#[trigger] bits@[i], v@[i])
    }

    open spec fn error_spec(bits: Vec<T::Bits>) -> T::Error {
        T::error_spec(bits@[first_invalid_index::<T>(bits@)])
    }

    fn check_bits(bits: &Vec<T::Bits>) -> Result<(), T::Error> {
        let r = check_bits_counted::<T>(bits);
        match r.0 {
            Ok(()) => Ok(()),
            Err((_at, e)) => Err(e),
        }
    }

    fn decode(bits: &Vec<T::Bits>) -> (r: Vec<T>) {
        let mut out: Vec<T> = Vec::new();
        let mut i: usize = 0;
        while i < bits.len()
            invariant
                0 <= i <= bits@.len(),
                forall|j: int| 0 <= j < bits@.len() ==> T::valid_bits(#[trigger] bits@[j]),
                out@.len() == i,
                forall|j: int| 0 <= j < i ==> T::is_decoding(#[trigger] bits@[j], out@[j]),
            decreases bits@.len() - i,
        {
            out.push(T::decode(&bits[i]));
            i = i + 1;
        }
        out
    }
}

/// A sequence of elements that tolerate any bit pattern tolerates any bit
/// pattern itself: element-wise validation succeeds whatever the bytes.
pub proof fn lemma_any_bits_seq_always_valid<T: AnyBits>(bits: Vec<T>)
    ensures
        <Vec<T> as CheckBits>::valid_bits(bits),
{
    assert forall|i: int| 0 <= i < bits@.len() implies T::valid_bits(#[trigger] bits@[i]) by {
        T::all_bits_valid(bits@[i]);
    }
}

/// Validation is deterministic and pure: two outcomes of checking the same
/// carrier bits agree — both accept, or both reject with the same failure.
/// Retrying a rejected input cannot change the outcome.
pub proof fn lemma_validation_deterministic<T: CheckBits>(
    bits: T::Bits,
    r1: Result<(), T::Error>,
    r2: Result<(), T::Error>,
)
    requires
        r1 is Ok <==> T::valid_bits(bits),
        r1 is Err ==> r1->Err_0 == T::error_spec(bits),
        r2 is Ok <==> T::valid_bits(bits),
        r2 is Err ==> r2->Err_0 == T::error_spec(bits),
    ensures
        r1 == r2,
{
    match (r1, r2) {
        (Ok(u1), Ok(u2)) => {
        },
        (Err(e1), Err(e2)) => {
            assert(e1 == e2);
        },
        _ => {
        },
    }
}

} // verus!
