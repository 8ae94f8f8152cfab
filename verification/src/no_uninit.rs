//! Byte-level layout model: a shape with no logically uninitialized byte
//! describes its own size, alignment and exact byte representation, and can
//! be exported to and rebuilt from those bytes.
use vstd::prelude::*;
use vstd::bytes::lemma_auto_spec_u16_to_from_le_bytes;
use vstd::bytes::lemma_auto_spec_u32_to_from_le_bytes;
use vstd::bytes::lemma_auto_spec_u64_to_from_le_bytes;
use vstd::bytes::lemma_auto_spec_u128_to_from_le_bytes;
use vstd::bytes::spec_u16_to_le_bytes;
use vstd::bytes::spec_u16_from_le_bytes;
use vstd::bytes::spec_u32_from_le_bytes;
use vstd::bytes::spec_u64_from_le_bytes;
use vstd::bytes::spec_u32_to_le_bytes;
use vstd::bytes::spec_u64_to_le_bytes;
use vstd::bytes::spec_u128_to_le_bytes;
use vstd::bytes::spec_u128_from_le_bytes;
use vstd::bytes::u16_from_le_bytes;
use vstd::bytes::u32_from_le_bytes;
use vstd::bytes::u64_from_le_bytes;
use vstd::bytes::u128_from_le_bytes;
use vstd::bytes::u16_to_le_bytes;
use vstd::bytes::u32_to_le_bytes;
use vstd::bytes::u64_to_le_bytes;
use vstd::bytes::u128_to_le_bytes;

verus! {

/// Shapes whose every byte is initialized. Such a shape has an exact byte
/// representation: `to_bytes` is its little-endian image, always of length
/// `size_spec()`, and distinct values never share an image, so the bytes can
/// be read back with `of_bytes`.
pub trait NoUninit: Sized {
    /// The number of bytes a value occupies.
    spec fn size_spec() -> nat;

    /// The shape's natural alignment, in bytes.
    spec fn align_spec() -> nat;

    /// The exact bytes of a value, in memory order.
    spec fn to_bytes(self) -> Seq<u8>;

    /// Alignment is never zero.
    proof fn align_positive()
        ensures
            Self::align_spec() >= 1,
    ;

    /// Every value's byte image has exactly `size_spec()` bytes.
    proof fn to_bytes_len(self)
        ensures
            self.to_bytes().len() == Self::size_spec(),
    ;

    /// Distinct values have distinct byte images.
    proof fn to_bytes_injective(a: Self, b: Self)
        ensures
            a.to_bytes() == b.to_bytes() ==> a == b,
    ;

    /// The size, as a runtime value.
    fn size_val() -> (n: usize)
        ensures
            n == Self::size_spec(),
    ;

    /// The alignment, as a runtime value.
    fn align_val() -> (a: usize)
        ensures
            a == Self::align_spec(),
    ;

    /// Copy a value's bytes out.
    fn bytes_of_value(&self) -> (r: Vec<u8>)
        ensures
            r@ == self.to_bytes(),
    ;

    /// Rebuild a value from bytes known to be some value's image.
    fn of_bytes(bytes: &Vec<u8>) -> (r: Self)
        requires
            exists|v: Self| v.to_bytes() == bytes@,
        ensures
            r.to_bytes() == bytes@,
    ;
}

impl NoUninit for u8 {
    open spec fn size_spec() -> nat {
        1
    }

    open spec fn align_spec() -> nat {
        1
    }

    open spec fn to_bytes(self) -> Seq<u8> {
        seq![self]
    }

    proof fn align_positive() {
    }

    proof fn to_bytes_len(self) {
    }

    proof fn to_bytes_injective(a: u8, b: u8) {
        if a.to_bytes() == b.to_bytes() {
            assert(a.to_bytes()[0] == b.to_bytes()[0]);
        }
    }

    fn size_val() -> usize {
        1
    }

    fn align_val() -> usize {
        1
    }

    fn bytes_of_value(&self) -> (r: Vec<u8>)
    {
        let mut r = Vec::new();
        r.push(*self);
        proof {
            assert(r@ =~= self.to_bytes());
        }
        r
    }

    fn of_bytes(bytes: &Vec<u8>) -> (r: u8)
    {
        proof {
            let v = choose|v: u8| v.to_bytes() == bytes@;
            assert(bytes@ =~= seq![bytes@[0]]);
        }
        bytes[0]
    }
}

impl NoUninit for u16 {
    open spec fn size_spec() -> nat {
        2
    }

    open spec fn align_spec() -> nat {
        2
    }

    open spec fn to_bytes(self) -> Seq<u8> {
        spec_u16_to_le_bytes(self)
    }

    proof fn align_positive() {
    }

    proof fn to_bytes_len(self) {
        lemma_auto_spec_u16_to_from_le_bytes();
    }

    proof fn to_bytes_injective(a: u16, b: u16) {
        lemma_auto_spec_u16_to_from_le_bytes();
        assert(spec_u16_to_le_bytes(a).len() == 2);
        assert(spec_u16_to_le_bytes(b).len() == 2);
        assert(spec_u16_from_le_bytes(spec_u16_to_le_bytes(a)) == a);
        assert(spec_u16_from_le_bytes(spec_u16_to_le_bytes(b)) == b);
    }

    fn size_val() -> usize {
        2
    }

    fn align_val() -> usize {
        2
    }

    fn bytes_of_value(&self) -> (r: Vec<u8>)
    {
        u16_to_le_bytes(*self)
    }

    fn of_bytes(bytes: &Vec<u8>) -> (r: u16)
    {
        proof {
            lemma_auto_spec_u16_to_from_le_bytes();
            let v = choose|v: u16| v.to_bytes() == bytes@;
            assert(v.to_bytes().len() == 2);
        }
        u16_from_le_bytes(bytes.as_slice())
    }
}

impl NoUninit for u32 {
    open spec fn size_spec() -> nat {
        4
    }

    open spec fn align_spec() -> nat {
        4
    }

    open spec fn to_bytes(self) -> Seq<u8> {
        spec_u32_to_le_bytes(self)
    }

    proof fn align_positive() {
    }

    proof fn to_bytes_len(self) {
        lemma_auto_spec_u32_to_from_le_bytes();
    }

    proof fn to_bytes_injective(a: u32, b: u32) {
        lemma_auto_spec_u32_to_from_le_bytes();
        assert(spec_u32_to_le_bytes(a).len() == 4);
        assert(spec_u32_to_le_bytes(b).len() == 4);
        assert(spec_u32_from_le_bytes(spec_u32_to_le_bytes(a)) == a);
        assert(spec_u32_from_le_bytes(spec_u32_to_le_bytes(b)) == b);
    }

    fn size_val() -> usize {
        4
    }

    fn align_val() -> usize {
        4
    }

    fn bytes_of_value(&self) -> (r: Vec<u8>)
    {
        u32_to_le_bytes(*self)
    }

    fn of_bytes(bytes: &Vec<u8>) -> (r: u32)
    {
        proof {
            lemma_auto_spec_u32_to_from_le_bytes();
            let v = choose|v: u32| v.to_bytes() == bytes@;
            assert(v.to_bytes().len() == 4);
        }
        u32_from_le_bytes(bytes.as_slice())
    }
}

impl NoUninit for u64 {
    open spec fn size_spec() -> nat {
        8
    }

    open spec fn align_spec() -> nat {
        8
    }

    open spec fn to_bytes(self) -> Seq<u8> {
        spec_u64_to_le_bytes(self)
    }

    proof fn align_positive() {
    }

    proof fn to_bytes_len(self) {
        lemma_auto_spec_u64_to_from_le_bytes();
    }

    proof fn to_bytes_injective(a: u64, b: u64) {
        lemma_auto_spec_u64_to_from_le_bytes();
    }

    fn size_val() -> usize {
        8
    }

    fn align_val() -> usize {
        8
    }

    fn bytes_of_value(&self) -> (r: Vec<u8>)
    {
        u64_to_le_bytes(*self)
    }

    fn of_bytes(bytes: &Vec<u8>) -> (r: u64)
    {
        proof {
            lemma_auto_spec_u64_to_from_le_bytes();
            let v = choose|v: u64| v.to_bytes() == bytes@;
            assert(v.to_bytes().len() == 8);
        }
        u64_from_le_bytes(bytes.as_slice())
    }
}

impl NoUninit for bool {
    open spec fn size_spec() -> nat {
        1
    }

    open spec fn align_spec() -> nat {
        1
    }

    open spec fn to_bytes(self) -> Seq<u8> {
        seq![if self { 1u8 } else { 0u8 }]
    }

    proof fn align_positive() {
    }

    proof fn to_bytes_len(self) {
    }

    proof fn to_bytes_injective(a: bool, b: bool) {
        if a.to_bytes() == b.to_bytes() {
            assert(a.to_bytes()[0] == b.to_bytes()[0]);
        }
    }

    fn size_val() -> usize {
        1
    }

    fn align_val() -> usize {
        1
    }

    fn bytes_of_value(&self) -> (r: Vec<u8>)
    {
        let mut r = Vec::new();
        r.push(if *self { 1u8 } else { 0u8 });
        proof {
            assert(r@ =~= self.to_bytes());
        }
        r
    }

    fn of_bytes(bytes: &Vec<u8>) -> (r: bool)
    {
        proof {
            let v = choose|v: bool| v.to_bytes() == bytes@;
        }
        bytes[0] == 1
    }
}

impl NoUninit for () {
    open spec fn size_spec() -> nat {
        0
    }

    open spec fn align_spec() -> nat {
        1
    }

    open spec fn to_bytes(self) -> Seq<u8> {
        Seq::empty()
    }

    proof fn align_positive() {
    }

    proof fn to_bytes_len(self) {
    }

    proof fn to_bytes_injective(a: (), b: ()) {
    }

    fn size_val() -> usize {
        0
    }

    fn align_val() -> usize {
        1
    }

    fn bytes_of_value(&self) -> (r: Vec<u8>)
    {
        let r = Vec::new();
        proof {
            assert(r@ =~= self.to_bytes());
        }
        r
    }

    fn of_bytes(bytes: &Vec<u8>) -> (r: ())
    {
        ()
    }
}

/// Relies on `char::from_u32`: yields the character with the given code
/// point exactly when the value is a Unicode scalar value (at most 0x10FFFF
/// and outside the surrogate range).
pub assume_specification[ char::from_u32 ](i: u32) -> (r: Option<char>)
    ensures
        r.is_some() <==> (i < 0xD800 || (0xDFFF < i && i <= 0x10FFFF)),
        r.is_some() ==> r.unwrap() as u32 == i,
;

impl NoUninit for i8 {
    open spec fn size_spec() -> nat {
        1
    }

    open spec fn align_spec() -> nat {
        1
    }

    open spec fn to_bytes(self) -> Seq<u8> {
        seq![self as u8]
    }

    proof fn align_positive() {
    }

    proof fn to_bytes_len(self) {
    }

    proof fn to_bytes_injective(a: i8, b: i8) {
        if a.to_bytes() == b.to_bytes() {
            assert(a.to_bytes()[0] == b.to_bytes()[0]);
            assert(a as u8 == b as u8 ==> a == b) by (bit_vector);
        }
    }

    fn size_val() -> usize {
        1
    }

    fn align_val() -> usize {
        1
    }

    fn bytes_of_value(&self) -> (r: Vec<u8>)
    {
        let b: u8 = *self as u8;
        let mut r = Vec::new();
        r.push(b);
        proof {
            assert(r@ =~= self.to_bytes());
        }
        r
    }

    fn of_bytes(bytes: &Vec<u8>) -> (r: i8)
    {
        proof {
            let v = choose|v: i8| v.to_bytes() == bytes@;
            assert(bytes@ =~= seq![bytes@[0]]);
        }
        let b: u8 = bytes[0];
        let r: i8 = b as i8;
        proof {
            assert({
                let x: u8 = b;
                (x as i8) as u8 == x
            }) by (bit_vector);
            assert(r.to_bytes() =~= bytes@);
        }
        r
    }
}

impl NoUninit for i16 {
    open spec fn size_spec() -> nat {
        2
    }

    open spec fn align_spec() -> nat {
        2
    }

    open spec fn to_bytes(self) -> Seq<u8> {
        spec_u16_to_le_bytes(self as u16)
    }

    proof fn align_positive() {
    }

    proof fn to_bytes_len(self) {
        lemma_auto_spec_u16_to_from_le_bytes();
        assert(spec_u16_to_le_bytes(self as u16).len() == 2);
    }

    proof fn to_bytes_injective(a: i16, b: i16) {
        lemma_auto_spec_u16_to_from_le_bytes();
        assert(spec_u16_to_le_bytes(a as u16).len() == 2);
        assert(spec_u16_to_le_bytes(b as u16).len() == 2);
        assert(spec_u16_from_le_bytes(spec_u16_to_le_bytes(a as u16)) == a as u16);
        assert(spec_u16_from_le_bytes(spec_u16_to_le_bytes(b as u16)) == b as u16);
        assert(a as u16 == b as u16 ==> a == b) by (bit_vector);
    }

    fn size_val() -> usize {
        2
    }

    fn align_val() -> usize {
        2
    }

    fn bytes_of_value(&self) -> (r: Vec<u8>) {
        u16_to_le_bytes(*self as u16)
    }

    fn of_bytes(bytes: &Vec<u8>) -> (r: i16) {
        proof {
            lemma_auto_spec_u16_to_from_le_bytes();
            let v = choose|v: i16| v.to_bytes() == bytes@;
            assert(spec_u16_to_le_bytes(v as u16).len() == 2);
        }
        let w: u16 = u16_from_le_bytes(bytes.as_slice());
        let r: i16 = w as i16;
        proof {
            assert({
                let x: u16 = w;
                (x as i16) as u16 == x
            }) by (bit_vector);
            assert(spec_u16_to_le_bytes(spec_u16_from_le_bytes(bytes@)) == bytes@);
        }
        r
    }
}

impl NoUninit for i32 {
    open spec fn size_spec() -> nat {
        4
    }

    open spec fn align_spec() -> nat {
        4
    }

    open spec fn to_bytes(self) -> Seq<u8> {
        spec_u32_to_le_bytes(self as u32)
    }

    proof fn align_positive() {
    }

    proof fn to_bytes_len(self) {
        lemma_auto_spec_u32_to_from_le_bytes();
        assert(spec_u32_to_le_bytes(self as u32).len() == 4);
    }

    proof fn to_bytes_injective(a: i32, b: i32) {
        lemma_auto_spec_u32_to_from_le_bytes();
        assert(spec_u32_to_le_bytes(a as u32).len() == 4);
        assert(spec_u32_to_le_bytes(b as u32).len() == 4);
        assert(spec_u32_from_le_bytes(spec_u32_to_le_bytes(a as u32)) == a as u32);
        assert(spec_u32_from_le_bytes(spec_u32_to_le_bytes(b as u32)) == b as u32);
        assert(a as u32 == b as u32 ==> a == b) by (bit_vector);
    }

    fn size_val() -> usize {
        4
    }

    fn align_val() -> usize {
        4
    }

    fn bytes_of_value(&self) -> (r: Vec<u8>)
    {
        u32_to_le_bytes(*self as u32)
    }

    fn of_bytes(bytes: &Vec<u8>) -> (r: i32)
    {
        proof {
            lemma_auto_spec_u32_to_from_le_bytes();
            let v = choose|v: i32| v.to_bytes() == bytes@;
            assert(spec_u32_to_le_bytes(v as u32).len() == 4);
        }
        let w: u32 = u32_from_le_bytes(bytes.as_slice());
        let r: i32 = w as i32;
        proof {
            assert({
                let x: u32 = w;
                (x as i32) as u32 == x
            }) by (bit_vector);
            assert(spec_u32_to_le_bytes(spec_u32_from_le_bytes(bytes@)) == bytes@);
        }
        r
    }
}

impl NoUninit for i64 {
    open spec fn size_spec() -> nat {
        8
    }

    open spec fn align_spec() -> nat {
        8
    }

    open spec fn to_bytes(self) -> Seq<u8> {
        spec_u64_to_le_bytes(self as u64)
    }

    proof fn align_positive() {
    }

    proof fn to_bytes_len(self) {
        lemma_auto_spec_u64_to_from_le_bytes();
        assert(spec_u64_to_le_bytes(self as u64).len() == 8);
    }

    proof fn to_bytes_injective(a: i64, b: i64) {
        lemma_auto_spec_u64_to_from_le_bytes();
        assert(spec_u64_to_le_bytes(a as u64).len() == 8);
        assert(spec_u64_to_le_bytes(b as u64).len() == 8);
        assert(spec_u64_from_le_bytes(spec_u64_to_le_bytes(a as u64)) == a as u64);
        assert(spec_u64_from_le_bytes(spec_u64_to_le_bytes(b as u64)) == b as u64);
        assert(a as u64 == b as u64 ==> a == b) by (bit_vector);
    }

    fn size_val() -> usize {
        8
    }

    fn align_val() -> usize {
        8
    }

    fn bytes_of_value(&self) -> (r: Vec<u8>)
    {
        u64_to_le_bytes(*self as u64)
    }

    fn of_bytes(bytes: &Vec<u8>) -> (r: i64)
    {
        proof {
            lemma_auto_spec_u64_to_from_le_bytes();
            let v = choose|v: i64| v.to_bytes() == bytes@;
            assert(spec_u64_to_le_bytes(v as u64).len() == 8);
        }
        let w: u64 = u64_from_le_bytes(bytes.as_slice());
        let r: i64 = w as i64;
        proof {
            assert({
                let x: u64 = w;
                (x as i64) as u64 == x
            }) by (bit_vector);
            assert(spec_u64_to_le_bytes(spec_u64_from_le_bytes(bytes@)) == bytes@);
        }
        r
    }
}

impl NoUninit for core::cmp::Ordering {
    open spec fn size_spec() -> nat {
        1
    }

    open spec fn align_spec() -> nat {
        1
    }

    open spec fn to_bytes(self) -> Seq<u8> {
        match self {
            core::cmp::Ordering::Less => seq![0xFFu8],
            core::cmp::Ordering::Equal => seq![0u8],
            core::cmp::Ordering::Greater => seq![1u8],
        }
    }

    proof fn align_positive() {
    }

    proof fn to_bytes_len(self) {
    }

    proof fn to_bytes_injective(a: core::cmp::Ordering, b: core::cmp::Ordering) {
        if a.to_bytes() == b.to_bytes() {
            assert(a.to_bytes()[0] == b.to_bytes()[0]);
        }
    }

    fn size_val() -> usize {
        1
    }

    fn align_val() -> usize {
        1
    }

    fn bytes_of_value(&self) -> (r: Vec<u8>) {
        let b: u8 = match self {
            core::cmp::Ordering::Less => 0xFF,
            core::cmp::Ordering::Equal => 0,
            core::cmp::Ordering::Greater => 1,
        };
        let mut r = Vec::new();
        r.push(b);
        proof {
            assert(r@ =~= self.to_bytes());
        }
        r
    }

    fn of_bytes(bytes: &Vec<u8>) -> (r: core::cmp::Ordering) {
        proof {
            let v = choose|v: core::cmp::Ordering| v.to_bytes() == bytes@;
            assert(bytes@ =~= seq![bytes@[0]]);
        }
        let b = bytes[0];
        if b == 0xFF {
            core::cmp::Ordering::Less
        } else if b == 0 {
            core::cmp::Ordering::Equal
        } else {
            core::cmp::Ordering::Greater
        }
    }
}

impl NoUninit for char {
    open spec fn size_spec() -> nat {
        4
    }

    open spec fn align_spec() -> nat {
        4
    }

    open spec fn to_bytes(self) -> Seq<u8> {
        spec_u32_to_le_bytes(self as u32)
    }

    proof fn align_positive() {
    }

    proof fn to_bytes_len(self) {
        lemma_auto_spec_u32_to_from_le_bytes();
        assert(spec_u32_to_le_bytes(self as u32).len() == 4);
    }

    proof fn to_bytes_injective(a: char, b: char) {
        lemma_auto_spec_u32_to_from_le_bytes();
        assert(spec_u32_to_le_bytes(a as u32).len() == 4);
        assert(spec_u32_to_le_bytes(b as u32).len() == 4);
        assert(spec_u32_from_le_bytes(spec_u32_to_le_bytes(a as u32)) == a as u32);
        assert(spec_u32_from_le_bytes(spec_u32_to_le_bytes(b as u32)) == b as u32);
        if a.to_bytes() == b.to_bytes() {
            vstd::utf8::char_u32_cast(a, a as u32);
            vstd::utf8::char_u32_cast(b, b as u32);
        }
    }

    fn size_val() -> usize {
        4
    }

    fn align_val() -> usize {
        4
    }

    fn bytes_of_value(&self) -> (r: Vec<u8>)
    {
        u32_to_le_bytes(*self as u32)
    }

    fn of_bytes(bytes: &Vec<u8>) -> (r: char)
    {
        proof {
            lemma_auto_spec_u32_to_from_le_bytes();
            let v = choose|v: char| v.to_bytes() == bytes@;
            assert(spec_u32_to_le_bytes(v as u32).len() == 4);
            vstd::utf8::char_is_scalar(v);
        }
        let w: u32 = u32_from_le_bytes(bytes.as_slice());
        let c: Option<char> = char::from_u32(w);
        proof {
            let v = choose|v: char| v.to_bytes() == bytes@;
            assert(w == v as u32);
        }
        let r: char = c.unwrap();
        proof {
            assert(spec_u32_to_le_bytes(spec_u32_from_le_bytes(bytes@)) == bytes@);
        }
        r
    }
}

impl NoUninit for u128 {
    open spec fn size_spec() -> nat {
        16
    }

    open spec fn align_spec() -> nat {
        16
    }

    open spec fn to_bytes(self) -> Seq<u8> {
        spec_u128_to_le_bytes(self)
    }

    proof fn align_positive() {
    }

    proof fn to_bytes_len(self) {
        lemma_auto_spec_u128_to_from_le_bytes();
    }

    proof fn to_bytes_injective(a: u128, b: u128) {
        lemma_auto_spec_u128_to_from_le_bytes();
        assert(spec_u128_to_le_bytes(a).len() == 16);
        assert(spec_u128_to_le_bytes(b).len() == 16);
        assert(spec_u128_from_le_bytes(spec_u128_to_le_bytes(a)) == a);
        assert(spec_u128_from_le_bytes(spec_u128_to_le_bytes(b)) == b);
    }

    fn size_val() -> usize {
        16
    }

    fn align_val() -> usize {
        16
    }

    fn bytes_of_value(&self) -> (r: Vec<u8>) {
        u128_to_le_bytes(*self)
    }

    fn of_bytes(bytes: &Vec<u8>) -> (r: u128) {
        proof {
            lemma_auto_spec_u128_to_from_le_bytes();
            let v = choose|v: u128| v.to_bytes() == bytes@;
            assert(v.to_bytes().len() == 16);
        }
        u128_from_le_bytes(bytes.as_slice())
    }
}

impl NoUninit for i128 {
    open spec fn size_spec() -> nat {
        16
    }

    open spec fn align_spec() -> nat {
        16
    }

    open spec fn to_bytes(self) -> Seq<u8> {
        spec_u128_to_le_bytes(self as u128)
    }

    proof fn align_positive() {
    }

    proof fn to_bytes_len(self) {
        lemma_auto_spec_u128_to_from_le_bytes();
        assert(spec_u128_to_le_bytes(self as u128).len() == 16);
    }

    proof fn to_bytes_injective(a: i128, b: i128) {
        lemma_auto_spec_u128_to_from_le_bytes();
        assert(spec_u128_to_le_bytes(a as u128).len() == 16);
        assert(spec_u128_to_le_bytes(b as u128).len() == 16);
        assert(spec_u128_from_le_bytes(spec_u128_to_le_bytes(a as u128)) == a as u128);
        assert(spec_u128_from_le_bytes(spec_u128_to_le_bytes(b as u128)) == b as u128);
        assert(a as u128 == b as u128 ==> a == b) by (bit_vector);
    }

    fn size_val() -> usize {
        16
    }

    fn align_val() -> usize {
        16
    }

    fn bytes_of_value(&self) -> (r: Vec<u8>) {
        u128_to_le_bytes(*self as u128)
    }

    fn of_bytes(bytes: &Vec<u8>) -> (r: i128) {
        proof {
            lemma_auto_spec_u128_to_from_le_bytes();
            let v = choose|v: i128| v.to_bytes() == bytes@;
            assert(spec_u128_to_le_bytes(v as u128).len() == 16);
        }
        let w: u128 = u128_from_le_bytes(bytes.as_slice());
        let r: i128 = w as i128;
        proof {
            assert({
                let x: u128 = w;
                (x as i128) as u128 == x
            }) by (bit_vector);
            assert(spec_u128_to_le_bytes(spec_u128_from_le_bytes(bytes@)) == bytes@);
        }
        r
    }
}

} // verus!
