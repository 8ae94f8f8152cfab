use bitlayout::bytes_of;
use bitlayout::no_uninit::NoUninit;
use bitlayout::util::memset;
use bitlayout::util::transmute_bytes;
use bitlayout::zeroable::fill_zeroes;
use bitlayout::zeroable::fill_zeroes_slice;
use bitlayout::zeroable::zeroed;
use bitlayout::zeroable::ZeroableExt;

#[test]
fn bytes_of_little_endian_images() {
    assert_eq!(bytes_of(&0xDDCCBBAAu32), vec![0xAA, 0xBB, 0xCC, 0xDD]);
    assert_eq!(bytes_of(&0x0201u16), vec![0x01, 0x02]);
    assert_eq!(bytes_of(&0x55u8), vec![0x55]);
    assert_eq!(bytes_of(&true), vec![1]);
    assert_eq!(bytes_of(&false), vec![0]);
    assert_eq!(bytes_of(&()), Vec::<u8>::new());
    assert_eq!(bytes_of(&'A'), vec![0x41, 0, 0, 0]);
    assert_eq!(bytes_of(&-1i32), vec![0xFF, 0xFF, 0xFF, 0xFF]);
    assert_eq!(bytes_of(&-2i8), vec![0xFE]);
    assert_eq!(
        bytes_of(&0x0807060504030201u64),
        vec![0x01, 0x02, 0x03, 0x04, 0x05, 0x06, 0x07, 0x08]
    );
}

#[test]
fn bytes_of_length_matches_size() {
    // the view always has exactly size_spec() bytes
    assert_eq!(bytes_of(&1u8).len(), u8::size_val());
    assert_eq!(bytes_of(&1u16).len(), u16::size_val());
    assert_eq!(bytes_of(&1u32).len(), u32::size_val());
    assert_eq!(bytes_of(&1u64).len(), u64::size_val());
    assert_eq!(bytes_of(&'x').len(), char::size_val());
    assert_eq!(bytes_of(&()).len(), <()>::size_val());
}

#[test]
fn option_niche_images() {
    // Option<bool> spends the spare pattern 2 on None
    assert_eq!(bytes_of(&Some(true)), vec![1]);
    assert_eq!(bytes_of(&Some(false)), vec![0]);
    assert_eq!(bytes_of(&None::<bool>), vec![2]);
    assert_eq!(<Option<bool>>::size_val(), 1);
}

#[test]
fn zeroed_values() {
    assert_eq!(zeroed::<u32>(), 0);
    assert_eq!(zeroed::<i64>(), 0);
    assert_eq!(zeroed::<bool>(), false);
    assert_eq!(zeroed::<char>(), '\0');
    assert_eq!(u16::zeroed(), 0);
}

#[test]
fn fill_zeroes_yields_all_zero_value_and_bytes() {
    let mut x = 0xDEADBEEFu32;
    fill_zeroes(&mut x);
    assert_eq!(x, 0);
    assert_eq!(bytes_of(&x), vec![0, 0, 0, 0]);
    let mut b = true;
    b.fill_zeroes();
    assert_eq!(b, false);
}

#[test]
fn fill_zeroes_slice_keeps_length() {
    let mut v: Vec<u16> = vec![1, 2, 3];
    fill_zeroes_slice(&mut v);
    assert_eq!(v, vec![0, 0, 0]);
}

#[test]
fn memset_fills_every_byte() {
    let mut buf: Vec<u8> = vec![1, 2, 3, 4];
    memset(&mut buf, 0xCC);
    assert_eq!(buf, vec![0xCC, 0xCC, 0xCC, 0xCC]);
    let mut empty: Vec<u8> = vec![];
    memset(&mut empty, 0xCC);
    assert!(empty.is_empty());
}

#[test]
fn transmute_between_equal_sized_shapes() {
    // the destination value is read from exactly the source's bytes
    let n: i32 = transmute_bytes(u32::MAX);
    assert_eq!(n, -1);
    let back: u32 = transmute_bytes(-1i32);
    assert_eq!(back, u32::MAX);
    let w: u32 = transmute_bytes('A');
    assert_eq!(w, 0x41);
}

#[test]
fn wide_integer_images() {
    assert_eq!(bytes_of(&1u128).len(), u128::size_val());
    assert_eq!(bytes_of(&-1i128), vec![0xFF; 16]);
    assert_eq!(bytes_of(&0x0201i16), vec![0x01, 0x02]);
    assert_eq!(u128::of_bytes(&0xFEDCBA98u128.bytes_of_value()), 0xFEDCBA98);
    assert_eq!(i16::of_bytes(&(-2i16).bytes_of_value()), -2);
}

#[test]
fn byte_round_trips() {
    // of_bytes inverts bytes_of_value for every modelled shape
    let v = 0xCAFEu16;
    assert_eq!(u16::of_bytes(&v.bytes_of_value()), v);
    let c = '\u{10FFFF}';
    assert_eq!(char::of_bytes(&c.bytes_of_value()), c);
    let n = -123456789i64;
    assert_eq!(i64::of_bytes(&n.bytes_of_value()), n);
    let o = Some(true);
    assert_eq!(<Option<bool>>::of_bytes(&o.bytes_of_value()), o);
}
