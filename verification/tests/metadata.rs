use bitlayout::ptr::from_raw_parts;
use bitlayout::ptr::from_raw_parts_mut;
use bitlayout::ptr::from_raw_parts_nonnull;
use bitlayout::ptr::metadata;
use bitlayout::ptr::to_raw_parts;
use bitlayout::ptr::to_raw_parts_mut;
use bitlayout::ptr::to_raw_parts_nonnull;
use bitlayout::ptr::with_metadata_of;
use bitlayout::ptr::MetadataPosition;

#[test]
fn slice_round_trip() {
    // decompose(make_ref(a, m)) == (a, m)
    let r = from_raw_parts::<Vec<u8>>(0x1234, 7);
    assert_eq!(to_raw_parts(&r), (0x1234, 7));
    assert_eq!(metadata(&r), 7);
}

#[test]
fn string_round_trip() {
    let r = from_raw_parts::<String>(0xBEE0, 21);
    assert_eq!(to_raw_parts(&r), (0xBEE0, 21));
}

#[test]
fn thin_round_trip() {
    let r = from_raw_parts::<u32>(0x40, ());
    assert_eq!(to_raw_parts(&r), (0x40, ()));
    let r = from_raw_parts::<()>(0x8, ());
    assert_eq!(to_raw_parts(&r), (0x8, ()));
}

#[test]
fn mut_round_trip() {
    let r = from_raw_parts_mut::<Vec<u64>>(0x2000, 3);
    assert_eq!(to_raw_parts_mut(&r), (0x2000, 3));
}

#[test]
fn nonnull_round_trip() {
    let r = from_raw_parts_nonnull::<Vec<u8>>(0x10, 9);
    let (addr, meta) = to_raw_parts_nonnull(&r);
    assert_eq!((addr, meta), (0x10, 9));
    assert_ne!(addr, 0);
}

#[test]
fn metadata_transplant() {
    // address from one reference, element count from another
    let addr_src = from_raw_parts::<Vec<u8>>(0xAAA0, 1);
    let meta_src = from_raw_parts::<Vec<u8>>(0x4, 17);
    let r = with_metadata_of(&addr_src, &meta_src);
    assert_eq!(to_raw_parts(&r), (0xAAA0, 17));
}

#[test]
fn field_order_derivation_is_deterministic() {
    // two independent derivations for the same shape agree
    let first = MetadataPosition::for_slice::<u8>();
    let second = MetadataPosition::for_slice::<u8>();
    assert_eq!(first, second);
    let other = MetadataPosition::for_slice::<u64>();
    assert_eq!(first, other);
}

#[test]
fn field_order_matches_declared_layout() {
    assert_eq!(MetadataPosition::for_slice::<u8>(), MetadataPosition::After);
}
