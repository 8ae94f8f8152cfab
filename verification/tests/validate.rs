use bitlayout::check_bits::check_bits_counted;
use bitlayout::check_bits::AnyBits;
use bitlayout::check_bits::CheckBits;
use std::cmp::Ordering;

#[test]
fn any_bits_u16_patterns_all_succeed() {
    // a shape that tolerates any bit pattern accepts every carrier value
    let samples: Vec<u16> = vec![0, 1, 0x00FF, 0xFF00, 0xABCD, u16::MAX];
    for v in samples {
        assert!(u16::check_bits(&v).is_ok());
        assert_eq!(u16::cast(v), Ok(v));
    }
}

#[test]
fn any_bits_u8_exhaustive() {
    for b in 0..=u8::MAX {
        assert!(u8::check_bits(&b).is_ok());
        assert_eq!(u8::cast_ref(&b), Ok(b));
    }
}

#[test]
fn any_bits_i64_succeeds() {
    assert!(i64::check_bits(&i64::MIN).is_ok());
    assert!(i64::check_bits(&-1).is_ok());
    assert_eq!(i64::cast(-1), Ok(-1));
}

fn is_any_bits<T: AnyBits>() {}

#[test]
fn any_bits_markers_exist() {
    is_any_bits::<u8>();
    is_any_bits::<u16>();
    is_any_bits::<u32>();
    is_any_bits::<u64>();
    is_any_bits::<i8>();
    is_any_bits::<i16>();
    is_any_bits::<i32>();
    is_any_bits::<i64>();
    is_any_bits::<()>();
}

#[test]
fn bool_accepts_exactly_zero_and_one() {
    assert_eq!(bool::cast(0u8), Ok(false));
    assert_eq!(bool::cast(1u8), Ok(true));
    for b in 2..=u8::MAX {
        assert_eq!(bool::check_bits(&b), Err(()));
    }
}

#[test]
fn bool_cast_ref_and_mut() {
    let mut carrier = 1u8;
    assert_eq!(bool::cast_ref(&carrier), Ok(true));
    assert_eq!(bool::cast_mut(&mut carrier), Ok(true));
    assert_eq!(carrier, 1, "validation must not mutate the carrier");
    let mut bad = 7u8;
    assert_eq!(bool::cast_mut(&mut bad), Err(()));
    assert_eq!(bad, 7);
}

#[test]
fn char_scalar_range() {
    assert_eq!(char::cast(0x41u32), Ok('A'));
    assert_eq!(char::cast(0u32), Ok('\0'));
    assert_eq!(char::cast(0xD7FFu32).map(|c| c as u32), Ok(0xD7FF));
    assert_eq!(char::cast(0xE000u32).map(|c| c as u32), Ok(0xE000));
    assert_eq!(char::cast(0x10FFFFu32).map(|c| c as u32), Ok(0x10FFFF));
    // surrogate range and values past the last scalar fail
    assert_eq!(char::check_bits(&0xD800), Err(()));
    assert_eq!(char::check_bits(&0xDFFF), Err(()));
    assert_eq!(char::check_bits(&0x110000), Err(()));
    assert_eq!(char::check_bits(&u32::MAX), Err(()));
}

#[test]
fn char_little_endian_reinterpretation() {
    // the carrier is the little-endian 4-byte reinterpretation of the bytes
    let surrogate = u32::from_le_bytes([0x00, 0xD8, 0x00, 0x00]);
    assert_eq!(surrogate, 0xD800);
    assert_eq!(char::check_bits(&surrogate), Err(()));
    let letter = u32::from_le_bytes([0x41, 0x00, 0x00, 0x00]);
    assert_eq!(char::cast(letter), Ok('A'));
}

#[test]
fn ordering_accepts_minus_one_zero_one() {
    assert_eq!(Ordering::cast(-1i8), Ok(Ordering::Less));
    assert_eq!(Ordering::cast(0i8), Ok(Ordering::Equal));
    assert_eq!(Ordering::cast(1i8), Ok(Ordering::Greater));
    assert_eq!(Ordering::check_bits(&2), Err(()));
    assert_eq!(Ordering::check_bits(&-2), Err(()));
    assert_eq!(Ordering::check_bits(&i8::MIN), Err(()));
    assert_eq!(Ordering::check_bits(&i8::MAX), Err(()));
}

#[test]
fn ordering_cast_ref_and_bytes() {
    assert_eq!(Ordering::cast_ref(&-1i8), Ok(Ordering::Less));
    assert_eq!(bitlayout::bytes_of(&Ordering::Less), vec![0xFF]);
    assert_eq!(bitlayout::bytes_of(&Ordering::Equal), vec![0]);
    assert_eq!(bitlayout::bytes_of(&Ordering::Greater), vec![1]);
    assert_eq!(bitlayout::zeroable::zeroed::<Ordering>(), Ordering::Equal);
    let mut cell = bitlayout::unaligned::Unalign::new_at(Ordering::Less, 33);
    assert!(cell.is_aligned());
    assert_eq!(cell.replace(Ordering::Greater), Ordering::Less);
    assert_eq!(cell.into_inner(), Ordering::Greater);
}

#[test]
fn sequence_reports_first_failure_and_visits_all() {
    // invalid elements at positions 1 and 3: the failure names position 1,
    // and the visit counter shows all 5 positions were scanned
    let bits: Vec<u8> = vec![0, 5, 1, 7, 0];
    let (outcome, visited) = check_bits_counted::<bool>(&bits);
    assert_eq!(visited, 5);
    assert_eq!(outcome, Err((1, ())));
}

#[test]
fn sequence_all_valid() {
    let bits: Vec<u8> = vec![0, 1, 1, 0];
    let (outcome, visited) = check_bits_counted::<bool>(&bits);
    assert_eq!(visited, 4);
    assert_eq!(outcome, Ok(()));
    let decoded = <Vec<bool>>::cast(bits);
    assert_eq!(decoded, Ok(vec![false, true, true, false]));
}

#[test]
fn sequence_empty_is_valid() {
    let bits: Vec<u8> = vec![];
    let (outcome, visited) = check_bits_counted::<bool>(&bits);
    assert_eq!(visited, 0);
    assert_eq!(outcome, Ok(()));
}

#[test]
fn sequence_of_chars() {
    let bits: Vec<u32> = vec![0x48, 0xD800, 0x69, 0x110000];
    let (outcome, visited) = check_bits_counted::<char>(&bits);
    assert_eq!(visited, 4);
    assert_eq!(outcome, Err((1, ())));
    let good: Vec<u32> = vec![0x48, 0x69];
    assert_eq!(<Vec<char>>::cast(good), Ok(vec!['H', 'i']));
}

#[test]
fn nested_sequences_compose() {
    // element-wise validation composes through nested sequence shapes
    let bits: Vec<Vec<u8>> = vec![vec![0, 1], vec![1], vec![]];
    assert_eq!(
        <Vec<Vec<bool>>>::cast(bits),
        Ok(vec![vec![false, true], vec![true], vec![]])
    );
    let bad: Vec<Vec<u8>> = vec![vec![0, 1], vec![9]];
    assert_eq!(<Vec<Vec<bool>>>::check_bits(&bad), Err(()));
}

#[test]
fn sequence_of_any_bits_never_fails() {
    let bits: Vec<u16> = vec![0, 0xFFFF, 0xD800, 1];
    assert!(<Vec<u16>>::check_bits(&bits).is_ok());
    assert_eq!(<Vec<u16>>::cast(bits), Ok(vec![0, 0xFFFF, 0xD800, 1]));
}
