use bitlayout::unaligned::Unalign;

#[test]
fn new_cell_holds_value() {
    let cell = Unalign::new(0xABCDu16);
    assert_eq!(cell.get(), 0xABCD);
    assert_eq!(cell.as_ptr(), 0);
    assert!(cell.is_aligned());
    assert_eq!(cell.into_inner(), 0xABCD);
}

#[test]
fn misaligned_cell_is_detected() {
    let cell = Unalign::new_at(7u32, 2);
    assert!(!cell.is_aligned());
    assert_eq!(cell.as_ptr(), 2);
    // load and store stay safe whatever the alignment
    assert_eq!(cell.get(), 7);
    assert_eq!(cell.as_ref_checked(), None);
    let aligned = Unalign::new_at(7u32, 8);
    assert!(aligned.is_aligned());
    assert_eq!(aligned.as_ref_checked(), Some(7));
}

#[test]
fn byte_width_shapes_are_always_aligned() {
    let cell = Unalign::new_at(0x55u8, 12345);
    assert!(cell.is_aligned());
    let cell = Unalign::new_at(true, 999);
    assert!(cell.is_aligned());
}

#[test]
fn unchecked_access_after_alignment_check() {
    let cell = Unalign::new_at(0x44556677u32, 16);
    assert!(cell.is_aligned());
    assert_eq!(cell.as_ref_unchecked(), 0x44556677);
}

#[test]
fn set_and_replace() {
    let mut cell = Unalign::new_at(1u64, 3);
    cell.set(2);
    assert_eq!(cell.get(), 2);
    let old = cell.replace(3);
    assert_eq!(old, 2);
    assert_eq!(cell.get(), 3);
    assert_eq!(cell.as_ptr(), 3);
}

#[test]
fn as_ptr_mut_matches_as_ptr() {
    let mut cell = Unalign::new_at(5i32, 6);
    assert_eq!(cell.as_ptr_mut(), 6);
    assert_eq!(cell.as_ptr(), 6);
}

#[test]
fn update_returns_mutation_output() {
    let mut cell = Unalign::new_at(0x1000u16, 1);
    assert!(!cell.is_aligned());
    let out = cell.update(|v| (v + 1, v));
    assert_eq!(out, 0x1000);
    assert_eq!(cell.get(), 0x1001);
}

#[test]
fn update_under_failure_keeps_mutated_bytes() {
    // a mutation that changes the value and then fails must leave the cell
    // holding the mutated bytes, and the failure must reach the caller
    let mut cell = Unalign::new_at(0xAAAAu16, 1);
    assert!(!cell.is_aligned());
    let r: Result<(), &str> = cell.try_update(|_v| (0x1111u16, Err("interrupted")));
    assert_eq!(r, Err("interrupted"));
    assert_eq!(cell.get(), 0x1111);
}

#[test]
fn update_success_keeps_returned_value() {
    let mut cell = Unalign::new_at(0xAAAAu16, 1);
    let r: Result<u16, ()> = cell.try_update(|v| (v.wrapping_add(1), Ok(v)));
    assert_eq!(r, Ok(0xAAAA));
    assert_eq!(cell.get(), 0xAAAB);
}

#[test]
fn cell_of_option_with_niche() {
    let mut cell = Unalign::new_at(Some(true), 41);
    assert_eq!(cell.get(), Some(true));
    cell.set(None);
    assert_eq!(cell.get(), None);
    cell.set(Some(false));
    assert_eq!(cell.replace(None), Some(false));
}
