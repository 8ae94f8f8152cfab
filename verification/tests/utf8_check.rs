use bitlayout::text::check_utf8;
use bitlayout::text::Utf8Error;

fn against_std(bytes: &[u8]) {
    // our validator agrees with the standard library's, error details included
    let ours = check_utf8(&bytes.to_vec());
    match std::str::from_utf8(bytes) {
        Ok(_) => assert_eq!(ours, Ok(()), "std accepts {:?}", bytes),
        Err(e) => {
            let expect = Utf8Error {
                valid_up_to: e.valid_up_to(),
                error_len: e.error_len().map(|n| n as u8),
            };
            assert_eq!(ours, Err(expect), "std rejects {:?} with {:?}", bytes, e);
        },
    }
}

#[test]
fn accepts_well_formed_text() {
    against_std(b"");
    against_std(b"hello");
    against_std("héllo wörld".as_bytes());
    against_std("日本語".as_bytes());
    against_std("🦀🦀".as_bytes());
    against_std("a\u{10FFFF}b".as_bytes());
    against_std("\u{D7FF}\u{E000}".as_bytes());
}

#[test]
fn rejects_stray_continuation_byte() {
    let r = check_utf8(&vec![0x80]);
    assert_eq!(r, Err(Utf8Error { valid_up_to: 0, error_len: Some(1) }));
    against_std(&[0x80]);
    against_std(&[0x61, 0x80, 0x62]);
}

#[test]
fn rejects_overlong_encodings() {
    against_std(&[0xC0, 0xAF]);
    against_std(&[0xC1, 0x80]);
    against_std(&[0xE0, 0x80, 0x80]);
    against_std(&[0xF0, 0x80, 0x80, 0x80]);
}

#[test]
fn rejects_surrogates() {
    let r = check_utf8(&vec![0xED, 0xA0, 0x80]);
    assert_eq!(r, Err(Utf8Error { valid_up_to: 0, error_len: Some(1) }));
    against_std(&[0xED, 0xA0, 0x80]);
    against_std(&[0xED, 0xBF, 0xBF]);
    against_std(&[0x41, 0xED, 0xA0, 0x80, 0x42]);
}

#[test]
fn rejects_values_past_last_scalar() {
    against_std(&[0xF4, 0x90, 0x80, 0x80]);
    against_std(&[0xF5, 0x80, 0x80, 0x80]);
    against_std(&[0xFF]);
}

#[test]
fn truncated_sequences_report_no_error_len() {
    let r = check_utf8(&vec![0x61, 0xC2]);
    assert_eq!(r, Err(Utf8Error { valid_up_to: 1, error_len: None }));
    against_std(&[0x61, 0xC2]);
    against_std(&[0xE2, 0x82]);
    against_std(&[0xF0, 0x9F, 0xA6]);
}

#[test]
fn broken_sequence_reports_maximal_subpart() {
    // a three-byte sequence broken at its third byte skips two bytes
    let r = check_utf8(&vec![0xE2, 0x82, 0x28]);
    assert_eq!(r, Err(Utf8Error { valid_up_to: 0, error_len: Some(2) }));
    against_std(&[0xE2, 0x82, 0x28]);
    against_std(&[0xF0, 0x9F, 0x28]);
    against_std(&[0xF0, 0x9F, 0xA6, 0x28]);
    against_std(&[0xF0, 0x28, 0x8C, 0xBC]);
}

#[test]
fn failure_offset_follows_clean_prefix() {
    let mut bytes = "ab🦀".as_bytes().to_vec();
    bytes.push(0xFF);
    let r = check_utf8(&bytes);
    assert_eq!(r, Err(Utf8Error { valid_up_to: 6, error_len: Some(1) }));
    against_std(&bytes);
    // a trailing lead byte is a truncation, not an invalid sequence
    let mut tail = "ab🦀".as_bytes().to_vec();
    tail.push(0xD8);
    assert_eq!(check_utf8(&tail), Err(Utf8Error { valid_up_to: 6, error_len: None }));
    against_std(&tail);
}
