//! UTF-8 text validation: decides whether a byte sequence is well-formed
//! UTF-8, reporting the offset and cause of the first malformed unit.
use vstd::prelude::*;
use vstd::utf8::is_continuation_byte;
use vstd::utf8::length_of_first_scalar;
use vstd::utf8::partial_valid_utf8;
use vstd::utf8::partial_valid_utf8_extend;
use vstd::utf8::partial_valid_partial_invalid_utf8;
use vstd::utf8::valid_first_scalar;
use vstd::utf8::valid_utf8;

verus! {

/// The first malformed unit of a byte sequence that is not well-formed
/// UTF-8: everything before `valid_up_to` decodes cleanly; at that offset
/// either an invalid sequence of `error_len` bytes begins (`Some`), or the
/// input ends inside a scalar encoding that more input could still complete
/// (`None`).
#[derive(Debug, Clone, Copy, PartialEq, Eq, Structural)]
pub struct Utf8Error {
    pub valid_up_to: usize,
    pub error_len: Option<u8>,
}

/// How many bytes a scalar encoding led by this byte occupies, or 0 when no
/// well-formed encoding starts with it (a continuation byte, an overlong
/// two-byte lead, or a lead beyond U+10FFFF).
pub open spec fn utf8_seq_needed(lead: u8) -> int {
    if lead <= 0x7F {
        1
    } else if 0xC2 <= lead && lead <= 0xDF {
        2
    } else if 0xE0 <= lead && lead <= 0xEF {
        3
    } else if 0xF0 <= lead && lead <= 0xF4 {
        4
    } else {
        0
    }
}

/// The admissible range of the first continuation byte after `lead`: beyond
/// the plain continuation pattern it rules out overlong encodings, the
/// surrogate range, and values past U+10FFFF.
pub open spec fn utf8_cont1_ok(lead: u8, b: u8) -> bool {
    if lead == 0xE0 {
        0xA0 <= b && b <= 0xBF
    } else if lead == 0xED {
        0x80 <= b && b <= 0x9F
    } else if lead == 0xF0 {
        0x90 <= b && b <= 0xBF
    } else if lead == 0xF4 {
        0x80 <= b && b <= 0x8F
    } else {
        0x80 <= b && b <= 0xBF
    }
}

/// How many leading bytes of `s` follow the byte patterns of a single
/// well-formed scalar encoding: the length of the maximal subpart that is a
/// prefix of some valid encoding, at most one scalar deep.
pub open spec fn utf8_matched_len(s: Seq<u8>) -> int
    recommends
        s.len() > 0,
{
    let need = utf8_seq_needed(s[0]);
    if need == 0 {
        0
    } else if s.len() >= 2 && need >= 2 && utf8_cont1_ok(s[0], s[1]) {
        if s.len() >= 3 && need >= 3 && is_continuation_byte(s[2]) {
            if s.len() >= 4 && need >= 4 && is_continuation_byte(s[3]) {
                4
            } else {
                3
            }
        } else {
            2
        }
    } else {
        1
    }
}

/// The byte-range checks of `utf8_seq_needed` and `utf8_cont1_ok` recognize
/// exactly the well-formed scalar encodings: a complete match is a valid
/// first scalar, and a valid first scalar occupies exactly the matched
/// bytes.
pub proof fn lemma_scalar_front(s: Seq<u8>)
    requires
        s.len() > 0,
    ensures
        valid_first_scalar(s) <==> ({
            let need = utf8_seq_needed(s[0]);
            &&& need > 0
            &&& s.len() >= need
            &&& (need >= 2 ==> utf8_cont1_ok(s[0], s[1]))
            &&& (need >= 3 ==> is_continuation_byte(s[2]))
            &&& (need >= 4 ==> is_continuation_byte(s[3]))
        }),
        valid_first_scalar(s) ==> length_of_first_scalar(s) == utf8_seq_needed(s[0]),
{
    let b0 = s[0];
    if b0 <= 0x7F {
        assert((b0 & 0x7f) as u32 <= 0x7f) by (bit_vector)
            requires
                b0 <= 0x7F,
        ;
    } else if 0xC0 <= b0 && b0 <= 0xDF {
        if s.len() >= 2 && is_continuation_byte(s[1]) {
            let b1 = s[1];
            assert({
                let cp = ((b0 & 0x1f) as u32) << 6 | (b1 & 0x3f) as u32;
                &&& (cp >= 0x80 <==> b0 >= 0xC2)
                &&& cp <= 0x7FF
            }) by (bit_vector)
                requires
                    0xC0 <= b0 && b0 <= 0xDF,
                    0x80 <= b1 && b1 <= 0xBF,
            ;
        }
    } else if 0xE0 <= b0 && b0 <= 0xEF {
        if s.len() >= 3 && is_continuation_byte(s[1]) && is_continuation_byte(s[2]) {
            let b1 = s[1];
            let b2 = s[2];
            assert({
                let cp = ((b0 & 0x0f) as u32) << 12 | ((b1 & 0x3f) as u32) << 6 | (b2
                    & 0x3f) as u32;
                &&& (cp >= 0x800 <==> (b0 != 0xE0 || b1 >= 0xA0))
                &&& ((0xD800 <= cp && cp <= 0xDFFF) <==> (b0 == 0xED && b1 >= 0xA0))
                &&& cp <= 0xFFFF
            }) by (bit_vector)
                requires
                    0xE0 <= b0 && b0 <= 0xEF,
                    0x80 <= b1 && b1 <= 0xBF,
                    0x80 <= b2 && b2 <= 0xBF,
            ;
        }
    } else if 0xF0 <= b0 && b0 <= 0xF7 {
        if s.len() >= 4 && is_continuation_byte(s[1]) && is_continuation_byte(s[2])
            && is_continuation_byte(s[3]) {
            let b1 = s[1];
            let b2 = s[2];
            let b3 = s[3];
            assert({
                let cp = ((b0 & 0x07) as u32) << 18 | ((b1 & 0x3f) as u32) << 12 | ((b2
                    & 0x3f) as u32) << 6 | (b3 & 0x3f) as u32;
                &&& (cp >= 0x10000 <==> (b0 != 0xF0 || b1 >= 0x90))
                &&& (cp <= 0x10FFFF <==> (b0 < 0xF4 || (b0 == 0xF4 && b1 <= 0x8F)))
            }) by (bit_vector)
                requires
                    0xF0 <= b0 && b0 <= 0xF7,
                    0x80 <= b1 && b1 <= 0xBF,
                    0x80 <= b2 && b2 <= 0xBF,
                    0x80 <= b3 && b3 <= 0xBF,
            ;
        }
    }
}

/// The error reported for a byte sequence whose longest cleanly decoding
/// prefix has length `i`: `None` when the input ends inside a scalar
/// encoding that could still be completed, otherwise the length of the
/// maximal subpart of an encoding (at least one byte) to skip.
pub open spec fn utf8_error_at(s: Seq<u8>, i: int) -> Utf8Error {
    let suffix = s.subrange(i, s.len() as int);
    let m = utf8_matched_len(suffix);
    if m == suffix.len() {
        Utf8Error { valid_up_to: i as usize, error_len: None }
    } else if m == 0 {
        Utf8Error { valid_up_to: i as usize, error_len: Some(1u8) }
    } else {
        Utf8Error { valid_up_to: i as usize, error_len: Some(m as u8) }
    }
}

/// Decide whether the bytes are well-formed UTF-8. Succeeds exactly on
/// well-formed input; on malformed input the failure carries the offset of
/// the first malformed unit — everything before it is well-formed — and its
/// cause, as `utf8_error_at` prescribes.
pub fn check_utf8(bytes: &Vec<u8>) -> (r: Result<(), Utf8Error>)
    ensures
        r is Ok <==> valid_utf8(bytes@),
        r is Err ==> ({
            let e = r->Err_0;
            &&& partial_valid_utf8(bytes@, e.valid_up_to as int)
            &&& !valid_first_scalar(bytes@.subrange(e.valid_up_to as int, bytes@.len() as int))
            &&& e == utf8_error_at(bytes@, e.valid_up_to as int)
        }),
{
    let n = bytes.len();
    let mut i: usize = 0;
    proof {
        assert(bytes@.subrange(0, 0) =~= Seq::<u8>::empty());
    }
    while i < n
        invariant
            0 <= i <= n,
            n == bytes@.len(),
            partial_valid_utf8(bytes@, i as int),
        decreases n - i,
    {
        let ghost suffix = bytes@.subrange(i as int, bytes@.len() as int);
        proof {
            lemma_scalar_front(suffix);
        }
        let b0 = bytes[i];
        proof {
            assert(suffix[0] == bytes@[i as int]);
        }
        let need: usize = if b0 <= 0x7F {
            1
        } else if 0xC2 <= b0 && b0 <= 0xDF {
            2
        } else if 0xE0 <= b0 && b0 <= 0xEF {
            3
        } else if 0xF0 <= b0 && b0 <= 0xF4 {
            4
        } else {
            0
        };
        if need == 0 {
            proof {
                partial_valid_partial_invalid_utf8(bytes@, i as int);
            }
            return Err(Utf8Error { valid_up_to: i, error_len: Some(1) });
        }
        if need >= 2 {
            // first continuation byte, with the lead-specific admissible range
            if i + 1 >= n {
                proof {
                    partial_valid_partial_invalid_utf8(bytes@, i as int);
                }
                return Err(Utf8Error { valid_up_to: i, error_len: None });
            }
            let b1 = bytes[i + 1];
            proof {
                assert(suffix[1] == bytes@[i + 1]);
            }
            let ok1: bool = if b0 == 0xE0 {
                0xA0 <= b1 && b1 <= 0xBF
            } else if b0 == 0xED {
                0x80 <= b1 && b1 <= 0x9F
            } else if b0 == 0xF0 {
                0x90 <= b1 && b1 <= 0xBF
            } else if b0 == 0xF4 {
                0x80 <= b1 && b1 <= 0x8F
            } else {
                0x80 <= b1 && b1 <= 0xBF
            };
            if !ok1 {
                proof {
                    partial_valid_partial_invalid_utf8(bytes@, i as int);
                }
                return Err(Utf8Error { valid_up_to: i, error_len: Some(1) });
            }
            if need >= 3 {
                if i + 2 >= n {
                    proof {
                        partial_valid_partial_invalid_utf8(bytes@, i as int);
                    }
                    return Err(Utf8Error { valid_up_to: i, error_len: None });
                }
                let b2 = bytes[i + 2];
                proof {
                    assert(suffix[2] == bytes@[i + 2]);
                }
                if !(0x80 <= b2 && b2 <= 0xBF) {
                    proof {
                        partial_valid_partial_invalid_utf8(bytes@, i as int);
                    }
                    return Err(Utf8Error { valid_up_to: i, error_len: Some(2) });
                }
                if need >= 4 {
                    if i + 3 >= n {
                        proof {
                            partial_valid_partial_invalid_utf8(bytes@, i as int);
                        }
                        return Err(Utf8Error { valid_up_to: i, error_len: None });
                    }
                    let b3 = bytes[i + 3];
                    proof {
                        assert(suffix[3] == bytes@[i + 3]);
                    }
                    if !(0x80 <= b3 && b3 <= 0xBF) {
                        proof {
                            partial_valid_partial_invalid_utf8(bytes@, i as int);
                        }
                        return Err(Utf8Error { valid_up_to: i, error_len: Some(3) });
                    }
                }
            }
        }
        proof {
            assert(valid_first_scalar(suffix));
            partial_valid_utf8_extend(bytes@, i as int);
            assert(length_of_first_scalar(suffix) == need);
        }
        i = i + need;
    }
    proof {
        assert(bytes@.subrange(0, n as int) =~= bytes@);
    }
    Ok(())
}

/// A byte sequence with two well-formed prefixes, one strictly shorter,
/// starts a well-formed scalar right after the shorter one: the greedy
/// scalar decomposition of the longer prefix passes through the shorter.
proof fn lemma_valid_prefix_starts_scalar(s: Seq<u8>, i: int, j: int)
    requires
        0 <= i < j <= s.len(),
        valid_utf8(s.subrange(0, i)),
        valid_utf8(s.subrange(0, j)),
    ensures
        valid_first_scalar(s.subrange(i, s.len() as int)),
    decreases i,
{
    let p = s.subrange(0, j);
    assert(valid_first_scalar(p));
    lemma_scalar_front(p);
    let need = utf8_seq_needed(p[0]);
    if i == 0 {
        let suffix = s.subrange(0, s.len() as int);
        assert(suffix =~= s);
        assert(suffix[0] == p[0]);
        if need >= 2 {
            assert(suffix[1] == p[1]);
        }
        if need >= 3 {
            assert(suffix[2] == p[2]);
        }
        if need >= 4 {
            assert(suffix[3] == p[3]);
        }
        lemma_scalar_front(suffix);
    } else {
        let q = s.subrange(0, i);
        assert(valid_first_scalar(q));
        lemma_scalar_front(q);
        assert(q[0] == p[0]);
        let k = length_of_first_scalar(q);
        assert(k == need && length_of_first_scalar(p) == need) by {
            if need >= 2 {
                assert(q[1] == p[1]);
            }
        }
        assert(k <= i);
        let t = s.subrange(k, s.len() as int);
        assert(vstd::utf8::pop_first_scalar(q) =~= t.subrange(0, i - k));
        assert(vstd::utf8::pop_first_scalar(p) =~= t.subrange(0, j - k));
        assert(valid_utf8(t.subrange(0, i - k)));
        assert(valid_utf8(t.subrange(0, j - k)));
        lemma_valid_prefix_starts_scalar(t, i - k, j - k);
        assert(t.subrange(i - k, t.len() as int) =~= s.subrange(i, s.len() as int));
    }
}

/// The first malformed unit of a byte sequence sits at exactly one offset:
/// two offsets that each split the bytes into a cleanly decoding prefix and
/// a rest that does not begin a well-formed scalar are equal. Validation is
/// deterministic: re-checking unchanged bytes always reports the same
/// failure.
pub proof fn lemma_first_malformed_unique(s: Seq<u8>, i: int, j: int)
    requires
        0 <= i <= s.len(),
        valid_utf8(s.subrange(0, i)),
        !valid_first_scalar(s.subrange(i, s.len() as int)),
        0 <= j <= s.len(),
        valid_utf8(s.subrange(0, j)),
        !valid_first_scalar(s.subrange(j, s.len() as int)),
    ensures
        i == j,
{
    if i < j {
        lemma_valid_prefix_starts_scalar(s, i, j);
    }
    if j < i {
        lemma_valid_prefix_starts_scalar(s, j, i);
    }
}

} // verus!
