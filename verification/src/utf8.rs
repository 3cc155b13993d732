//! UTF-8 validity of byte sequences, and a verified validator.

use vstd::prelude::*;

verus! {

/// Whether `b` is a UTF-8 continuation byte, `0x80..=0xBF`.
pub open spec fn is_cont(b: u8) -> bool {
    0x80 <= b && b <= 0xBF
}

/// Whether `s` is a well-formed UTF-8 byte sequence: a concatenation of
/// one- to four-byte scalar-value encodings, shortest-form only and with
/// the surrogate range `U+D800..=U+DFFF` excluded.
pub open spec fn is_valid_utf8(s: Seq<u8>) -> bool
    decreases s.len(),
{
    if s.len() == 0 {
        true
    } else {
        let b0 = s[0];
        if b0 < 0x80 {
            is_valid_utf8(s.skip(1))
        } else if 0xC2 <= b0 && b0 <= 0xDF {
            s.len() >= 2 && is_cont(s[1]) && is_valid_utf8(s.skip(2))
        } else if b0 == 0xE0 {
            s.len() >= 3 && 0xA0 <= s[1] && s[1] <= 0xBF && is_cont(s[2]) && is_valid_utf8(
                s.skip(3),
            )
        } else if (0xE1 <= b0 && b0 <= 0xEC) || b0 == 0xEE || b0 == 0xEF {
            s.len() >= 3 && is_cont(s[1]) && is_cont(s[2]) && is_valid_utf8(s.skip(3))
        } else if b0 == 0xED {
            s.len() >= 3 && 0x80 <= s[1] && s[1] <= 0x9F && is_cont(s[2]) && is_valid_utf8(
                s.skip(3),
            )
        } else if b0 == 0xF0 {
            s.len() >= 4 && 0x90 <= s[1] && s[1] <= 0xBF && is_cont(s[2]) && is_cont(s[3])
                && is_valid_utf8(s.skip(4))
        } else if 0xF1 <= b0 && b0 <= 0xF3 {
            s.len() >= 4 && is_cont(s[1]) && is_cont(s[2]) && is_cont(s[3]) && is_valid_utf8(
                s.skip(4),
            )
        } else if b0 == 0xF4 {
            s.len() >= 4 && 0x80 <= s[1] && s[1] <= 0x8F && is_cont(s[2]) && is_cont(s[3])
                && is_valid_utf8(s.skip(4))
        } else {
            false
        }
    }
}

/// Whether `s` is a well-formed UTF-8 byte sequence.
pub fn is_utf8(s: &[u8]) -> (r: bool)
    ensures
        r == is_valid_utf8(s@),
{
    let n = s.len();
    let mut i: usize = 0;
    assert(s@.skip(0) =~= s@);
    while i < n
        invariant
            i <= n,
            n == s@.len(),
            is_valid_utf8(s@) == is_valid_utf8(s@.skip(i as int)),
        decreases n - i,
    {
        let ghost tail = s@.skip(i as int);
        let rem = n - i;
        let b0 = s[i];
        assert(tail[0] == b0);
        let width: usize = if b0 < 0x80 {
            1
        } else if 0xC2 <= b0 && b0 <= 0xDF {
            if rem < 2 || !cont(s[i + 1]) {
                return false;
            }
            2
        } else if b0 == 0xE0 {
            if rem < 3 || !(0xA0 <= s[i + 1] && s[i + 1] <= 0xBF) || !cont(s[i + 2]) {
                return false;
            }
            3
        } else if (0xE1 <= b0 && b0 <= 0xEC) || b0 == 0xEE || b0 == 0xEF {
            if rem < 3 || !cont(s[i + 1]) || !cont(s[i + 2]) {
                return false;
            }
            3
        } else if b0 == 0xED {
            if rem < 3 || !(0x80 <= s[i + 1] && s[i + 1] <= 0x9F) || !cont(s[i + 2]) {
                return false;
            }
            3
        } else if b0 == 0xF0 {
            if rem < 4 || !(0x90 <= s[i + 1] && s[i + 1] <= 0xBF) || !cont(s[i + 2]) || !cont(
                s[i + 3],
            ) {
                return false;
            }
            4
        } else if 0xF1 <= b0 && b0 <= 0xF3 {
            if rem < 4 || !cont(s[i + 1]) || !cont(s[i + 2]) || !cont(s[i + 3]) {
                return false;
            }
            4
        } else if b0 == 0xF4 {
            if rem < 4 || !(0x80 <= s[i + 1] && s[i + 1] <= 0x8F) || !cont(s[i + 2]) || !cont(
                s[i + 3],
            ) {
                return false;
            }
            4
        } else {
            return false;
        };
        proof {
            assert(is_valid_utf8(tail) == is_valid_utf8(tail.skip(width as int)));
            vstd::seq_lib::lemma_seq_skip_of_skip(s@, i as int, width as int);
            assert(tail.skip(width as int) == s@.skip(i + width));
        }
        i += width;
    }
    assert(s@.skip(n as int) =~= Seq::<u8>::empty());
    true
}

/// Whether `b` is a UTF-8 continuation byte.
fn cont(b: u8) -> (r: bool)
    ensures
        r == is_cont(b),
{
    0x80 <= b && b <= 0xBF
}

} // verus!
