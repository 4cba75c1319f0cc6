//! Terminator scanning: find the first line terminator in a byte span.
//!
//! The single authoritative rule: search for `\n`; if the byte just
//! before it is `\r`, the line ends before that `\r` and the terminator
//! occupies two bytes, otherwise the lone `\n` is the terminator. A `\r`
//! with no `\n` right after it is never a terminator.

use vstd::prelude::*;

verus! {

/// The line feed byte, `\n`.
pub const LF: u8 = 10;

/// The carriage return byte, `\r`.
pub const CR: u8 = 13;

/// True when no byte of `s` is a line feed.
pub open spec fn no_lf(s: Seq<u8>) -> bool {
    forall|i: int| 0 <= i < s.len() ==> s[i] != LF
}

/// Index of the first line feed in `s`, if any.
pub open spec fn find_lf(s: Seq<u8>) -> Option<int>
    decreases s.len(),
{
    if s.len() == 0 {
        None
    } else if s[0] == LF {
        Some(0)
    } else {
        match find_lf(s.drop_first()) {
            Some(i) => Some(i + 1),
            None => None,
        }
    }
}

/// Where the first line in `s` ends: `Some((offset, term_len))` means the
/// line content is `s[..offset]` and the terminator occupies `term_len`
/// bytes (1 for a lone `\n`, 2 for `\r\n`); `None` means no terminator
/// occurs in `s`.
pub open spec fn scan_spec(s: Seq<u8>) -> Option<(int, int)> {
    match find_lf(s) {
        None => None,
        Some(i) => if i > 0 && s[i - 1] == CR {
            Some((i - 1, 2))
        } else {
            Some((i, 1))
        },
    }
}

/// `find_lf` returns exactly the position of the first line feed.
pub proof fn lemma_find_lf(s: Seq<u8>)
    ensures
        match find_lf(s) {
            None => no_lf(s),
            Some(i) => 0 <= i < s.len() && s[i] == LF && no_lf(s.take(i)),
        },
    decreases s.len(),
{
    if s.len() == 0 {
    } else if s[0] == LF {
    } else {
        lemma_find_lf(s.drop_first());
        match find_lf(s.drop_first()) {
            Some(i) => {
                assert(s[i + 1] == s.drop_first()[i]);
                assert(no_lf(s.take(i + 1))) by {
                    assert forall|j: int| 0 <= j < i + 1 implies #[trigger] s.take(i + 1)[j] != LF by {
                        if j > 0 {
                            assert(s.take(i + 1)[j] == s.drop_first().take(i)[j - 1]);
                        }
                    }
                }
            },
            None => {
                assert forall|j: int| 0 <= j < s.len() implies #[trigger] s[j] != LF by {
                    if j > 0 {
                        assert(s[j] == s.drop_first()[j - 1]);
                    }
                }
            },
        }
    }
}

/// Bounds and content facts about a successful scan: the offset and the
/// terminator length fit inside `s`, the terminator bytes are where the
/// scan says they are, and no line feed occurs before the terminator.
pub proof fn lemma_scan_props(s: Seq<u8>)
    ensures
        match scan_spec(s) {
            None => no_lf(s),
            Some((pos, size)) => {
                &&& 0 <= pos
                &&& 1 <= size <= 2
                &&& pos + size <= s.len()
                &&& no_lf(s.take(pos))
                &&& (size == 1 ==> s[pos] == LF)
                &&& (size == 2 ==> s[pos] == CR && s[pos + 1] == LF)
            },
        },
{
    lemma_find_lf(s);
    match find_lf(s) {
        None => {},
        Some(i) => {
            if i > 0 && s[i - 1] == CR {
                assert(no_lf(s.take(i - 1))) by {
                    assert forall|j: int| 0 <= j < i - 1 implies #[trigger] s.take(i - 1)[j] != LF by {
                        assert(s.take(i - 1)[j] == s.take(i)[j]);
                    }
                }
            }
        },
    }
}

/// Relies on `memchr::memchr`: returns `Some(i)` where `i` is the index
/// of the first occurrence of `needle` in `haystack`, or `None` when no
/// byte of `haystack` equals `needle`.
#[verifier::external_body]
fn find_byte(needle: u8, haystack: &[u8]) -> (r: Option<usize>)
    ensures
        match r {
            Some(i) => i < haystack@.len() && haystack@[i as int] == needle && forall|j: int|
                0 <= j < i ==> haystack@[j] != needle,
            None => forall|j: int| 0 <= j < haystack@.len() ==> haystack@[j] != needle,
        },
{
    memchr::memchr(needle, haystack)
}

/// Find the first line terminator in `data`.
///
/// Returns `Some((offset, term_len))` when a terminator is present: the
/// line content is `data[..offset]` and the terminator occupies
/// `term_len` bytes (1 for `\n`, 2 for `\r\n`). Returns `None` when no
/// line feed occurs in `data`; in particular a `\r` with no `\n` after it
/// is not reported.
pub fn find_new_line(data: &[u8]) -> (r: Option<(usize, usize)>)
    ensures
        match r {
            None => scan_spec(data@) is None,
            Some((pos, size)) => scan_spec(data@) == Some((pos as int, size as int)),
        },
{
    proof {
        lemma_find_lf(data@);
    }
    match find_byte(LF, data) {
        Some(i) => {
            proof {
                let k: int = find_lf(data@)->Some_0;
                if k < i {
                    assert(data@[k] == LF);
                } else if i < k {
                    assert(data@.take(k)[i as int] == LF);
                }
            }
            if i > 0 && data[i - 1] == CR {
                Some((i - 1, 2))
            } else {
                Some((i, 1))
            }
        },
        None => None,
    }
}

} // verus!
