//! UTF-16 encoding of the strings handed to the engine.
//!
//! The engine's entry points take wide, null-terminated strings. The
//! encoding is ordinary UTF-16: one code unit per character below
//! `0x10000`, a surrogate pair for the rest, and a single terminating
//! zero unit at the end.

use vstd::prelude::*;
use vstd::string::StrSliceExecFns;

verus! {

/// The UTF-16 code units of one character: the code point itself when
/// it fits in one unit, else the surrogate pair built from the offset
/// above `0x10000`.
pub open spec fn utf16_units(c: char) -> Seq<u16> {
    let v = c as u32;
    if v < 0x10000 {
        seq![v as u16]
    } else {
        seq![
            (0xD800 + (v - 0x10000) / 0x400) as u16,
            (0xDC00 + (v - 0x10000) % 0x400) as u16,
        ]
    }
}

/// The UTF-16 code units of a whole string, character by character,
/// without a terminator.
pub open spec fn wide_of(s: Seq<char>) -> Seq<u16>
    decreases s.len(),
{
    if s.len() == 0 {
        Seq::empty()
    } else {
        utf16_units(s[0]) + wide_of(s.drop_first())
    }
}

/// Appending one character to a string appends exactly its code units
/// to the string's encoding.
proof fn lemma_wide_of_push(s: Seq<char>, c: char)
    ensures
        wide_of(s.push(c)) == wide_of(s) + utf16_units(c),
    decreases s.len(),
{
    if s.len() == 0 {
        assert(s.push(c).drop_first() =~= s);
        assert(wide_of(s.push(c)) =~= wide_of(s) + utf16_units(c));
    } else {
        assert(s.push(c).drop_first() =~= s.drop_first().push(c));
        lemma_wide_of_push(s.drop_first(), c);
        assert(utf16_units(s[0]) + (wide_of(s.drop_first()) + utf16_units(c)) =~= (utf16_units(
            s[0],
        ) + wide_of(s.drop_first())) + utf16_units(c));
    }
}

/// Encode a string as wide, null-terminated UTF-16: exactly its code
/// units followed by one zero unit.
pub fn to_wide_string(s: &str) -> (r: Vec<u16>)
    ensures
        r@ == wide_of(s@).push(0u16),
{
    let n = s.unicode_len();
    let mut out: Vec<u16> = Vec::new();
    let mut i: usize = 0;
    while i < n
        invariant
            i <= n,
            n == s@.len(),
            out@ == wide_of(s@.take(i as int)),
        decreases n - i,
    {
        let c = s.get_char(i);
        let v: u32 = c as u32;
        if v < 0x10000 {
            out.push(v as u16);
            proof {
                assert(out@ =~= wide_of(s@.take(i as int)) + utf16_units(c));
            }
        } else {
            let off: u32 = v - 0x10000;
            proof {
                assert(off / 0x400 <= 0x3FF && off % 0x400 <= 0x3FF) by (nonlinear_arith)
                    requires
                        off <= 0xFFFFF,
                ;
            }
            let hi: u32 = 0xD800 + off / 0x400;
            let lo: u32 = 0xDC00 + off % 0x400;
            out.push(hi as u16);
            out.push(lo as u16);
            proof {
                assert(out@ =~= wide_of(s@.take(i as int)) + utf16_units(c));
            }
        }
        proof {
            lemma_wide_of_push(s@.take(i as int), c);
            assert(s@.take(i as int).push(c) =~= s@.take(i + 1 as int));
        }
        i = i + 1;
    }
    proof {
        assert(s@.take(n as int) =~= s@);
    }
    out.push(0);
    out
}

} // verus!
