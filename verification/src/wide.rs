//! Transcoding between Unicode text and the native wide-character (16-bit)
//! encoding. Both the clipboard bridge and the text draw path go through the
//! same `encode_wide`, so what is measured for layout is exactly what is
//! drawn and what is copied is exactly what pastes back.

use vstd::arithmetic::div_mod::{
    lemma_fundamental_div_mod,
    lemma_mod_division_less_than_divisor,
};
use vstd::prelude::*;
use vstd::slice::slice_subrange;
use vstd::string::StrSliceExecFns;
use vstd::utf8::{char_is_scalar, char_u32_cast};

verus! {

/// The wide units encoding one scalar: one unit for values below 0x10000,
/// otherwise a high/low surrogate pair.
pub open spec fn wide_units(c: char) -> Seq<u16> {
    let v = c as u32;
    if v < 0x10000 {
        seq![v as u16]
    } else {
        seq![
            (0xD800 + ((v - 0x10000) / 0x400)) as u16,
            (0xDC00 + ((v - 0x10000) % 0x400)) as u16,
        ]
    }
}

/// The wide encoding of a whole text, scalar by scalar.
pub open spec fn wide_of(s: Seq<char>) -> Seq<u16>
    decreases s.len(),
{
    if s.len() == 0 {
        Seq::empty()
    } else {
        wide_units(s[0]) + wide_of(s.drop_first())
    }
}

/// Whether a unit is a high (leading) surrogate.
pub open spec fn is_high_surrogate(u: u16) -> bool {
    0xD800 <= u < 0xDC00
}

/// Whether a unit is a low (trailing) surrogate.
pub open spec fn is_low_surrogate(u: u16) -> bool {
    0xDC00 <= u < 0xE000
}

/// The scalar a surrogate pair encodes.
pub open spec fn combine_surrogates(hi: u16, lo: u16) -> char {
    ((0x10000 + (hi - 0xD800) * 0x400 + (lo - 0xDC00)) as u32) as char
}

/// Decodes a wide sequence back into text: `None` exactly when the sequence
/// is ill-formed (a lone or misordered surrogate).
pub open spec fn chars_of_wide(u: Seq<u16>) -> Option<Seq<char>>
    decreases u.len(),
{
    if u.len() == 0 {
        Some(Seq::empty())
    } else if is_high_surrogate(u[0]) {
        if u.len() >= 2 && is_low_surrogate(u[1]) {
            match chars_of_wide(u.skip(2)) {
                Some(rest) => Some(seq![combine_surrogates(u[0], u[1])] + rest),
                None => None,
            }
        } else {
            None
        }
    } else if is_low_surrogate(u[0]) {
        None
    } else {
        match chars_of_wide(u.drop_first()) {
            Some(rest) => Some(seq![(u[0] as u32) as char] + rest),
            None => None,
        }
    }
}

/// Appending one scalar to a text appends its units to the encoding.
pub proof fn lemma_wide_of_push(s: Seq<char>, c: char)
    ensures
        wide_of(s.push(c)) == wide_of(s) + wide_units(c),
    decreases s.len(),
{
    if s.len() == 0 {
        assert(s.push(c).len() == 1);
        assert(s.push(c)[0] == c);
        assert(s.push(c).drop_first() =~= s);
        assert(wide_of(s) == Seq::<u16>::empty());
        assert(wide_of(s.push(c)) == wide_units(c) + wide_of(s));
        assert(wide_of(s.push(c)) =~= wide_of(s) + wide_units(c));
    } else {
        assert(s.push(c).drop_first() =~= s.drop_first().push(c));
        lemma_wide_of_push(s.drop_first(), c);
        assert(wide_of(s.push(c)) =~= wide_of(s) + wide_units(c));
    }
}

/// Relies on char::from_u32: it returns the character with the given code
/// exactly when the code is a Unicode scalar value (not a surrogate, at most
/// 0x10FFFF), and `None` otherwise.
pub assume_specification[ char::from_u32 ](v: u32) -> (out: Option<char>)
    ensures
        (v < 0xD800 || (0xE000 <= v <= 0x10FFFF)) ==> out == Some(v as char) && (out->0 as u32)
            == v,
        !(v < 0xD800 || (0xE000 <= v <= 0x10FFFF)) ==> out is None,
;

/// Encodes text into wide units, as the native text APIs consume them.
pub fn encode_wide(text: &str) -> (out: Vec<u16>)
    ensures
        out@ == wide_of(text@),
{
    let n: usize = text.unicode_len();
    let mut out: Vec<u16> = Vec::new();
    let mut i: usize = 0;
    while i < n
        invariant
            i <= n,
            n == text@.len(),
            out@ == wide_of(text@.take(i as int)),
        decreases n - i,
    {
        let c = text.get_char(i);
        let v = c as u32;
        proof {
            char_is_scalar(c);
        }
        if v < 0x10000 {
            out.push(v as u16);
        } else {
            let off: u32 = v - 0x10000;
            proof {
                assert(off >> 10 == off / 0x400 && off & 0x3FF == off % 0x400 && off >> 10
                    <= 0x3FF && off & 0x3FF <= 0x3FF) by (bit_vector)
                    requires
                        off <= 0xFFFFF,
                ;
            }
            let hi: u32 = 0xD800 + (off >> 10);
            let lo: u32 = 0xDC00 + (off & 0x3FF);
            out.push(hi as u16);
            out.push(lo as u16);
        }
        proof {
            assert(text@.take(i + 1) =~= text@.take(i as int).push(text@[i as int]));
            lemma_wide_of_push(text@.take(i as int), text@[i as int]);
            assert(out@ =~= wide_of(text@.take(i + 1)));
        }
        i = i + 1;
    }
    proof {
        assert(text@.take(n as int) =~= text@);
    }
    out
}

/// Decodes wide units back into text; `None` exactly on an ill-formed
/// sequence.
pub fn decode_wide(units: &[u16]) -> (out: Option<Vec<char>>)
    ensures
        (out is Some) <==> (chars_of_wide(units@) is Some),
        out is Some ==> Some(out->0@) == chars_of_wide(units@),
{
    let n: usize = units.len();
    let mut out: Vec<char> = Vec::new();
    let mut i: usize = 0;
    proof {
        assert(units@.skip(0) =~= units@);
        if let Some(rest) = chars_of_wide(units@) {
            assert(out@ + rest =~= rest);
        }
    }
    while i < n
        invariant
            i <= n,
            n == units@.len(),
            chars_of_wide(units@) == (match chars_of_wide(units@.skip(i as int)) {
                Some(rest) => Some(out@ + rest),
                None => None::<Seq<char>>,
            }),
        decreases n - i,
    {
        let ghost tail = units@.skip(i as int);
        let u = units[i];
        if 0xD800 <= u && u < 0xDC00 {
            if i + 1 < n && 0xDC00 <= units[i + 1] && units[i + 1] < 0xE000 {
                let lo = units[i + 1];
                let v: u32 = 0x10000 + ((u - 0xD800) as u32) * 0x400 + ((lo - 0xDC00) as u32);
                let ghost prev = out@;
                let c = char::from_u32(v).unwrap();
                out.push(c);
                proof {
                    assert(tail.skip(2) =~= units@.skip(i + 2));
                    assert(c == combine_surrogates(u, lo));
                    if let Some(rest) = chars_of_wide(units@.skip(i + 2)) {
                        assert(out@ + rest =~= prev + (seq![c] + rest));
                    }
                }
                i = i + 2;
            } else {
                return None;
            }
        } else if 0xDC00 <= u && u < 0xE000 {
            return None;
        } else {
            let ghost prev = out@;
            let c = char::from_u32(u as u32).unwrap();
            out.push(c);
            proof {
                assert(tail.drop_first() =~= units@.skip(i + 1));
                assert(c == ((u as u32) as char));
                if let Some(rest) = chars_of_wide(units@.skip(i + 1)) {
                    assert(out@ + rest =~= prev + (seq![c] + rest));
                }
            }
            i = i + 1;
        }
    }
    proof {
        assert(units@.skip(n as int) =~= Seq::<u16>::empty());
        assert(out@ + Seq::<char>::empty() =~= out@);
    }
    Some(out)
}

/// Decoding inverts encoding: the wide form of any text decodes back to
/// exactly that text.
pub proof fn lemma_wide_round_trip(s: Seq<char>)
    ensures
        chars_of_wide(wide_of(s)) == Some(s),
    decreases s.len(),
{
    if s.len() == 0 {
        assert(chars_of_wide(wide_of(s)) == Some(Seq::<char>::empty()));
        assert(Seq::<char>::empty() =~= s);
    } else {
        let c = s[0];
        let v = c as u32;
        let w = wide_of(s);
        char_is_scalar(c);
        lemma_wide_round_trip(s.drop_first());
        assert(w == wide_units(c) + wide_of(s.drop_first()));
        if v < 0x10000 {
            assert(w[0] == (v as u16));
            let u0: u32 = w[0] as u32;
            assert(u0 == c as u32);
            char_u32_cast(c, u0);
            assert(!is_high_surrogate(w[0]) && !is_low_surrogate(w[0]));
            assert(w.drop_first() =~= wide_of(s.drop_first()));
            assert(((w[0] as u32) as char) == c);
            assert(seq![c] + s.drop_first() =~= s);
        } else {
            let off = v - 0x10000;
            lemma_fundamental_div_mod(off, 0x400);
            lemma_mod_division_less_than_divisor(off, 0x400);
            assert(off / 0x400 <= 0x3FF) by (nonlinear_arith)
                requires
                    0 <= off <= 0xFFFFF,
            ;
            let hi = w[0];
            let lo = w[1];
            assert(is_high_surrogate(hi));
            assert(is_low_surrogate(lo));
            assert(w.skip(2) =~= wide_of(s.drop_first()));
            let code: int = 0x10000 + (hi - 0xD800) * 0x400 + (lo - 0xDC00);
            assert(code == v);
            let u0: u32 = code as u32;
            assert(u0 == c as u32);
            char_u32_cast(c, u0);
            assert(combine_surrogates(hi, lo) == c);
            assert(seq![c] + s.drop_first() =~= s);
        }
    }
}

/// The clipboard payload for a text: its wide encoding followed by the
/// terminating null unit the native clipboard format requires.
pub open spec fn spec_copy_payload(text: Seq<char>) -> Seq<u16> {
    wide_of(text).push(0u16)
}

/// What pasting a payload yields: nothing for an empty or null-only payload
/// (the native path declines zero-length data), otherwise the decoding of
/// the units before the terminating null.
pub open spec fn spec_paste(payload: Seq<u16>) -> Option<Seq<char>> {
    if payload.len() <= 1 {
        None
    } else {
        chars_of_wide(payload.take(payload.len() - 1))
    }
}

/// Builds the clipboard payload handed to the native clipboard on copy.
pub fn clipboard_copy(text: &str) -> (payload: Vec<u16>)
    ensures
        payload@ == spec_copy_payload(text@),
{
    let mut payload = encode_wide(text);
    payload.push(0u16);
    payload
}

/// Reads a clipboard payload back into text; `None` when the payload holds
/// no text (or is ill-formed), in which case paste is a no-op.
pub fn clipboard_paste(payload: &Vec<u16>) -> (out: Option<Vec<char>>)
    ensures
        (out is Some) <==> (spec_paste(payload@) is Some),
        out is Some ==> Some(out->0@) == spec_paste(payload@),
{
    let n: usize = payload.len();
    if n <= 1 {
        return None;
    }
    let body: &[u16] = slice_subrange(payload.as_slice(), 0, n - 1);
    decode_wide(body)
}

/// Copy then paste returns the original text whenever there is any; an empty
/// copy pastes nothing, which leaves the receiving editor unchanged — equal
/// to the empty text it started from.
pub proof fn lemma_copy_paste_round_trip(text: Seq<char>)
    ensures
        text.len() > 0 ==> spec_paste(spec_copy_payload(text)) == Some(text),
        text.len() == 0 ==> spec_paste(spec_copy_payload(text)) is None,
{
    let payload = spec_copy_payload(text);
    if text.len() > 0 {
        assert(payload.take(payload.len() - 1) =~= wide_of(text));
        lemma_wide_round_trip(text);
    } else {
        assert(wide_of(text).len() == 0);
    }
}

} // verus!
