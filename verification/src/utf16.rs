//! UTF-16 encoding and decoding.
//!
//! The driver interface carries connection strings, SQL text, column values
//! and diagnostic messages as 16-bit code units. [`utf16_encode`] and
//! [`utf16_decode`] state what those units mean; the executable functions
//! are proved against them, and [`lemma_utf16_round_trip`] shows that a
//! decoded encoding gives the characters back unchanged.

use vstd::prelude::*;
use vstd::string::StrSliceExecFns;
use vstd::utf8::{char_is_scalar, char_u32_cast};
use vstd::arithmetic::div_mod::lemma_fundamental_div_mod;

verus! {

/// A leading (high) surrogate unit.
pub open spec fn is_high_surrogate(u: u16) -> bool {
    0xD800 <= u && u <= 0xDBFF
}

/// A trailing (low) surrogate unit.
pub open spec fn is_low_surrogate(u: u16) -> bool {
    0xDC00 <= u && u <= 0xDFFF
}

/// Any surrogate unit: never a scalar value of its own.
pub open spec fn is_surrogate(u: u16) -> bool {
    is_high_surrogate(u) || is_low_surrogate(u)
}

/// The scalar value named by a surrogate pair.
pub open spec fn combined_scalar(h: u16, l: u16) -> int {
    0x10000 + (h - 0xD800) * 0x400 + (l - 0xDC00)
}

/// The UTF-16 code units of one character: itself below 0x10000, else a
/// surrogate pair.
pub open spec fn utf16_units_of(c: char) -> Seq<u16> {
    if (c as u32) < 0x10000 {
        seq![(c as u32) as u16]
    } else {
        seq![
            (0xD800 + ((c as u32) - 0x10000) / 0x400) as u16,
            (0xDC00 + ((c as u32) - 0x10000) % 0x400) as u16,
        ]
    }
}

/// The UTF-16 code units of a character sequence.
pub open spec fn utf16_encode(s: Seq<char>) -> Seq<u16>
    decreases s.len(),
{
    if s.len() == 0 {
        Seq::<u16>::empty()
    } else {
        utf16_units_of(s[0]) + utf16_encode(s.drop_first())
    }
}

/// The characters named by a unit sequence, or `None` where a surrogate
/// stands alone or out of order.
pub open spec fn utf16_decode(units: Seq<u16>) -> Option<Seq<char>>
    decreases units.len(),
{
    if units.len() == 0 {
        Some(Seq::<char>::empty())
    } else if !is_surrogate(units[0]) {
        match utf16_decode(units.drop_first()) {
            Some(rest) => Some(seq![units[0] as char] + rest),
            None => None,
        }
    } else if is_high_surrogate(units[0]) && units.len() >= 2 && is_low_surrogate(units[1]) {
        match utf16_decode(units.skip(2)) {
            Some(rest) => Some(seq![combined_scalar(units[0], units[1]) as char] + rest),
            None => None,
        }
    } else {
        None
    }
}

/// Encoding distributes over concatenation.
pub proof fn lemma_utf16_encode_concat(a: Seq<char>, b: Seq<char>)
    ensures
        utf16_encode(a + b) == utf16_encode(a) + utf16_encode(b),
    decreases a.len(),
{
    if a.len() == 0 {
        assert(a + b =~= b);
        assert(utf16_encode(a) + utf16_encode(b) =~= utf16_encode(b));
    } else {
        assert((a + b).len() > 0);
        assert((a + b)[0] == a[0]);
        assert((a + b).drop_first() =~= a.drop_first() + b);
        lemma_utf16_encode_concat(a.drop_first(), b);
        assert(utf16_encode(a + b) =~= utf16_encode(a) + utf16_encode(b));
    }
}

/// Encoding one more character appends that character's units.
pub proof fn lemma_utf16_encode_snoc(s: Seq<char>, i: int)
    requires
        0 <= i < s.len(),
    ensures
        utf16_encode(s.take(i + 1)) == utf16_encode(s.take(i)) + utf16_units_of(s[i]),
{
    assert(s.take(i + 1) =~= s.take(i) + seq![s[i]]);
    lemma_utf16_encode_concat(s.take(i), seq![s[i]]);
    let single = seq![s[i]];
    assert(single.drop_first() =~= Seq::<char>::empty());
    assert(utf16_encode(single.drop_first()) =~= Seq::<u16>::empty());
    assert(utf16_encode(single) =~= utf16_units_of(single[0]) + utf16_encode(single.drop_first()));
    assert(utf16_encode(single) =~= utf16_units_of(s[i]));
}

/// Relies on char::from_u32 of std: `Some` exactly when the value is a
/// Unicode scalar (not a surrogate, at most 0x10FFFF), and the character
/// then carries that value.
#[verifier::external_body]
fn char_from_u32(u: u32) -> (r: Option<char>)
    ensures
        r is Some <==> (u < 0xD800 || (0xE000 <= u && u <= 0x10FFFF)),
        r matches Some(c) ==> c as u32 == u,
{
    char::from_u32(u)
}

/// Relies on String::push of std: appends the character to the string.
#[verifier::external_body]
fn push_char(s: &mut String, c: char)
    ensures
        final(s)@ == old(s)@.push(c),
{
    s.push(c);
}

/// Encodes a string as UTF-16 and appends the null terminator the driver
/// interface expects with its compute-the-length sentinel.
pub fn to_u16s(s: &str) -> (r: Vec<u16>)
    ensures
        r@ == utf16_encode(s@).push(0u16),
{
    let n = s.unicode_len();
    let mut out: Vec<u16> = Vec::new();
    let mut i: usize = 0;
    proof {
        assert(s@.take(0) =~= Seq::<char>::empty());
    }
    while i < n
        invariant
            n == s@.len(),
            i <= n,
            out@ == utf16_encode(s@.take(i as int)),
        decreases n - i,
    {
        let c = s.get_char(i);
        let u: u32 = c as u32;
        proof {
            char_is_scalar(c);
            lemma_utf16_encode_snoc(s@, i as int);
        }
        if u < 0x10000 {
            out.push(u as u16);
        } else {
            out.push((0xD800 + ((u - 0x10000) / 0x400)) as u16);
            out.push((0xDC00 + ((u - 0x10000) % 0x400)) as u16);
        }
        proof {
            assert(out@ =~= utf16_encode(s@.take(i as int)) + utf16_units_of(s@[i as int]));
        }
        i += 1;
    }
    proof {
        assert(s@.take(n as int) =~= s@);
    }
    out.push(0);
    out
}

/// Decodes a UTF-16 unit sequence to a string, or `None` where the units
/// are not a valid encoding.
pub fn utf16_to_string(units: &Vec<u16>) -> (r: Option<String>)
    ensures
        r matches Some(s) ==> utf16_decode(units@) == Some(s@),
        r is None ==> utf16_decode(units@) is None,
{
    let n = units.len();
    let mut out = String::new();
    let mut i: usize = 0;
    proof {
        assert(units@.skip(0) =~= units@);
        if let Some(rest) = utf16_decode(units@) {
            assert(out@ + rest =~= rest);
        }
    }
    while i < n
        invariant
            n == units@.len(),
            i <= n,
            match utf16_decode(units@.skip(i as int)) {
                Some(rest) => utf16_decode(units@) == Some(out@ + rest),
                None => utf16_decode(units@) is None,
            },
        decreases n - i,
    {
        let u = units[i];
        if !(0xD800 <= u && u <= 0xDFFF) {
            match char_from_u32(u as u32) {
                Some(c) => {
                    proof {
                        assert(units@.skip(i as int).drop_first() =~= units@.skip(i as int + 1));
                        assert(units@.skip(i as int)[0] as char == c) by {
                            char_u32_cast(c, u as u32);
                        }
                    }
                    let ghost prev = out@;
                    push_char(&mut out, c);
                    proof {
                        if let Some(rest) = utf16_decode(units@.skip(i as int + 1)) {
                            assert(out@ + rest =~= prev + (seq![c] + rest));
                        }
                    }
                },
                None => {
                    proof {
                        assert(false);
                    }
                },
            }
            i += 1;
        } else if u <= 0xDBFF && i + 1 < n && 0xDC00 <= units[i + 1] && units[i + 1] <= 0xDFFF {
            let l = units[i + 1];
            let scalar: u32 = 0x10000 + (((u as u32) - 0xD800) * 0x400) + ((l as u32) - 0xDC00);
            match char_from_u32(scalar) {
                Some(c) => {
                    proof {
                        assert(units@.skip(i as int).skip(2) =~= units@.skip(i as int + 2));
                        assert(units@.skip(i as int).len() >= 2);
                        assert(combined_scalar(units@.skip(i as int)[0], units@.skip(i as int)[1]) as char == c) by {
                            char_u32_cast(c, scalar);
                        }
                    }
                    let ghost prev = out@;
                    push_char(&mut out, c);
                    proof {
                        if let Some(rest) = utf16_decode(units@.skip(i as int + 2)) {
                            assert(out@ + rest =~= prev + (seq![c] + rest));
                        }
                    }
                },
                None => {
                    proof {
                        assert(false);
                    }
                },
            }
            i += 2;
        } else {
            proof {
                assert(utf16_decode(units@.skip(i as int)) is None);
            }
            return None;
        }
    }
    proof {
        assert(units@.skip(n as int) =~= Seq::<u16>::empty());
        assert(out@ + Seq::<char>::empty() =~= out@);
    }
    Some(out)
}

/// Decoding an encoding gives the characters back unchanged: what a text
/// column holds survives the trip through the driver's wide encoding.
pub proof fn lemma_utf16_round_trip(s: Seq<char>)
    ensures
        utf16_decode(utf16_encode(s)) == Some(s),
    decreases s.len(),
{
    if s.len() == 0 {
        assert(utf16_encode(s).len() == 0);
        assert(s =~= Seq::<char>::empty());
    } else {
        let c = s[0];
        char_is_scalar(c);
        lemma_utf16_round_trip(s.drop_first());
        let e = utf16_encode(s);
        if (c as u32) < 0x10000 {
            let u = (c as u32) as u16;
            assert(u as int == (c as u32) as int);
            assert(e =~= seq![u] + utf16_encode(s.drop_first()));
            assert(e[0] == u);
            assert(e.drop_first() =~= utf16_encode(s.drop_first()));
            assert(!is_surrogate(u));
            assert(u as char == c) by {
                char_u32_cast(c, c as u32);
            }
            assert(seq![c] + s.drop_first() =~= s);
        } else {
            let v = (c as u32) - 0x10000;
            let h = (0xD800 + v / 0x400) as u16;
            let l = (0xDC00 + v % 0x400) as u16;
            lemma_fundamental_div_mod(v as int, 0x400);
            assert(e =~= seq![h, l] + utf16_encode(s.drop_first()));
            assert(e[0] == h && e[1] == l);
            assert(e.skip(2) =~= utf16_encode(s.drop_first()));
            assert(is_high_surrogate(h));
            assert(is_low_surrogate(l));
            assert(combined_scalar(h, l) == c as u32);
            assert(combined_scalar(h, l) as char == c) by {
                char_u32_cast(c, c as u32);
            }
            assert(seq![c] + s.drop_first() =~= s);
        }
    }
}

} // verus!
