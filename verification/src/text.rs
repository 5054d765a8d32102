//! Character-level helpers shared by the protocol code: UTF-16 conversion,
//! character access to strings, and string building.

use vstd::prelude::*;
use vstd::string::*;

verus! {

/// `String::push` of std: appends one character.
#[verifier::external_body]
pub(crate) fn string_push(s: &mut String, c: char)
    ensures
        final(s)@ == old(s)@.push(c),
{
    s.push(c);
}

/// The Unicode scalar values: code points that are not surrogates.
pub open spec fn is_scalar_value(v: u32) -> bool {
    v < 0xD800 || (0xE000 <= v && v <= 0x10FFFF)
}

/// `char::from_u32` of std: the character whose code point is `v`, when `v`
/// is a Unicode scalar value.
#[verifier::external_body]
pub(crate) fn char_from_u32(v: u32) -> (r: Option<char>)
    ensures
        r is Some <==> is_scalar_value(v),
        r matches Some(c) ==> c as u32 == v && c == (v as char),
{
    char::from_u32(v)
}

/// The UTF-16 code units that encode one character.
pub open spec fn utf16_units(c: char) -> Seq<u16> {
    let v = c as u32;
    if v < 0x10000 {
        seq![v as u16]
    } else {
        let w = (v - 0x10000) as u32;
        seq![(0xD800 + (w / 0x400)) as u16, (0xDC00 + (w % 0x400)) as u16]
    }
}

/// The UTF-16 encoding of a character sequence.
pub open spec fn encode_utf16(s: Seq<char>) -> Seq<u16>
    decreases s.len(),
{
    if s.len() == 0 {
        seq![]
    } else {
        encode_utf16(s.drop_last()) + utf16_units(s.last())
    }
}

/// Number of UTF-16 code units that encode one character.
pub open spec fn utf16_width(c: char) -> nat {
    if (c as u32) < 0x10000 {
        1
    } else {
        2
    }
}

/// Number of UTF-16 code units that encode a character sequence.
pub open spec fn utf16_len(s: Seq<char>) -> nat
    decreases s.len(),
{
    if s.len() == 0 {
        0
    } else {
        utf16_len(s.drop_last()) + utf16_width(s.last())
    }
}

/// The UTF-16 encoding of a sequence has one code unit per character below
/// U+10000 and two per character above.
pub proof fn lemma_utf16_encoded_len(s: Seq<char>)
    ensures
        encode_utf16(s).len() == utf16_len(s),
    decreases s.len(),
{
    if s.len() > 0 {
        lemma_utf16_encoded_len(s.drop_last());
    }
}

/// Whether a code unit is a high (leading) surrogate.
pub open spec fn is_high_surrogate(u: u16) -> bool {
    0xD800 <= u && u <= 0xDBFF
}

/// Whether a code unit is a low (trailing) surrogate.
pub open spec fn is_low_surrogate(u: u16) -> bool {
    0xDC00 <= u && u <= 0xDFFF
}

/// The code point that a surrogate pair encodes.
pub open spec fn surrogate_pair_value(hi: u16, lo: u16) -> u32 {
    (0x10000 + (hi - 0xD800) * 0x400 + (lo - 0xDC00)) as u32
}

/// Lossy decoding of UTF-16: well-formed units and pairs give their
/// characters, and every unit of a malformed sequence gives U+FFFD.
pub open spec fn decode_utf16_lossy(u: Seq<u16>) -> Seq<char>
    decreases u.len(),
{
    if u.len() == 0 {
        seq![]
    } else if !is_high_surrogate(u[0]) && !is_low_surrogate(u[0]) {
        seq![u[0] as char] + decode_utf16_lossy(u.drop_first())
    } else if is_high_surrogate(u[0]) && u.len() >= 2 && is_low_surrogate(u[1]) {
        seq![surrogate_pair_value(u[0], u[1]) as char] + decode_utf16_lossy(u.subrange(2, u.len() as int))
    } else {
        seq!['\u{FFFD}'] + decode_utf16_lossy(u.drop_first())
    }
}

/// The encoding of two sequences one after the other is the encoding of
/// the first followed by that of the second.
proof fn lemma_encode_append(a: Seq<char>, b: Seq<char>)
    ensures
        encode_utf16(a + b) == encode_utf16(a) + encode_utf16(b),
    decreases b.len(),
{
    if b.len() == 0 {
        assert(a + b =~= a);
        assert(encode_utf16(a) + encode_utf16(b) =~= encode_utf16(a));
    } else {
        let bl = b.drop_last();
        lemma_encode_append(a, bl);
        assert((a + b).drop_last() =~= a + bl);
        assert((a + b).last() == b.last());
        assert(encode_utf16(a + b) =~= encode_utf16(a) + encode_utf16(bl) + utf16_units(b.last()));
    }
}

/// Decoding the UTF-16 encoding of a character sequence gives the sequence
/// back: the encoding of a string is always well formed.
pub proof fn lemma_utf16_round_trip(s: Seq<char>)
    ensures
        decode_utf16_lossy(encode_utf16(s)) == s,
    decreases s.len(),
{
    if s.len() == 0 {
        assert(encode_utf16(s) =~= Seq::<u16>::empty());
    } else {
        let c = s[0];
        let rest = s.drop_first();
        assert(s =~= seq![c] + rest);
        lemma_encode_append(seq![c], rest);
        assert(seq![c].drop_last() =~= Seq::<char>::empty());
        assert(encode_utf16(Seq::<char>::empty()) =~= Seq::<u16>::empty());
        assert(seq![c].last() == c);
        assert(encode_utf16(seq![c]) =~= encode_utf16(Seq::<char>::empty()) + utf16_units(c));
        assert(encode_utf16(seq![c]) =~= utf16_units(c));
        lemma_utf16_round_trip(rest);
        let u = utf16_units(c) + encode_utf16(rest);
        assert(encode_utf16(s) == u);
        let v = c as u32;
        vstd::utf8::char_u32_cast(c, v);
        vstd::utf8::char_is_scalar(c);
        if v < 0x10000 {
            assert(u[0] == v as u16);
            assert(u.drop_first() =~= encode_utf16(rest));
            assert((v as u16) as int == v as int);
            assert((v as u16) as char == (v as char));
            assert((v as char) == c);
            assert(decode_utf16_lossy(u) =~= seq![c] + rest);
        } else {
            let w = (v - 0x10000) as u32;
            assert(w < 0x100000);
            let hi = (0xD800 + (w / 0x400)) as u16;
            let lo = (0xDC00 + (w % 0x400)) as u16;
            assert(u[0] == hi && u[1] == lo);
            assert(is_high_surrogate(hi) && is_low_surrogate(lo));
            assert(surrogate_pair_value(hi, lo) == v);
            assert(u.subrange(2, u.len() as int) =~= encode_utf16(rest));
            assert(decode_utf16_lossy(u) =~= seq![c] + rest);
        }
    }
}

/// Encodes a string as UTF-16 code units.
pub fn utf16_encode(s: &str) -> (r: Vec<u16>)
    ensures
        r@ == encode_utf16(s@),
{
    let n = s.unicode_len();
    let mut out: Vec<u16> = Vec::new();
    let mut i: usize = 0;
    while i < n
        invariant
            n == s@.len(),
            i <= n,
            out@ == encode_utf16(s@.subrange(0, i as int)),
        decreases n - i,
    {
        let c = s.get_char(i);
        let v = c as u32;
        let ghost prev = s@.subrange(0, i as int);
        assert(s@.subrange(0, i + 1).drop_last() =~= prev);
        assert(s@.subrange(0, i + 1).last() == c);
        if v < 0x10000 {
            out.push(v as u16);
        } else {
            let w = v - 0x10000;
            assert(w < 0x100000);
            out.push((0xD800 + w / 0x400) as u16);
            out.push((0xDC00 + w % 0x400) as u16);
        }
        i += 1;
    }
    assert(s@.subrange(0, n as int) =~= s@);
    out
}

proof fn lemma_decode_step(u: Seq<u16>, i: int)
    requires
        0 <= i < u.len(),
    ensures
        decode_utf16_lossy(u.subrange(i, u.len() as int)) == (if !is_high_surrogate(u[i])
            && !is_low_surrogate(u[i]) {
            seq![u[i] as char] + decode_utf16_lossy(u.subrange(i + 1, u.len() as int))
        } else if is_high_surrogate(u[i]) && i + 2 <= u.len() && is_low_surrogate(u[i + 1]) {
            seq![surrogate_pair_value(u[i], u[i + 1]) as char] + decode_utf16_lossy(
                u.subrange(i + 2, u.len() as int),
            )
        } else {
            seq!['\u{FFFD}'] + decode_utf16_lossy(u.subrange(i + 1, u.len() as int))
        }),
{
    let t = u.subrange(i, u.len() as int);
    assert(t.drop_first() =~= u.subrange(i + 1, u.len() as int));
    if t.len() >= 2 {
        assert(t.subrange(2, t.len() as int) =~= u.subrange(i + 2, u.len() as int));
    }
}

/// Decodes UTF-16 code units, replacing each unit of a malformed sequence
/// by U+FFFD.
pub fn utf16_decode_lossy(u: &[u16]) -> (r: String)
    ensures
        r@ == decode_utf16_lossy(u@),
{
    let n = u.len();
    let mut out = String::new();
    let mut i: usize = 0;
    assert(u@.subrange(0, n as int) =~= u@);
    while i < n
        invariant
            n == u@.len(),
            i <= n,
            out@ + decode_utf16_lossy(u@.subrange(i as int, n as int)) == decode_utf16_lossy(u@),
        decreases n - i,
    {
        proof {
            lemma_decode_step(u@, i as int);
        }
        let x = u[i];
        if x < 0xD800 || x > 0xDFFF {
            let c = char_from_u32(x as u32);
            match c {
                Some(c) => {
                    assert(c == (x as char));
                    string_push(&mut out, c);
                },
                None => {},
            }
            i += 1;
        } else if x <= 0xDBFF && i + 1 < n && u[i + 1] >= 0xDC00 && u[i + 1] <= 0xDFFF {
            let v: u32 = 0x10000 + ((x as u32) - 0xD800) * 0x400 + ((u[i + 1] as u32) - 0xDC00);
            let c = char_from_u32(v);
            assert(v == surrogate_pair_value(x, u@[i + 1]));
            match c {
                Some(c) => {
                    assert(c == (v as char));
                    string_push(&mut out, c);
                },
                None => {},
            }
            i += 2;
        } else {
            string_push(&mut out, '\u{FFFD}');
            i += 1;
        }
        proof {
            assert(out@ + decode_utf16_lossy(u@.subrange(i as int, n as int)) =~= decode_utf16_lossy(u@));
        }
    }
    proof {
        assert(u@.subrange(n as int, n as int) =~= Seq::<u16>::empty());
        assert(out@ + Seq::<char>::empty() =~= out@);
    }
    out
}

} // verus!
