//! Text as the null-terminated UTF-16 that Direct2D's text calls take.
use vstd::prelude::*;

verus! {

/// The UTF-16 code units of one character: one unit below U+10000, else a
/// surrogate pair.
pub open spec fn utf16_units(c: char) -> Seq<u16> {
    let v = c as u32;
    if v < 0x10000 {
        seq![v as u16]
    } else {
        let w = (v - 0x10000) as u32;
        seq![(0xD800 + w / 0x400) as u16, (0xDC00 + w % 0x400) as u16]
    }
}

/// The UTF-16 encoding of a character sequence.
pub open spec fn encode_utf16(s: Seq<char>) -> Seq<u16>
    decreases s.len(),
{
    if s.len() == 0 {
        Seq::empty()
    } else {
        encode_utf16(s.drop_last()) + utf16_units(s.last())
    }
}

/// The UTF-16 encoding of `text` followed by a terminating zero unit, as
/// Direct2D's text calls take it.
pub fn to_wide_null(text: &str) -> (res: Vec<u16>)
    ensures
        res@ == encode_utf16(text@).push(0u16),
{
    broadcast use vstd::string::group_string_axioms;
    let mut out: Vec<u16> = Vec::new();
    for c in it: text.chars()
        invariant
            it.seq() == text@,
            out@ == encode_utf16(text@.take(it.index())),
    {
        let ghost done = text@.take(it.index());
        let v = c as u32;
        if v < 0x10000 {
            out.push(v as u16);
        } else {
            assert(v <= 0x10FFFF) by {
                vstd::utf8::char_is_scalar(c);
            }
            let w = v - 0x10000;
            out.push((0xD800 + w / 0x400) as u16);
            out.push((0xDC00 + w % 0x400) as u16);
        }
        proof {
            let next = text@.take(it.index() + 1);
            assert(next.drop_last() =~= done);
            assert(next.last() == c);
            assert(out@ =~= encode_utf16(done) + utf16_units(c));
        }
    }
    assert(text@.take(text@.len() as int) =~= text@);
    out.push(0);
    out
}

/// The length argument `DrawText` is given for a wide text: its unit count,
/// terminating zero included, cut to 32 bits.
pub fn wide_len_u32(wide: &Vec<u16>) -> (res: u32)
    ensures
        res as int == wide@.len() as int % 0x1_0000_0000,
{
    let n = wide.len();
    let r = n as u32;
    assert(r as int == n as int % 0x1_0000_0000) by (bit_vector)
        requires r == n as u32;
    r
}

} // verus!

verus! {

/// The units of one character decode back to it: below U+10000 one unit
/// equal to its code point, else a high surrogate then a low surrogate whose
/// payloads give the code point less 0x10000.
pub proof fn lemma_utf16_units_decode(c: char)
    ensures
        (c as u32) < 0x10000 ==> utf16_units(c).len() == 1 && utf16_units(c)[0] == c as u32,
        (c as u32) >= 0x10000 ==> {
            let u = utf16_units(c);
            &&& u.len() == 2
            &&& 0xD800 <= u[0] < 0xDC00
            &&& 0xDC00 <= u[1] < 0xE000
            &&& 0x10000 + (u[0] - 0xD800) * 0x400 + (u[1] - 0xDC00) == c as u32
        },
{
    let v = c as u32;
    if v >= 0x10000 {
        vstd::utf8::char_is_scalar(c);
        assert(v <= 0x10FFFF);
        let w = (v - 0x10000) as u32;
        assert(w == (w / 0x400) * 0x400 + w % 0x400) by (nonlinear_arith);
        assert(w / 0x400 < 0x400) by (nonlinear_arith)
            requires
                w <= 0xFFFFF,
        ;
    }
}

/// The encoding of a text is the encodings of its parts, one after another;
/// a single character encodes to its own units and the empty text to nothing.
pub proof fn lemma_encode_utf16_concat(a: Seq<char>, b: Seq<char>, c: char)
    ensures
        encode_utf16(a + b) == encode_utf16(a) + encode_utf16(b),
        encode_utf16(seq![c]) == utf16_units(c),
        encode_utf16(Seq::<char>::empty()) == Seq::<u16>::empty(),
    decreases b.len(),
{
    assert(encode_utf16(Seq::<char>::empty()) =~= Seq::<u16>::empty());
    assert(seq![c].drop_last() =~= Seq::<char>::empty());
    assert(seq![c].last() == c);
    assert(encode_utf16(seq![c]) =~= Seq::<u16>::empty() + utf16_units(c));
    assert(encode_utf16(seq![c]) =~= utf16_units(c));
    if b.len() == 0 {
        assert(a + b =~= a);
        assert(encode_utf16(a) + encode_utf16(b) =~= encode_utf16(a));
    } else {
        lemma_encode_utf16_concat(a, b.drop_last(), c);
        assert((a + b).drop_last() =~= a + b.drop_last());
        assert((a + b).last() == b.last());
        assert(encode_utf16(a + b) =~= encode_utf16(a) + encode_utf16(b));
    }
}

/// A text with no character from U+10000 up encodes to one unit per
/// character, each equal to the character's code point: no character is
/// dropped, added or moved.
pub proof fn lemma_encode_utf16_bmp(s: Seq<char>)
    requires
        forall|i: int| 0 <= i < s.len() ==> (s[i] as u32) < 0x10000,
    ensures
        encode_utf16(s).len() == s.len(),
        forall|i: int| 0 <= i < s.len() ==> encode_utf16(s)[i] == s[i] as u32,
    decreases s.len(),
{
    if s.len() > 0 {
        lemma_encode_utf16_bmp(s.drop_last());
        lemma_utf16_units_decode(s.last());
        assert forall|i: int| 0 <= i < s.len() implies encode_utf16(s)[i] == s[i] as u32 by {
            if i < s.len() - 1 {
                assert(s.drop_last()[i] == s[i]);
            }
        }
    }
}

} // verus!
