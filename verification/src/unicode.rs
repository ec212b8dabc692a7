//! Character classes of the token grammar and the UTF-8 width of characters.

use vstd::prelude::*;

verus! {

/// Unicode `White_Space`: the characters that `\\s` stands for in the token
/// grammar.
pub open spec fn is_white_space(c: char) -> bool {
    let v = c as u32;
    ||| (0x09 <= v && v <= 0x0D)
    ||| v == 0x20
    ||| v == 0x85
    ||| v == 0xA0
    ||| v == 0x1680
    ||| (0x2000 <= v && v <= 0x200A)
    ||| v == 0x2028
    ||| v == 0x2029
    ||| v == 0x202F
    ||| v == 0x205F
    ||| v == 0x3000
}

/// Whether `c` is Unicode `White_Space`.
pub fn white_space(c: char) -> (r: bool)
    ensures
        r == is_white_space(c),
{
    let v = c as u32;
    (0x09 <= v && v <= 0x0D) || v == 0x20 || v == 0x85 || v == 0xA0 || v == 0x1680 || (0x2000 <= v
        && v <= 0x200A) || v == 0x2028 || v == 0x2029 || v == 0x202F || v == 0x205F || v == 0x3000
}

/// Unicode general category `Nd` (decimal number), Unicode 16.0: the
/// characters that `\\d` stands for in the token grammar.
pub open spec fn is_decimal_digit(c: char) -> bool {
    let v = c as u32;
        ||| (0x30 <= v && v <= 0x39)
        ||| (0x660 <= v && v <= 0x669)
        ||| (0x6F0 <= v && v <= 0x6F9)
        ||| (0x7C0 <= v && v <= 0x7C9)
        ||| (0x966 <= v && v <= 0x96F)
        ||| (0x9E6 <= v && v <= 0x9EF)
        ||| (0xA66 <= v && v <= 0xA6F)
        ||| (0xAE6 <= v && v <= 0xAEF)
        ||| (0xB66 <= v && v <= 0xB6F)
        ||| (0xBE6 <= v && v <= 0xBEF)
        ||| (0xC66 <= v && v <= 0xC6F)
        ||| (0xCE6 <= v && v <= 0xCEF)
        ||| (0xD66 <= v && v <= 0xD6F)
        ||| (0xDE6 <= v && v <= 0xDEF)
        ||| (0xE50 <= v && v <= 0xE59)
        ||| (0xED0 <= v && v <= 0xED9)
        ||| (0xF20 <= v && v <= 0xF29)
        ||| (0x1040 <= v && v <= 0x1049)
        ||| (0x1090 <= v && v <= 0x1099)
        ||| (0x17E0 <= v && v <= 0x17E9)
        ||| (0x1810 <= v && v <= 0x1819)
        ||| (0x1946 <= v && v <= 0x194F)
        ||| (0x19D0 <= v && v <= 0x19D9)
        ||| (0x1A80 <= v && v <= 0x1A89)
        ||| (0x1A90 <= v && v <= 0x1A99)
        ||| (0x1B50 <= v && v <= 0x1B59)
        ||| (0x1BB0 <= v && v <= 0x1BB9)
        ||| (0x1C40 <= v && v <= 0x1C49)
        ||| (0x1C50 <= v && v <= 0x1C59)
        ||| (0xA620 <= v && v <= 0xA629)
        ||| (0xA8D0 <= v && v <= 0xA8D9)
        ||| (0xA900 <= v && v <= 0xA909)
        ||| (0xA9D0 <= v && v <= 0xA9D9)
        ||| (0xA9F0 <= v && v <= 0xA9F9)
        ||| (0xAA50 <= v && v <= 0xAA59)
        ||| (0xABF0 <= v && v <= 0xABF9)
        ||| (0xFF10 <= v && v <= 0xFF19)
        ||| (0x104A0 <= v && v <= 0x104A9)
        ||| (0x10D30 <= v && v <= 0x10D39)
        ||| (0x10D40 <= v && v <= 0x10D49)
        ||| (0x11066 <= v && v <= 0x1106F)
        ||| (0x110F0 <= v && v <= 0x110F9)
        ||| (0x11136 <= v && v <= 0x1113F)
        ||| (0x111D0 <= v && v <= 0x111D9)
        ||| (0x112F0 <= v && v <= 0x112F9)
        ||| (0x11450 <= v && v <= 0x11459)
        ||| (0x114D0 <= v && v <= 0x114D9)
        ||| (0x11650 <= v && v <= 0x11659)
        ||| (0x116C0 <= v && v <= 0x116C9)
        ||| (0x116D0 <= v && v <= 0x116E3)
        ||| (0x11730 <= v && v <= 0x11739)
        ||| (0x118E0 <= v && v <= 0x118E9)
        ||| (0x11950 <= v && v <= 0x11959)
        ||| (0x11BF0 <= v && v <= 0x11BF9)
        ||| (0x11C50 <= v && v <= 0x11C59)
        ||| (0x11D50 <= v && v <= 0x11D59)
        ||| (0x11DA0 <= v && v <= 0x11DA9)
        ||| (0x11F50 <= v && v <= 0x11F59)
        ||| (0x16130 <= v && v <= 0x16139)
        ||| (0x16A60 <= v && v <= 0x16A69)
        ||| (0x16AC0 <= v && v <= 0x16AC9)
        ||| (0x16B50 <= v && v <= 0x16B59)
        ||| (0x16D70 <= v && v <= 0x16D79)
        ||| (0x1CCF0 <= v && v <= 0x1CCF9)
        ||| (0x1D7CE <= v && v <= 0x1D7FF)
        ||| (0x1E140 <= v && v <= 0x1E149)
        ||| (0x1E2F0 <= v && v <= 0x1E2F9)
        ||| (0x1E4F0 <= v && v <= 0x1E4F9)
        ||| (0x1E5F1 <= v && v <= 0x1E5FA)
        ||| (0x1E950 <= v && v <= 0x1E959)
        ||| (0x1FBF0 <= v && v <= 0x1FBF9)
}

/// Whether `c` has Unicode general category `Nd`.
pub fn decimal_digit(c: char) -> (r: bool)
    ensures
        r == is_decimal_digit(c),
{
    let v = c as u32;
    (0x30 <= v && v <= 0x39)
        || (0x660 <= v && v <= 0x669)
        || (0x6F0 <= v && v <= 0x6F9)
        || (0x7C0 <= v && v <= 0x7C9)
        || (0x966 <= v && v <= 0x96F)
        || (0x9E6 <= v && v <= 0x9EF)
        || (0xA66 <= v && v <= 0xA6F)
        || (0xAE6 <= v && v <= 0xAEF)
        || (0xB66 <= v && v <= 0xB6F)
        || (0xBE6 <= v && v <= 0xBEF)
        || (0xC66 <= v && v <= 0xC6F)
        || (0xCE6 <= v && v <= 0xCEF)
        || (0xD66 <= v && v <= 0xD6F)
        || (0xDE6 <= v && v <= 0xDEF)
        || (0xE50 <= v && v <= 0xE59)
        || (0xED0 <= v && v <= 0xED9)
        || (0xF20 <= v && v <= 0xF29)
        || (0x1040 <= v && v <= 0x1049)
        || (0x1090 <= v && v <= 0x1099)
        || (0x17E0 <= v && v <= 0x17E9)
        || (0x1810 <= v && v <= 0x1819)
        || (0x1946 <= v && v <= 0x194F)
        || (0x19D0 <= v && v <= 0x19D9)
        || (0x1A80 <= v && v <= 0x1A89)
        || (0x1A90 <= v && v <= 0x1A99)
        || (0x1B50 <= v && v <= 0x1B59)
        || (0x1BB0 <= v && v <= 0x1BB9)
        || (0x1C40 <= v && v <= 0x1C49)
        || (0x1C50 <= v && v <= 0x1C59)
        || (0xA620 <= v && v <= 0xA629)
        || (0xA8D0 <= v && v <= 0xA8D9)
        || (0xA900 <= v && v <= 0xA909)
        || (0xA9D0 <= v && v <= 0xA9D9)
        || (0xA9F0 <= v && v <= 0xA9F9)
        || (0xAA50 <= v && v <= 0xAA59)
        || (0xABF0 <= v && v <= 0xABF9)
        || (0xFF10 <= v && v <= 0xFF19)
        || (0x104A0 <= v && v <= 0x104A9)
        || (0x10D30 <= v && v <= 0x10D39)
        || (0x10D40 <= v && v <= 0x10D49)
        || (0x11066 <= v && v <= 0x1106F)
        || (0x110F0 <= v && v <= 0x110F9)
        || (0x11136 <= v && v <= 0x1113F)
        || (0x111D0 <= v && v <= 0x111D9)
        || (0x112F0 <= v && v <= 0x112F9)
        || (0x11450 <= v && v <= 0x11459)
        || (0x114D0 <= v && v <= 0x114D9)
        || (0x11650 <= v && v <= 0x11659)
        || (0x116C0 <= v && v <= 0x116C9)
        || (0x116D0 <= v && v <= 0x116E3)
        || (0x11730 <= v && v <= 0x11739)
        || (0x118E0 <= v && v <= 0x118E9)
        || (0x11950 <= v && v <= 0x11959)
        || (0x11BF0 <= v && v <= 0x11BF9)
        || (0x11C50 <= v && v <= 0x11C59)
        || (0x11D50 <= v && v <= 0x11D59)
        || (0x11DA0 <= v && v <= 0x11DA9)
        || (0x11F50 <= v && v <= 0x11F59)
        || (0x16130 <= v && v <= 0x16139)
        || (0x16A60 <= v && v <= 0x16A69)
        || (0x16AC0 <= v && v <= 0x16AC9)
        || (0x16B50 <= v && v <= 0x16B59)
        || (0x16D70 <= v && v <= 0x16D79)
        || (0x1CCF0 <= v && v <= 0x1CCF9)
        || (0x1D7CE <= v && v <= 0x1D7FF)
        || (0x1E140 <= v && v <= 0x1E149)
        || (0x1E2F0 <= v && v <= 0x1E2F9)
        || (0x1E4F0 <= v && v <= 0x1E4F9)
        || (0x1E5F1 <= v && v <= 0x1E5FA)
        || (0x1E950 <= v && v <= 0x1E959)
        || (0x1FBF0 <= v && v <= 0x1FBF9)
}

/// `[A-Za-z_]`: the first character of an identifier.
pub open spec fn is_ident_start(c: char) -> bool {
    ('A' <= c && c <= 'Z') || ('a' <= c && c <= 'z') || c == '_'
}

/// `[A-Za-z0-9_]`: a later character of an identifier.
pub open spec fn is_ident_continue(c: char) -> bool {
    is_ident_start(c) || ('0' <= c && c <= '9')
}

/// Whether `c` may start an identifier.
pub fn ident_start(c: char) -> (r: bool)
    ensures
        r == is_ident_start(c),
{
    ('A' <= c && c <= 'Z') || ('a' <= c && c <= 'z') || c == '_'
}

/// Whether `c` may continue an identifier.
pub fn ident_continue(c: char) -> (r: bool)
    ensures
        r == is_ident_continue(c),
{
    ident_start(c) || ('0' <= c && c <= '9')
}

/// The number of bytes of the UTF-8 encoding of `c`.
pub open spec fn utf8_width(c: char) -> nat {
    let v = c as u32;
    if v <= 0x7F {
        1
    } else if v <= 0x7FF {
        2
    } else if v <= 0xFFFF {
        3
    } else {
        4
    }
}

/// The number of bytes of the UTF-8 encoding of `cs`.
pub open spec fn utf8_len(cs: Seq<char>) -> nat
    decreases cs.len(),
{
    if cs.len() == 0 {
        0
    } else {
        utf8_len(cs.drop_last()) + utf8_width(cs.last())
    }
}

/// The number of bytes of the UTF-8 encoding of `c`.
pub fn char_utf8_width(c: char) -> (r: usize)
    ensures
        r == utf8_width(c),
{
    let v = c as u32;
    if v <= 0x7F {
        1
    } else if v <= 0x7FF {
        2
    } else if v <= 0xFFFF {
        3
    } else {
        4
    }
}

/// The encoded length of a concatenation is the sum of the encoded lengths.
pub proof fn lemma_utf8_len_concat(a: Seq<char>, b: Seq<char>)
    ensures
        utf8_len(a + b) == utf8_len(a) + utf8_len(b),
    decreases b.len(),
{
    if b.len() == 0 {
        assert(a + b =~= a);
    } else {
        lemma_utf8_len_concat(a, b.drop_last());
        assert((a + b).drop_last() =~= a + b.drop_last());
    }
}

/// The code of a character is its value as an integer, so comparisons of
/// characters and of their codes agree.
pub proof fn lemma_char_code(c: char)
    ensures
        (c as u32) as int == c as int,
{
}

/// ASCII characters take one byte each.
pub proof fn lemma_utf8_len_ascii(cs: Seq<char>)
    requires
        forall|p: int| 0 <= p < cs.len() ==> (#[trigger] cs[p] as u32) < 0x80,
    ensures
        utf8_len(cs) == cs.len(),
    decreases cs.len(),
{
    if cs.len() > 0 {
        assert forall|p: int| 0 <= p < cs.drop_last().len() implies (#[trigger] cs.drop_last()[p]
            as u32) < 0x80 by {
            assert(cs.drop_last()[p] == cs[p]);
        }
        lemma_utf8_len_ascii(cs.drop_last());
        assert((cs[cs.len() - 1] as u32) < 0x80);
    }
}

/// Every character takes at least one byte.
pub proof fn lemma_utf8_len_at_least_len(cs: Seq<char>)
    ensures
        cs.len() <= utf8_len(cs),
    decreases cs.len(),
{
    if cs.len() > 0 {
        lemma_utf8_len_at_least_len(cs.drop_last());
    }
}

/// `utf8_len` is the length of the encoding that vstd gives a `str`.
pub proof fn lemma_utf8_len_encode(cs: Seq<char>)
    ensures
        utf8_len(cs) == vstd::utf8::encode_utf8(cs).len(),
    decreases cs.len(),
{
    if cs.len() > 0 {
        lemma_utf8_len_encode(cs.drop_first());
        lemma_utf8_len_concat(seq![cs[0]], cs.drop_first());
        assert(seq![cs[0]] + cs.drop_first() =~= cs);
        assert(seq![cs[0]].drop_last() =~= Seq::<char>::empty());
        vstd::utf8::char_is_scalar(cs[0]);
        assert(vstd::utf8::encode_scalar(cs[0] as u32).len() == utf8_width(cs[0]));
        assert(utf8_len(Seq::<char>::empty()) == 0);
        assert(utf8_len(seq![cs[0]]) == utf8_width(cs[0]));
        assert(vstd::utf8::encode_utf8(cs) == vstd::utf8::encode_scalar(cs[0] as u32)
            + vstd::utf8::encode_utf8(cs.drop_first()));
    }
}

} // verus!
