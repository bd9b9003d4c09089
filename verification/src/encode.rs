//! Percent-encoding of free-form text for inclusion as a URL query value.
//!
//! A character is escaped exactly when it is a C0 control, DEL, or one of the
//! eight characters space, `"`, `<`, `>`, backtick, `%`, `+` (the fragment
//! percent-encode set); every other character passes through unchanged. An
//! escape is `%` followed by the two upper-case hexadecimal digits of the
//! character's value. Every escaped character is ASCII, so this agrees with
//! the byte-level encoding of the string's UTF-8 form.

use vstd::prelude::*;
use crate::strutil::chars_of_str;
use crate::strutil::string_from_chars;

verus! {

/// A character must be escaped when it is a C0 control, DEL, or one of the
/// eight characters of the fragment percent-encode set.
pub open spec fn needs_escape(c: char) -> bool {
    (c as u32) < 0x20 || c as u32 == 0x7f || c == ' ' || c == '"' || c == '<' || c == '>'
        || c == '`' || c == '%' || c == '+'
}

/// The upper-case hexadecimal digit of a value below sixteen.
pub open spec fn hex_char(d: u32) -> char {
    if d == 0 {
        '0'
    } else if d == 1 {
        '1'
    } else if d == 2 {
        '2'
    } else if d == 3 {
        '3'
    } else if d == 4 {
        '4'
    } else if d == 5 {
        '5'
    } else if d == 6 {
        '6'
    } else if d == 7 {
        '7'
    } else if d == 8 {
        '8'
    } else if d == 9 {
        '9'
    } else if d == 10 {
        'A'
    } else if d == 11 {
        'B'
    } else if d == 12 {
        'C'
    } else if d == 13 {
        'D'
    } else if d == 14 {
        'E'
    } else {
        'F'
    }
}

/// What one character contributes to the encoded output: its escape if it
/// needs one, the character itself otherwise.
pub open spec fn encode_char(c: char) -> Seq<char> {
    if needs_escape(c) {
        seq!['%', hex_char((c as u32) / 16), hex_char((c as u32) % 16)]
    } else {
        seq![c]
    }
}

/// The percent-encoded form of a string: each character's contribution, in
/// order.
pub open spec fn encoded_of(s: Seq<char>) -> Seq<char>
    decreases s.len(),
{
    if s.len() == 0 {
        Seq::empty()
    } else {
        encode_char(s[0]) + encoded_of(s.skip(1))
    }
}

/// A hexadecimal digit, either case.
pub open spec fn is_hex_digit(c: char) -> bool {
    ('0' <= c && c <= '9') || ('A' <= c && c <= 'F') || ('a' <= c && c <= 'f')
}

/// The value of a hexadecimal digit.
pub open spec fn hex_value(c: char) -> int
    recommends
        is_hex_digit(c),
{
    if '0' <= c && c <= '9' {
        c as u32 - 48
    } else if 'A' <= c && c <= 'F' {
        c as u32 - 55
    } else {
        c as u32 - 87
    }
}

/// The character-level percent decoder: `%` followed by two hexadecimal
/// digits becomes the character with that value, and every other character
/// passes through unchanged. On the image of `encoded_of` every escape names
/// an ASCII character, so this agrees with a byte-level decoder there.
pub open spec fn decoded_of(s: Seq<char>) -> Seq<char>
    decreases s.len(),
{
    if s.len() == 0 {
        Seq::empty()
    } else if s[0] == '%' && s.len() >= 3 && is_hex_digit(s[1]) && is_hex_digit(s[2]) {
        seq![(((hex_value(s[1]) * 16 + hex_value(s[2])) as u32) as char)] + decoded_of(s.skip(3))
    } else {
        seq![s[0]] + decoded_of(s.skip(1))
    }
}

/// What a single character encodes to is its contribution.
pub proof fn lemma_encoded_of_singleton(c: char)
    ensures
        encoded_of(seq![c]) == encode_char(c),
{
    assert(seq![c].skip(1) =~= Seq::<char>::empty());
    assert(encoded_of(Seq::<char>::empty()) == Seq::<char>::empty());
    assert(encoded_of(seq![c]) =~= encode_char(c));
}

/// Encoding distributes over concatenation.
pub proof fn lemma_encoded_of_concat(s: Seq<char>, t: Seq<char>)
    ensures
        encoded_of(s + t) == encoded_of(s) + encoded_of(t),
    decreases s.len(),
{
    if s.len() == 0 {
        assert(s + t =~= t);
        assert(encoded_of(s) + encoded_of(t) =~= encoded_of(t));
    } else {
        assert((s + t).skip(1) =~= s.skip(1) + t);
        lemma_encoded_of_concat(s.skip(1), t);
        assert(encoded_of(s + t) =~= encoded_of(s) + encoded_of(t));
    }
}

/// A string none of whose characters is in the escape set encodes to itself.
pub proof fn lemma_encode_identity(s: Seq<char>)
    requires
        forall|i: int| 0 <= i < s.len() ==> !needs_escape(s[i]),
    ensures
        encoded_of(s) == s,
    decreases s.len(),
{
    if s.len() == 0 {
        assert(encoded_of(s) =~= s);
    } else {
        lemma_encode_identity(s.skip(1));
        assert(encoded_of(s) =~= s);
    }
}

/// The upper-case hexadecimal digits decode to their values.
proof fn lemma_hex_char_value(d: u32)
    requires
        d < 16,
    ensures
        is_hex_digit(hex_char(d)),
        hex_value(hex_char(d)) == d,
{
}

/// Decoding inverts encoding: percent-decoding the encoded form of any
/// string recovers the string exactly.
pub proof fn lemma_decode_inverts_encode(s: Seq<char>)
    ensures
        decoded_of(encoded_of(s)) == s,
    decreases s.len(),
{
    if s.len() == 0 {
        assert(decoded_of(encoded_of(s)) =~= s);
    } else {
        let c = s[0];
        let e = encoded_of(s);
        let rest = encoded_of(s.skip(1));
        lemma_decode_inverts_encode(s.skip(1));
        if needs_escape(c) {
            let code = c as u32;
            assert(code < 0x80);
            lemma_hex_char_value(code / 16);
            lemma_hex_char_value(code % 16);
            assert(e[0] == '%' && e.len() >= 3);
            assert(e[1] == hex_char(code / 16) && e[2] == hex_char(code % 16));
            assert(hex_value(e[1]) * 16 + hex_value(e[2]) == code);
            let v: int = hex_value(e[1]) * 16 + hex_value(e[2]);
            assert(0 <= v < 256);
            assert(v as u32 == code);
            vstd::utf8::char_u32_cast(c, v as u32);
            assert((((hex_value(e[1]) * 16 + hex_value(e[2])) as u32) as char) == c);
            assert(e.skip(3) =~= rest);
            assert(decoded_of(e) =~= s);
        } else {
            assert(e[0] == c && c != '%');
            assert(e.skip(1) =~= rest);
            assert(decoded_of(e) =~= s);
        }
    }
}

/// The upper-case hexadecimal digit of a value below sixteen.
pub(crate) fn hex_digit(d: u8) -> (c: char)
    requires
        d < 16,
    ensures
        c == hex_char(d as u32),
{
    if d == 0 {
        '0'
    } else if d == 1 {
        '1'
    } else if d == 2 {
        '2'
    } else if d == 3 {
        '3'
    } else if d == 4 {
        '4'
    } else if d == 5 {
        '5'
    } else if d == 6 {
        '6'
    } else if d == 7 {
        '7'
    } else if d == 8 {
        '8'
    } else if d == 9 {
        '9'
    } else if d == 10 {
        'A'
    } else if d == 11 {
        'B'
    } else if d == 12 {
        'C'
    } else if d == 13 {
        'D'
    } else if d == 14 {
        'E'
    } else {
        'F'
    }
}

/// Percent-encode a sequence of characters.
pub fn encode_chars(input: &Vec<char>) -> (out: Vec<char>)
    ensures
        out@ == encoded_of(input@),
{
    let mut out: Vec<char> = Vec::new();
    let mut i: usize = 0;
    while i < input.len()
        invariant
            i <= input@.len(),
            out@ == encoded_of(input@.take(i as int)),
        decreases input@.len() - i,
    {
        let c = input[i];
        let code: u32 = c as u32;
        proof {
            assert(input@.take(i as int + 1) =~= input@.take(i as int) + seq![input@[i as int]]);
            lemma_encoded_of_concat(input@.take(i as int), seq![input@[i as int]]);
            lemma_encoded_of_singleton(input@[i as int]);
        }
        if code < 0x20 || code == 0x7f || c == ' ' || c == '"' || c == '<' || c == '>' || c == '`'
            || c == '%' || c == '+' {
            assert(code < 0x80);
            out.push('%');
            out.push(hex_digit((code / 16) as u8));
            out.push(hex_digit((code % 16) as u8));
            proof {
                assert(out@ =~= encoded_of(input@.take(i as int + 1)));
            }
        } else {
            out.push(c);
            proof {
                assert(out@ =~= encoded_of(input@.take(i as int + 1)));
            }
        }
        i += 1;
    }
    proof {
        assert(input@.take(input@.len() as int) =~= input@);
    }
    out
}

/// Percent-encode a string for safe inclusion as a URL query value.
pub fn encode_for_url(text: &str) -> (r: String)
    ensures
        r@ == encoded_of(text@),
{
    let chars = chars_of_str(text);
    let encoded = encode_chars(&chars);
    string_from_chars(&encoded)
}

} // verus!
