//! Small executable helpers over strings and characters: moving between a
//! `String` and its characters, and rendering a number in decimal.

use vstd::prelude::*;
use crate::encode::hex_char;
use crate::encode::hex_digit;

verus! {

/// The characters of a string, in order, as a vector.
pub(crate) fn chars_of_str(s: &str) -> (r: Vec<char>)
    ensures
        r@ == s@,
{
    let n = s.unicode_len();
    let mut out: Vec<char> = Vec::new();
    let mut i: usize = 0;
    while i < n
        invariant
            n == s@.len(),
            i <= n,
            out@ == s@.take(i as int),
        decreases n - i,
    {
        let c = s.get_char(i);
        out.push(c);
        proof {
            assert(out@ =~= s@.take(i as int + 1));
        }
        i += 1;
    }
    proof {
        assert(s@.take(n as int) =~= s@);
    }
    out
}

/// Relies on `String`'s `FromIterator<char>` impl: collecting characters
/// yields the string whose characters are exactly those collected, in order.
#[verifier::external_body]
pub(crate) fn string_from_chars(v: &Vec<char>) -> (r: String)
    ensures
        r@ == v@,
{
    v.iter().collect()
}

/// The decimal digits of a number, most significant first, no sign and no
/// leading zero (a lone zero for zero itself).
pub open spec fn dec_digits(n: nat) -> Seq<char>
    decreases n,
{
    if n < 10 {
        seq![hex_char(n as u32)]
    } else {
        dec_digits(n / 10) + seq![hex_char((n % 10) as u32)]
    }
}

/// Append the decimal digits of `n` to `out`.
fn push_dec_digits(n: u16, out: &mut Vec<char>)
    ensures
        final(out)@ == old(out)@ + dec_digits(n as nat),
    decreases n,
{
    if n < 10 {
        out.push(hex_digit(n as u8));
        proof {
            assert(out@ =~= old(out)@ + dec_digits(n as nat));
        }
    } else {
        push_dec_digits(n / 10, out);
        out.push(hex_digit((n % 10) as u8));
        proof {
            assert(out@ =~= old(out)@ + dec_digits(n as nat));
        }
    }
}

/// The decimal rendering of a number, as a string.
pub fn decimal_string(n: u16) -> (r: String)
    ensures
        r@ == dec_digits(n as nat),
{
    let mut v: Vec<char> = Vec::new();
    push_dec_digits(n, &mut v);
    proof {
        assert(v@ =~= dec_digits(n as nat));
    }
    string_from_chars(&v)
}

} // verus!
