//! Rendering unsigned integers as lowercase hexadecimal and as decimal text.
//!
//! Hashed identities are formatted as minimal lowercase hex digests, and the
//! nanosecond timestamp inside an allocation key is formatted as minimal
//! decimal digits.  Both renderings are specified by the recursive functions
//! [`hex_of`] and [`dec_of`] and computed by verified code.

use vstd::prelude::*;
use vstd::string::StrSliceExecFns;
use vstd::string::StringExecFns;

verus! {

/// The sixteen digit characters, least value first.
pub open spec fn hex_digit(d: int) -> char {
    seq!['0', '1', '2', '3', '4', '5', '6', '7', '8', '9', 'a', 'b', 'c', 'd', 'e', 'f'][d]
}

/// The minimal lowercase hexadecimal rendering of `n` (a single `'0'` for zero).
pub open spec fn hex_of(n: nat) -> Seq<char>
    decreases n,
{
    if n < 16 {
        seq![hex_digit(n as int)]
    } else {
        hex_of(n / 16).push(hex_digit((n % 16) as int))
    }
}

/// The minimal decimal rendering of `n` (a single `'0'` for zero).
pub open spec fn dec_of(n: nat) -> Seq<char>
    decreases n,
{
    if n < 10 {
        seq![hex_digit(n as int)]
    } else {
        dec_of(n / 10).push(hex_digit((n % 10) as int))
    }
}

/// A digit value below ten renders as one of the characters `'0'` through `'9'`.
pub proof fn lemma_digit_char_range(d: int)
    requires
        0 <= d < 10,
    ensures
        '0' <= hex_digit(d) && hex_digit(d) <= '9',
{
    assert(hex_digit(0) == '0');
    assert(hex_digit(1) == '1');
    assert(hex_digit(2) == '2');
    assert(hex_digit(3) == '3');
    assert(hex_digit(4) == '4');
    assert(hex_digit(5) == '5');
    assert(hex_digit(6) == '6');
    assert(hex_digit(7) == '7');
    assert(hex_digit(8) == '8');
    assert(hex_digit(9) == '9');
}

/// Every character of a decimal rendering is one of the ten digit characters.
pub proof fn lemma_dec_of_digits(n: nat)
    ensures
        forall|i: int|
            0 <= i < dec_of(n).len() ==> '0' <= #[trigger] dec_of(n)[i] && dec_of(n)[i] <= '9',
    decreases n,
{
    if n >= 10 {
        lemma_dec_of_digits(n / 10);
        lemma_digit_char_range((n % 10) as int);
        assert forall|i: int| 0 <= i < dec_of(n).len() implies '0' <= #[trigger] dec_of(n)[i]
            && dec_of(n)[i] <= '9' by {
            if i < dec_of(n).len() - 1 {
                assert(dec_of(n)[i] == dec_of(n / 10)[i]);
            } else {
                assert(dec_of(n)[i] == hex_digit((n % 10) as int));
            }
        }
    } else {
        lemma_digit_char_range(n as int);
    }
}

/// Appends one digit character of value `d` to `out`.
fn push_digit(out: &mut String, d: usize)
    requires
        d < 16,
    ensures
        final(out)@ == old(out)@ + seq![hex_digit(d as int)],
{
    proof {
        reveal_strlit("0123456789abcdef");
    }
    let table = "0123456789abcdef";
    let digit = table.substring_ascii(d, d + 1);
    assert(digit@ =~= seq![hex_digit(d as int)]);
    out.append(digit);
}

/// Appends the hexadecimal rendering of `n` to `out`.
fn push_hex(n: u64, out: &mut String)
    ensures
        final(out)@ == old(out)@ + hex_of(n as nat),
    decreases n,
{
    if n >= 16 {
        push_hex(n / 16, out);
    }
    push_digit(out, (n % 16) as usize);
    proof {
        if n >= 16 {
            assert(old(out)@ + hex_of((n / 16) as nat) + seq![hex_digit((n % 16) as int)]
                =~= old(out)@ + hex_of(n as nat));
        }
    }
}

/// The hexadecimal digest text of a 64-bit value, minimal and lowercase.
pub fn u64_to_hex(n: u64) -> (r: String)
    ensures
        r@ == hex_of(n as nat),
{
    let mut out = String::new();
    push_hex(n, &mut out);
    proof {
        assert(Seq::<char>::empty() + hex_of(n as nat) =~= hex_of(n as nat));
    }
    out
}

/// Appends the decimal rendering of `n` to `out`.
fn push_dec(n: u128, out: &mut String)
    ensures
        final(out)@ == old(out)@ + dec_of(n as nat),
    decreases n,
{
    if n >= 10 {
        push_dec(n / 10, out);
    }
    push_digit(out, (n % 10) as usize);
    proof {
        if n >= 10 {
            assert(old(out)@ + dec_of((n / 10) as nat) + seq![hex_digit((n % 10) as int)]
                =~= old(out)@ + dec_of(n as nat));
        }
    }
}

/// The decimal text of a 128-bit value, minimal.
pub fn u128_to_dec(n: u128) -> (r: String)
    ensures
        r@ == dec_of(n as nat),
{
    let mut out = String::new();
    push_dec(n, &mut out);
    proof {
        assert(Seq::<char>::empty() + dec_of(n as nat) =~= dec_of(n as nat));
    }
    out
}

} // verus!
