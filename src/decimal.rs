//! Decimal rendering of unsigned integers.
use vstd::prelude::*;

verus! {

/// The ten decimal digits, in order of value.
pub open spec fn digit_chars() -> Seq<char> {
    seq!['0', '1', '2', '3', '4', '5', '6', '7', '8', '9']
}

/// The decimal digits of `n`, most significant first, without leading zeros.
pub open spec fn decimal(n: nat) -> Seq<char>
    decreases n,
{
    if n < 10 {
        seq![digit_chars()[n as int]]
    } else {
        decimal(n / 10).push(digit_chars()[(n % 10) as int])
    }
}

/// Appends the single digit `d` to `s`.
fn append_digit(s: &mut String, d: u128)
    requires
        d < 10,
    ensures
        final(s)@ == old(s)@.push(digit_chars()[d as int]),
{
    let digits = "0123456789";
    proof {
        reveal_strlit("0123456789");
        assert(digits@ =~= digit_chars());
    }
    let d = d as usize;
    let one = digits.substring_char(d, d + 1);
    assert(one@ =~= seq![digit_chars()[d as int]]);
    s.append(one);
}

/// Appends the decimal digits of `n` to `s`.
pub fn append_decimal(s: &mut String, n: u128)
    ensures
        final(s)@ == old(s)@ + decimal(n as nat),
    decreases n,
{
    if n >= 10 {
        append_decimal(s, n / 10);
    }
    append_digit(s, n % 10);
    proof {
        if n >= 10 {
            assert(decimal(n as nat) == decimal((n / 10) as nat).push(digit_chars()[(n % 10) as int]));
        }
        assert(s@ =~= old(s)@ + decimal(n as nat));
    }
}

} // verus!
