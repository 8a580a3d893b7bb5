//! Decimal rendering of counters and `m:ss` countdown text.

use vstd::prelude::*;
use vstd::string::StringExecFns;

verus! {

/// The character for one decimal digit.
pub open spec fn digit_char(d: int) -> char {
    if d == 0 {
        '0'
    } else if d == 1 {
        '1'
    } else if d == 2 {
        '2'
    } else if d == 3 {
        '3'
    } else if d == 4 {
        '4'
    } else if d == 5 {
        '5'
    } else if d == 6 {
        '6'
    } else if d == 7 {
        '7'
    } else if d == 8 {
        '8'
    } else {
        '9'
    }
}

/// Decimal representation of `n`, most significant digit first,
/// without leading zeros.
pub open spec fn spec_decimal(n: int) -> Seq<char>
    recommends
        n >= 0,
    decreases n,
{
    if n < 10 {
        seq![digit_char(n)]
    } else {
        spec_decimal(n / 10) + seq![digit_char(n % 10)]
    }
}

/// Two decimal digits, zero-padded, for a value below one hundred.
pub open spec fn spec_two_digits(n: int) -> Seq<char>
    recommends
        0 <= n < 100,
{
    seq![digit_char(n / 10), digit_char(n % 10)]
}

/// `m:ss` text for a whole number of seconds: minutes unbounded,
/// seconds zero-padded to two digits.
pub open spec fn spec_mmss(secs: int) -> Seq<char>
    recommends
        secs >= 0,
{
    spec_decimal(secs / 60) + ":"@ + spec_two_digits(secs % 60)
}

/// The block's display text: cycle count, separator, countdown.
pub open spec fn spec_label(count: int, secs: int) -> Seq<char>
    recommends
        count >= 0,
        secs >= 0,
{
    spec_decimal(count) + " | "@ + spec_mmss(secs)
}

/// The one-character string for a decimal digit.
fn digit_str(d: u64) -> (r: &'static str)
    requires
        d < 10,
    ensures
        r@ =~= seq![digit_char(d as int)],
{
    proof {
        reveal_strlit("0");
        reveal_strlit("1");
        reveal_strlit("2");
        reveal_strlit("3");
        reveal_strlit("4");
        reveal_strlit("5");
        reveal_strlit("6");
        reveal_strlit("7");
        reveal_strlit("8");
        reveal_strlit("9");
    }
    if d == 0 {
        "0"
    } else if d == 1 {
        "1"
    } else if d == 2 {
        "2"
    } else if d == 3 {
        "3"
    } else if d == 4 {
        "4"
    } else if d == 5 {
        "5"
    } else if d == 6 {
        "6"
    } else if d == 7 {
        "7"
    } else if d == 8 {
        "8"
    } else {
        "9"
    }
}

/// Appends the decimal representation of `n` to `s`.
pub fn push_decimal(s: &mut String, n: u64)
    ensures
        final(s)@ == old(s)@ + spec_decimal(n as int),
    decreases n,
{
    if n >= 10 {
        push_decimal(s, n / 10);
    }
    s.append(digit_str(n % 10));
    proof {
        assert(s@ =~= old(s)@ + spec_decimal(n as int));
    }
}

/// Appends `n` as exactly two digits, zero-padded; `n` is below one hundred.
pub fn push_two_digits(s: &mut String, n: u64)
    requires
        n < 100,
    ensures
        final(s)@ == old(s)@ + spec_two_digits(n as int),
{
    s.append(digit_str(n / 10));
    s.append(digit_str(n % 10));
    proof {
        assert(s@ =~= old(s)@ + spec_two_digits(n as int));
    }
}

/// Appends the `m:ss` countdown text for `secs` seconds.
pub fn push_mmss(s: &mut String, secs: u64)
    ensures
        final(s)@ == old(s)@ + spec_mmss(secs as int),
{
    push_decimal(s, secs / 60);
    s.append(":");
    push_two_digits(s, secs % 60);
    proof {
        assert(s@ =~= old(s)@ + spec_mmss(secs as int));
    }
}

} // verus!
