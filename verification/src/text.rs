//! Decimal rendering of integers, for diagnostic messages.

use vstd::prelude::*;

verus! {

/// The character of a single decimal digit.
pub open spec fn dec_digit(d: int) -> char {
    if d == 0 {
        '0'
    } else if d == 1 {
        '1'
    } else if d == 2 {
        '2'
    } else if d == 3 {
        '3'
    } else if d == 4 {
        '4'
    } else if d == 5 {
        '5'
    } else if d == 6 {
        '6'
    } else if d == 7 {
        '7'
    } else if d == 8 {
        '8'
    } else {
        '9'
    }
}

/// The decimal digits of a non-negative integer, most significant first,
/// without leading zeros (`0` itself is the single digit `0`).
pub open spec fn dec_chars(n: int) -> Seq<char>
    recommends
        n >= 0,
    decreases n,
{
    if n < 10 {
        seq![dec_digit(n)]
    } else {
        dec_chars(n / 10) + seq![dec_digit(n % 10)]
    }
}

/// A one-character string for a decimal digit.
fn digit_string(d: u64) -> (r: String)
    requires
        d < 10,
    ensures
        r@ == seq![dec_digit(d as int)],
{
    let r = match d {
        0u64 => String::from_str("0"),
        1u64 => String::from_str("1"),
        2u64 => String::from_str("2"),
        3u64 => String::from_str("3"),
        4u64 => String::from_str("4"),
        5u64 => String::from_str("5"),
        6u64 => String::from_str("6"),
        7u64 => String::from_str("7"),
        8u64 => String::from_str("8"),
        _ => String::from_str("9"),
    };
    proof {
        reveal_strlit("0");
        reveal_strlit("1");
        reveal_strlit("2");
        reveal_strlit("3");
        reveal_strlit("4");
        reveal_strlit("5");
        reveal_strlit("6");
        reveal_strlit("7");
        reveal_strlit("8");
        reveal_strlit("9");
        assert(r@ =~= seq![dec_digit(d as int)]);
    }
    r
}

/// Render a 64-bit value in decimal.
pub fn u64_to_string(n: u64) -> (r: String)
    ensures
        r@ == dec_chars(n as int),
    decreases n,
{
    if n < 10 {
        digit_string(n)
    } else {
        let mut s = u64_to_string(n / 10);
        let tail = digit_string(n % 10);
        s.append(tail.as_str());
        proof {
            assert(s@ =~= dec_chars(n as int));
        }
        s
    }
}

/// The message recorded with a probe that exceeded its deadline.
pub open spec fn timeout_message_spec(timeout_ms: int) -> Seq<char> {
    "timeout (>"@ + dec_chars(timeout_ms) + "ms)"@
}

/// Build the message recorded with a probe that exceeded its deadline.
pub fn timeout_message(timeout_ms: u64) -> (r: String)
    ensures
        r@ == timeout_message_spec(timeout_ms as int),
{
    let mut s = String::from_str("timeout (>");
    let digits = u64_to_string(timeout_ms);
    s.append(digits.as_str());
    s.append("ms)");
    proof {
        assert(s@ =~= timeout_message_spec(timeout_ms as int));
    }
    s
}

/// Clone an optional string.
pub(crate) fn clone_opt_string(o: &Option<String>) -> (r: Option<String>)
    ensures
        r == *o,
{
    match o {
        Some(s) => Some(s.clone()),
        None => None,
    }
}

} // verus!
