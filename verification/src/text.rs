//! Verified text building blocks: decimal rendering of counters and repeated
//! rules, with their mathematical images as character sequences.

use vstd::prelude::*;
use vstd::string::StringExecFns;

verus! {

/// The decimal digit character for `d`.
pub open spec fn spec_digit_char(d: int) -> char {
    if d == 0 {
        '0'
    } else if d == 1 {
        '1'
    } else if d == 2 {
        '2'
    } else if d == 3 {
        '3'
    } else if d == 4 {
        '4'
    } else if d == 5 {
        '5'
    } else if d == 6 {
        '6'
    } else if d == 7 {
        '7'
    } else if d == 8 {
        '8'
    } else {
        '9'
    }
}

/// The decimal text of a nonnegative integer, most significant digit first,
/// without sign, padding or separators.
pub open spec fn spec_decimal(v: int) -> Seq<char>
    decreases v,
{
    if v < 10 {
        seq![spec_digit_char(v)]
    } else {
        spec_decimal(v / 10).push(spec_digit_char(v % 10))
    }
}

/// `n` copies of `s`, concatenated.
pub open spec fn spec_repeat(s: Seq<char>, n: int) -> Seq<char>
    decreases n,
{
    if n <= 0 {
        Seq::empty()
    } else {
        spec_repeat(s, n - 1) + s
    }
}

/// The single-character text for one decimal digit.
pub fn digit_str(d: u64) -> (r: &'static str)
    requires
        d < 10,
    ensures
        r@ == seq![spec_digit_char(d as int)],
{
    proof {
        reveal_strlit("0");
        reveal_strlit("1");
        reveal_strlit("2");
        reveal_strlit("3");
        reveal_strlit("4");
        reveal_strlit("5");
        reveal_strlit("6");
        reveal_strlit("7");
        reveal_strlit("8");
        reveal_strlit("9");
    }
    let r = if d == 0 {
        "0"
    } else if d == 1 {
        "1"
    } else if d == 2 {
        "2"
    } else if d == 3 {
        "3"
    } else if d == 4 {
        "4"
    } else if d == 5 {
        "5"
    } else if d == 6 {
        "6"
    } else if d == 7 {
        "7"
    } else if d == 8 {
        "8"
    } else {
        "9"
    };
    proof {
        assert(r@ =~= seq![spec_digit_char(d as int)]);
    }
    r
}

/// Renders `v` in decimal.
pub fn u64_to_string(v: u64) -> (r: String)
    ensures
        r@ == spec_decimal(v as int),
    decreases v,
{
    if v < 10 {
        digit_str(v).to_owned()
    } else {
        let mut s = u64_to_string(v / 10);
        s.append(digit_str(v % 10));
        proof {
            assert(s@ =~= spec_decimal(v as int));
        }
        s
    }
}

/// Builds the `n`-fold repetition of `s`.
pub fn repeat_str(s: &str, n: u16) -> (r: String)
    ensures
        r@ == spec_repeat(s@, n as int),
{
    let mut out = String::new();
    let mut i: u16 = 0;
    while i < n
        invariant
            i <= n,
            out@ == spec_repeat(s@, i as int),
        decreases n - i,
    {
        out.append(s);
        i = i + 1;
    }
    out
}

} // verus!
