//! Text rendering for report artifacts: decimal numbers, user mentions
//! (`<@id>`) and relative-time markers (`<t:secs:R>`).

use vstd::prelude::*;
use vstd::string::StringExecFns;

verus! {

/// The character for the decimal digit `d`.
pub open spec fn digit_char(d: int) -> char
    recommends
        0 <= d < 10,
{
    if d == 0 {
        '0'
    } else if d == 1 {
        '1'
    } else if d == 2 {
        '2'
    } else if d == 3 {
        '3'
    } else if d == 4 {
        '4'
    } else if d == 5 {
        '5'
    } else if d == 6 {
        '6'
    } else if d == 7 {
        '7'
    } else if d == 8 {
        '8'
    } else {
        '9'
    }
}

/// The decimal rendering of `n`, most significant digit first, no leading
/// zeros (a single `'0'` for zero).
pub open spec fn dec_str(n: int) -> Seq<char>
    recommends
        n >= 0,
    decreases n,
{
    if n < 10 {
        seq![digit_char(n)]
    } else {
        dec_str(n / 10).push(digit_char(n % 10))
    }
}

fn digit_str(d: u8) -> (r: &'static str)
    requires
        d < 10,
    ensures
        r@ == seq![digit_char(d as int)],
{
    let r: &'static str = match d {
        0 => "0",
        1 => "1",
        2 => "2",
        3 => "3",
        4 => "4",
        5 => "5",
        6 => "6",
        7 => "7",
        8 => "8",
        _ => "9",
    };
    proof {
        reveal_strlit("0");
        reveal_strlit("1");
        reveal_strlit("2");
        reveal_strlit("3");
        reveal_strlit("4");
        reveal_strlit("5");
        reveal_strlit("6");
        reveal_strlit("7");
        reveal_strlit("8");
        reveal_strlit("9");
        assert(r@ =~= seq![digit_char(d as int)]);
    }
    r
}

/// Append the decimal rendering of `n` to `out`.
pub fn append_u64(out: &mut String, n: u64)
    ensures
        final(out)@ == old(out)@ + dec_str(n as int),
    decreases n,
{
    if n >= 10 {
        append_u64(out, n / 10);
    }
    out.append(digit_str((n % 10) as u8));
    proof {
        assert(final(out)@ =~= old(out)@ + dec_str(n as int));
    }
}

/// The decimal rendering of `n` as an owned string.
pub fn u64_string(n: u64) -> (r: String)
    ensures
        r@ == dec_str(n as int),
{
    let mut s = String::new();
    append_u64(&mut s, n);
    proof {
        assert(s@ =~= dec_str(n as int));
    }
    s
}

/// The mention markup for the user with identifier `id`.
pub open spec fn mention_seq(id: u64) -> Seq<char> {
    "<@"@ + dec_str(id as int) + ">"@
}

/// Render the mention markup `<@id>`.
pub fn mention(id: u64) -> (r: String)
    ensures
        r@ == mention_seq(id),
{
    let mut s = String::from_str("<@");
    append_u64(&mut s, id);
    s.append(">");
    proof {
        assert(s@ =~= mention_seq(id));
    }
    s
}

/// The relative-time markup for the Unix timestamp `secs`.
pub open spec fn rel_time_seq(secs: u64) -> Seq<char> {
    "<t:"@ + dec_str(secs as int) + ":R>"@
}

/// Render the relative-time markup `<t:secs:R>`.
pub fn rel_time(secs: u64) -> (r: String)
    ensures
        r@ == rel_time_seq(secs),
{
    let mut s = String::from_str("<t:");
    append_u64(&mut s, secs);
    s.append(":R>");
    proof {
        assert(s@ =~= rel_time_seq(secs));
    }
    s
}

} // verus!
