//! The two pieces of text the benchmark builds: the per-attempt stream
//! label that a failure reason carries, and the target's URL.

use vstd::prelude::*;
use vstd::string::*;

verus! {

/// The decimal digit character for a value below ten.
pub open spec fn digit_char(d: int) -> char {
    if d == 0 {
        '0'
    } else if d == 1 {
        '1'
    } else if d == 2 {
        '2'
    } else if d == 3 {
        '3'
    } else if d == 4 {
        '4'
    } else if d == 5 {
        '5'
    } else if d == 6 {
        '6'
    } else if d == 7 {
        '7'
    } else if d == 8 {
        '8'
    } else {
        '9'
    }
}

/// The decimal rendering of a non-negative number, most significant digit
/// first, with no leading zeros except for the number zero itself.
pub open spec fn dec_digits(n: int) -> Seq<char>
    decreases n,
    when n >= 0
{
    if n < 10 {
        seq![digit_char(n)]
    } else {
        dec_digits(n / 10).push(digit_char(n % 10))
    }
}

/// The label of one connection attempt: `stream-` followed by the
/// attempt's index in decimal.
pub open spec fn stream_label_spec(idx: int) -> Seq<char> {
    "stream-"@ + dec_digits(idx)
}

/// The URL the workers connect to: `http://`, the host, `:`, the port in
/// decimal.
pub open spec fn address_spec(ip: Seq<char>, port: int) -> Seq<char> {
    "http://"@ + ip + ":"@ + dec_digits(port)
}

fn digit_str(d: u64) -> (r: &'static str)
    requires
        d < 10,
    ensures
        r@ == seq![digit_char(d as int)],
{
    proof {
        reveal_strlit("0");
        reveal_strlit("1");
        reveal_strlit("2");
        reveal_strlit("3");
        reveal_strlit("4");
        reveal_strlit("5");
        reveal_strlit("6");
        reveal_strlit("7");
        reveal_strlit("8");
        reveal_strlit("9");
    }
    let r: &'static str = match d {
        0 => "0",
        1 => "1",
        2 => "2",
        3 => "3",
        4 => "4",
        5 => "5",
        6 => "6",
        7 => "7",
        8 => "8",
        _ => "9",
    };
    proof {
        assert(r@ =~= seq![digit_char(d as int)]);
    }
    r
}

/// The decimal rendering of `n`, as `dec_digits` describes it.
pub fn u64_to_string(n: u64) -> (s: String)
    ensures
        s@ == dec_digits(n as int),
    decreases n,
{
    if n < 10 {
        String::from_str(digit_str(n))
    } else {
        let mut s = u64_to_string(n / 10);
        s.append(digit_str(n % 10));
        proof {
            assert(s@ =~= dec_digits(n as int));
        }
        s
    }
}

/// The label a worker hands to `fail` for its current attempt, so that the
/// recorded failure reason identifies the lane and attempt that tripped
/// the latch.
pub fn stream_label(idx: u64) -> (s: String)
    ensures
        s@ == stream_label_spec(idx as int),
{
    let mut s = String::from_str("stream-");
    let digits = u64_to_string(idx);
    s.append(digits.as_str());
    s
}

/// The target URL for a resolved host and port.
pub fn format_address(ip: &str, port: u32) -> (s: String)
    ensures
        s@ == address_spec(ip@, port as int),
{
    let mut s = String::from_str("http://");
    s.append(ip);
    s.append(":");
    let digits = u64_to_string(port as u64);
    s.append(digits.as_str());
    proof {
        assert(s@ =~= address_spec(ip@, port as int));
    }
    s
}

} // verus!
