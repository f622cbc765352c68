//! Small shared helpers: clock-style duration formatting and a generic
//! clamp.

use vstd::prelude::*;
use vstd::string::StringExecFns;
use vstd::std_specs::cmp::PartialOrdSpec;

verus! {

/// The decimal digit character for a value below ten.
pub open spec fn dec_digit(d: int) -> char {
    if d == 0 {
        '0'
    } else if d == 1 {
        '1'
    } else if d == 2 {
        '2'
    } else if d == 3 {
        '3'
    } else if d == 4 {
        '4'
    } else if d == 5 {
        '5'
    } else if d == 6 {
        '6'
    } else if d == 7 {
        '7'
    } else if d == 8 {
        '8'
    } else {
        '9'
    }
}

/// The decimal digits of a number, most significant first.
pub open spec fn dec_str(n: nat) -> Seq<char>
    decreases n,
{
    if n < 10 {
        seq![dec_digit(n as int)]
    } else {
        dec_str(n / 10) + seq![dec_digit((n % 10) as int)]
    }
}

/// A number rendered with at least two digits, zero-padded.
pub open spec fn two_digits(n: nat) -> Seq<char> {
    if n < 10 {
        seq!['0'] + dec_str(n)
    } else {
        dec_str(n)
    }
}

/// A duration of `total` seconds in clock form: `MM:SS` under an hour,
/// `HH:MM:SS` from an hour up, each field zero-padded to two digits.
pub open spec fn duration_text(total: nat) -> Seq<char> {
    let hours = total / 3600;
    let minutes = (total % 3600) / 60;
    let seconds = total % 60;
    if hours > 0 {
        two_digits(hours) + ":"@ + two_digits(minutes) + ":"@ + two_digits(seconds)
    } else {
        two_digits(minutes) + ":"@ + two_digits(seconds)
    }
}

/// The text of one decimal digit.
fn digit_str(d: u64) -> (r: &'static str)
    requires
        d < 10,
    ensures
        r@ == seq![dec_digit(d as int)],
{
    proof {
        reveal_strlit("0");
        reveal_strlit("1");
        reveal_strlit("2");
        reveal_strlit("3");
        reveal_strlit("4");
        reveal_strlit("5");
        reveal_strlit("6");
        reveal_strlit("7");
        reveal_strlit("8");
        reveal_strlit("9");
    }
    let r = match d {
        0 => "0",
        1 => "1",
        2 => "2",
        3 => "3",
        4 => "4",
        5 => "5",
        6 => "6",
        7 => "7",
        8 => "8",
        _ => "9",
    };
    proof {
        assert(r@ =~= seq![dec_digit(d as int)]);
    }
    r
}

/// A number in decimal, most significant digit first.
fn u64_to_dec(n: u64) -> (r: String)
    ensures
        r@ == dec_str(n as nat),
    decreases n,
{
    if n < 10 {
        String::from_str(digit_str(n))
    } else {
        let prefix = u64_to_dec(n / 10);
        prefix.concat(digit_str(n % 10))
    }
}

/// A number zero-padded to at least two digits.
fn u64_two_digits(n: u64) -> (r: String)
    ensures
        r@ == two_digits(n as nat),
{
    if n < 10 {
        proof {
            reveal_strlit("0");
        }
        let r = String::from_str("0").concat(digit_str(n));
        proof {
            assert(r@ =~= seq!['0'] + dec_str(n as nat));
        }
        r
    } else {
        u64_to_dec(n)
    }
}

/// Format a duration of `total_secs` seconds for display: `MM:SS` for
/// durations under an hour, `HH:MM:SS` from an hour up.
pub fn format_duration(total_secs: u64) -> (r: String)
    ensures
        r@ == duration_text(total_secs as nat),
{
    let hours = total_secs / 3600;
    let minutes = (total_secs % 3600) / 60;
    let seconds = total_secs % 60;

    if hours > 0 {
        u64_two_digits(hours).concat(":").concat(u64_two_digits(minutes).as_str()).concat(
            ":",
        ).concat(u64_two_digits(seconds).as_str())
    } else {
        u64_two_digits(minutes).concat(":").concat(u64_two_digits(seconds).as_str())
    }
}

/// Relies on `str` equality (`PartialEq<str> for str`): true exactly
/// when the two strings hold the same characters.
#[verifier::external_body]
pub(crate) fn str_eq(a: &str, b: &str) -> (r: bool)
    ensures
        r == (a@ == b@),
{
    a == b
}

/// Clamp a value between `min` and `max`: below `min` gives `min`,
/// above `max` gives `max`, anything else passes through. For types
/// whose comparison obeys its specification this is exact; for every
/// type the result is one of the three arguments.
pub fn clamp<T: PartialOrd>(value: T, min: T, max: T) -> (r: T)
    ensures
        T::obeys_partial_cmp_spec() ==> r == (
            if value.partial_cmp_spec(&min) == Some(core::cmp::Ordering::Less) {
                min
            } else if value.partial_cmp_spec(&max) == Some(core::cmp::Ordering::Greater) {
                max
            } else {
                value
            }
        ),
        r == value || r == min || r == max,
{
    if value < min {
        min
    } else if value > max {
        max
    } else {
        value
    }
}

} // verus!
