//! Text formatting: decimal file names for the generator and the one
//! line the move logger appends per move.

use vstd::prelude::*;
use vstd::string::StringExecFns;

verus! {

/// The character for one decimal digit.
pub open spec fn digit_char(d: nat) -> char {
    if d == 0 {
        '0'
    } else if d == 1 {
        '1'
    } else if d == 2 {
        '2'
    } else if d == 3 {
        '3'
    } else if d == 4 {
        '4'
    } else if d == 5 {
        '5'
    } else if d == 6 {
        '6'
    } else if d == 7 {
        '7'
    } else if d == 8 {
        '8'
    } else {
        '9'
    }
}

/// The decimal representation of a number, most significant digit
/// first, without leading zeros (zero itself is "0").
pub open spec fn dec_rep(n: nat) -> Seq<char>
    decreases n,
{
    if n < 10 {
        seq![digit_char(n)]
    } else {
        dec_rep(n / 10) + seq![digit_char(n % 10)]
    }
}

/// The one-character string for one decimal digit.
fn digit_str(d: u32) -> (s: &'static str)
    requires
        d < 10,
    ensures
        s@ == seq![digit_char(d as nat)],
{
    proof {
        reveal_strlit("0");
        reveal_strlit("1");
        reveal_strlit("2");
        reveal_strlit("3");
        reveal_strlit("4");
        reveal_strlit("5");
        reveal_strlit("6");
        reveal_strlit("7");
        reveal_strlit("8");
        reveal_strlit("9");
    }
    let s: &'static str = if d == 0 {
        "0"
    } else if d == 1 {
        "1"
    } else if d == 2 {
        "2"
    } else if d == 3 {
        "3"
    } else if d == 4 {
        "4"
    } else if d == 5 {
        "5"
    } else if d == 6 {
        "6"
    } else if d == 7 {
        "7"
    } else if d == 8 {
        "8"
    } else {
        "9"
    };
    proof {
        assert(s@ =~= seq![digit_char(d as nat)]);
    }
    s
}

/// Formats a number in decimal.
pub fn u32_to_decimal(n: u32) -> (s: String)
    ensures
        s@ == dec_rep(n as nat),
    decreases n,
{
    if n < 10 {
        digit_str(n).to_owned()
    } else {
        let mut s = u32_to_decimal(n / 10);
        s.append(digit_str(n % 10));
        proof {
            assert(s@ =~= dec_rep(n as nat));
        }
        s
    }
}

/// The generated file name for one index: the index in decimal, a dot,
/// and the extension.
pub fn file_name_for(index: u32, ext: &str) -> (s: String)
    ensures
        s@ == dec_rep(index as nat) + seq!['.'] + ext@,
{
    proof {
        reveal_strlit(".");
    }
    let mut s = u32_to_decimal(index);
    s.append(".");
    s.append(ext);
    proof {
        assert(s@ =~= dec_rep(index as nat) + seq!['.'] + ext@);
    }
    s
}

/// The line the logger appends for one move: the source file name, the
/// fixed " Moved to " marker, the destination, and a newline. This
/// deterministic, human-readable format is the library's own.
pub fn format_log_line(file_name: &str, destination: &str) -> (s: String)
    ensures
        s@ == file_name@ + " Moved to "@ + destination@ + "\n"@,
{
    let mut s = file_name.to_owned();
    s.append(" Moved to ");
    s.append(destination);
    s.append("\n");
    s
}

} // verus!
