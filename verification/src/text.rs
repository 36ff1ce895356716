//! Verified text rendering: decimal numbers, device labels, and error
//! descriptions for the settings surface.

use vstd::prelude::*;

use crate::connection::ConnectionError;

verus! {

/// The character for one decimal digit.
pub open spec fn digit_char(d: int) -> char {
    if d == 0 { '0' }
    else if d == 1 { '1' }
    else if d == 2 { '2' }
    else if d == 3 { '3' }
    else if d == 4 { '4' }
    else if d == 5 { '5' }
    else if d == 6 { '6' }
    else if d == 7 { '7' }
    else if d == 8 { '8' }
    else { '9' }
}

/// The decimal digits of `n`, most significant first, with no leading
/// zeroes except for `n == 0` itself.
pub open spec fn dec_seq(n: int) -> Seq<char>
    decreases n,
{
    if n < 10 {
        seq![digit_char(n)]
    } else {
        dec_seq(n / 10) + seq![digit_char(n % 10)]
    }
}

/// The one-character string for a decimal digit.
fn digit_str(d: u64) -> (s: &'static str)
    requires
        d <= 9,
    ensures
        s@ =~= seq![digit_char(d as int)],
{
    proof {
        reveal_strlit("0");
        reveal_strlit("1");
        reveal_strlit("2");
        reveal_strlit("3");
        reveal_strlit("4");
        reveal_strlit("5");
        reveal_strlit("6");
        reveal_strlit("7");
        reveal_strlit("8");
        reveal_strlit("9");
    }
    match d {
        0 => "0",
        1 => "1",
        2 => "2",
        3 => "3",
        4 => "4",
        5 => "5",
        6 => "6",
        7 => "7",
        8 => "8",
        _ => "9",
    }
}

/// Renders `n` in decimal.
pub fn u64_to_string(n: u64) -> (s: String)
    ensures
        s@ == dec_seq(n as int),
    decreases n,
{
    if n < 10 {
        String::from_str(digit_str(n))
    } else {
        let mut s = u64_to_string(n / 10);
        s.append(digit_str(n % 10));
        proof {
            assert(s@ =~= dec_seq(n as int));
        }
        s
    }
}

/// The label shown for a device: its display name, or a placeholder naming
/// its index for a source without one.
pub open spec fn device_label_spec(name: Option<Seq<char>>, index: int) -> Seq<char> {
    match name {
        Some(n) => n,
        None => "Unnamed source: "@ + dec_seq(index),
    }
}

/// Builds the label for the device at `index` from its display name, if it
/// has one.
pub fn device_label(name: Option<String>, index: usize) -> (label: String)
    ensures
        label@ == device_label_spec(
            match name {
                Some(n) => Some(n@),
                None => None,
            },
            index as int,
        ),
{
    match name {
        Some(n) => n,
        None => {
            let mut s = String::from_str("Unnamed source: ");
            s.append(u64_to_string(index as u64).as_str());
            s
        }
    }
}

/// The description reported for a recorded error.
pub open spec fn describe_spec(e: ConnectionError) -> Seq<char> {
    match e {
        ConnectionError::BindFailed => "BindFailed"@,
        ConnectionError::UserStopped => "UserStopped"@,
        ConnectionError::Driver(code) => "Driver("@ + dec_seq(code as int) + ")"@,
    }
}

/// Law: no error describes itself with an empty string, so an empty report
/// from the settings surface always means a live binding.
pub proof fn lemma_describe_nonempty(e: ConnectionError)
    ensures
        describe_spec(e).len() > 0,
{
    reveal_strlit("BindFailed");
    reveal_strlit("UserStopped");
    reveal_strlit("Driver(");
}

/// Renders the description of a recorded error; never empty.
pub fn describe(e: ConnectionError) -> (s: String)
    ensures
        s@ == describe_spec(e),
        s@.len() > 0,
{
    proof {
        lemma_describe_nonempty(e);
    }
    match e {
        ConnectionError::BindFailed => String::from_str("BindFailed"),
        ConnectionError::UserStopped => String::from_str("UserStopped"),
        ConnectionError::Driver(code) => {
            let mut s = String::from_str("Driver(");
            s.append(u64_to_string(code as u64).as_str());
            s.append(")");
            proof {
                assert(s@ =~= describe_spec(e));
            }
            s
        }
    }
}

} // verus!
