//! Elapsed time as text.

use crate::number::{decimal_text, format_decimal};
use std::time::Duration;
use vstd::prelude::*;
use vstd::string::*;

verus! {

/// The whole seconds that a duration holds.
pub uninterp spec fn duration_secs(d: Duration) -> u64;

/// `Duration::as_secs` of std returns the number of whole seconds contained in
/// the duration. Trusted: that number is what this library calls
/// `duration_secs`.
pub assume_specification[ Duration::as_secs ](d: &Duration) -> (secs: u64)
    ensures
        secs == duration_secs(*d),
;

/// A number in decimal, with a leading zero where it has one digit.
pub open spec fn padded2(n: nat) -> Seq<char> {
    if n < 10 {
        seq!['0'] + decimal_text(n)
    } else {
        decimal_text(n)
    }
}

/// Seconds as `hh:mm:ss`. The hours are not wrapped at a day and take as many
/// digits as they need.
pub open spec fn clock_text(secs: nat) -> Seq<char> {
    padded2(secs / 3600) + seq![':'] + padded2((secs % 3600) / 60) + seq![':'] + padded2(secs % 60)
}

/// Writes a number with at least two digits.
fn format_padded2(n: u64) -> (text: String)
    ensures
        text@ == padded2(n as nat),
{
    let digits = format_decimal(n);
    if n < 10 {
        proof {
            reveal_strlit("0");
        }
        let text = "0".to_owned().concat(digits.as_str());
        assert(text@ =~= padded2(n as nat));
        text
    } else {
        digits
    }
}

/// Writes a number of seconds as `hh:mm:ss`.
pub fn format_seconds(secs: u64) -> (text: String)
    ensures
        text@ == clock_text(secs as nat),
{
    proof {
        reveal_strlit(":");
    }
    let hours = format_padded2(secs / 3600);
    let minutes = format_padded2((secs % 3600) / 60);
    let seconds = format_padded2(secs % 60);
    let text = hours.concat(":").concat(minutes.as_str()).concat(":").concat(seconds.as_str());
    assert(text@ =~= clock_text(secs as nat));
    text
}

/// Writes the whole seconds of a duration as `hh:mm:ss`.
pub fn format_duration(duration: Duration) -> (text: String)
    ensures
        text@ == clock_text(duration_secs(duration) as nat),
{
    format_seconds(duration.as_secs())
}

} // verus!
