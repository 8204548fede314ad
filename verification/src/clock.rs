//! The clock, and the identifiers drawn from it.

use crate::text::{decimal, render_decimal};
use std::time::{Duration, SystemTimeError};
use vstd::prelude::*;

verus! {

/// The error of a clock reading that lies before the epoch.
#[verifier::external_type_specification]
#[verifier::external_body]
pub struct ExSystemTimeError(SystemTimeError);

/// `Duration::as_nanos` gives the whole duration in nanoseconds. Nothing is
/// claimed of the number.
pub assume_specification[ Duration::as_nanos ](d: &Duration) -> (nanos: u128);

/// `SystemTime::elapsed`, asked of `UNIX_EPOCH`: the time from the epoch to now,
/// or an error where the clock stands before the epoch. Nothing is claimed of
/// the reading.
#[verifier::external_body]
fn since_epoch() -> (elapsed: Result<Duration, SystemTimeError>) {
    std::time::UNIX_EPOCH.elapsed()
}

/// Whether `s` is the decimal numeral of a number that a clock reading can be.
pub open spec fn is_stamp(s: Seq<char>) -> bool {
    exists|n: nat| n <= u128::MAX && s == #[trigger] decimal(n)
}

/// The text of a clock reading: the reading in decimal.
pub fn stamp_text(nanos: u128) -> (id: String)
    ensures
        id@ == decimal(nanos as nat),
        is_stamp(id@),
{
    render_decimal(nanos)
}

/// An identifier drawn from the clock: the nanoseconds since the epoch, in
/// decimal, or `0` where the clock stands before the epoch.
///
/// Two calls may give the same text. The identifier tells records of one scan
/// apart only as far as the clock moves between them, and means nothing to a
/// later scan.
pub fn uuid() -> (id: String)
    ensures
        is_stamp(id@),
{
    let nanos: u128 = match since_epoch() {
        Ok(elapsed) => elapsed.as_nanos(),
        Err(_) => 0,
    };
    stamp_text(nanos)
}

} // verus!
