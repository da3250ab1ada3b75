//! Moments in time, in seconds since the Unix epoch, as `chrono` takes them.

use crate::shared_traits::TimeProvider;
use chrono::{DateTime, Utc};
use vstd::prelude::*;

verus! {

/// Whether `seconds` since the Unix epoch is a moment that `chrono` can hold.
pub uninterp spec fn timestamp_in_range(seconds: i64) -> bool;

/// `chrono::DateTime::<Utc>::from_timestamp` with no nanoseconds: whether the
/// number of seconds is in the range of moments that the crate can hold.
#[verifier::external_body]
pub(crate) fn is_timestamp(seconds: i64) -> (valid: bool)
    ensures
        valid == timestamp_in_range(seconds),
{
    DateTime::<Utc>::from_timestamp(seconds, 0).is_some()
}

/// `chrono::Utc::now`, as seconds since the Unix epoch. Nothing is promised
/// of a clock's answer.
#[verifier::external_body]
fn now() -> i64 {
    Utc::now().timestamp()
}

/// The system's clock.
#[derive(Debug, Default)]
pub struct Time {}

impl Time {
    /// The system's clock.
    pub fn new() -> (time: Self) {
        Self {  }
    }
}

impl TimeProvider for Time {
    fn get_current_time(&self) -> i64 {
        now()
    }
}

} // verus!
