//! The system time, in whole seconds since the Unix epoch.

use crate::error::Error;
use crate::error::ErrorKind;
use vstd::prelude::*;

verus! {

/// `std::time::SystemTime`, a point in time that verified code only carries.
#[verifier::external_type_specification]
#[verifier::external_body]
pub struct ExSystemTime(std::time::SystemTime);

/// `std::time::SystemTimeError`, the error of a time that lies before
/// another.
#[verifier::external_type_specification]
#[verifier::external_body]
pub struct ExSystemTimeError(std::time::SystemTimeError);

/// `SystemTime::now`: the present time. Nothing is known of it.
pub assume_specification[ std::time::SystemTime::now ]() -> std::time::SystemTime;

/// `SystemTime::duration_since`: the time that has passed since `earlier`,
/// or an error. Nothing is known of either.
pub assume_specification[ std::time::SystemTime::duration_since ](
    t: &std::time::SystemTime,
    earlier: std::time::SystemTime,
) -> Result<core::time::Duration, std::time::SystemTimeError>;

/// `Duration::as_secs`: the whole seconds of a duration. Nothing is known of
/// them.
pub assume_specification[ core::time::Duration::as_secs ](d: &core::time::Duration) -> u64;

/// `std::time::UNIX_EPOCH`: the first second of 1970.
#[verifier::external_body]
fn epoch() -> std::time::SystemTime {
    std::time::UNIX_EPOCH
}

/// The seconds that have passed since the Unix epoch, as the system's clock
/// has them. Fails with [`ErrorKind::ClockError`] where the clock stands
/// before the epoch or the seconds do not fit a `usize`, and in no other way.
pub fn now() -> (r: Result<usize, Error>)
    ensures
        r matches Err(e) ==> e.kind_spec() == ErrorKind::ClockError,
{
    let present = std::time::SystemTime::now();
    let seconds = match present.duration_since(epoch()) {
        Ok(passed) => Some(passed.as_secs()),
        Err(_) => None,
    };
    reading(seconds)
}

/// The time that an answer of the clock amounts to: its seconds, where it
/// has any and a `usize` holds them.
pub open spec fn reading_spec(seconds: Option<u64>) -> Option<usize> {
    match seconds {
        Some(s) => if s <= usize::MAX {
            Some(s as usize)
        } else {
            None
        },
        None => None,
    }
}

/// Computes [`reading_spec`] for what the clock answered: the seconds since
/// the epoch, or none where the clock stands before it. Fails with
/// [`ErrorKind::ClockError`] exactly where there is no such time.
pub fn reading(seconds: Option<u64>) -> (r: Result<usize, Error>)
    ensures
        match r {
            Ok(time) => reading_spec(seconds) == Some(time),
            Err(e) => reading_spec(seconds) is None && e.kind_spec() == ErrorKind::ClockError,
        },
{
    match seconds {
        Some(s) => if s > usize::MAX as u64 {
            Err(Error::of_kind(ErrorKind::ClockError))
        } else {
            Ok(s as usize)
        },
        None => Err(Error::of_kind(ErrorKind::ClockError)),
    }
}

/// The expiry of a token that is issued at `now` and lives for `lifetime`
/// seconds, where the machine's integers hold it.
pub open spec fn expiry_of(now: usize, lifetime: usize) -> Option<usize> {
    if now + lifetime <= usize::MAX {
        Some((now + lifetime) as usize)
    } else {
        None
    }
}

/// Computes [`expiry_of`]; fails with [`ErrorKind::ClockError`] exactly
/// where the sum does not fit.
pub fn expiry_at(now: usize, lifetime: usize) -> (r: Result<usize, Error>)
    ensures
        match r {
            Ok(exp) => expiry_of(now, lifetime) == Some(exp),
            Err(e) => expiry_of(now, lifetime) is None && e.kind_spec() == ErrorKind::ClockError,
        },
{
    match now.checked_add(lifetime) {
        Some(exp) => Ok(exp),
        None => Err(Error::of_kind(ErrorKind::ClockError)),
    }
}

} // verus!
