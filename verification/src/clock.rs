//! The clock that stamps queued items.

use vstd::prelude::*;

verus! {

/// Where a request builder reads the time of day from.
#[derive(Clone, Copy, Debug)]
pub enum Clock {
    /// The machine's wall clock.
    System,
    /// A clock that always shows the given number of milliseconds since
    /// 1970-01-01T00:00:00Z.
    Fixed(u64),
}

/// Why a clock could not be read.
#[derive(Clone, Copy, Debug, PartialEq, Eq, Structural)]
pub enum ClockError {
    /// The wall clock shows a time before 1970-01-01T00:00:00Z.
    BeforeEpoch,
}

/// Trusted: the type `std::time::SystemTime`, declared so that a reading
/// can be held and handed on. Nothing is known of what one holds.
#[verifier::external_type_specification]
#[verifier::external_body]
pub struct ExSystemTime(std::time::SystemTime);

/// Trusted: `std::time::SystemTime::now`. Nothing is claimed of the reading.
#[verifier::external_body]
fn wall_clock() -> std::time::SystemTime {
    std::time::SystemTime::now()
}

/// Trusted: `std::time::SystemTime::duration_since`, measured from
/// `std::time::UNIX_EPOCH`. A reading before the epoch, which the standard
/// library reports as an error, comes back as `None`. Nothing else is claimed.
#[verifier::external_body]
fn since_epoch(t: &std::time::SystemTime) -> Option<std::time::Duration> {
    match t.duration_since(std::time::UNIX_EPOCH) {
        Ok(d) => Some(d),
        Err(_) => None,
    }
}

/// Trusted: `std::time::Duration::as_millis`. Nothing is claimed of the count.
#[verifier::external_body]
fn whole_millis(d: &std::time::Duration) -> u128 {
    d.as_millis()
}

/// What a reading of `clock` may be: a fixed clock shows its own setting and
/// never fails; of the wall clock nothing is known beforehand.
pub open spec fn reading_of(clock: Clock, r: Result<u128, ClockError>) -> bool {
    match clock {
        Clock::Fixed(ms) => r == Ok::<u128, ClockError>(ms as u128),
        Clock::System => true,
    }
}

/// The interpretation of one wall-clock reading: the milliseconds, where the
/// clock was at or after the epoch.
pub fn reading(elapsed: Option<u128>) -> (r: Result<u128, ClockError>)
    ensures
        r == match elapsed {
            Some(ms) => Ok::<u128, ClockError>(ms),
            None => Err::<u128, ClockError>(ClockError::BeforeEpoch),
        },
{
    match elapsed {
        Some(ms) => Ok(ms),
        None => Err(ClockError::BeforeEpoch),
    }
}

/// Milliseconds since the epoch, as `clock` shows them at this moment.
pub fn now(clock: &Clock) -> (r: Result<u128, ClockError>)
    ensures
        reading_of(*clock, r),
{
    match clock {
        Clock::Fixed(ms) => Ok(*ms as u128),
        Clock::System => {
            let t = wall_clock();
            let elapsed = match since_epoch(&t) {
                Some(d) => Some(whole_millis(&d)),
                None => None,
            };
            reading(elapsed)
        },
    }
}

} // verus!
