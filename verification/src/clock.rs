//! Points in time, as the selector reads them.

use vstd::prelude::*;

verus! {

/// `std::time::SystemTime`, of which nothing is read but through the
/// functions below.
#[verifier::external_type_specification]
#[verifier::external_body]
pub struct ExSystemTime(std::time::SystemTime);

/// A point in time: the nanoseconds since the Unix epoch.
#[derive(Clone, Copy, Debug, PartialEq, Eq, Structural)]
pub struct Timestamp {
    pub nanos: u128,
}

impl Timestamp {
    /// The point in time `secs` whole seconds and `subsec_nanos`
    /// nanoseconds after the Unix epoch.
    pub open spec fn of_parts(secs: u64, subsec_nanos: u32) -> Timestamp {
        Timestamp { nanos: (secs * 1_000_000_000 + subsec_nanos) as u128 }
    }

    /// Whether this is a point in time that a clock can read: whole seconds
    /// that fit 64 bits, and less than a second beyond them.
    pub open spec fn is_reading(self) -> bool {
        exists|secs: u64, subsec_nanos: u32|
            subsec_nanos < 1_000_000_000 && self == #[trigger] Timestamp::of_parts(
                secs,
                subsec_nanos,
            )
    }

    /// The point in time `secs` whole seconds after the Unix epoch.
    pub fn from_secs(secs: u64) -> (t: Timestamp)
        ensures
            t.nanos == secs * 1_000_000_000,
            t == Timestamp::of_parts(secs, 0),
    {
        Timestamp::from_parts(secs, 0)
    }

    /// The point in time `secs` whole seconds and `subsec_nanos`
    /// nanoseconds after the Unix epoch.
    pub fn from_parts(secs: u64, subsec_nanos: u32) -> (t: Timestamp)
        ensures
            t == Timestamp::of_parts(secs, subsec_nanos),
            t.nanos == secs * 1_000_000_000 + subsec_nanos,
    {
        let whole: u128 = secs as u128;
        let part: u128 = subsec_nanos as u128;
        Timestamp { nanos: whole * 1_000_000_000 + part }
    }
}

/// `std::time::SystemTime::now`: the system clock's reading. Nothing is
/// claimed of it.
#[verifier::external_body]
fn system_now() -> (t: std::time::SystemTime) {
    std::time::SystemTime::now()
}

/// `std::time::SystemTime::duration_since`, taken from the Unix epoch: the
/// time from the epoch to `t`, or nothing where `t` lies before the epoch.
/// Nothing is claimed of the duration.
#[verifier::external_body]
fn since_epoch(t: &std::time::SystemTime) -> (d: Option<std::time::Duration>) {
    match t.duration_since(std::time::UNIX_EPOCH) {
        Ok(d) => Some(d),
        Err(_) => None,
    }
}

/// `std::time::Duration::as_secs`: the whole seconds of a duration.
/// Nothing is claimed of the number.
#[verifier::external_body]
fn duration_secs(d: &std::time::Duration) -> (secs: u64) {
    d.as_secs()
}

/// `std::time::Duration::subsec_nanos`: what a duration holds beyond its
/// whole seconds, in nanoseconds, which is less than a second.
#[verifier::external_body]
fn duration_subsec_nanos(d: &std::time::Duration) -> (nanos: u32)
    ensures
        nanos < 1_000_000_000,
{
    d.subsec_nanos()
}

/// The system clock's reading, or nothing where the clock stands before the
/// Unix epoch. A reading is the clock's whole seconds since the epoch and
/// the fraction of a second beyond them, counted together in nanoseconds.
/// Two readings need not agree, and the later need not be the greater.
pub fn wall_clock() -> (now: Option<Timestamp>)
    ensures
        now matches Some(t) ==> t.is_reading(),
{
    let t = system_now();
    match since_epoch(&t) {
        Some(d) => {
            let secs: u64 = duration_secs(&d);
            let subsec_nanos: u32 = duration_subsec_nanos(&d);
            Some(Timestamp::from_parts(secs, subsec_nanos))
        },
        None => None,
    }
}

/// A clock's reading counts less than 2 to the 64th seconds.
pub proof fn lemma_reading_is_bounded(now: Timestamp)
    requires
        now.is_reading(),
    ensures
        now.nanos <= 18_446_744_073_709_551_615_999_999_999,
{
}

} // verus!
