//! Instants on the UTC time line, at the resolution the token checks need.

use vstd::prelude::*;
use vstd::string::StringExecFns;

verus! {

/// Unix seconds of the earliest instant that can be represented
/// (`-9999-01-01 00:00:00 UTC`).
pub const MIN_UNIX_SECONDS: i64 = -377_705_116_800;

/// Unix seconds of the last second that can be represented
/// (`9999-12-31 23:59:59 UTC`).
pub const MAX_UNIX_SECONDS: i64 = 253_402_300_799;

/// Number of nanoseconds in one second.
pub const NANOS_PER_SECOND: u32 = 1_000_000_000;

/// `time::error::ComponentRange`, opaque here: it is read through
/// [`component_range_text`] only.
#[verifier::external_type_specification]
#[verifier::external_body]
pub struct ExComponentRange(time::error::ComponentRange);

/// A point in time, in UTC: whole seconds since the Unix epoch plus the
/// nanoseconds into that second.
#[derive(Clone, Copy, Debug, PartialEq, Eq)]
pub struct UtcInstant {
    pub seconds: i64,
    pub nanoseconds: u32,
}

impl UtcInstant {
    /// The instant lies in the representable range and its sub-second part is
    /// less than one second.
    pub open spec fn wf(&self) -> bool {
        &&& MIN_UNIX_SECONDS <= self.seconds <= MAX_UNIX_SECONDS
        &&& self.nanoseconds < NANOS_PER_SECOND
    }

    /// Nanoseconds since the Unix epoch.
    pub open spec fn position(&self) -> int {
        self.seconds * 1_000_000_000 + self.nanoseconds
    }

    /// `self` comes strictly after `other` on the time line.
    pub open spec fn later_than(&self, other: &UtcInstant) -> bool {
        self.seconds > other.seconds || (self.seconds == other.seconds && self.nanoseconds
            > other.nanoseconds)
    }

    /// The start of the second `seconds`.
    pub open spec fn at_second(seconds: i64) -> UtcInstant {
        UtcInstant { seconds, nanoseconds: 0 }
    }

    /// The latest representable instant as a specification value.
    pub open spec fn spec_latest() -> UtcInstant {
        UtcInstant { seconds: MAX_UNIX_SECONDS, nanoseconds: 999_999_999 }
    }

    /// The latest representable instant: the last nanosecond of the year 9999.
    #[verifier::when_used_as_spec(spec_latest)]
    pub fn latest() -> (instant: UtcInstant)
        ensures
            instant == Self::spec_latest(),
            instant.wf(),
    {
        UtcInstant { seconds: MAX_UNIX_SECONDS, nanoseconds: 999_999_999 }
    }

    /// Whether `self` comes strictly after `other`.
    pub fn is_after(&self, other: &UtcInstant) -> (after: bool)
        ensures
            after == self.later_than(other),
    {
        self.seconds > other.seconds || (self.seconds == other.seconds && self.nanoseconds
            > other.nanoseconds)
    }

    /// The instant at the start of the Unix second `timestamp`, if that second
    /// is representable; `None` otherwise.
    pub fn from_unix_seconds(timestamp: i64) -> (instant: Option<UtcInstant>)
        ensures
            instant == if MIN_UNIX_SECONDS <= timestamp <= MAX_UNIX_SECONDS {
                Some(Self::at_second(timestamp))
            } else {
                None::<UtcInstant>
            },
    {
        match checked_instant(timestamp) {
            Ok(instant) => Some(instant),
            Err(_) => None,
        }
    }

    /// The current instant, read from the system clock.
    pub fn now() -> (instant: UtcInstant)
        ensures
            instant.wf(),
    {
        current_instant()
    }
}

/// For well-formed instants, `later_than` is the order of their positions on
/// the time line.
pub proof fn law_later_than_orders_by_position(a: UtcInstant, b: UtcInstant)
    requires
        a.wf(),
        b.wf(),
    ensures
        a.later_than(&b) <==> a.position() > b.position(),
{
}

/// No well-formed instant comes after the latest one.
pub proof fn law_nothing_comes_after_latest(now: UtcInstant)
    requires
        now.wf(),
    ensures
        !now.later_than(&UtcInstant::spec_latest()),
{
}

/// The instant at the start of the Unix second `timestamp`, or, where that
/// second is not representable, the words that say so: those of `time`
/// where `time` turns the timestamp down, else this library's own.
pub(crate) fn checked_instant(timestamp: i64) -> (outcome: Result<UtcInstant, String>)
    ensures
        outcome is Ok <==> MIN_UNIX_SECONDS <= timestamp <= MAX_UNIX_SECONDS,
        outcome is Ok ==> outcome->Ok_0 == UtcInstant::at_second(timestamp),
{
    match instant_of_unix_timestamp(timestamp) {
        Ok(instant) => {
            if MIN_UNIX_SECONDS <= timestamp && timestamp <= MAX_UNIX_SECONDS {
                Ok(instant)
            } else {
                Err(String::from_str("timestamp was not in range"))
            }
        },
        Err(error) => Err(component_range_text(&error)),
    }
}

/// Calls `time::OffsetDateTime::from_unix_timestamp` and reads the result
/// back as seconds and nanoseconds.
///
/// Trusted: the call succeeds for every timestamp between
/// `-9999-01-01 00:00:00 UTC` and `9999-12-31 23:59:59 UTC`, the range of
/// `time` whatever its features (with `large-dates` it takes more), and an
/// instant that it gives is the start of that very second.
#[verifier::external_body]
pub(crate) fn instant_of_unix_timestamp(timestamp: i64) -> (outcome: Result<
    UtcInstant,
    time::error::ComponentRange,
>)
    ensures
        MIN_UNIX_SECONDS <= timestamp <= MAX_UNIX_SECONDS ==> outcome is Ok,
        outcome is Ok ==> outcome->Ok_0 == UtcInstant::at_second(timestamp),
{
    time::OffsetDateTime::from_unix_timestamp(timestamp).map(
        |at| UtcInstant { seconds: at.unix_timestamp(), nanoseconds: at.nanosecond() },
    )
}

/// Renders a `time::error::ComponentRange` through its `Display` impl.
///
/// Trusted: nothing is claimed of the text.
#[verifier::external_body]
pub(crate) fn component_range_text(error: &time::error::ComponentRange) -> String {
    error.to_string()
}

/// Calls `time::OffsetDateTime::now_utc` and reads the result as seconds and
/// nanoseconds.
///
/// Trusted: whatever the clock shows, the value is a representable instant
/// with fewer than a billion nanoseconds; `time` gives up on a clock that
/// shows a time outside the representable range.
#[verifier::external_body]
pub(crate) fn current_instant() -> (now: UtcInstant)
    ensures
        now.wf(),
{
    let now = time::OffsetDateTime::now_utc();
    UtcInstant { seconds: now.unix_timestamp(), nanoseconds: now.nanosecond() }
}

} // verus!
