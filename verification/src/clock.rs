//! The clock edge: sampling "now", converting an epoch reading, and
//! classifying the outcome of the clock-set primitive.

use vstd::prelude::*;
use chrono::Datelike;
use chrono::Offset;
use chrono::Timelike;
use crate::errors::DateError;
use crate::timestamp::Timestamp;

verus! {

/// Relies on `SystemTime::now` with chrono's `DateTime::from_timestamp`
/// and, for local time, `Local`'s offset lookup: a clock reading at or
/// after the Unix epoch becomes a valid calendar point, in UTC or local
/// time per the flag, and a UTC sample carries a zero offset; a reading
/// before the epoch yields `None` instead of a panic.  Nothing more can
/// be said of a clock reading.
#[verifier::external_body]
fn sample_now(utc: bool) -> (r: Option<Timestamp>)
    ensures
        r matches Some(t) ==> (t.wf() && (utc ==> t.offset_seconds == 0)),
{
    let elapsed = std::time::SystemTime::now().duration_since(std::time::UNIX_EPOCH).ok()?;
    let base = chrono::DateTime::from_timestamp(elapsed.as_secs() as i64, elapsed.subsec_nanos())?;
    let dt = if utc { base.fixed_offset() } else { base.with_timezone(&chrono::Local).fixed_offset() };
    Some(Timestamp {
        year: dt.year(), month: dt.month(), day: dt.day(), hour: dt.hour(),
        minute: dt.minute(), second: dt.second(), nanosecond: dt.nanosecond(),
        offset_seconds: dt.offset().fix().local_minus_utc(),
    })
}

/// Samples "now" once, in UTC or local time per the flag; `None` only for
/// a clock reading the calendar cannot carry (before the Unix epoch or
/// out of range).  The sample is taken exactly once per run and passed
/// explicitly to every consumer.
pub fn get_now(utc: bool) -> (r: Option<Timestamp>)
    ensures
        r matches Some(t) ==> (t.wf() && (utc ==> t.offset_seconds == 0)),
{
    sample_now(utc)
}

/// What the calendar makes of an epoch reading: the UTC calendar point,
/// or nothing where the reading lies outside the supported range.  The
/// result depends on the reading alone.
pub uninterp spec fn civil_of_epoch(secs: int, nanos: int) -> Option<Timestamp>;

/// Relies on chrono's `DateTime::from_timestamp`: seconds and nanoseconds
/// since the epoch become a valid calendar point at offset zero, or
/// `None` outside the supported range.
#[verifier::external_body]
pub(crate) fn epoch_exec(secs: i64, nanos: u32) -> (r: Option<Timestamp>)
    ensures
        r == civil_of_epoch(secs as int, nanos as int),
        r matches Some(t) ==> t.wf() && t.offset_seconds == 0,
{
    let dt = chrono::DateTime::from_timestamp(secs, nanos)?.fixed_offset();
    Some(Timestamp {
        year: dt.year(),
        month: dt.month(),
        day: dt.day(),
        hour: dt.hour(),
        minute: dt.minute(),
        second: dt.second(),
        nanosecond: dt.nanosecond(),
        offset_seconds: dt.offset().fix().local_minus_utc(),
    })
}

/// Classifies what the clock-set primitive returned: zero is success,
/// minus one carries the system error code, anything else is an
/// unrecognized return value.
pub fn clock_set_outcome(retcode: i32, error_code: i32) -> (r: Result<(), DateError>)
    ensures
        retcode == 0 ==> r == Ok::<(), DateError>(()),
        retcode == -1 ==> r == Err::<(), DateError>(DateError::ClockSet(error_code)),
        retcode != 0 && retcode != -1 ==> r == Err::<(), DateError>(
            DateError::UnknownReturnCode(retcode),
        ),
{
    if retcode == 0 {
        Ok(())
    } else if retcode == -1 {
        Err(DateError::ClockSet(error_code))
    } else {
        Err(DateError::UnknownReturnCode(retcode))
    }
}

} // verus!
