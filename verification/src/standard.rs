//! The free-form date-time parser: an ordered fallback chain over the two
//! standard grammars, RFC 2822 first, then RFC 3339.
//!
//! The grammars themselves are recognized by `chrono`; what each accepts
//! is named, not restated, and the chain around them is verified.

use vstd::prelude::*;
use chrono::Datelike;
use chrono::Offset;
use chrono::Timelike;
use crate::errors::DateError;
use crate::timestamp::Timestamp;

verus! {

/// What the RFC 2822 grammar makes of a string: the parsed calendar point
/// with its offset, or nothing.  The result depends on the characters
/// alone.
pub uninterp spec fn rfc2822_parsed(s: Seq<char>) -> Option<Timestamp>;

/// What the RFC 3339 grammar makes of a string: the parsed calendar point
/// with its offset, or nothing.  The result depends on the characters
/// alone.
pub uninterp spec fn rfc3339_parsed(s: Seq<char>) -> Option<Timestamp>;

/// Relies on chrono's `DateTime::parse_from_rfc2822`: recognizes the RFC
/// 2822 grammar and returns a valid calendar point with the parsed
/// offset; the `Datelike`/`Timelike` accessors read its fields.
#[verifier::external_body]
fn rfc2822_exec(s: &str) -> (r: Option<Timestamp>)
    ensures
        r == rfc2822_parsed(s@),
        r matches Some(t) ==> t.wf(),
{
    match chrono::DateTime::parse_from_rfc2822(s) {
        Ok(dt) => Some(Timestamp {
            year: dt.year(),
            month: dt.month(),
            day: dt.day(),
            hour: dt.hour(),
            minute: dt.minute(),
            second: dt.second(),
            nanosecond: dt.nanosecond(),
            offset_seconds: dt.offset().fix().local_minus_utc(),
        }),
        Err(_) => None,
    }
}

/// Relies on chrono's `DateTime::parse_from_rfc3339`: recognizes the RFC
/// 3339 grammar and returns a valid calendar point with the parsed
/// offset; the `Datelike`/`Timelike` accessors read its fields.
#[verifier::external_body]
fn rfc3339_exec(s: &str) -> (r: Option<Timestamp>)
    ensures
        r == rfc3339_parsed(s@),
        r matches Some(t) ==> t.wf(),
{
    match chrono::DateTime::parse_from_rfc3339(s) {
        Ok(dt) => Some(Timestamp {
            year: dt.year(),
            month: dt.month(),
            day: dt.day(),
            hour: dt.hour(),
            minute: dt.minute(),
            second: dt.second(),
            nanosecond: dt.nanosecond(),
            offset_seconds: dt.offset().fix().local_minus_utc(),
        }),
        Err(_) => None,
    }
}

/// The meaning of the fallback chain: the first grammar that matches
/// wins, in the fixed order RFC 2822 then RFC 3339.
pub open spec fn spec_standard_parsed(s: Seq<char>) -> Option<Timestamp> {
    if rfc2822_parsed(s) is Some {
        rfc2822_parsed(s)
    } else {
        rfc3339_parsed(s)
    }
}

/// Parses a free-form string against the ordered grammar list, keeping
/// the first match's offset; a string neither grammar accepts is a syntax
/// error carrying the string verbatim.
pub fn parse_standard(s: &str) -> (r: Result<Timestamp, DateError>)
    ensures
        spec_standard_parsed(s@) matches Some(t) ==> (r == Ok::<Timestamp, DateError>(t)
            && t.wf()),
        spec_standard_parsed(s@) is None ==> (r matches Err(e) && e matches DateError::Syntax(orig)
            && orig@ == s@),
{
    match rfc2822_exec(s) {
        Some(t) => Ok(t),
        None => match rfc3339_exec(s) {
            Some(t) => Ok(t),
            None => Err(DateError::Syntax(s.to_owned())),
        },
    }
}

} // verus!
