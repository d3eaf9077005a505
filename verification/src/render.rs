//! Rendering a timestamp through a strftime-style template.
//!
//! The rendering itself is `chrono`'s; its output is named, not restated.

use vstd::prelude::*;
use core::fmt::Write;
use crate::template::Format;
use crate::template::make_format_string;
use crate::template::spec_template;
use crate::timestamp::Timestamp;

verus! {

/// What the strftime-style renderer makes of a template and a timestamp:
/// the rendered line, or nothing where it rejects the template.  The
/// result depends on the template and the timestamp alone.
pub uninterp spec fn rendered(template: Seq<char>, ts: Timestamp) -> Option<Seq<char>>;

/// Relies on chrono's `DateTime::format` with `NaiveDate`, `NaiveTime`
/// and `FixedOffset` construction from the timestamp's fields; a template
/// the renderer rejects yields `None` instead of a panic.
#[verifier::external_body]
fn render_exec(ts: &Timestamp, template: &str) -> (r: Option<String>)
    requires
        ts.wf(),
    ensures
        r.deep_view() == rendered(template@, *ts),
{
    let date = chrono::NaiveDate::from_ymd_opt(ts.year, ts.month, ts.day)?;
    let time = chrono::NaiveTime::from_hms_nano_opt(ts.hour, ts.minute, ts.second, ts.nanosecond)?;
    let offset = chrono::FixedOffset::east_opt(ts.offset_seconds)?;
    let dt = chrono::NaiveDateTime::new(date, time).and_local_timezone(offset).single()?;
    let mut out = String::new();
    match write!(out, "{}", dt.format(template)) {
        Ok(()) => Some(out),
        Err(_) => None,
    }
}

/// Renders the timestamp with the template its format selection maps to;
/// `None` only where the renderer rejects the template.
pub fn format_timestamp(ts: &Timestamp, format: &Format) -> (r: Option<String>)
    requires
        ts.wf(),
    ensures
        r.deep_view() == rendered(spec_template(*format), *ts),
{
    let template = make_format_string(format);
    render_exec(ts, template)
}

} // verus!
