//! Executing the print side of a resolved action: one formatted line per
//! produced timestamp, fail-fast over a date-file's lines.

use vstd::prelude::*;
use crate::clock::civil_of_epoch;
use crate::clock::epoch_exec;
use crate::errors::DateError;
use crate::render::format_timestamp;
use crate::render::rendered;
use crate::standard::parse_standard;
use crate::standard::spec_standard_parsed;
use crate::template::Format;
use crate::template::make_format_string;
use crate::template::spec_template;
use crate::timestamp::Timestamp;

verus! {

/// `r` is the line the renderer owes for `t` under format `f`, or the
/// error naming the rejected template.
pub open spec fn spec_rendered_line(t: Timestamp, f: Format, r: Result<String, DateError>) -> bool {
    match rendered(spec_template(f), t) {
        Some(out) => r matches Ok(l) && l@ == out,
        None => r matches Err(e) && e matches DateError::Template(tp) && tp@ == spec_template(f),
    }
}

/// `r` is the outcome one free-form input line is owed: its parse's
/// rendered line, or the first error along the way.
pub open spec fn spec_line(s: Seq<char>, f: Format, r: Result<String, DateError>) -> bool {
    match spec_standard_parsed(s) {
        Some(t) => spec_rendered_line(t, f, r),
        None => r matches Err(e) && e matches DateError::Syntax(orig) && orig@ == s,
    }
}

/// Renders one already-sampled timestamp (the "now" date source).
pub fn now_line(now: &Timestamp, format: &Format) -> (r: Result<String, DateError>)
    requires
        now.wf(),
    ensures
        spec_rendered_line(*now, *format, r),
{
    match format_timestamp(now, format) {
        Some(l) => Ok(l),
        None => Err(DateError::Template(make_format_string(format).to_owned())),
    }
}

/// Parses one free-form input line and renders it (the custom-string date
/// source, and each line of a date-file).
pub fn date_line(input: &str, format: &Format) -> (r: Result<String, DateError>)
    ensures
        spec_line(input@, *format, r),
{
    match parse_standard(input) {
        Ok(t) => match format_timestamp(&t, format) {
            Some(l) => Ok(l),
            None => Err(DateError::Template(make_format_string(format).to_owned())),
        },
        Err(e) => Err(e),
    }
}

/// Parses and renders a date-file's lines in file order, fail-fast: the
/// rendered lines are exactly the longest successful prefix, and the
/// error, if any, is the first failing line's; no later line contributes.
pub fn date_lines(lines: &Vec<String>, format: &Format) -> (r: (Vec<String>, Option<DateError>))
    ensures
        r.0@.len() <= lines@.len(),
        forall|j: int|
            0 <= j < r.0@.len() ==> spec_line(
                lines@[j]@,
                *format,
                Ok::<String, DateError>(#[trigger] r.0@[j]),
            ),
        r.1 is None ==> r.0@.len() == lines@.len(),
        r.1 matches Some(e) ==> r.0@.len() < lines@.len() && spec_line(
            lines@[r.0@.len() as int]@,
            *format,
            Err::<String, DateError>(e),
        ),
{
    let mut out: Vec<String> = Vec::new();
    let mut i: usize = 0;
    while i < lines.len()
        invariant
            i <= lines@.len(),
            out@.len() == i,
            forall|j: int|
                0 <= j < i ==> spec_line(
                    lines@[j]@,
                    *format,
                    Ok::<String, DateError>(#[trigger] out@[j]),
                ),
        decreases lines@.len() - i,
    {
        match date_line(lines[i].as_str(), format) {
            Ok(l) => {
                out.push(l);
                i += 1;
            },
            Err(e) => {
                return (out, Some(e));
            },
        }
    }
    (out, None)
}

/// Converts a file's last-modified epoch reading to a UTC calendar point
/// and renders it (the reference-file date source); a reading outside the
/// calendar's range is an access error.
pub fn reference_line(secs: i64, nanos: u32, format: &Format) -> (r: Result<String, DateError>)
    ensures
        match civil_of_epoch(secs as int, nanos as int) {
            Some(t) => spec_rendered_line(t, *format, r),
            None => r matches Err(e) && e matches DateError::Io(m) && m@
                == "file modification time out of range"@,
        },
{
    match epoch_exec(secs, nanos) {
        Some(t) => match format_timestamp(&t, format) {
            Some(l) => Ok(l),
            None => Err(DateError::Template(make_format_string(format).to_owned())),
        },
        None => Err(DateError::Io("file modification time out of range".to_owned())),
    }
}

} // verus!
