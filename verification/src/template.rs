//! The format selection and its mapping to an output template string.

use vstd::prelude::*;

verus! {

/// Precision of the ISO 8601 output family.
#[derive(Clone, Copy, Debug, PartialEq, Eq, Structural)]
pub enum Iso8601Format {
    Date,
    Hours,
    Minutes,
    Seconds,
    Ns,
}

/// Precision of the RFC 3339 output family.
#[derive(Clone, Copy, Debug, PartialEq, Eq, Structural)]
pub enum Rfc3339Format {
    Date,
    Seconds,
    Ns,
}

/// The output format selection of one run.
#[derive(Clone, Debug, PartialEq, Eq)]
pub enum Format {
    Iso8601(Iso8601Format),
    Rfc2822,
    Rfc3339(Rfc3339Format),
    Custom(String),
    Default,
}

/// The template each format selection maps to; a custom template passes
/// through verbatim.
pub open spec fn spec_template(f: Format) -> Seq<char> {
    match f {
        Format::Iso8601(Iso8601Format::Date) => "%F"@,
        Format::Iso8601(Iso8601Format::Hours) => "%FT%H%:z"@,
        Format::Iso8601(Iso8601Format::Minutes) => "%FT%H:%M%:z"@,
        Format::Iso8601(Iso8601Format::Seconds) => "%FT%T%:z"@,
        Format::Iso8601(Iso8601Format::Ns) => "%FT%T,%f%:z"@,
        Format::Rfc2822 => "%a, %d %h %Y %T %z"@,
        Format::Rfc3339(Rfc3339Format::Date) => "%F"@,
        Format::Rfc3339(Rfc3339Format::Seconds) => "%F %T%:z"@,
        Format::Rfc3339(Rfc3339Format::Ns) => "%F %T.%f%:z"@,
        Format::Custom(fmt) => fmt@,
        Format::Default => "%a %b %e %T %Z %Y"@,
    }
}

/// Maps the format selection to the template string the renderer consumes.
pub fn make_format_string(format: &Format) -> (r: &str)
    ensures
        r@ == spec_template(*format),
{
    match format {
        Format::Iso8601(Iso8601Format::Date) => "%F",
        Format::Iso8601(Iso8601Format::Hours) => "%FT%H%:z",
        Format::Iso8601(Iso8601Format::Minutes) => "%FT%H:%M%:z",
        Format::Iso8601(Iso8601Format::Seconds) => "%FT%T%:z",
        Format::Iso8601(Iso8601Format::Ns) => "%FT%T,%f%:z",
        Format::Rfc2822 => "%a, %d %h %Y %T %z",
        Format::Rfc3339(Rfc3339Format::Date) => "%F",
        Format::Rfc3339(Rfc3339Format::Seconds) => "%F %T%:z",
        Format::Rfc3339(Rfc3339Format::Ns) => "%F %T.%f%:z",
        Format::Custom(fmt) => fmt.as_str(),
        Format::Default => "%a %b %e %T %Z %Y",
    }
}

} // verus!
