//! The settings resolver: combines raw flag state into one validated
//! action descriptor, enforcing the mutual-exclusivity rules before any
//! parsing is attempted.

use vstd::prelude::*;
use crate::errors::DateError;
use crate::positional::PositionalOutcome;
use crate::positional::parse_positional;
use crate::positional::spec_positional;
use crate::standard::parse_standard;
use crate::standard::spec_standard_parsed;
use crate::template::Format;
use crate::template::Iso8601Format;
use crate::template::Rfc3339Format;
use crate::timestamp::Timestamp;

verus! {

/// Raw flag presence and values, as the command line hands them over.
///
/// `iso8601_present` says the flag was given at all; `iso8601_value` its
/// precision value where one was attached.
pub struct CliOptions {
    pub utc: bool,
    pub date: Option<String>,
    pub file: Option<String>,
    pub reference: Option<String>,
    pub iso8601_present: bool,
    pub iso8601_value: Option<String>,
    pub rfc2822: bool,
    pub rfc3339_value: Option<String>,
    pub custom_format: Option<String>,
    pub set: Option<String>,
    pub positional_set: Option<String>,
}

/// Where the timestamps to print come from; exactly one is active.
#[derive(Clone, Debug, PartialEq, Eq)]
pub enum DateSource {
    Now,
    Custom(String),
    File(String),
    Reference(String),
}

/// The validated action descriptor of one run: `set_to` is populated
/// exactly when the action is "set".
pub struct Settings {
    pub utc: bool,
    pub date_source: DateSource,
    pub format: Format,
    pub set_to: Option<Timestamp>,
}

/// Character-by-character string equality.
fn str_eq(a: &str, b: &str) -> (r: bool)
    ensures
        r == (a@ == b@),
{
    let na = a.unicode_len();
    let nb = b.unicode_len();
    if na != nb {
        assert(a@ != b@) by {
            if a@ == b@ {
                assert(a@.len() == b@.len());
            }
        }
        return false;
    }
    let mut i: usize = 0;
    while i < na
        invariant
            i <= na,
            na == a@.len(),
            na == b@.len(),
            forall|j: int| 0 <= j < i ==> a@[j] == b@[j],
        decreases na - i,
    {
        if a.get_char(i) != b.get_char(i) {
            return false;
        }
        i += 1;
    }
    proof {
        assert(a@ =~= b@);
    }
    true
}

/// The precision an ISO 8601 value selects, or nothing for an unknown
/// value.
pub open spec fn spec_iso_precision(s: Seq<char>) -> Option<Iso8601Format> {
    if s == "date"@ {
        Some(Iso8601Format::Date)
    } else if s == "hours"@ {
        Some(Iso8601Format::Hours)
    } else if s == "minutes"@ {
        Some(Iso8601Format::Minutes)
    } else if s == "seconds"@ {
        Some(Iso8601Format::Seconds)
    } else if s == "ns"@ {
        Some(Iso8601Format::Ns)
    } else {
        None
    }
}

/// The precision an RFC 3339 value selects, or nothing for an unknown
/// value.
pub open spec fn spec_rfc3339_precision(s: Seq<char>) -> Option<Rfc3339Format> {
    if s == "date"@ {
        Some(Rfc3339Format::Date)
    } else if s == "seconds"@ {
        Some(Rfc3339Format::Seconds)
    } else if s == "ns"@ {
        Some(Rfc3339Format::Ns)
    } else {
        None
    }
}

/// Parses an ISO 8601 precision value.
pub fn parse_iso_precision(s: &str) -> (r: Option<Iso8601Format>)
    ensures
        r == spec_iso_precision(s@),
{
    if str_eq(s, "date") {
        Some(Iso8601Format::Date)
    } else if str_eq(s, "hours") {
        Some(Iso8601Format::Hours)
    } else if str_eq(s, "minutes") {
        Some(Iso8601Format::Minutes)
    } else if str_eq(s, "seconds") {
        Some(Iso8601Format::Seconds)
    } else if str_eq(s, "ns") {
        Some(Iso8601Format::Ns)
    } else {
        None
    }
}

/// Parses an RFC 3339 precision value.
pub fn parse_rfc3339_precision(s: &str) -> (r: Option<Rfc3339Format>)
    ensures
        r == spec_rfc3339_precision(s@),
{
    if str_eq(s, "date") {
        Some(Rfc3339Format::Date)
    } else if str_eq(s, "seconds") {
        Some(Rfc3339Format::Seconds)
    } else if str_eq(s, "ns") {
        Some(Rfc3339Format::Ns)
    } else {
        None
    }
}

/// How many of the print-source flags are present.
pub open spec fn print_source_count(o: CliOptions) -> int {
    (if o.date is Some {
        1int
    } else {
        0int
    }) + (if o.file is Some {
        1int
    } else {
        0int
    }) + (if o.reference is Some {
        1int
    } else {
        0int
    })
}

/// How many of the output-format flags are present.
pub open spec fn format_flag_count(o: CliOptions) -> int {
    (if o.custom_format is Some {
        1int
    } else {
        0int
    }) + (if o.iso8601_present || o.iso8601_value is Some {
        1int
    } else {
        0int
    }) + (if o.rfc2822 {
        1int
    } else {
        0int
    }) + (if o.rfc3339_value is Some {
        1int
    } else {
        0int
    })
}

/// How many of the set-time flags are present.
pub open spec fn set_group_count(o: CliOptions) -> int {
    (if o.set is Some {
        1int
    } else {
        0int
    }) + (if o.positional_set is Some {
        1int
    } else {
        0int
    })
}

/// A conflicting flag combination: the set group together with a print
/// source, two of one group, or two format selections.
pub open spec fn spec_usage_conflict(o: CliOptions) -> bool {
    ||| set_group_count(o) >= 1 && print_source_count(o) >= 1
    ||| set_group_count(o) > 1
    ||| print_source_count(o) > 1
    ||| format_flag_count(o) > 1
}

/// Every format flag value is well-formed: a custom format starts with a
/// literal `+`, precision values name a known precision.
pub open spec fn spec_format_valid(o: CliOptions) -> bool {
    &&& (o.custom_format matches Some(f) ==> f@.len() >= 1 && f@[0] == '+')
    &&& (o.iso8601_value matches Some(v) ==> spec_iso_precision(v@) is Some)
    &&& (o.rfc3339_value matches Some(v) ==> spec_rfc3339_precision(v@) is Some)
}

/// The format the flags select, first match in a fixed order; the leading
/// `+` of a custom format is stripped before storage.
pub open spec fn spec_format_choice(o: CliOptions, f: Format) -> bool {
    if o.custom_format is Some {
        f matches Format::Custom(t) && t@ == o.custom_format->Some_0@.skip(1)
    } else if o.iso8601_value is Some {
        f == Format::Iso8601(spec_iso_precision(o.iso8601_value->Some_0@).unwrap())
    } else if o.iso8601_present {
        f == Format::Iso8601(Iso8601Format::Date)
    } else if o.rfc2822 {
        f == Format::Rfc2822
    } else if o.rfc3339_value is Some {
        f == Format::Rfc3339(spec_rfc3339_precision(o.rfc3339_value->Some_0@).unwrap())
    } else {
        f == Format::Default
    }
}

/// The date source the flags select, first match in a fixed order.
pub open spec fn spec_source_choice(o: CliOptions, d: DateSource) -> bool {
    if o.date is Some {
        d matches DateSource::Custom(t) && t@ == o.date->Some_0@
    } else if o.file is Some {
        d matches DateSource::File(q) && q@ == o.file->Some_0@
    } else if o.reference is Some {
        d matches DateSource::Reference(q) && q@ == o.reference->Some_0@
    } else {
        d == DateSource::Now
    }
}

/// The flag-derived fields of a resolved Settings.
pub open spec fn spec_settings_fields(o: CliOptions, st: Settings) -> bool {
    &&& st.utc == o.utc
    &&& spec_format_choice(o, st.format)
    &&& spec_source_choice(o, st.date_source)
}

/// What resolving must yield: a usage error on any conflicting or invalid
/// flag combination, before any parsing; else the set-token's parse
/// outcome decides, and a validated Settings carries the choices.
pub open spec fn spec_resolved(o: CliOptions, now: Timestamp, r: Result<Settings, DateError>) -> bool {
    if spec_usage_conflict(o) || !spec_format_valid(o) {
        r == Err::<Settings, DateError>(DateError::Usage)
    } else if o.positional_set is Some {
        let tok = o.positional_set->Some_0;
        match spec_positional(tok@, now) {
            PositionalOutcome::Parsed(t) => r matches Ok(st) && spec_settings_fields(o, st)
                && st.set_to == Some(t),
            PositionalOutcome::BadField(f, v) => r == Err::<Settings, DateError>(
                DateError::FieldRange { field: f, value: v },
            ),
            PositionalOutcome::BadSyntax => r matches Err(e) && e matches DateError::Syntax(orig)
                && orig@ == tok@,
        }
    } else if o.set is Some {
        let sv = o.set->Some_0;
        match spec_standard_parsed(sv@) {
            Some(t) => r matches Ok(st) && spec_settings_fields(o, st) && st.set_to == Some(t),
            None => r matches Err(e) && e matches DateError::Syntax(orig) && orig@ == sv@,
        }
    } else {
        r matches Ok(st) && spec_settings_fields(o, st) && st.set_to is None
    }
}

/// Resolves raw flag state into one validated action descriptor, exactly
/// as [`spec_resolved`] states.
pub fn resolve(opts: &CliOptions, now: &Timestamp) -> (r: Result<Settings, DateError>)
    requires
        now.wf(),
    ensures
        spec_resolved(*opts, *now, r),
{
    let print_count: u32 = (if opts.date.is_some() {
        1
    } else {
        0
    }) + (if opts.file.is_some() {
        1
    } else {
        0
    }) + (if opts.reference.is_some() {
        1
    } else {
        0
    });
    let format_count: u32 = (if opts.custom_format.is_some() {
        1
    } else {
        0
    }) + (if opts.iso8601_present || opts.iso8601_value.is_some() {
        1
    } else {
        0
    }) + (if opts.rfc2822 {
        1
    } else {
        0
    }) + (if opts.rfc3339_value.is_some() {
        1
    } else {
        0
    });
    let set_count: u32 = (if opts.set.is_some() {
        1
    } else {
        0
    }) + (if opts.positional_set.is_some() {
        1
    } else {
        0
    });
    if set_count >= 1 && print_count >= 1 {
        return Err(DateError::Usage);
    }
    if set_count > 1 || print_count > 1 || format_count > 1 {
        return Err(DateError::Usage);
    }

    let format: Format = if let Some(c) = &opts.custom_format {
        let cs = c.as_str();
        let n = cs.unicode_len();
        if n < 1 {
            return Err(DateError::Usage);
        }
        if cs.get_char(0) != '+' {
            return Err(DateError::Usage);
        }
        let stripped = cs.substring_char(1, n);
        proof {
            assert(stripped@ =~= c@.skip(1));
        }
        Format::Custom(stripped.to_owned())
    } else if let Some(v) = &opts.iso8601_value {
        match parse_iso_precision(v.as_str()) {
            Some(p) => Format::Iso8601(p),
            None => {
                return Err(DateError::Usage);
            },
        }
    } else if opts.iso8601_present {
        Format::Iso8601(Iso8601Format::Date)
    } else if opts.rfc2822 {
        Format::Rfc2822
    } else if let Some(v) = &opts.rfc3339_value {
        match parse_rfc3339_precision(v.as_str()) {
            Some(p) => Format::Rfc3339(p),
            None => {
                return Err(DateError::Usage);
            },
        }
    } else {
        Format::Default
    };

    let date_source: DateSource = if let Some(d) = &opts.date {
        DateSource::Custom(d.clone())
    } else if let Some(f) = &opts.file {
        DateSource::File(f.clone())
    } else if let Some(p) = &opts.reference {
        DateSource::Reference(p.clone())
    } else {
        DateSource::Now
    };

    let set_to: Option<Timestamp> = if let Some(tok) = &opts.positional_set {
        match parse_positional(tok.as_str(), now) {
            Ok(t) => Some(t),
            Err(e) => {
                return Err(e);
            },
        }
    } else if let Some(sv) = &opts.set {
        match parse_standard(sv.as_str()) {
            Ok(t) => Some(t),
            Err(e) => {
                return Err(e);
            },
        }
    } else {
        None
    };

    Ok(Settings { utc: opts.utc, date_source, format, set_to })
}

/// A resolved Settings carries a set-to timestamp exactly when a set flag
/// was given, and a set action leaves the date source at its default: set
/// and print actions are mutually exclusive.
pub proof fn lemma_set_iff_set_flag(o: CliOptions, now: Timestamp, st: Settings)
    requires
        spec_resolved(o, now, Ok(st)),
    ensures
        st.set_to is Some <==> set_group_count(o) >= 1,
        st.set_to is Some ==> st.date_source == DateSource::Now,
{
}

/// Providing both a custom date and a date-file is a usage conflict, and
/// resolving is pure: no file is touched.
pub proof fn lemma_date_file_conflict(o: CliOptions, now: Timestamp, r: Result<Settings, DateError>)
    requires
        o.date is Some,
        o.file is Some,
        spec_resolved(o, now, r),
    ensures
        r == Err::<Settings, DateError>(DateError::Usage),
{
}

/// Providing both a set value and a custom date is a usage conflict.
pub proof fn lemma_set_date_conflict(o: CliOptions, now: Timestamp, r: Result<Settings, DateError>)
    requires
        o.set is Some,
        o.date is Some,
        spec_resolved(o, now, r),
    ensures
        r == Err::<Settings, DateError>(DateError::Usage),
{
}

} // verus!
