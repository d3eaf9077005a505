//! A verified core for a `date`-style command line utility.
//!
//! The library resolves raw flag state into a single validated action,
//! parses the fixed-width positional `MMDDhhmm[[CC]YY][.ss]` token,
//! tries the standard date-time grammars against free-form strings,
//! maps a format selection to an output template, and classifies the
//! outcome of the clock-set primitive.  Clock sampling, rendering and
//! grammar recognition are delegated to the `chrono` crate behind
//! trusted declarations; everything else is verified.

mod clock;
mod errors;
mod executor;
mod positional;
mod render;
mod settings;
mod standard;
mod template;
mod timestamp;

pub use clock::civil_of_epoch;
pub use clock::clock_set_outcome;
pub use clock::get_now;
pub use errors::DateError;
pub use executor::date_line;
pub use executor::date_lines;
pub use executor::now_line;
pub use executor::reference_line;
pub use executor::spec_line;
pub use executor::spec_rendered_line;
pub use positional::PositionalOutcome;
pub use positional::lemma_positional_explicit_century;
pub use positional::lemma_positional_inherits_year;
pub use positional::lemma_positional_keeps_century;
pub use positional::parse_positional;
pub use positional::spec_positional;
pub use render::format_timestamp;
pub use render::rendered;
pub use settings::CliOptions;
pub use settings::DateSource;
pub use settings::Settings;
pub use settings::lemma_date_file_conflict;
pub use settings::lemma_set_iff_set_flag;
pub use settings::lemma_set_date_conflict;
pub use settings::parse_iso_precision;
pub use settings::parse_rfc3339_precision;
pub use settings::resolve;
pub use settings::spec_resolved;
pub use settings::spec_usage_conflict;
pub use standard::parse_standard;
pub use standard::rfc2822_parsed;
pub use standard::rfc3339_parsed;
pub use standard::spec_standard_parsed;
pub use template::Format;
pub use template::Iso8601Format;
pub use template::Rfc3339Format;
pub use template::make_format_string;
pub use template::spec_template;
pub use timestamp::Field;
pub use timestamp::Timestamp;
pub use timestamp::days_in_month;
pub use timestamp::is_leap_year;
pub use timestamp::spec_days_in_month;
pub use timestamp::spec_is_leap_year;
