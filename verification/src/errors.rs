//! The error taxonomy: every failure of the library is one of these.

use vstd::prelude::*;
use crate::timestamp::Field;

verus! {

/// A terminal failure of one run.
///
/// `Usage` is a conflicting or invalid flag combination, detected before
/// any parsing.  `FieldRange` names the field of the positional set-token
/// that is out of range, with the offending value.  `Syntax` carries the
/// input that matched no known grammar, verbatim.  `Template` carries an
/// output template that the renderer rejected.  `Io` carries a message
/// from a failed file or metadata access.  `ClockSet` carries the system
/// error code of a failed clock set, `UnknownReturnCode` an unrecognized
/// result of the clock-set primitive.
#[derive(Clone, Debug, PartialEq, Eq)]
pub enum DateError {
    Usage,
    FieldRange { field: Field, value: i64 },
    Syntax(String),
    Template(String),
    Io(String),
    ClockSet(i32),
    UnknownReturnCode(i32),
}

} // verus!
