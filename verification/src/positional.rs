//! The fixed-width positional set-token parser.
//!
//! The token is `MMDDhhmm[[CC]YY][.ss]`: four mandatory two-digit fields,
//! then greedily up to two further two-digit groups for year and century,
//! then an optional literal `.` and two digits for seconds.  Missing
//! fields are filled from the "now" sample that the caller passes in.

use vstd::prelude::*;
use vstd::arithmetic::div_mod::lemma_fundamental_div_mod;
use vstd::arithmetic::div_mod::lemma_fundamental_div_mod_converse;
use crate::errors::DateError;
use crate::timestamp::Field;
use crate::timestamp::MAX_YEAR;
use crate::timestamp::MIN_YEAR;
use crate::timestamp::Timestamp;
use crate::timestamp::days_in_month;
use crate::timestamp::spec_days_in_month;

verus! {

/// Whether `c` is a decimal digit.
pub open spec fn is_digit_char(c: char) -> bool {
    48 <= c as u32 <= 57
}

/// The value of the decimal digit `c`.
pub open spec fn digit_val(c: char) -> int {
    c as u32 - 48
}

/// The value of the two-digit group starting at position `i`.
pub open spec fn group_val(s: Seq<char>, i: int) -> int {
    digit_val(s[i]) * 10 + digit_val(s[i + 1])
}

/// Every character of `s` in `[lo, hi)` is a decimal digit.
pub open spec fn digits_at(s: Seq<char>, lo: int, hi: int) -> bool {
    forall|k: int| lo <= k < hi ==> is_digit_char(#[trigger] s[k])
}

/// A two-digit group starts at position `i`.
pub open spec fn has_group(s: Seq<char>, i: int) -> bool {
    i + 2 <= s.len() && digits_at(s, i, i + 2)
}

/// How many optional year groups the greedy scan takes: a group is taken
/// whenever two digits stand where it would start.
pub open spec fn num_year_groups(s: Seq<char>) -> int {
    if has_group(s, 8) {
        if has_group(s, 10) {
            2
        } else {
            1
        }
    } else {
        0
    }
}

/// The position just after the digit groups, where `.ss` may follow.
pub open spec fn body_end(s: Seq<char>) -> int {
    8 + 2 * num_year_groups(s)
}

/// The token carries an explicit seconds suffix.
pub open spec fn has_seconds(s: Seq<char>) -> bool {
    s.len() == body_end(s) + 3 && s[body_end(s)] == '.' && digits_at(
        s,
        body_end(s) + 1,
        body_end(s) + 3,
    )
}

/// The token has one of the accepted shapes; anything else is a syntax
/// failure, distinct from a field-range failure.
pub open spec fn shape_ok(s: Seq<char>) -> bool {
    s.len() >= 8 && digits_at(s, 0, 8) && (s.len() == body_end(s) || has_seconds(s))
}

/// The year the token resolves to: absent groups keep the sampled year,
/// one group replaces the last two digits of it, two groups give century
/// and year outright.
pub open spec fn resolved_year(s: Seq<char>, now: Timestamp) -> int {
    if num_year_groups(s) == 2 {
        group_val(s, 8) * 100 + group_val(s, 10)
    } else if num_year_groups(s) == 1 {
        (now.year as int / 100) * 100 + group_val(s, 8)
    } else {
        now.year as int
    }
}

/// The seconds field of the token; zero when absent.
pub open spec fn token_second(s: Seq<char>) -> int {
    if has_seconds(s) {
        group_val(s, body_end(s) + 1)
    } else {
        0
    }
}

/// What parsing the positional token yields.
pub enum PositionalOutcome {
    Parsed(Timestamp),
    BadField(Field, i64),
    BadSyntax,
}

/// The meaning of the positional token against the "now" sample: the
/// token's shape is checked first, then each field in order, and the
/// result keeps the sample's sub-second part and offset.
pub open spec fn spec_positional(s: Seq<char>, now: Timestamp) -> PositionalOutcome {
    if !shape_ok(s) {
        PositionalOutcome::BadSyntax
    } else {
        let month = group_val(s, 0);
        let day = group_val(s, 2);
        let hour = group_val(s, 4);
        let minute = group_val(s, 6);
        let year = resolved_year(s, now);
        let second = token_second(s);
        if month < 1 || month > 12 {
            PositionalOutcome::BadField(Field::Month, month as i64)
        } else if day < 1 || day > spec_days_in_month(year, month) {
            PositionalOutcome::BadField(Field::Day, day as i64)
        } else if hour > 23 {
            PositionalOutcome::BadField(Field::Hour, hour as i64)
        } else if minute > 59 {
            PositionalOutcome::BadField(Field::Minute, minute as i64)
        } else if year < MIN_YEAR || year > MAX_YEAR {
            PositionalOutcome::BadField(Field::Year, year as i64)
        } else if second > 59 {
            PositionalOutcome::BadField(Field::Second, second as i64)
        } else {
            PositionalOutcome::Parsed(
                Timestamp {
                    year: year as i32,
                    month: month as u32,
                    day: day as u32,
                    hour: hour as u32,
                    minute: minute as u32,
                    second: second as u32,
                    nanosecond: now.nanosecond,
                    offset_seconds: now.offset_seconds,
                },
            )
        }
    }
}

/// The value of the digit at position `i`, or `None` where a non-digit
/// stands.
fn digit_at(s: &str, i: usize) -> (r: Option<u32>)
    requires
        i < s@.len(),
    ensures
        r is Some <==> is_digit_char(s@[i as int]),
        r matches Some(v) ==> v == digit_val(s@[i as int]) && v <= 9,
{
    let c = s.get_char(i);
    let v = c as u32;
    if 48 <= v && v <= 57 {
        Some(v - 48)
    } else {
        None
    }
}

/// The value of the two-digit group at position `i`, or `None` where one
/// of the two characters is not a digit.
fn group_at(s: &str, i: usize) -> (r: Option<u32>)
    requires
        i + 2 <= s@.len(),
        i + 2 <= usize::MAX,
    ensures
        r is Some <==> digits_at(s@, i as int, i as int + 2),
        r matches Some(v) ==> v == group_val(s@, i as int) && v <= 99,
{
    let a = digit_at(s, i);
    let b = digit_at(s, i + 1);
    match (a, b) {
        (Some(x), Some(y)) => {
            assert(digits_at(s@, i as int, i as int + 2)) by {
                assert forall|k: int| i <= k < i + 2 implies is_digit_char(#[trigger] s@[k]) by {
                    if k == i as int {
                    } else {
                        assert(k == i as int + 1);
                    }
                }
            }
            Some(x * 10 + y)
        },
        _ => {
            assert(!digits_at(s@, i as int, i as int + 2));
            None
        },
    }
}

/// Parses the positional set-token `MMDDhhmm[[CC]YY][.ss]` against the
/// "now" sample, exactly as [`spec_positional`] states: a malformed shape
/// is a syntax error carrying the token verbatim, an out-of-range field a
/// range error naming the field and value.
pub fn parse_positional(s: &str, now: &Timestamp) -> (r: Result<Timestamp, DateError>)
    requires
        now.wf(),
    ensures
        match spec_positional(s@, *now) {
            PositionalOutcome::Parsed(t) => r == Ok::<Timestamp, DateError>(t),
            PositionalOutcome::BadField(f, v) => r == Err::<Timestamp, DateError>(
                DateError::FieldRange { field: f, value: v },
            ),
            PositionalOutcome::BadSyntax => r matches Err(e) && e matches DateError::Syntax(orig)
                && orig@ == s@,
        },
        r matches Ok(t) ==> t.wf(),
{
    let n = s.unicode_len();
    if n < 8 {
        assert(!shape_ok(s@));
        return Err(DateError::Syntax(s.to_owned()));
    }
    let m0 = group_at(s, 0);
    let m2 = group_at(s, 2);
    let m4 = group_at(s, 4);
    let m6 = group_at(s, 6);
    let (month, day, hour, minute) = match (m0, m2, m4, m6) {
        (Some(a), Some(b), Some(c), Some(d)) => (a, b, c, d),
        _ => {
            assert(!digits_at(s@, 0, 8));
            return Err(DateError::Syntax(s.to_owned()));
        },
    };
    assert(digits_at(s@, 0, 8)) by {
        assert forall|k: int| 0 <= k < 8 implies is_digit_char(#[trigger] s@[k]) by {
            if k < 2 {
                assert(digits_at(s@, 0, 2));
            } else if k < 4 {
                assert(digits_at(s@, 2, 4));
            } else if k < 6 {
                assert(digits_at(s@, 4, 6));
            } else {
                assert(digits_at(s@, 6, 8));
            }
        }
    }

    let g1 = if n >= 10 {
        group_at(s, 8)
    } else {
        None
    };
    let g2 = match g1 {
        Some(_) => if n >= 12 {
            group_at(s, 10)
        } else {
            None
        },
        None => None,
    };
    assert(g1 is Some <==> has_group(s@, 8));
    assert(g1 is Some ==> (g2 is Some <==> has_group(s@, 10)));

    let be: usize = if g1.is_some() {
        if g2.is_some() {
            12
        } else {
            10
        }
    } else {
        8
    };
    assert(be as int == body_end(s@));

    let second: u32;
    if n == be {
        assert(!has_seconds(s@));
        second = 0;
    } else if n == be + 3 {
        let c = s.get_char(be);
        if c == '.' {
            match group_at(s, be + 1) {
                Some(v) => {
                    assert(has_seconds(s@));
                    second = v;
                },
                None => {
                    assert(!has_seconds(s@) && s@.len() != body_end(s@));
                    return Err(DateError::Syntax(s.to_owned()));
                },
            }
        } else {
            assert(!has_seconds(s@) && s@.len() != body_end(s@));
            return Err(DateError::Syntax(s.to_owned()));
        }
    } else {
        assert(!has_seconds(s@) && s@.len() != body_end(s@));
        return Err(DateError::Syntax(s.to_owned()));
    }
    assert(shape_ok(s@));
    assert(second as int == token_second(s@));

    let year: i32 = match (g1, g2) {
        (Some(a), Some(b)) => (a * 100 + b) as i32,
        (Some(a), None) => {
            let base = now.year.checked_div_euclid(100).unwrap();
            proof {
                lemma_fundamental_div_mod(now.year as int, 100);
            }
            base * 100 + (a as i32)
        },
        (None, _) => now.year,
    };
    assert(year as int == resolved_year(s@, *now));

    if month < 1 || month > 12 {
        return Err(DateError::FieldRange { field: Field::Month, value: month as i64 });
    }
    if day < 1 || day > days_in_month(year, month) {
        return Err(DateError::FieldRange { field: Field::Day, value: day as i64 });
    }
    if hour > 23 {
        return Err(DateError::FieldRange { field: Field::Hour, value: hour as i64 });
    }
    if minute > 59 {
        return Err(DateError::FieldRange { field: Field::Minute, value: minute as i64 });
    }
    if year < MIN_YEAR || year > MAX_YEAR {
        return Err(DateError::FieldRange { field: Field::Year, value: year as i64 });
    }
    if second > 59 {
        return Err(DateError::FieldRange { field: Field::Second, value: second as i64 });
    }
    Ok(
        Timestamp {
            year,
            month,
            day,
            hour,
            minute,
            second,
            nanosecond: now.nanosecond,
            offset_seconds: now.offset_seconds,
        },
    )
}

/// For any valid eight-digit positional input the parsed year equals the
/// sampled "now" year and the second equals zero.
pub proof fn lemma_positional_inherits_year(s: Seq<char>, now: Timestamp, t: Timestamp)
    requires
        s.len() == 8,
        spec_positional(s, now) == PositionalOutcome::Parsed(t),
    ensures
        t.year == now.year,
        t.second == 0,
{
}

/// For any valid input with exactly one year group, the parsed year keeps
/// the sampled century and takes the group as its last two digits.
pub proof fn lemma_positional_keeps_century(s: Seq<char>, now: Timestamp, t: Timestamp)
    requires
        now.wf(),
        num_year_groups(s) == 1,
        spec_positional(s, now) == PositionalOutcome::Parsed(t),
    ensures
        t.year as int % 100 == group_val(s, 8),
        t.year as int / 100 == now.year as int / 100,
{
    let q = now.year as int / 100;
    let g = group_val(s, 8);
    assert(0 <= g <= 99);
    lemma_fundamental_div_mod(now.year as int, 100);
    assert(crate::timestamp::MIN_YEAR <= now.year <= crate::timestamp::MAX_YEAR);
    assert(-262244 <= q * 100 <= 262143);
    assert(t.year as int == q * 100 + g);
    lemma_fundamental_div_mod_converse(q * 100 + g, 100, q, g);
}

/// For any valid input with two year groups, the parsed year is exactly
/// century times one hundred plus the two-digit year.
pub proof fn lemma_positional_explicit_century(s: Seq<char>, now: Timestamp, t: Timestamp)
    requires
        num_year_groups(s) == 2,
        spec_positional(s, now) == PositionalOutcome::Parsed(t),
    ensures
        t.year as int == group_val(s, 8) * 100 + group_val(s, 10),
{
}

} // verus!
