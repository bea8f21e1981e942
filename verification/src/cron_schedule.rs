//! Cron schedules. Expressions are written with the five usual fields
//! (minute, hour, day of month, month, day of week); the `cron` crate,
//! which evaluates them, wants a seconds field in front.
//!
//! What a field may hold is for the `cron` crate to say. It reads the
//! numerals of the last field from 1 for Sunday to 7 for Saturday, and
//! knows the days by name as well (`MON`, `TUE`, ...).
use vstd::prelude::*;
use crate::clock::Timestamp;
use crate::text::{append_str, chars_of, string_of};

verus! {

/// The last second after which no schedule is asked for its next firing:
/// the end of the year 9999. The `cron` crate knows no firing after the
/// year 2100.
pub const CRON_HORIZON: i64 = 253_402_300_799;

/// Whether `c` separates the fields of an expression.
pub open spec fn is_blank(c: char) -> bool {
    c == ' ' || c == '\t' || c == '\n' || c == '\r'
}

/// Whether a field starts at position `i` of `s`.
pub open spec fn starts_field(s: Seq<char>, i: int) -> bool {
    0 <= i < s.len() && !is_blank(s[i]) && (i == 0 || is_blank(s[i - 1]))
}

/// The number of fields in `s`: its maximal runs of characters that are
/// not blank.
pub open spec fn field_count(s: Seq<char>) -> nat
    decreases s.len(),
{
    if s.len() == 0 {
        0
    } else {
        field_count(s.drop_last()) + (if starts_field(s, s.len() - 1) {
            1nat
        } else {
            0nat
        })
    }
}

/// The six-field form of a five-field expression: a seconds field of
/// zero in front. Anything but five fields has none.
pub open spec fn six_field_form(expression: Seq<char>) -> Option<Seq<char>> {
    if field_count(expression) == 5 {
        Some("0 "@ + expression)
    } else {
        None
    }
}

/// Whether the `cron` crate accepts an expression.
pub uninterp spec fn cron_parses(expression: Seq<char>) -> bool;

/// The first firing of a schedule after an instant, as the `cron` crate
/// finds it in the named zone; `None` where the expression or the zone
/// is not accepted, or no firing is found.
pub uninterp spec fn cron_firing_after(
    expression: Seq<char>,
    zone: Seq<char>,
    secs: int,
    nanos: int,
) -> Option<Timestamp>;

/// Counts the fields of an expression.
pub fn count_fields(expression: &str) -> (count: usize)
    ensures
        count == field_count(expression@),
{
    let chars = chars_of(expression);
    let mut count: usize = 0;
    let mut i: usize = 0;
    while i < chars.len()
        invariant
            i <= chars.len(),
            count <= i,
            count == field_count(chars@.take(i as int)),
        decreases chars.len() - i,
    {
        let c = chars[i];
        let blank = c == ' ' || c == '\t' || c == '\n' || c == '\r';
        let after_blank = if i == 0 {
            true
        } else {
            let p = chars[i - 1];
            p == ' ' || p == '\t' || p == '\n' || p == '\r'
        };
        proof {
            let next = chars@.take(i + 1);
            assert(next.drop_last() == chars@.take(i as int));
            assert(starts_field(next, i as int) == (!blank && after_blank));
        }
        if !blank && after_blank {
            count += 1;
        }
        i += 1;
    }
    proof {
        assert(chars@.take(chars.len() as int) == chars@);
    }
    count
}

/// Puts a five-field expression into the six-field form.
pub fn six_field_expression(expression: &str) -> (r: Option<String>)
    ensures
        match r {
            Some(six) => six_field_form(expression@) == Some(six@),
            None => six_field_form(expression@) is None,
        },
{
    if count_fields(expression) == 5 {
        let mut chars = chars_of("0 ");
        append_str(&mut chars, expression);
        Some(string_of(&chars))
    } else {
        None
    }
}

/// `str::parse` into `cron::Schedule`: whether the crate accepts the
/// expression, which depends on the expression alone.
#[verifier::external_body]
pub(crate) fn cron_expression_parses(expression: &str) -> (r: bool)
    ensures
        r == cron_parses(expression@),
{
    expression.parse::<::cron::Schedule>().is_ok()
}

/// `cron::Schedule::after` and the first item of the iterator it returns:
/// the schedule's first firing after the instant, in the zone that the
/// name parses to. The instant must not lie beyond `CRON_HORIZON`, so
/// that the second which the crate adds to it can be represented. The
/// result depends on the four values alone.
#[verifier::external_body]
pub(crate) fn next_firing(expression: &str, zone: &str, after: &Timestamp) -> (r: Option<
    Timestamp,
>)
    requires
        after.secs <= CRON_HORIZON,
    ensures
        r == cron_firing_after(expression@, zone@, after.secs as int, after.nanos as int),
{
    let schedule = expression.parse::<::cron::Schedule>().ok()?;
    let tz = zone.parse::<chrono_tz::Tz>().ok()?;
    let start = chrono::DateTime::from_timestamp(after.secs, after.nanos)?.with_timezone(&tz);
    let t = schedule.after(&start).next()?;
    Some(Timestamp { secs: t.timestamp(), nanos: t.timestamp_subsec_nanos() })
}

} // verus!
