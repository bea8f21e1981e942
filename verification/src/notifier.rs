//! The text of notifications. Sending them is left to the caller.
use vstd::prelude::*;
use crate::decimal::{fixed_one_text, Decimal};
use crate::runner::{
    ErrorCategory, ErrorCategoryView, RunDuration, RunOutcome, RunOutcomeView, SpeedtestResult,
};
use crate::text::{
    append_decimal, append_signed, append_str, chars_of, decimal_digits, signed_digits, string_of,
};

verus! {

/// A notification ready to be sent.
#[derive(Clone, Debug, PartialEq, Eq)]
pub struct Notification {
    pub title: String,
    pub message: String,
}

/// The message for a failed run.
pub open spec fn failure_message(error: ErrorCategoryView) -> Seq<char> {
    match error {
        ErrorCategoryView::Timeout(seconds) => "timeout after "@ + decimal_digits(seconds as nat)
            + "s"@,
        ErrorCategoryView::CommandNotFound(name) => "command not found: "@ + name,
        ErrorCategoryView::CommandFailed(code) => "exit="@ + signed_digits(code as int),
        ErrorCategoryView::InvalidOutput(detail) => "invalid output: "@ + detail,
        ErrorCategoryView::MissingFields(names) => "missing fields: "@ + names,
        ErrorCategoryView::Internal(detail) => "internal error: "@ + detail,
    }
}

/// The line for an optional reading: empty where there is none.
pub open spec fn optional_line(label: Seq<char>, value: Option<Decimal>, shift: int, unit: Seq<
    char,
>) -> Seq<char> {
    match value {
        Some(d) => label + fixed_one_text(d, shift) + unit,
        None => Seq::empty(),
    }
}

/// The message for a successful run: download and upload in megabits per
/// second, latency in milliseconds, the run's whole seconds, and, where
/// they were measured, jitter in milliseconds and packet loss in percent.
/// Each reading is rounded to one digit behind the point.
pub open spec fn success_message(result: SpeedtestResult, duration: RunDuration) -> Seq<char> {
    "⬇️ Download: "@ + fixed_one_text(result.download_bps, -6) + " Mbps\n⬆️ Upload: "@
        + fixed_one_text(result.upload_bps, -6) + " Mbps\n📡 Ping: "@ + fixed_one_text(
        result.latency_seconds,
        3,
    ) + " ms\n⏱️ Duration: "@ + decimal_digits(duration.secs as nat) + "s"@ + optional_line(
        "\n📊 Jitter: "@,
        result.jitter_seconds,
        3,
        " ms"@,
    ) + optional_line("\n📉 Loss: "@, result.packet_loss_ratio, 2, "%"@)
}

/// The title of a notification: the configured title and a mark that
/// tells success from failure.
pub open spec fn notification_title(title: Seq<char>, outcome: RunOutcomeView) -> Seq<char> {
    match outcome {
        RunOutcomeView::Success(_) => title + " ✅"@,
        RunOutcomeView::Failure(_) => title + " ❌"@,
    }
}

/// The message of a notification for an outcome.
pub open spec fn notification_message(outcome: RunOutcomeView, duration: RunDuration) -> Seq<
    char,
> {
    match outcome {
        RunOutcomeView::Success(result) => success_message(result, duration),
        RunOutcomeView::Failure(error) => failure_message(error),
    }
}

/// Appends a reading rounded to one digit behind the point.
fn append_fixed_one(out: &mut Vec<char>, value: &Decimal, shift: i32)
    ensures
        final(out)@ == old(out)@ + fixed_one_text(*value, shift as int),
{
    let text = value.to_fixed_one(shift);
    append_str(out, text.as_str());
}

/// Formats the message for a successful run.
pub fn format_success_message(result: &SpeedtestResult, duration: RunDuration) -> (out: String)
    ensures
        out@ == success_message(*result, duration),
{
    let mut chars: Vec<char> = chars_of("⬇️ Download: ");
    append_fixed_one(&mut chars, &result.download_bps, -6);
    append_str(&mut chars, " Mbps\n⬆️ Upload: ");
    append_fixed_one(&mut chars, &result.upload_bps, -6);
    append_str(&mut chars, " Mbps\n📡 Ping: ");
    append_fixed_one(&mut chars, &result.latency_seconds, 3);
    append_str(&mut chars, " ms\n⏱️ Duration: ");
    append_decimal(&mut chars, duration.secs as u128);
    append_str(&mut chars, "s");
    match result.jitter_seconds {
        Some(jitter) => {
            append_str(&mut chars, "\n📊 Jitter: ");
            append_fixed_one(&mut chars, &jitter, 3);
            append_str(&mut chars, " ms");
        },
        None => {},
    }
    match result.packet_loss_ratio {
        Some(loss) => {
            append_str(&mut chars, "\n📉 Loss: ");
            append_fixed_one(&mut chars, &loss, 2);
            append_str(&mut chars, "%");
        },
        None => {},
    }
    string_of(&chars)
}

/// Formats the message for a failed run.
pub fn format_failure_message(error: &ErrorCategory) -> (out: String)
    ensures
        out@ == failure_message(error@),
{
    let mut chars: Vec<char> = Vec::new();
    match error {
        ErrorCategory::Timeout(seconds) => {
            append_str(&mut chars, "timeout after ");
            append_decimal(&mut chars, *seconds as u128);
            append_str(&mut chars, "s");
        },
        ErrorCategory::CommandNotFound(name) => {
            append_str(&mut chars, "command not found: ");
            append_str(&mut chars, name.as_str());
        },
        ErrorCategory::CommandFailed(code) => {
            append_str(&mut chars, "exit=");
            append_signed(&mut chars, *code as i64);
        },
        ErrorCategory::InvalidOutput(detail) => {
            append_str(&mut chars, "invalid output: ");
            append_str(&mut chars, detail.as_str());
        },
        ErrorCategory::MissingFields(names) => {
            append_str(&mut chars, "missing fields: ");
            append_str(&mut chars, names.as_str());
        },
        ErrorCategory::Internal(detail) => {
            append_str(&mut chars, "internal error: ");
            append_str(&mut chars, detail.as_str());
        },
    }
    string_of(&chars)
}

/// Builds the notification for an outcome under a configured title.
pub fn build_notification(title: &str, outcome: &RunOutcome, duration: RunDuration) -> (n:
    Notification)
    ensures
        n.title@ == notification_title(title@, outcome@),
        n.message@ == notification_message(outcome@, duration),
{
    let mut chars: Vec<char> = chars_of(title);
    match outcome {
        RunOutcome::Success(result) => {
            append_str(&mut chars, " ✅");
            Notification {
                title: string_of(&chars),
                message: format_success_message(result, duration),
            }
        },
        RunOutcome::Failure(error) => {
            append_str(&mut chars, " ❌");
            Notification { title: string_of(&chars), message: format_failure_message(error) }
        },
    }
}

} // verus!
