use netspeed_lite::decimal::Decimal;
use netspeed_lite::notifier::{build_notification, format_failure_message, format_success_message};
use netspeed_lite::runner::{ErrorCategory, RunDuration, RunOutcome, SpeedtestResult};
use std::time::Duration;

fn decimal_from(x: f64) -> Decimal {
    Decimal::parse(&format!("{}", x)).unwrap()
}

fn run_duration(d: Duration) -> RunDuration {
    RunDuration { secs: d.as_secs(), subsec_nanos: d.subsec_nanos() }
}

fn sample_result() -> SpeedtestResult {
    SpeedtestResult {
        download_bps: decimal_from(812_300_000.0),
        upload_bps: decimal_from(42_100_000.0),
        latency_seconds: decimal_from(0.0184),
        jitter_seconds: Some(decimal_from(0.0021)),
        packet_loss_ratio: None,
    }
}

#[test]
fn test_format_success_message() {
    // Given: A successful speedtest result with all metrics
    let result = SpeedtestResult {
        download_bps: decimal_from(812_300_000.0),
        upload_bps: decimal_from(42_100_000.0),
        latency_seconds: decimal_from(0.0184),
        jitter_seconds: Some(decimal_from(0.0021)),
        packet_loss_ratio: None,
    };
    let duration = Duration::from_secs(30);

    // When: Formatting the success message
    let message = format_success_message(&result, run_duration(duration));

    // Then: Should contain all formatted metrics with emojis
    assert!(message.contains("⬇️ Download: 812.3 Mbps"));
    assert!(message.contains("⬆️ Upload: 42.1 Mbps"));
    assert!(message.contains("📡 Ping: 18.4 ms"));
    assert!(message.contains("⏱️ Duration: 30s"));
    assert!(message.contains("📊 Jitter: 2.1 ms"));
}

#[test]
fn test_format_failure_timeout() {
    // Given: A timeout error after 120 seconds
    let error = ErrorCategory::Timeout(120);

    // When: Formatting the failure message
    let message = format_failure_message(&error);

    // Then: Should show timeout duration
    assert_eq!(message, "timeout after 120s");
}

#[test]
fn test_format_failure_command_failed() {
    // Given: A command failure with exit code 1
    let error = ErrorCategory::CommandFailed(1);

    // When: Formatting the failure message
    let message = format_failure_message(&error);

    // Then: Should show exit code
    assert_eq!(message, "exit=1");
}

#[test]
fn success_message_is_exact() {
    let message = format_success_message(&sample_result(), run_duration(Duration::from_secs(30)));
    assert_eq!(
        message,
        "⬇️ Download: 812.3 Mbps\n⬆️ Upload: 42.1 Mbps\n📡 Ping: 18.4 ms\n⏱️ Duration: 30s\n📊 Jitter: 2.1 ms"
    );
}

#[test]
fn success_message_without_jitter_and_with_loss() {
    let mut result = sample_result();
    result.jitter_seconds = None;
    let message = format_success_message(&result, run_duration(Duration::from_millis(1999)));
    assert_eq!(
        message,
        "⬇️ Download: 812.3 Mbps\n⬆️ Upload: 42.1 Mbps\n📡 Ping: 18.4 ms\n⏱️ Duration: 1s"
    );
    result.packet_loss_ratio = Some(decimal_from(0.025));
    let message = format_success_message(&result, run_duration(Duration::from_secs(0)));
    assert!(message.ends_with("⏱️ Duration: 0s\n📉 Loss: 2.5%"));
}

#[test]
fn failure_messages_for_every_category() {
    assert_eq!(format_failure_message(&ErrorCategory::Timeout(0)), "timeout after 0s");
    assert_eq!(
        format_failure_message(&ErrorCategory::Timeout(u64::MAX)),
        "timeout after 18446744073709551615s"
    );
    assert_eq!(
        format_failure_message(&ErrorCategory::CommandNotFound("speedtest".to_string())),
        "command not found: speedtest"
    );
    assert_eq!(format_failure_message(&ErrorCategory::CommandFailed(-1)), "exit=-1");
    assert_eq!(
        format_failure_message(&ErrorCategory::CommandFailed(i32::MIN)),
        "exit=-2147483648"
    );
    assert_eq!(format_failure_message(&ErrorCategory::CommandFailed(255)), "exit=255");
    assert_eq!(
        format_failure_message(&ErrorCategory::InvalidOutput("bad".to_string())),
        "invalid output: bad"
    );
    assert_eq!(
        format_failure_message(&ErrorCategory::MissingFields("ping.latency".to_string())),
        "missing fields: ping.latency"
    );
    assert_eq!(
        format_failure_message(&ErrorCategory::Internal("boom".to_string())),
        "internal error: boom"
    );
}

#[test]
fn notification_titles_mark_the_outcome() {
    let duration = run_duration(Duration::from_secs(30));
    let ok = build_notification("netspeed-lite", &RunOutcome::Success(sample_result()), duration);
    assert_eq!(ok.title, "netspeed-lite ✅");
    assert!(ok.message.starts_with("⬇️ Download: 812.3 Mbps"));
    let failed = build_notification(
        "netspeed-lite",
        &RunOutcome::Failure(ErrorCategory::Timeout(120)),
        duration,
    );
    assert_eq!(failed.title, "netspeed-lite ❌");
    assert_eq!(failed.message, "timeout after 120s");
}
