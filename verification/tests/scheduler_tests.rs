use netspeed_lite::clock::{CivilTime, Timestamp};
use netspeed_lite::config::{
    Config, NotifyOn, NtfyConfig, ScheduleConfig, ScheduleMode, ServerConfig, SpeedtestConfig,
};
use netspeed_lite::cron_schedule::{count_fields, six_field_expression, CRON_HORIZON};
use netspeed_lite::decimal::Decimal;
use netspeed_lite::runner::{ErrorCategory, RunDuration, RunOutcome, RunResult, SpeedtestResult};
use netspeed_lite::scheduler::{
    choose_aligned_run, choose_cron_run, pick_candidate, plan_metrics, report_skip, MetricUpdate,
    OutcomeLabel, ScheduleState, Scheduler, Trigger,
};

fn create_test_config(mode: ScheduleMode) -> Config {
    Config {
        server: ServerConfig {
            bind_address: "127.0.0.1:9109".to_string(),
        },
        schedule: ScheduleConfig {
            mode,
            interval_seconds: 3600,
            cron_expression: Some("0 * * * *".to_string()),
            timezone: "UTC".to_string(),
            allow_overlap: false,
        },
        speedtest: SpeedtestConfig {
            command: "speedtest".to_string(),
            args: vec!["--format=json".to_string()],
            timeout_seconds: 120,
        },
        ntfy: None,
        notify_on: NotifyOn {
            success: true,
            failure: true,
        },
        resource_interval_seconds: 15,
    }
}

fn at(secs: i64) -> Timestamp {
    Timestamp { secs, nanos: 0 }
}

fn scheduler_in(mode: ScheduleMode, zone: &str) -> Scheduler {
    let mut config = create_test_config(mode);
    config.schedule.timezone = zone.to_string();
    Scheduler::new(config)
}

fn cron_scheduler(expression: Option<&str>, zone: &str) -> Scheduler {
    let mut config = create_test_config(ScheduleMode::Cron);
    config.schedule.timezone = zone.to_string();
    config.schedule.cron_expression = expression.map(|e| e.to_string());
    Scheduler::new(config)
}

fn sample_measurement() -> SpeedtestResult {
    SpeedtestResult {
        download_bps: Decimal { negative: false, mantissa: 812300000, exponent: 0 },
        upload_bps: Decimal { negative: false, mantissa: 42100000, exponent: 0 },
        latency_seconds: Decimal { negative: false, mantissa: 184, exponent: -4 },
        jitter_seconds: Some(Decimal { negative: false, mantissa: 21, exponent: -4 }),
        packet_loss_ratio: None,
    }
}

fn ntfy(title: &str) -> NtfyConfig {
    NtfyConfig {
        url: "https://ntfy.sh/test".to_string(),
        token: None,
        title: title.to_string(),
        tags: "speedtest,isp".to_string(),
        priority: 3,
        click_url: None,
    }
}

#[test]
fn test_scheduler_creation() {
    // Given: Valid configuration
    let config = create_test_config(ScheduleMode::Interval);

    // When: Creating a scheduler
    let scheduler = Scheduler::new(config.clone());

    // Then: Scheduler should be created successfully
    assert_eq!(scheduler.config, config);
    assert!(!scheduler.state.run_in_progress);
}

#[test]
fn test_schedule_mode_interval() {
    // Given: Configuration with interval mode
    let config = create_test_config(ScheduleMode::Interval);

    // When: Creating scheduler with interval mode
    let scheduler = Scheduler::new(config.clone());

    // Then: Should use interval scheduling
    assert_eq!(config.schedule.mode, ScheduleMode::Interval);
    assert_eq!(config.schedule.interval_seconds, 3600);
    assert_eq!(scheduler.calculate_next_run(&at(1_700_000_000)), at(1_700_003_600));
}

#[test]
fn test_schedule_mode_hourly_aligned() {
    // Given: Configuration with hourly aligned mode
    let config = create_test_config(ScheduleMode::HourlyAligned);

    // When: Creating scheduler with hourly aligned mode
    let scheduler = Scheduler::new(config.clone());

    // Then: Should use hourly aligned scheduling
    assert_eq!(config.schedule.mode, ScheduleMode::HourlyAligned);
    assert_eq!(scheduler.calculate_next_run(&at(1_700_000_000)), at(1_700_002_800));
}

#[test]
fn test_schedule_mode_cron() {
    // Given: Configuration with cron mode and expression
    let config = create_test_config(ScheduleMode::Cron);

    // When: Creating scheduler with cron mode
    let scheduler = Scheduler::new(config.clone());

    // Then: Should use cron scheduling with expression
    assert_eq!(config.schedule.mode, ScheduleMode::Cron);
    assert!(config.schedule.cron_expression.is_some());
    assert_eq!(config.schedule.cron_expression.unwrap(), "0 * * * *");
    assert_eq!(scheduler.calculate_next_run(&at(1_700_000_000)), at(1_700_002_800));
}

#[test]
fn test_timezone_configuration() {
    // Given: Configuration with custom timezone
    let mut config = create_test_config(ScheduleMode::HourlyAligned);
    config.schedule.timezone = "America/New_York".to_string();

    // When: Creating scheduler with custom timezone
    let scheduler = Scheduler::new(config.clone());

    // Then: Should use the specified timezone
    assert_eq!(config.schedule.timezone, "America/New_York");
    assert_eq!(scheduler.calculate_next_run(&at(1_700_000_000)), at(1_700_002_800));
}

#[test]
fn test_allow_overlap_flag() {
    // Given: Configuration with overlap allowed
    let mut config = create_test_config(ScheduleMode::Interval);
    config.schedule.allow_overlap = true;

    // When: Creating scheduler with overlap enabled
    let mut scheduler = Scheduler::new(config.clone());

    // Then: Should allow overlapping runs
    assert!(config.schedule.allow_overlap);
    assert_eq!(scheduler.on_wake(), Trigger::Run);
    assert_eq!(scheduler.on_wake(), Trigger::Run);
}

#[test]
fn interval_adds_the_interval_whatever_the_clock_shows() {
    let mut config = create_test_config(ScheduleMode::Interval);
    config.schedule.interval_seconds = 1800;
    let scheduler = Scheduler::new(config);
    for now in [
        Timestamp { secs: 0, nanos: 0 },
        Timestamp { secs: 1_700_000_000, nanos: 0 },
        Timestamp { secs: 1_700_002_800, nanos: 0 },
        Timestamp { secs: 1_700_002_799, nanos: 999_999_999 },
        Timestamp { secs: -5, nanos: 17 },
    ] {
        let next = scheduler.calculate_next_run(&now);
        assert_eq!(next, Timestamp { secs: now.secs + 1800, nanos: now.nanos });
        assert_eq!(scheduler.calculate_next_interval_run(&now), next);
        assert!(next.is_after(&now));
    }
}

#[test]
fn aligned_run_at_the_top_of_the_hour_is_the_next_hour() {
    let scheduler = scheduler_in(ScheduleMode::HourlyAligned, "UTC");
    assert_eq!(scheduler.calculate_next_run(&at(1_700_002_800)), at(1_700_006_400));
    assert_eq!(scheduler.calculate_next_run(&at(0)), at(3600));
    let kolkata = scheduler_in(ScheduleMode::HourlyAligned, "Asia/Kolkata");
    assert_eq!(kolkata.calculate_next_run(&at(1_700_001_000)), at(1_700_004_600));
}

#[test]
fn aligned_run_inside_an_hour_is_the_following_top_of_hour() {
    let scheduler = scheduler_in(ScheduleMode::HourlyAligned, "UTC");
    assert_eq!(scheduler.calculate_next_run(&at(1_700_000_000)), at(1_700_002_800));
    assert_eq!(
        scheduler.calculate_next_run(&Timestamp { secs: 1_699_999_200, nanos: 1 }),
        at(1_700_002_800)
    );
    assert_eq!(
        scheduler.calculate_next_run(&Timestamp { secs: 1_700_002_799, nanos: 999_999_999 }),
        at(1_700_002_800)
    );
}

#[test]
fn aligned_run_in_the_last_hour_of_a_day_is_midnight() {
    let utc = scheduler_in(ScheduleMode::HourlyAligned, "UTC");
    // 23:30 on 14 November 2023
    assert_eq!(utc.calculate_next_run(&at(1_700_004_600)), at(1_700_006_400));
    // 23:30 on 31 December 2023
    assert_eq!(utc.calculate_next_run(&at(1_704_065_400)), at(1_704_067_200));
    // 23:30 on 28 February 2024, a leap year, and 2023, none
    assert_eq!(utc.calculate_next_run(&at(1_709_163_000)), at(1_709_164_800));
    assert_eq!(utc.calculate_next_run(&at(1_677_627_000)), at(1_677_628_800));
    // 23:43:20 in Kolkata is 18:13:20 in Greenwich
    let kolkata = scheduler_in(ScheduleMode::HourlyAligned, "Asia/Kolkata");
    assert_eq!(kolkata.calculate_next_run(&at(1_699_985_600)), at(1_699_986_600));
}

#[test]
fn the_following_hour_rolls_over_days_months_and_years() {
    let time = |year: i32, month: u32, day: u32, hour: u32| CivilTime {
        year,
        month,
        day,
        hour,
        minute: 30,
        second: 0,
        nanosecond: 0,
    };
    assert_eq!(time(2023, 11, 14, 0).next_hour(), Some((2023, 11, 14, 1)));
    assert_eq!(time(2023, 11, 14, 22).next_hour(), Some((2023, 11, 14, 23)));
    assert_eq!(time(2023, 11, 14, 23).next_hour(), Some((2023, 11, 15, 0)));
    assert_eq!(time(2023, 11, 30, 23).next_hour(), Some((2023, 12, 1, 0)));
    assert_eq!(time(2023, 1, 31, 23).next_hour(), Some((2023, 2, 1, 0)));
    assert_eq!(time(2023, 12, 31, 23).next_hour(), Some((2024, 1, 1, 0)));
    assert_eq!(time(2023, 2, 28, 23).next_hour(), Some((2023, 3, 1, 0)));
    assert_eq!(time(2024, 2, 28, 23).next_hour(), Some((2024, 2, 29, 0)));
    assert_eq!(time(2024, 2, 29, 23).next_hour(), Some((2024, 3, 1, 0)));
    assert_eq!(time(1900, 2, 28, 23).next_hour(), Some((1900, 3, 1, 0)));
    assert_eq!(time(2000, 2, 28, 23).next_hour(), Some((2000, 2, 29, 0)));
    assert_eq!(time(-4, 2, 28, 23).next_hour(), Some((-4, 2, 29, 0)));
    assert_eq!(time(-100, 2, 28, 23).next_hour(), Some((-100, 3, 1, 0)));
    assert_eq!(time(i32::MIN, 2, 28, 23).next_hour(), Some((i32::MIN, 2, 29, 0)));
    assert_eq!(time(i32::MAX, 12, 31, 23).next_hour(), None);
    assert_eq!(time(i32::MAX, 12, 30, 23).next_hour(), Some((i32::MAX, 12, 31, 0)));
}

#[test]
fn aligned_run_follows_the_zone_of_the_configuration() {
    let kolkata = scheduler_in(ScheduleMode::HourlyAligned, "Asia/Kolkata");
    assert_eq!(kolkata.calculate_next_run(&at(1_700_000_000)), at(1_700_001_000));
    assert_eq!(kolkata.calculate_next_aligned_run(&at(1_700_000_000)), at(1_700_001_000));
}

#[test]
fn aligned_run_falls_back_to_one_hour_later() {
    let utc = scheduler_in(ScheduleMode::HourlyAligned, "UTC");
    // 01:30 in New York on the night the clocks go forward: 02:00 is skipped.
    let new_york = scheduler_in(ScheduleMode::HourlyAligned, "America/New_York");
    assert_eq!(new_york.calculate_next_run(&at(1_678_602_600)), at(1_678_606_200));
    // 00:30 on the night the clocks go back: 01:00 comes twice.
    assert_eq!(new_york.calculate_next_run(&at(1_699_158_600)), at(1_699_162_200));
    // A zone that does not exist.
    let nowhere = scheduler_in(ScheduleMode::HourlyAligned, "Mars/Olympus");
    assert_eq!(nowhere.calculate_next_run(&at(1_700_000_000)), at(1_700_003_600));
    // An instant that no calendar holds.
    let far = Timestamp { secs: i64::MAX - 3600, nanos: 0 };
    assert_eq!(utc.calculate_next_run(&far), Timestamp { secs: i64::MAX, nanos: 0 });
}

#[test]
fn choose_aligned_run_takes_only_a_later_candidate() {
    let now = at(1_700_000_000);
    let inside = CivilTime { year: 2023, month: 11, day: 14, hour: 22, minute: 13, second: 20, nanosecond: 0 };
    let on_hour = CivilTime { year: 2023, month: 11, day: 14, hour: 22, minute: 0, second: 0, nanosecond: 0 };
    assert_eq!(choose_aligned_run(&now, Some(inside), Some(at(1_700_002_800))), at(1_700_002_800));
    assert_eq!(choose_aligned_run(&now, Some(inside), Some(now)), at(1_700_003_600));
    assert_eq!(choose_aligned_run(&now, Some(inside), Some(at(5))), at(1_700_003_600));
    assert_eq!(choose_aligned_run(&now, Some(inside), None), at(1_700_003_600));
    assert_eq!(choose_aligned_run(&now, Some(on_hour), Some(at(1_700_002_800))), at(1_700_003_600));
    assert_eq!(choose_aligned_run(&now, None, Some(at(1_700_002_800))), at(1_700_003_600));
    let almost = CivilTime { nanosecond: 1, ..on_hour };
    assert_eq!(choose_aligned_run(&now, Some(almost), Some(at(1_700_002_800))), at(1_700_002_800));
}

#[test]
fn cron_run_is_the_next_firing() {
    let hourly = cron_scheduler(Some("0 * * * *"), "UTC");
    assert_eq!(hourly.calculate_next_run(&at(1_700_000_000)), at(1_700_002_800));
    assert_eq!(hourly.calculate_next_run(&at(1_700_002_800)), at(1_700_006_400));
    let five = cron_scheduler(Some("*/5 * * * *"), "UTC");
    assert_eq!(five.calculate_next_run(&at(1_700_000_000)), at(1_700_000_100));
    assert_eq!(five.calculate_next_cron_run(&at(1_700_000_000)), at(1_700_000_100));
    let daily = cron_scheduler(Some("30 4 * * *"), "Asia/Kolkata");
    assert_eq!(daily.calculate_next_run(&at(1_700_000_000)), at(1_700_002_800));
    let mondays = cron_scheduler(Some("0 12 * * MON"), "UTC");
    assert_eq!(mondays.calculate_next_run(&at(1_700_000_000)), at(1_700_481_600));
    let spaced = cron_scheduler(Some("  0\t*  * * *\n"), "UTC");
    assert_eq!(spaced.calculate_next_run(&at(1_700_000_000)), at(1_700_002_800));
}

#[test]
fn cron_weekday_numerals_count_from_sunday_as_one() {
    // 14 November 2023 is a Tuesday.
    let now = at(1_700_000_000);
    let sunday = cron_scheduler(Some("0 12 * * 1"), "UTC");
    assert_eq!(sunday.calculate_next_run(&now), at(1_700_395_200));
    let monday = cron_scheduler(Some("0 12 * * 2"), "UTC");
    assert_eq!(monday.calculate_next_run(&now), at(1_700_481_600));
    let saturday = cron_scheduler(Some("0 12 * * 7"), "UTC");
    assert_eq!(saturday.calculate_next_run(&now), at(1_700_308_800));
    let zero = cron_scheduler(Some("0 12 * * 0"), "UTC");
    assert_eq!(zero.calculate_next_run(&now), at(1_700_000_060));
}

#[test]
fn cron_run_falls_back_to_one_minute_later() {
    let now = at(1_700_000_000);
    let later = at(1_700_000_060);
    assert_eq!(cron_scheduler(None, "UTC").calculate_next_run(&now), later);
    assert_eq!(cron_scheduler(Some(""), "UTC").calculate_next_run(&now), later);
    assert_eq!(cron_scheduler(Some("not a cron"), "UTC").calculate_next_run(&now), later);
    assert_eq!(cron_scheduler(Some("a b c d e"), "UTC").calculate_next_run(&now), later);
    assert_eq!(cron_scheduler(Some("61 * * * *"), "UTC").calculate_next_run(&now), later);
    assert_eq!(cron_scheduler(Some("0 * * * * *"), "UTC").calculate_next_run(&now), later);
    assert_eq!(cron_scheduler(Some("@hourly"), "UTC").calculate_next_run(&now), later);
    assert_eq!(cron_scheduler(Some("0 * * * *"), "Mars/Olympus").calculate_next_run(&now), later);
    // February never has a thirtieth day.
    assert_eq!(cron_scheduler(Some("0 0 30 2 *"), "UTC").calculate_next_run(&now), later);
    // Past the last year in which a schedule fires.
    let hourly = cron_scheduler(Some("0 * * * *"), "UTC");
    assert_eq!(hourly.calculate_next_run(&at(4_133_980_800)), at(4_133_980_860));
    assert_eq!(hourly.calculate_next_run(&at(CRON_HORIZON + 1)), at(CRON_HORIZON + 61));
    assert_eq!(
        hourly.calculate_next_run(&at(i64::MIN)),
        at(i64::MIN + 60)
    );
}

#[test]
fn choose_cron_run_takes_only_a_later_firing() {
    let now = Timestamp { secs: 100, nanos: 5 };
    assert_eq!(choose_cron_run(&now, Some(at(101))), at(101));
    assert_eq!(
        choose_cron_run(&now, Some(Timestamp { secs: 100, nanos: 6 })),
        Timestamp { secs: 100, nanos: 6 }
    );
    assert_eq!(choose_cron_run(&now, Some(now)), Timestamp { secs: 160, nanos: 5 });
    assert_eq!(choose_cron_run(&now, Some(at(100))), Timestamp { secs: 160, nanos: 5 });
    assert_eq!(choose_cron_run(&now, None), Timestamp { secs: 160, nanos: 5 });
    assert_eq!(pick_candidate(&now, Some(at(99)), 7), Timestamp { secs: 107, nanos: 5 });
}

#[test]
fn every_mode_gives_a_later_run() {
    let instants = [at(0), at(1_700_000_000), at(1_700_002_800), at(1_678_602_600), at(-1)];
    for mode in [ScheduleMode::HourlyAligned, ScheduleMode::Interval, ScheduleMode::Cron] {
        for zone in ["UTC", "Europe/Brussels", "Australia/Lord_Howe", "nowhere"] {
            let scheduler = scheduler_in(mode, zone);
            for now in instants {
                assert!(scheduler.calculate_next_run(&now).is_after(&now));
            }
        }
    }
}

#[test]
fn expressions_are_counted_by_fields() {
    assert_eq!(count_fields(""), 0);
    assert_eq!(count_fields("   "), 0);
    assert_eq!(count_fields("*"), 1);
    assert_eq!(count_fields("0 */2 * * *"), 5);
    assert_eq!(count_fields("\t0  */2\n* * *  "), 5);
    assert_eq!(count_fields("0 0 */2 * * *"), 6);
    assert_eq!(six_field_expression("0 */2 * * *"), Some("0 0 */2 * * *".to_string()));
    assert_eq!(six_field_expression(" 5 4 * * 1"), Some("0  5 4 * * 1".to_string()));
    assert_eq!(six_field_expression("0 0 */2 * * *"), None);
    assert_eq!(six_field_expression("* * * *"), None);
    assert_eq!(six_field_expression(""), None);
}

#[test]
fn timestamps_compare_by_instant() {
    let a = Timestamp { secs: 10, nanos: 999_999_999 };
    let b = Timestamp { secs: 11, nanos: 0 };
    assert!(b.is_after(&a));
    assert!(!a.is_after(&b));
    assert!(!a.is_after(&a));
    assert_eq!(a.nanos_until(&b), 1);
    assert_eq!(b.nanos_until(&a), 0);
    assert_eq!(a.nanos_until(&a), 0);
    assert_eq!(at(0).nanos_until(&at(3600)), 3_600_000_000_000);
    assert_eq!(
        at(i64::MIN).nanos_until(&Timestamp { secs: i64::MAX, nanos: u32::MAX }),
        (u64::MAX as u128) * 1_000_000_000 + u32::MAX as u128
    );
    assert_eq!(a.plus_seconds(0), a);
    assert_eq!(a.plus_seconds(5), Timestamp { secs: 15, nanos: 999_999_999 });
    assert_eq!(at(-1).plus_seconds(i64::MAX as u64 + 1), at(i64::MAX));
}

#[test]
fn a_due_run_is_skipped_only_while_one_runs_and_overlap_is_off() {
    let mut state = ScheduleState::new();
    assert!(!state.run_in_progress);
    assert_eq!(state.on_trigger(false), Trigger::Run);
    assert!(state.run_in_progress);
    assert_eq!(state.on_trigger(false), Trigger::Skip);
    assert!(state.run_in_progress);
    assert_eq!(state.on_trigger(true), Trigger::Run);
    assert!(state.run_in_progress);
    state.on_run_complete();
    assert!(!state.run_in_progress);
    assert_eq!(state.on_trigger(true), Trigger::Run);
    state.on_run_complete();
    state.on_run_complete();
    assert!(!state.run_in_progress);
}

#[test]
fn the_scheduler_guards_against_overlap() {
    let mut scheduler = Scheduler::new(create_test_config(ScheduleMode::Interval));
    assert_eq!(scheduler.on_wake(), Trigger::Run);
    assert_eq!(scheduler.on_wake(), Trigger::Skip);
    assert_eq!(scheduler.on_wake(), Trigger::Skip);
    let result = RunResult {
        outcome: RunOutcome::Failure(ErrorCategory::Timeout(120)),
        duration: RunDuration { secs: 120, subsec_nanos: 4 },
    };
    let report = scheduler.complete_run(&result, &at(1_700_000_000));
    assert!(!scheduler.state.run_in_progress);
    assert_eq!(report.notification, None);
    assert_eq!(scheduler.on_wake(), Trigger::Run);
}

#[test]
fn a_skipped_slot_is_only_counted() {
    let report = report_skip();
    assert_eq!(report.metrics, vec![MetricUpdate::CountRun(OutcomeLabel::Skipped)]);
    assert_eq!(report.notification, None);
    assert_eq!(OutcomeLabel::Skipped.as_str(), "skipped");
    assert_eq!(OutcomeLabel::Success.as_str(), "success");
    assert_eq!(OutcomeLabel::Failure.as_str(), "failure");
}

#[test]
fn a_success_publishes_its_readings() {
    let measured = sample_measurement();
    let duration = RunDuration { secs: 30, subsec_nanos: 500 };
    let result = RunResult { outcome: RunOutcome::Success(measured), duration };
    let finished = Timestamp { secs: 1_700_000_030, nanos: 9 };
    assert_eq!(
        plan_metrics(&result, &finished),
        vec![
            MetricUpdate::RunTimestamp(1_700_000_030),
            MetricUpdate::RunDuration(duration),
            MetricUpdate::LastSuccess(true),
            MetricUpdate::CountRun(OutcomeLabel::Success),
            MetricUpdate::Download(measured.download_bps),
            MetricUpdate::Upload(measured.upload_bps),
            MetricUpdate::Latency(measured.latency_seconds),
            MetricUpdate::Jitter(measured.jitter_seconds.unwrap()),
        ]
    );
    let mut with_loss = measured;
    with_loss.jitter_seconds = None;
    with_loss.packet_loss_ratio = Some(Decimal { negative: false, mantissa: 25, exponent: -3 });
    let result = RunResult { outcome: RunOutcome::Success(with_loss), duration };
    let updates = plan_metrics(&result, &finished);
    assert_eq!(updates.len(), 8);
    assert_eq!(
        updates[7],
        MetricUpdate::PacketLoss(Decimal { negative: false, mantissa: 25, exponent: -3 })
    );
}

#[test]
fn a_failure_publishes_no_readings() {
    let duration = RunDuration { secs: 1, subsec_nanos: 0 };
    let result = RunResult { outcome: RunOutcome::Failure(ErrorCategory::CommandFailed(1)), duration };
    assert_eq!(
        plan_metrics(&result, &at(77)),
        vec![
            MetricUpdate::RunTimestamp(77),
            MetricUpdate::RunDuration(duration),
            MetricUpdate::LastSuccess(false),
            MetricUpdate::CountRun(OutcomeLabel::Failure),
        ]
    );
}

#[test]
fn notifications_follow_the_configuration() {
    let duration = RunDuration { secs: 30, subsec_nanos: 0 };
    let success = RunResult { outcome: RunOutcome::Success(sample_measurement()), duration };
    let failure = RunResult { outcome: RunOutcome::Failure(ErrorCategory::Timeout(120)), duration };
    let finished = at(1_700_000_030);

    let mut config = create_test_config(ScheduleMode::Interval);
    config.ntfy = Some(ntfy("netspeed-lite"));
    let mut scheduler = Scheduler::new(config.clone());
    let sent = scheduler.complete_run(&success, &finished).notification.unwrap();
    assert_eq!(sent.title, "netspeed-lite ✅");
    assert!(sent.message.contains("⬇️ Download: 812.3 Mbps"));
    let sent = scheduler.complete_run(&failure, &finished).notification.unwrap();
    assert_eq!(sent.title, "netspeed-lite ❌");
    assert_eq!(sent.message, "timeout after 120s");

    config.notify_on = NotifyOn { success: false, failure: true };
    let mut scheduler = Scheduler::new(config.clone());
    assert_eq!(scheduler.complete_run(&success, &finished).notification, None);
    assert!(scheduler.complete_run(&failure, &finished).notification.is_some());

    config.notify_on = NotifyOn { success: true, failure: false };
    let mut scheduler = Scheduler::new(config.clone());
    assert!(scheduler.complete_run(&success, &finished).notification.is_some());
    assert_eq!(scheduler.complete_run(&failure, &finished).notification, None);

    config.notify_on = NotifyOn { success: true, failure: true };
    config.ntfy = None;
    let mut scheduler = Scheduler::new(config);
    assert_eq!(scheduler.complete_run(&success, &finished).notification, None);
    assert_eq!(scheduler.complete_run(&failure, &finished).notification, None);
}
