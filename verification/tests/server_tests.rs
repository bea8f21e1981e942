use netspeed_lite::server::{
    alert_message, alert_priority, alert_tags, alert_title_text, format_alertmanager_message,
    health_state, AlertGroup, AlertTimes, HealthState,
};

fn text(value: &str) -> Option<String> {
    Some(value.to_string())
}

fn bare_group(status: &str) -> AlertGroup {
    AlertGroup {
        status: status.to_string(),
        alert_name: None,
        instance: None,
        severity: None,
        summary: None,
        description: None,
        first_alert: None,
        alert_count: 0,
    }
}

fn full_group(status: &str) -> AlertGroup {
    AlertGroup {
        status: status.to_string(),
        alert_name: text("HighLatency"),
        instance: text("host:9109"),
        severity: text("critical"),
        summary: text("Latency is high"),
        description: text("Above 100ms for 5m"),
        first_alert: Some(AlertTimes {
            starts_at: "2024-01-15T10:30:00Z".to_string(),
            ends_at: "2024-01-15T12:45:10+02:00".to_string(),
        }),
        alert_count: 1,
    }
}

#[test]
fn health_follows_the_last_run() {
    assert_eq!(health_state(true, true), HealthState::Healthy);
    assert_eq!(health_state(true, false), HealthState::Healthy);
    assert_eq!(health_state(false, true), HealthState::Unhealthy);
    assert_eq!(health_state(false, false), HealthState::Initializing);
    assert_eq!(HealthState::Healthy.as_str(), "healthy");
    assert_eq!(HealthState::Unhealthy.as_str(), "unhealthy");
    assert_eq!(HealthState::Initializing.as_str(), "initializing");
    assert!(HealthState::Healthy.is_available());
    assert!(!HealthState::Unhealthy.is_available());
    assert!(!HealthState::Initializing.is_available());
}

#[test]
fn a_firing_group_is_written_in_full() {
    let n = format_alertmanager_message(&full_group("firing"));
    assert_eq!(n.title, "🔴 HighLatency");
    assert_eq!(
        n.message,
        "📋 Latency is high\n\nAbove 100ms for 5m\n\n🖥️ Instance: host:9109\n\n⏰ Started: 2024-01-15 10:30:00 +00:00"
    );
    assert_eq!(n.priority, 5);
    assert_eq!(n.tags, "prometheus,alert,critical");
}

#[test]
fn a_resolved_group_shows_its_end() {
    let mut group = full_group("resolved");
    group.alert_count = 3;
    group.severity = text("warning");
    let n = format_alertmanager_message(&group);
    assert_eq!(n.title, "✅ HighLatency");
    assert_eq!(
        n.message,
        "📋 Latency is high\n\nAbove 100ms for 5m\n\n🖥️ Instance: host:9109\n\n⏰ Started: 2024-01-15 10:30:00 +00:00\n⏱️ Ended: 2024-01-15 12:45:10 +02:00\n\n🔢 3 alerts in this group"
    );
    assert_eq!(n.priority, 4);
    assert_eq!(n.tags, "prometheus,alert,warning");
}

#[test]
fn a_bare_group_has_an_empty_message() {
    let n = format_alertmanager_message(&bare_group("firing"));
    assert_eq!(n.title, "🔴 Unknown Alert");
    assert_eq!(n.message, "");
    assert_eq!(n.priority, 3);
    assert_eq!(n.tags, "prometheus,alert,info");
    let n = format_alertmanager_message(&bare_group("pending"));
    assert_eq!(n.title, "✅ Unknown Alert");
}

#[test]
fn parts_that_are_missing_leave_no_line() {
    let mut group = bare_group("firing");
    group.description = text("Only a description");
    assert_eq!(format_alertmanager_message(&group).message, "Only a description");
    group.instance = text("a");
    assert_eq!(
        format_alertmanager_message(&group).message,
        "Only a description\n\n🖥️ Instance: a"
    );
    let mut group = bare_group("firing");
    group.instance = text("a");
    assert_eq!(format_alertmanager_message(&group).message, "\n🖥️ Instance: a");
    let mut group = bare_group("firing");
    group.alert_count = 2;
    assert_eq!(format_alertmanager_message(&group).message, "\n🔢 2 alerts in this group");
    let mut group = bare_group("resolved");
    group.summary = text("s");
    group.first_alert = Some(AlertTimes {
        starts_at: "yesterday".to_string(),
        ends_at: "2024-01-15T12:45:10Z".to_string(),
    });
    assert_eq!(
        format_alertmanager_message(&group).message,
        "📋 s\n\n⏱️ Ended: 2024-01-15 12:45:10 +00:00"
    );
    group.first_alert = Some(AlertTimes { starts_at: String::new(), ends_at: String::new() });
    assert_eq!(format_alertmanager_message(&group).message, "📋 s\n");
}

#[test]
fn the_message_is_built_from_the_displayed_times() {
    let group = full_group("resolved");
    assert_eq!(
        alert_message(&group, Some("then"), Some("now")),
        "📋 Latency is high\n\nAbove 100ms for 5m\n\n🖥️ Instance: host:9109\n\n⏰ Started: then\n⏱️ Ended: now"
    );
    assert_eq!(
        alert_message(&full_group("firing"), Some("then"), Some("now")),
        "📋 Latency is high\n\nAbove 100ms for 5m\n\n🖥️ Instance: host:9109\n\n⏰ Started: then"
    );
    assert_eq!(
        alert_message(&group, None, Some("now")),
        "📋 Latency is high\n\nAbove 100ms for 5m\n\n🖥️ Instance: host:9109\n\n⏱️ Ended: now"
    );
    let mut no_alert = full_group("resolved");
    no_alert.first_alert = None;
    assert_eq!(
        alert_message(&no_alert, Some("then"), Some("now")),
        "📋 Latency is high\n\nAbove 100ms for 5m\n\n🖥️ Instance: host:9109"
    );
}

#[test]
fn severity_decides_priority_and_tags() {
    let mut group = bare_group("firing");
    for (severity, priority, tags) in [
        (Some("critical"), 5, "prometheus,alert,critical"),
        (Some("warning"), 4, "prometheus,alert,warning"),
        (Some("info"), 3, "prometheus,alert,info"),
        (Some("Critical"), 3, "prometheus,alert,Critical"),
        (Some(""), 3, "prometheus,alert,"),
        (None, 3, "prometheus,alert,info"),
    ] {
        group.severity = severity.map(|s| s.to_string());
        assert_eq!(alert_priority(&group), priority);
        assert_eq!(alert_tags(&group), tags);
    }
    group.alert_name = text("Down");
    assert_eq!(alert_title_text(&group), "🔴 Down");
}
