//! The rules behind the HTTP endpoints: what the health check answers,
//! and how a group of alerts is turned into a notification. Serving and
//! sending are left to the caller.
use vstd::prelude::*;
use crate::text::{
    append_decimal, append_str, chars_of, decimal_digits, joined_by, lemma_joined_push,
    optional_text, same_text, string_of,
};

verus! {

/// What the health check answers.
#[derive(Clone, Copy, Debug, PartialEq, Eq, Structural)]
pub enum HealthState {
    /// The last run succeeded.
    Healthy,
    /// There was a run, and the last one failed.
    Unhealthy,
    /// There was no run yet.
    Initializing,
}

/// The health of the monitor, from whether the last run succeeded and
/// whether there was a run at all.
pub open spec fn health_of(last_run_succeeded: bool, has_run: bool) -> HealthState {
    if last_run_succeeded {
        HealthState::Healthy
    } else if has_run {
        HealthState::Unhealthy
    } else {
        HealthState::Initializing
    }
}

/// The health of the monitor.
pub fn health_state(last_run_succeeded: bool, has_run: bool) -> (state: HealthState)
    ensures
        state == health_of(last_run_succeeded, has_run),
{
    if last_run_succeeded {
        HealthState::Healthy
    } else if has_run {
        HealthState::Unhealthy
    } else {
        HealthState::Initializing
    }
}

impl HealthState {
    /// The state as the health check writes it.
    pub open spec fn text(self) -> Seq<char> {
        match self {
            HealthState::Healthy => "healthy"@,
            HealthState::Unhealthy => "unhealthy"@,
            HealthState::Initializing => "initializing"@,
        }
    }

    /// The state as the health check writes it.
    pub fn as_str(&self) -> (label: &'static str)
        ensures
            label@ == self.text(),
    {
        match self {
            HealthState::Healthy => "healthy",
            HealthState::Unhealthy => "unhealthy",
            HealthState::Initializing => "initializing",
        }
    }

    /// Whether the service counts as available: only a healthy monitor
    /// does.
    pub fn is_available(&self) -> (available: bool)
        ensures
            available == (*self is Healthy),
    {
        match self {
            HealthState::Healthy => true,
            _ => false,
        }
    }
}

/// When the first alert of a group started and ended, as written in the
/// webhook.
#[derive(Clone, Debug, PartialEq, Eq)]
pub struct AlertTimes {
    pub starts_at: String,
    pub ends_at: String,
}

/// What is read of a group of alerts.
#[derive(Clone, Debug, PartialEq, Eq)]
pub struct AlertGroup {
    /// `firing` or `resolved`.
    pub status: String,
    /// The common label `alertname`.
    pub alert_name: Option<String>,
    /// The common label `instance`.
    pub instance: Option<String>,
    /// The common label `severity`.
    pub severity: Option<String>,
    /// The common annotation `summary`.
    pub summary: Option<String>,
    /// The common annotation `description`.
    pub description: Option<String>,
    /// The times of the first alert, where the group has one.
    pub first_alert: Option<AlertTimes>,
    /// The number of alerts in the group.
    pub alert_count: usize,
}

/// How `chrono` displays an RFC 3339 time as date, time and offset;
/// `None` where the text is no such time.
pub uninterp spec fn rfc3339_display(text: Seq<char>) -> Option<Seq<char>>;

/// `chrono::DateTime::parse_from_rfc3339`, and the time it gives written
/// by `chrono::DateTime::format` as `%Y-%m-%d %H:%M:%S %Z`. A text that
/// does not parse gives `None`. The result depends on the text alone.
#[verifier::external_body]
pub(crate) fn display_rfc3339(text: &str) -> (r: Option<String>)
    ensures
        optional_text(r) == rfc3339_display(text@),
{
    let t = chrono::DateTime::parse_from_rfc3339(text).ok()?;
    Some(t.format("%Y-%m-%d %H:%M:%S %Z").to_string())
}

/// The title for a group: a mark that tells firing from anything else,
/// and the alert's name.
pub open spec fn alert_title(status: Seq<char>, alert_name: Option<Seq<char>>) -> Seq<char> {
    (if status == "firing"@ {
        "🔴"@
    } else {
        "✅"@
    }) + " "@ + (match alert_name {
        Some(name) => name,
        None => "Unknown Alert"@,
    })
}

/// One line where the value is there, none where it is not.
pub open spec fn labelled_line(label: Seq<char>, value: Option<Seq<char>>) -> Seq<Seq<char>> {
    match value {
        Some(text) => seq![label + text],
        None => Seq::empty(),
    }
}

/// The description, set off by an empty line where something stands
/// before it.
pub open spec fn description_lines(set_off: bool, description: Option<Seq<char>>) -> Seq<
    Seq<char>,
> {
    match description {
        Some(text) => (if set_off {
            seq![Seq::<char>::empty()]
        } else {
            Seq::<Seq<char>>::empty()
        }) + seq![text],
        None => Seq::empty(),
    }
}

/// The instance, behind an empty line.
pub open spec fn instance_lines(instance: Option<Seq<char>>) -> Seq<Seq<char>> {
    match instance {
        Some(text) => seq![Seq::<char>::empty(), "🖥️ Instance: "@ + text],
        None => Seq::empty(),
    }
}

/// For a group with an alert, behind an empty line: the start and, once
/// the group is resolved, the end, as far as they could be read.
pub open spec fn timing_lines(
    status: Seq<char>,
    has_alert: bool,
    started: Option<Seq<char>>,
    ended: Option<Seq<char>>,
) -> Seq<Seq<char>> {
    if has_alert {
        seq![Seq::<char>::empty()] + labelled_line("⏰ Started: "@, started) + (if status
            == "resolved"@ {
            labelled_line("⏱️ Ended: "@, ended)
        } else {
            Seq::<Seq<char>>::empty()
        })
    } else {
        Seq::empty()
    }
}

/// For more than one alert, behind an empty line: their number.
pub open spec fn count_lines(alert_count: nat) -> Seq<Seq<char>> {
    if alert_count > 1 {
        seq![
            Seq::<char>::empty(),
            "🔢 "@ + decimal_digits(alert_count) + " alerts in this group"@,
        ]
    } else {
        Seq::empty()
    }
}

/// The lines of the message for a group, where `started` and `ended` are
/// the displayed times of its first alert: summary, description,
/// instance, times and number of alerts, each as far as it is there.
pub open spec fn alert_lines(
    status: Seq<char>,
    instance: Option<Seq<char>>,
    summary: Option<Seq<char>>,
    description: Option<Seq<char>>,
    has_alert: bool,
    started: Option<Seq<char>>,
    ended: Option<Seq<char>>,
    alert_count: nat,
) -> Seq<Seq<char>> {
    labelled_line("📋 "@, summary) + description_lines(summary is Some, description)
        + instance_lines(instance) + timing_lines(status, has_alert, started, ended) + count_lines(
        alert_count,
    )
}

/// The view of an optional borrowed text.
pub open spec fn borrowed_text(text: Option<&str>) -> Option<Seq<char>> {
    match text {
        Some(t) => Some(t@),
        None => None,
    }
}

/// The priority for a severity: 5 for `critical`, 4 for `warning`, and 3
/// for anything else or none.
pub open spec fn priority_of(severity: Option<Seq<char>>) -> u8 {
    match severity {
        Some(text) => if text == "critical"@ {
            5
        } else if text == "warning"@ {
            4
        } else {
            3
        },
        None => 3,
    }
}

/// The tags for a severity, `info` standing in where there is none.
pub open spec fn tags_of(severity: Option<Seq<char>>) -> Seq<char> {
    "prometheus,alert,"@ + (match severity {
        Some(text) => text,
        None => "info"@,
    })
}

/// A notification about a group of alerts.
#[derive(Clone, Debug, PartialEq, Eq)]
pub struct AlertNotification {
    pub title: String,
    pub message: String,
    pub priority: u8,
    pub tags: String,
}

/// Appends one more line to a message, with a line break before it
/// unless it is the first.
fn add_line(out: &mut Vec<char>, any: &mut bool, label: &str, text: &str, Ghost(lines): Ghost<
    Seq<Seq<char>>,
>)
    requires
        old(out)@ == joined_by('\n', lines),
        *old(any) == (lines.len() > 0),
    ensures
        final(out)@ == joined_by('\n', lines.push(label@ + text@)),
        *final(any),
{
    proof {
        lemma_joined_push('\n', lines, label@ + text@);
    }
    if *any {
        out.push('\n');
    }
    append_str(out, label);
    append_str(out, text);
    *any = true;
}

/// Whether `out` holds the lines joined by line breaks, and `any` says
/// whether there is a line.
pub open spec fn holds_lines(out: Seq<char>, any: bool, lines: Seq<Seq<char>>) -> bool {
    out == joined_by('\n', lines) && any == (lines.len() > 0)
}

/// Appends an empty line.
fn add_blank(out: &mut Vec<char>, any: &mut bool, Ghost(lines): Ghost<Seq<Seq<char>>>)
    requires
        holds_lines(old(out)@, *old(any), lines),
    ensures
        holds_lines(final(out)@, *final(any), lines.push(Seq::empty())),
{
    proof {
        reveal_strlit("");
        assert(""@ + ""@ =~= Seq::<char>::empty());
    }
    add_line(out, any, "", "", Ghost(lines));
}

/// Appends a line where the value is there.
fn add_labelled(
    out: &mut Vec<char>,
    any: &mut bool,
    label: &str,
    value: Option<&str>,
    Ghost(lines): Ghost<Seq<Seq<char>>>,
)
    requires
        holds_lines(old(out)@, *old(any), lines),
    ensures
        holds_lines(
            final(out)@,
            *final(any),
            lines + labelled_line(label@, borrowed_text(value)),
        ),
{
    match value {
        Some(text) => {
            add_line(out, any, label, text, Ghost(lines));
            proof {
                assert(lines + seq![label@ + text@] == lines.push(label@ + text@));
            }
        },
        None => {
            proof {
                assert(lines + Seq::<Seq<char>>::empty() == lines);
            }
        },
    }
}

/// Appends the description.
fn add_description(
    out: &mut Vec<char>,
    any: &mut bool,
    description: Option<&str>,
    Ghost(lines): Ghost<Seq<Seq<char>>>,
)
    requires
        holds_lines(old(out)@, *old(any), lines),
    ensures
        holds_lines(
            final(out)@,
            *final(any),
            lines + description_lines(lines.len() > 0, borrowed_text(description)),
        ),
{
    match description {
        Some(text) => {
            let ghost mut now = lines;
            if *any {
                add_blank(out, any, Ghost(lines));
                proof {
                    now = lines.push(Seq::empty());
                }
            }
            proof {
                reveal_strlit("");
                assert(""@ + text@ =~= text@);
            }
            add_line(out, any, "", text, Ghost(now));
            proof {
                assert(now.push(text@) == lines + description_lines(
                    lines.len() > 0,
                    borrowed_text(description),
                ));
            }
        },
        None => {
            proof {
                assert(lines + Seq::<Seq<char>>::empty() == lines);
            }
        },
    }
}

/// Appends the instance.
fn add_instance(
    out: &mut Vec<char>,
    any: &mut bool,
    instance: Option<&str>,
    Ghost(lines): Ghost<Seq<Seq<char>>>,
)
    requires
        holds_lines(old(out)@, *old(any), lines),
    ensures
        holds_lines(final(out)@, *final(any), lines + instance_lines(borrowed_text(instance))),
{
    match instance {
        Some(text) => {
            add_blank(out, any, Ghost(lines));
            add_line(out, any, "🖥️ Instance: ", text, Ghost(lines.push(Seq::empty())));
            proof {
                assert(lines.push(Seq::empty()).push("🖥️ Instance: "@ + text@) == lines
                    + instance_lines(borrowed_text(instance)));
            }
        },
        None => {
            proof {
                assert(lines + Seq::<Seq<char>>::empty() == lines);
            }
        },
    }
}

/// Appends the times of the first alert.
fn add_timing(
    out: &mut Vec<char>,
    any: &mut bool,
    status: &str,
    has_alert: bool,
    started: Option<&str>,
    ended: Option<&str>,
    Ghost(lines): Ghost<Seq<Seq<char>>>,
)
    requires
        holds_lines(old(out)@, *old(any), lines),
    ensures
        holds_lines(
            final(out)@,
            *final(any),
            lines + timing_lines(status@, has_alert, borrowed_text(started), borrowed_text(ended)),
        ),
{
    if has_alert {
        let ghost blank = lines.push(Seq::empty());
        add_blank(out, any, Ghost(lines));
        let ghost with_start = blank + labelled_line("⏰ Started: "@, borrowed_text(started));
        add_labelled(out, any, "⏰ Started: ", started, Ghost(blank));
        if same_text(status, "resolved") {
            add_labelled(out, any, "⏱️ Ended: ", ended, Ghost(with_start));
            proof {
                assert(with_start + labelled_line("⏱️ Ended: "@, borrowed_text(ended)) == lines
                    + timing_lines(
                    status@,
                    has_alert,
                    borrowed_text(started),
                    borrowed_text(ended),
                ));
            }
        } else {
            proof {
                assert(with_start == lines + timing_lines(
                    status@,
                    has_alert,
                    borrowed_text(started),
                    borrowed_text(ended),
                ));
            }
        }
    } else {
        proof {
            assert(lines + Seq::<Seq<char>>::empty() == lines);
        }
    }
}

/// Appends the number of alerts.
fn add_count(out: &mut Vec<char>, any: &mut bool, alert_count: usize, Ghost(lines): Ghost<
    Seq<Seq<char>>,
>)
    requires
        holds_lines(old(out)@, *old(any), lines),
    ensures
        holds_lines(final(out)@, *final(any), lines + count_lines(alert_count as nat)),
{
    if alert_count > 1 {
        add_blank(out, any, Ghost(lines));
        let mut count: Vec<char> = Vec::new();
        append_decimal(&mut count, alert_count as u128);
        append_str(&mut count, " alerts in this group");
        let count_text = string_of(&count);
        add_line(out, any, "🔢 ", count_text.as_str(), Ghost(lines.push(Seq::empty())));
        proof {
            let line = "🔢 "@ + decimal_digits(alert_count as nat) + " alerts in this group"@;
            assert("🔢 "@ + count_text@ == line);
            assert(lines.push(Seq::empty()).push(line) == lines + count_lines(alert_count as nat));
        }
    } else {
        proof {
            assert(lines + Seq::<Seq<char>>::empty() == lines);
        }
    }
}

/// A borrowed view of an optional text.
fn borrowed(text: &Option<String>) -> (r: Option<&str>)
    ensures
        borrowed_text(r) == optional_text(*text),
{
    match text {
        Some(t) => Some(t.as_str()),
        None => None,
    }
}

/// The message for a group of alerts, from the displayed times of its
/// first alert.
pub fn alert_message(group: &AlertGroup, started: Option<&str>, ended: Option<&str>) -> (message:
    String)
    ensures
        message@ == joined_by(
            '\n',
            alert_lines(
                group.status@,
                optional_text(group.instance),
                optional_text(group.summary),
                optional_text(group.description),
                group.first_alert is Some,
                borrowed_text(started),
                borrowed_text(ended),
                group.alert_count as nat,
            ),
        ),
{
    let mut out: Vec<char> = Vec::new();
    let mut any = false;
    let ghost none = Seq::<Seq<char>>::empty();
    let ghost l1 = none + labelled_line("📋 "@, optional_text(group.summary));
    add_labelled(&mut out, &mut any, "📋 ", borrowed(&group.summary), Ghost(none));
    let ghost l2 = l1 + description_lines(l1.len() > 0, optional_text(group.description));
    add_description(&mut out, &mut any, borrowed(&group.description), Ghost(l1));
    let ghost l3 = l2 + instance_lines(optional_text(group.instance));
    add_instance(&mut out, &mut any, borrowed(&group.instance), Ghost(l2));
    let ghost l4 = l3 + timing_lines(
        group.status@,
        group.first_alert is Some,
        borrowed_text(started),
        borrowed_text(ended),
    );
    add_timing(
        &mut out,
        &mut any,
        group.status.as_str(),
        group.first_alert.is_some(),
        started,
        ended,
        Ghost(l3),
    );
    add_count(&mut out, &mut any, group.alert_count, Ghost(l4));
    proof {
        assert(l1 == labelled_line("📋 "@, optional_text(group.summary)));
        assert((l1.len() > 0) == (group.summary is Some));
    }
    string_of(&out)
}

/// The title for a group of alerts.
pub fn alert_title_text(group: &AlertGroup) -> (title: String)
    ensures
        title@ == alert_title(group.status@, optional_text(group.alert_name)),
{
    let mut chars: Vec<char> = if same_text(group.status.as_str(), "firing") {
        chars_of("🔴")
    } else {
        chars_of("✅")
    };
    append_str(&mut chars, " ");
    match &group.alert_name {
        Some(name) => append_str(&mut chars, name.as_str()),
        None => append_str(&mut chars, "Unknown Alert"),
    }
    string_of(&chars)
}

/// The priority for a group of alerts, by its severity.
pub fn alert_priority(group: &AlertGroup) -> (priority: u8)
    ensures
        priority == priority_of(optional_text(group.severity)),
{
    match &group.severity {
        Some(text) => {
            if same_text(text.as_str(), "critical") {
                5
            } else if same_text(text.as_str(), "warning") {
                4
            } else {
                3
            }
        },
        None => 3,
    }
}

/// The tags for a group of alerts, by its severity.
pub fn alert_tags(group: &AlertGroup) -> (tags: String)
    ensures
        tags@ == tags_of(optional_text(group.severity)),
{
    let mut chars: Vec<char> = chars_of("prometheus,alert,");
    match &group.severity {
        Some(text) => append_str(&mut chars, text.as_str()),
        None => append_str(&mut chars, "info"),
    }
    string_of(&chars)
}

/// Turns a group of alerts into a notification: title and message as
/// `alert_title` and `alert_lines` say, with the times of the first alert
/// displayed by `chrono`, and priority and tags by the severity.
pub fn format_alertmanager_message(group: &AlertGroup) -> (n: AlertNotification)
    ensures
        n.title@ == alert_title(group.status@, optional_text(group.alert_name)),
        n.message@ == joined_by(
            '\n',
            alert_lines(
                group.status@,
                optional_text(group.instance),
                optional_text(group.summary),
                optional_text(group.description),
                group.first_alert is Some,
                match group.first_alert {
                    Some(times) => rfc3339_display(times.starts_at@),
                    None => None,
                },
                match group.first_alert {
                    Some(times) => rfc3339_display(times.ends_at@),
                    None => None,
                },
                group.alert_count as nat,
            ),
        ),
        n.priority == priority_of(optional_text(group.severity)),
        n.tags@ == tags_of(optional_text(group.severity)),
{
    let (started, ended) = match &group.first_alert {
        Some(times) => (
            display_rfc3339(times.starts_at.as_str()),
            display_rfc3339(times.ends_at.as_str()),
        ),
        None => (None, None),
    };
    AlertNotification {
        title: alert_title_text(group),
        message: alert_message(group, borrowed(&started), borrowed(&ended)),
        priority: alert_priority(group),
        tags: alert_tags(group),
    }
}

} // verus!
