//! Configuration of the monitor, as plain values.
use vstd::prelude::*;
use crate::clock::{known_zone, zone_is_known};
use crate::cron_schedule::{
    cron_expression_parses, cron_parses, six_field_expression, six_field_form,
};
use crate::text::{
    append_str, bounded_reading, contains_text, occurs_in, optional_text, read_bounded,
    same_text, string_of,
};

verus! {

/// The whole configuration.
#[derive(Clone, Debug, PartialEq, Eq)]
pub struct Config {
    pub server: ServerConfig,
    pub schedule: ScheduleConfig,
    pub speedtest: SpeedtestConfig,
    pub ntfy: Option<NtfyConfig>,
    pub notify_on: NotifyOn,
    /// Seconds between two readings of the process's own resource usage.
    pub resource_interval_seconds: u64,
}

/// Where the metrics are served.
#[derive(Clone, Debug, PartialEq, Eq)]
pub struct ServerConfig {
    pub bind_address: String,
}

/// When measurements run.
#[derive(Clone, Debug, PartialEq, Eq)]
pub struct ScheduleConfig {
    pub mode: ScheduleMode,
    /// Seconds between runs in `Interval` mode.
    pub interval_seconds: u64,
    /// Five-field expression for `Cron` mode.
    pub cron_expression: Option<String>,
    /// Name of the time zone in which hours and cron fields are read.
    pub timezone: String,
    /// Whether a run may start while another is in progress.
    pub allow_overlap: bool,
}

/// The three ways to pick the next run.
#[derive(Clone, Copy, Debug, PartialEq, Eq, Structural)]
pub enum ScheduleMode {
    /// At the top of every hour of the configured zone.
    HourlyAligned,
    /// A fixed number of seconds after the time of asking.
    Interval,
    /// At the firings of a cron expression.
    Cron,
}

/// The measurement command.
#[derive(Clone, Debug, PartialEq, Eq)]
pub struct SpeedtestConfig {
    pub command: String,
    pub args: Vec<String>,
    pub timeout_seconds: u64,
}

/// Where and how notifications are pushed.
#[derive(Clone, Debug, PartialEq, Eq)]
pub struct NtfyConfig {
    pub url: String,
    pub token: Option<String>,
    pub title: String,
    pub tags: String,
    pub priority: u8,
    pub click_url: Option<String>,
}

/// Which outcomes are notified.
#[derive(Clone, Copy, Debug, PartialEq, Eq, Structural)]
pub struct NotifyOn {
    pub success: bool,
    pub failure: bool,
}

/// The settings that a configuration is made from, each as the text it
/// was given in, or `None` where it was not given.
#[derive(Clone, Debug, PartialEq, Eq)]
pub struct Settings {
    /// Address to serve on; `0.0.0.0:9109` where not given.
    pub bind: Option<String>,
    /// `hourly_aligned` (where not given), `interval` or `cron`.
    pub schedule_mode: Option<String>,
    /// Seconds between runs in interval mode; 3600 where not given.
    pub interval_seconds: Option<String>,
    /// The cron expression.
    pub schedule: Option<String>,
    /// Name of the time zone; `Europe/Brussels` where not given.
    pub timezone: Option<String>,
    /// `true` or `false` (where not given).
    pub allow_overlap: Option<String>,
    /// Seconds a measurement may take; 120 where not given.
    pub timeout_seconds: Option<String>,
    /// Where to push notifications; none are pushed where not given.
    pub ntfy_url: Option<String>,
    pub ntfy_token: Option<String>,
    /// Title of notifications; `netspeed-lite` where not given.
    pub ntfy_title: Option<String>,
    /// Tags of notifications; `speedtest,isp` where not given.
    pub ntfy_tags: Option<String>,
    /// Priority of notifications, from 1 to 5; 3 where not given.
    pub ntfy_priority: Option<String>,
    pub ntfy_click: Option<String>,
    /// The outcomes to notify; `success,failure` where not given.
    pub notify_on: Option<String>,
    /// Seconds between two readings of resource usage; 15 where not given.
    pub resource_interval_seconds: Option<String>,
}

/// Why settings were refused.
#[derive(Clone, Debug, PartialEq, Eq)]
pub enum ConfigError {
    InvalidScheduleMode(String),
    InvalidIntervalSeconds,
    InvalidTimezone(String),
    MissingCronExpression,
    InvalidCronExpression(String),
    InvalidAllowOverlap,
    InvalidTimeoutSeconds,
    ZeroTimeout,
    InvalidResourceInterval,
}

/// The mathematical value of a `ConfigError`.
pub enum ConfigErrorView {
    InvalidScheduleMode(Seq<char>),
    InvalidIntervalSeconds,
    InvalidTimezone(Seq<char>),
    MissingCronExpression,
    InvalidCronExpression(Seq<char>),
    InvalidAllowOverlap,
    InvalidTimeoutSeconds,
    ZeroTimeout,
    InvalidResourceInterval,
}

impl View for ConfigError {
    type V = ConfigErrorView;

    open spec fn view(&self) -> ConfigErrorView {
        match self {
            ConfigError::InvalidScheduleMode(mode) => ConfigErrorView::InvalidScheduleMode(mode@),
            ConfigError::InvalidIntervalSeconds => ConfigErrorView::InvalidIntervalSeconds,
            ConfigError::InvalidTimezone(zone) => ConfigErrorView::InvalidTimezone(zone@),
            ConfigError::MissingCronExpression => ConfigErrorView::MissingCronExpression,
            ConfigError::InvalidCronExpression(expression) => {
                ConfigErrorView::InvalidCronExpression(expression@)
            },
            ConfigError::InvalidAllowOverlap => ConfigErrorView::InvalidAllowOverlap,
            ConfigError::InvalidTimeoutSeconds => ConfigErrorView::InvalidTimeoutSeconds,
            ConfigError::ZeroTimeout => ConfigErrorView::ZeroTimeout,
            ConfigError::InvalidResourceInterval => ConfigErrorView::InvalidResourceInterval,
        }
    }
}

/// A numeric setting: the number its text stands for, or the default
/// where it is not given.
pub open spec fn u64_setting(value: Option<Seq<char>>, default: u64) -> Option<u64> {
    match value {
        Some(text) => match bounded_reading(text, u64::MAX as nat) {
            Some(n) => Some(n as u64),
            None => None,
        },
        None => Some(default),
    }
}

/// A yes-or-no setting: `true` or `false`, or no where it is not given.
pub open spec fn bool_setting(value: Option<Seq<char>>) -> Option<bool> {
    match value {
        Some(text) => if text == "true"@ {
            Some(true)
        } else if text == "false"@ {
            Some(false)
        } else {
            None
        },
        None => Some(false),
    }
}

/// The schedule mode that a setting names.
pub open spec fn mode_setting(value: Option<Seq<char>>) -> Option<ScheduleMode> {
    match value {
        Some(text) => if text == "hourly_aligned"@ {
            Some(ScheduleMode::HourlyAligned)
        } else if text == "interval"@ {
            Some(ScheduleMode::Interval)
        } else if text == "cron"@ {
            Some(ScheduleMode::Cron)
        } else {
            None
        },
        None => Some(ScheduleMode::HourlyAligned),
    }
}

/// The priority that a setting gives: its number brought into the range
/// from 1 to 5; and 3 where it is not given or no number below 256.
pub open spec fn priority_setting(value: Option<Seq<char>>) -> u8 {
    match value {
        Some(text) => match bounded_reading(text, u8::MAX as nat) {
            Some(n) => if n < 1 {
                1
            } else if n > 5 {
                5
            } else {
                n as u8
            },
            None => 3,
        },
        None => 3,
    }
}

/// A text setting, or its default where it is not given.
pub open spec fn text_setting(value: Option<Seq<char>>, default: Seq<char>) -> Seq<char> {
    match value {
        Some(text) => text,
        None => default,
    }
}

/// What is wrong with a schedule: a zone that is not known; in cron mode
/// also a missing expression, or one that has not five fields or that the
/// `cron` crate does not accept.
pub open spec fn schedule_fault(
    mode: ScheduleMode,
    expression: Option<Seq<char>>,
    zone: Seq<char>,
) -> Option<ConfigErrorView> {
    if !known_zone(zone) {
        Some(ConfigErrorView::InvalidTimezone(zone))
    } else if mode is Cron {
        match expression {
            Some(five) => match six_field_form(five) {
                Some(six) => if cron_parses(six) {
                    None
                } else {
                    Some(ConfigErrorView::InvalidCronExpression(five))
                },
                None => Some(ConfigErrorView::InvalidCronExpression(five)),
            },
            None => Some(ConfigErrorView::MissingCronExpression),
        }
    } else {
        None
    }
}

/// The first thing that is wrong with settings, in the order: schedule
/// mode, interval, zone and cron expression, overlap, timeout (which
/// must be a number, and not zero), resource interval.
pub open spec fn settings_fault(s: Settings) -> Option<ConfigErrorView> {
    let mode = mode_setting(optional_text(s.schedule_mode));
    let zone = text_setting(optional_text(s.timezone), "Europe/Brussels"@);
    let timeout = u64_setting(optional_text(s.timeout_seconds), 120);
    if mode is None {
        Some(ConfigErrorView::InvalidScheduleMode(optional_text(s.schedule_mode)->0))
    } else if u64_setting(optional_text(s.interval_seconds), 3600) is None {
        Some(ConfigErrorView::InvalidIntervalSeconds)
    } else if schedule_fault(mode->0, optional_text(s.schedule), zone) is Some {
        schedule_fault(mode->0, optional_text(s.schedule), zone)
    } else if bool_setting(optional_text(s.allow_overlap)) is None {
        Some(ConfigErrorView::InvalidAllowOverlap)
    } else if timeout is None {
        Some(ConfigErrorView::InvalidTimeoutSeconds)
    } else if timeout->0 == 0 {
        Some(ConfigErrorView::ZeroTimeout)
    } else if u64_setting(optional_text(s.resource_interval_seconds), 15) is None {
        Some(ConfigErrorView::InvalidResourceInterval)
    } else {
        None
    }
}

/// Whether `ntfy` is the notification target that settings with a URL
/// describe.
pub open spec fn ntfy_of(s: Settings, ntfy: NtfyConfig) -> bool {
    &&& Some(ntfy.url@) == optional_text(s.ntfy_url)
    &&& optional_text(ntfy.token) == optional_text(s.ntfy_token)
    &&& ntfy.title@ == text_setting(optional_text(s.ntfy_title), "netspeed-lite"@)
    &&& ntfy.tags@ == text_setting(optional_text(s.ntfy_tags), "speedtest,isp"@)
    &&& ntfy.priority == priority_setting(optional_text(s.ntfy_priority))
    &&& optional_text(ntfy.click_url) == optional_text(s.ntfy_click)
}

/// Whether `c` is the configuration that faultless settings describe.
pub open spec fn config_of(s: Settings, c: Config) -> bool {
    let notify_on = text_setting(optional_text(s.notify_on), "success,failure"@);
    &&& c.server.bind_address@ == text_setting(optional_text(s.bind), "0.0.0.0:9109"@)
    &&& Some(c.schedule.mode) == mode_setting(optional_text(s.schedule_mode))
    &&& Some(c.schedule.interval_seconds) == u64_setting(optional_text(s.interval_seconds), 3600)
    &&& optional_text(c.schedule.cron_expression) == optional_text(s.schedule)
    &&& c.schedule.timezone@ == text_setting(optional_text(s.timezone), "Europe/Brussels"@)
    &&& Some(c.schedule.allow_overlap) == bool_setting(optional_text(s.allow_overlap))
    &&& c.speedtest.command@ == "speedtest"@
    &&& c.speedtest.args@.len() == 3
    &&& c.speedtest.args@[0]@ == "--format=json"@
    &&& c.speedtest.args@[1]@ == "--accept-license"@
    &&& c.speedtest.args@[2]@ == "--accept-gdpr"@
    &&& Some(c.speedtest.timeout_seconds) == u64_setting(optional_text(s.timeout_seconds), 120)
    &&& c.speedtest.timeout_seconds > 0
    &&& (c.ntfy is Some <==> s.ntfy_url is Some)
    &&& (c.ntfy matches Some(ntfy) ==> ntfy_of(s, ntfy))
    &&& c.notify_on.success == occurs_in(notify_on, "success"@)
    &&& c.notify_on.failure == occurs_in(notify_on, "failure"@)
    &&& Some(c.resource_interval_seconds) == u64_setting(
        optional_text(s.resource_interval_seconds),
        15,
    )
}

/// The message for a refusal.
pub open spec fn config_error_message(e: ConfigErrorView) -> Seq<char> {
    match e {
        ConfigErrorView::InvalidScheduleMode(mode) => "Invalid schedule mode: "@ + mode,
        ConfigErrorView::InvalidIntervalSeconds => "Invalid NETSPEED_INTERVAL_SECONDS"@,
        ConfigErrorView::InvalidTimezone(zone) => "Invalid timezone: "@ + zone,
        ConfigErrorView::MissingCronExpression => "NETSPEED_SCHEDULE is required in cron mode"@,
        ConfigErrorView::InvalidCronExpression(expression) => "Invalid cron expression: "@
            + expression,
        ConfigErrorView::InvalidAllowOverlap => "Invalid NETSPEED_ALLOW_OVERLAP"@,
        ConfigErrorView::InvalidTimeoutSeconds => "Invalid NETSPEED_TIMEOUT_SECONDS"@,
        ConfigErrorView::ZeroTimeout => "NETSPEED_TIMEOUT_SECONDS must be greater than 0"@,
        ConfigErrorView::InvalidResourceInterval => "Invalid NETSPEED_RESOURCE_INTERVAL_SECONDS"@,
    }
}

/// A copy of a text.
fn copy_of(text: &String) -> (copy: String)
    ensures
        copy@ == text@,
{
    String::from_str(text.as_str())
}

/// A copy of an optional text.
fn copy_of_optional(text: &Option<String>) -> (copy: Option<String>)
    ensures
        optional_text(copy) == optional_text(*text),
{
    match text {
        Some(t) => Some(copy_of(t)),
        None => None,
    }
}

/// A text setting, or its default where it is not given.
fn text_or(value: &Option<String>, default: &str) -> (text: String)
    ensures
        text@ == text_setting(optional_text(*value), default@),
{
    match value {
        Some(t) => copy_of(t),
        None => String::from_str(default),
    }
}

/// A numeric setting, or its default where it is not given.
fn u64_or(value: &Option<String>, default: u64) -> (r: Option<u64>)
    ensures
        r == u64_setting(optional_text(*value), default),
{
    match value {
        Some(t) => read_bounded(t.as_str(), u64::MAX),
        None => Some(default),
    }
}

/// What is wrong with a schedule, if anything.
fn find_schedule_fault(mode: ScheduleMode, expression: &Option<String>, zone: &str) -> (r: Option<
    ConfigError,
>)
    ensures
        match r {
            Some(e) => schedule_fault(mode, optional_text(*expression), zone@) == Some(e@),
            None => schedule_fault(mode, optional_text(*expression), zone@) is None,
        },
{
    if !zone_is_known(zone) {
        return Some(ConfigError::InvalidTimezone(String::from_str(zone)));
    }
    if mode == ScheduleMode::Cron {
        match expression {
            Some(five) => {
                let accepted = match six_field_expression(five.as_str()) {
                    Some(six) => cron_expression_parses(six.as_str()),
                    None => false,
                };
                if accepted {
                    None
                } else {
                    Some(ConfigError::InvalidCronExpression(copy_of(five)))
                }
            },
            None => Some(ConfigError::MissingCronExpression),
        }
    } else {
        None
    }
}

impl ScheduleConfig {
    /// Checks what can only fail once the schedule is in use: the zone
    /// must be known, and in cron mode the expression must be there, have
    /// five fields and be accepted by the `cron` crate.
    pub fn validate(&self) -> (r: Result<(), ConfigError>)
        ensures
            match r {
                Ok(_) => schedule_fault(
                    self.mode,
                    optional_text(self.cron_expression),
                    self.timezone@,
                ) is None,
                Err(e) => schedule_fault(
                    self.mode,
                    optional_text(self.cron_expression),
                    self.timezone@,
                ) == Some(e@),
            },
    {
        match find_schedule_fault(self.mode, &self.cron_expression, self.timezone.as_str()) {
            Some(e) => Err(e),
            None => Ok(()),
        }
    }
}

impl ConfigError {
    /// The refusal in words.
    pub fn message(&self) -> (text: String)
        ensures
            text@ == config_error_message(self@),
    {
        let mut chars: Vec<char> = Vec::new();
        match self {
            ConfigError::InvalidScheduleMode(mode) => {
                append_str(&mut chars, "Invalid schedule mode: ");
                append_str(&mut chars, mode.as_str());
            },
            ConfigError::InvalidIntervalSeconds => {
                append_str(&mut chars, "Invalid NETSPEED_INTERVAL_SECONDS");
            },
            ConfigError::InvalidTimezone(zone) => {
                append_str(&mut chars, "Invalid timezone: ");
                append_str(&mut chars, zone.as_str());
            },
            ConfigError::MissingCronExpression => {
                append_str(&mut chars, "NETSPEED_SCHEDULE is required in cron mode");
            },
            ConfigError::InvalidCronExpression(expression) => {
                append_str(&mut chars, "Invalid cron expression: ");
                append_str(&mut chars, expression.as_str());
            },
            ConfigError::InvalidAllowOverlap => {
                append_str(&mut chars, "Invalid NETSPEED_ALLOW_OVERLAP");
            },
            ConfigError::InvalidTimeoutSeconds => {
                append_str(&mut chars, "Invalid NETSPEED_TIMEOUT_SECONDS");
            },
            ConfigError::ZeroTimeout => {
                append_str(&mut chars, "NETSPEED_TIMEOUT_SECONDS must be greater than 0");
            },
            ConfigError::InvalidResourceInterval => {
                append_str(&mut chars, "Invalid NETSPEED_RESOURCE_INTERVAL_SECONDS");
            },
        }
        string_of(&chars)
    }
}

impl Settings {
    /// Settings of which none is given.
    pub fn empty() -> (s: Settings)
        ensures
            s.bind is None,
            s.schedule_mode is None,
            s.interval_seconds is None,
            s.schedule is None,
            s.timezone is None,
            s.allow_overlap is None,
            s.timeout_seconds is None,
            s.ntfy_url is None,
            s.ntfy_token is None,
            s.ntfy_title is None,
            s.ntfy_tags is None,
            s.ntfy_priority is None,
            s.ntfy_click is None,
            s.notify_on is None,
            s.resource_interval_seconds is None,
    {
        Settings {
            bind: None,
            schedule_mode: None,
            interval_seconds: None,
            schedule: None,
            timezone: None,
            allow_overlap: None,
            timeout_seconds: None,
            ntfy_url: None,
            ntfy_token: None,
            ntfy_title: None,
            ntfy_tags: None,
            ntfy_priority: None,
            ntfy_click: None,
            notify_on: None,
            resource_interval_seconds: None,
        }
    }
}

impl Config {
    /// Makes the configuration that settings describe, or says what is
    /// wrong with them.
    pub fn from_settings(s: &Settings) -> (r: Result<Config, ConfigError>)
        ensures
            match r {
                Ok(c) => settings_fault(*s) is None && config_of(*s, c),
                Err(e) => settings_fault(*s) == Some(e@),
            },
    {
        let bind_address = text_or(&s.bind, "0.0.0.0:9109");
        let mode = match &s.schedule_mode {
            Some(text) => {
                if same_text(text.as_str(), "hourly_aligned") {
                    ScheduleMode::HourlyAligned
                } else if same_text(text.as_str(), "interval") {
                    ScheduleMode::Interval
                } else if same_text(text.as_str(), "cron") {
                    ScheduleMode::Cron
                } else {
                    return Err(ConfigError::InvalidScheduleMode(copy_of(text)));
                }
            },
            None => ScheduleMode::HourlyAligned,
        };
        let interval_seconds = match u64_or(&s.interval_seconds, 3600) {
            Some(n) => n,
            None => {
                return Err(ConfigError::InvalidIntervalSeconds);
            },
        };
        let cron_expression = copy_of_optional(&s.schedule);
        let timezone = text_or(&s.timezone, "Europe/Brussels");
        match find_schedule_fault(mode, &cron_expression, timezone.as_str()) {
            Some(e) => {
                return Err(e);
            },
            None => {},
        }
        let allow_overlap = match &s.allow_overlap {
            Some(text) => {
                if same_text(text.as_str(), "true") {
                    true
                } else if same_text(text.as_str(), "false") {
                    false
                } else {
                    return Err(ConfigError::InvalidAllowOverlap);
                }
            },
            None => false,
        };
        let timeout_seconds = match u64_or(&s.timeout_seconds, 120) {
            Some(n) => n,
            None => {
                return Err(ConfigError::InvalidTimeoutSeconds);
            },
        };
        if timeout_seconds == 0 {
            return Err(ConfigError::ZeroTimeout);
        }
        let resource_interval_seconds = match u64_or(&s.resource_interval_seconds, 15) {
            Some(n) => n,
            None => {
                return Err(ConfigError::InvalidResourceInterval);
            },
        };
        let ntfy = match &s.ntfy_url {
            Some(url) => {
                let priority: u8 = match &s.ntfy_priority {
                    Some(text) => match read_bounded(text.as_str(), 255) {
                        Some(n) => if n < 1 {
                            1
                        } else if n > 5 {
                            5
                        } else {
                            n as u8
                        },
                        None => 3,
                    },
                    None => 3,
                };
                Some(
                    NtfyConfig {
                        url: copy_of(url),
                        token: copy_of_optional(&s.ntfy_token),
                        title: text_or(&s.ntfy_title, "netspeed-lite"),
                        tags: text_or(&s.ntfy_tags, "speedtest,isp"),
                        priority,
                        click_url: copy_of_optional(&s.ntfy_click),
                    },
                )
            },
            None => None,
        };
        let notify_on_text = text_or(&s.notify_on, "success,failure");
        let notify_on = NotifyOn {
            success: contains_text(notify_on_text.as_str(), "success"),
            failure: contains_text(notify_on_text.as_str(), "failure"),
        };
        let mut args: Vec<String> = Vec::new();
        args.push(String::from_str("--format=json"));
        args.push(String::from_str("--accept-license"));
        args.push(String::from_str("--accept-gdpr"));
        Ok(
            Config {
                server: ServerConfig { bind_address },
                schedule: ScheduleConfig {
                    mode,
                    interval_seconds,
                    cron_expression,
                    timezone,
                    allow_overlap,
                },
                speedtest: SpeedtestConfig {
                    command: String::from_str("speedtest"),
                    args,
                    timeout_seconds,
                },
                ntfy,
                notify_on,
                resource_interval_seconds,
            },
        )
    }
}

} // verus!
