//! The scheduling rules: when the next run is due, whether a due run may
//! start, and what is published once a run has ended.
//!
//! Three modes pick the next run:
//! 1. `HourlyAligned`: the next top of the hour in the configured zone.
//! 2. `Interval`: a fixed number of seconds after the time of asking.
//! 3. `Cron`: the next firing of a five-field cron expression.
//!
//! The caller owns the clock, the waiting and the measurement itself; it
//! hands in the current instant and what happened, and acts on what these
//! functions return.
use vstd::prelude::*;
use crate::clock::{
    following_hour, local_hour_start, local_time, local_time_at, resolve_local_hour, CivilTime,
    Timestamp,
};
use crate::config::{Config, NotifyOn, ScheduleConfig, ScheduleMode};
use crate::cron_schedule::{
    cron_firing_after, next_firing, six_field_expression, six_field_form, CRON_HORIZON,
};
use crate::decimal::Decimal;
use crate::notifier::{build_notification, notification_message, notification_title, Notification};
use crate::runner::{RunDuration, RunOutcome, RunOutcomeView, RunResult};
use crate::text::optional_text;

verus! {

/// Seconds added to the time of asking where no top of the hour can be
/// found.
pub const ALIGNED_FALLBACK_SECONDS: u64 = 3600;

/// Seconds added to the time of asking where a cron schedule gives no
/// next firing.
pub const CRON_FALLBACK_SECONDS: u64 = 60;

/// The instant `seconds` after `now`.
pub open spec fn later_by(now: Timestamp, seconds: int) -> Timestamp {
    Timestamp { secs: (now.secs + seconds) as i64, nanos: now.nanos }
}

/// Whether a wall-clock time is exactly at the top of an hour.
pub open spec fn on_hour_boundary(local: CivilTime) -> bool {
    local.minute == 0 && local.second == 0 && local.nanosecond == 0
}

/// The candidate where there is one and it lies after `now`; else the
/// instant `fallback_seconds` after `now`.
pub open spec fn candidate_or_fallback(
    now: Timestamp,
    candidate: Option<Timestamp>,
    fallback_seconds: int,
) -> Timestamp {
    match candidate {
        Some(t) => if t@ > now@ {
            t
        } else {
            later_by(now, fallback_seconds)
        },
        None => later_by(now, fallback_seconds),
    }
}

/// The next hour-aligned run after `now`, where `local` is the wall-clock
/// time at `now` and `next_hour` the instant at which the following hour
/// begins.
///
/// Exactly at the top of an hour the run is due one hour later. Otherwise
/// it is due when the following hour begins; where that instant is not
/// known or does not lie after `now`, or the wall-clock time is not
/// known, one hour after `now`.
pub open spec fn aligned_run(
    now: Timestamp,
    local: Option<CivilTime>,
    next_hour: Option<Timestamp>,
) -> Timestamp {
    match local {
        Some(time) => if on_hour_boundary(time) {
            later_by(now, ALIGNED_FALLBACK_SECONDS as int)
        } else {
            candidate_or_fallback(now, next_hour, ALIGNED_FALLBACK_SECONDS as int)
        },
        None => later_by(now, ALIGNED_FALLBACK_SECONDS as int),
    }
}

/// The instant at which the hour that follows a wall-clock time begins
/// in the zone `zone`, where the zone shows that hour's beginning exactly
/// once.
pub open spec fn following_hour_start(zone: Seq<char>, local: CivilTime) -> Option<Timestamp> {
    match following_hour(local) {
        Some((year, month, day, hour)) => local_hour_start(
            zone,
            year as int,
            month as int,
            day as int,
            hour as int,
        ),
        None => None,
    }
}

/// The next hour-aligned run after `now` in the zone `zone`.
pub open spec fn aligned_run_in(zone: Seq<char>, now: Timestamp) -> Timestamp {
    let local = local_time_at(zone, now.secs as int, now.nanos as int);
    aligned_run(
        now,
        local,
        match local {
            Some(time) => following_hour_start(zone, time),
            None => None,
        },
    )
}

/// The next cron run after `now`, where `firing` is the schedule's next
/// firing: the firing where there is one and it lies after `now`, else
/// one minute after `now`.
pub open spec fn cron_run(now: Timestamp, firing: Option<Timestamp>) -> Timestamp {
    candidate_or_fallback(now, firing, CRON_FALLBACK_SECONDS as int)
}

/// The next firing after `now` of a five-field expression in the zone
/// `zone`. There is none where no expression is configured, where it has
/// not five fields, and where `now` lies beyond `CRON_HORIZON`.
pub open spec fn cron_firing_for(
    expression: Option<Seq<char>>,
    zone: Seq<char>,
    now: Timestamp,
) -> Option<Timestamp> {
    match expression {
        Some(five) => match six_field_form(five) {
            Some(six) => if now.secs <= CRON_HORIZON {
                cron_firing_after(six, zone, now.secs as int, now.nanos as int)
            } else {
                None
            },
            None => None,
        },
        None => None,
    }
}

/// The next run after `now` under a schedule.
pub open spec fn next_run_of(schedule: ScheduleConfig, now: Timestamp) -> Timestamp {
    match schedule.mode {
        ScheduleMode::HourlyAligned => aligned_run_in(schedule.timezone@, now),
        ScheduleMode::Interval => later_by(now, schedule.interval_seconds as int),
        ScheduleMode::Cron => cron_run(
            now,
            cron_firing_for(optional_text(schedule.cron_expression), schedule.timezone@, now),
        ),
    }
}

/// Whether the next run after `now` can be written as an instant: the
/// seconds that the schedule may add to `now` do not lead beyond the last
/// second there is.
pub open spec fn in_schedule_range(schedule: ScheduleConfig, now: Timestamp) -> bool {
    match schedule.mode {
        ScheduleMode::HourlyAligned => now.secs + ALIGNED_FALLBACK_SECONDS <= i64::MAX,
        ScheduleMode::Interval => now.secs + schedule.interval_seconds <= i64::MAX,
        ScheduleMode::Cron => now.secs + CRON_FALLBACK_SECONDS <= i64::MAX,
    }
}

/// Picks a candidate that lies after `now`, or the fallback.
pub fn pick_candidate(now: &Timestamp, candidate: Option<Timestamp>, fallback_seconds: u64) -> (r:
    Timestamp)
    requires
        now.secs + fallback_seconds <= i64::MAX,
    ensures
        r == candidate_or_fallback(*now, candidate, fallback_seconds as int),
        fallback_seconds > 0 ==> r@ > now@,
{
    match candidate {
        Some(t) => {
            if t.is_after(now) {
                t
            } else {
                now.plus_seconds(fallback_seconds)
            }
        },
        None => now.plus_seconds(fallback_seconds),
    }
}

/// The next hour-aligned run, from the wall-clock time at `now` and the
/// instant at which the following hour begins.
pub fn choose_aligned_run(
    now: &Timestamp,
    local: Option<CivilTime>,
    next_hour: Option<Timestamp>,
) -> (r: Timestamp)
    requires
        now.secs + ALIGNED_FALLBACK_SECONDS <= i64::MAX,
    ensures
        r == aligned_run(*now, local, next_hour),
        r@ > now@,
        local matches Some(time) && on_hour_boundary(time) ==> r@ == now@ + 3600 * 1_000_000_000,
{
    match local {
        Some(time) => {
            if time.minute == 0 && time.second == 0 && time.nanosecond == 0 {
                now.plus_seconds(ALIGNED_FALLBACK_SECONDS)
            } else {
                pick_candidate(now, next_hour, ALIGNED_FALLBACK_SECONDS)
            }
        },
        None => now.plus_seconds(ALIGNED_FALLBACK_SECONDS),
    }
}

/// The next cron run, from the schedule's next firing.
pub fn choose_cron_run(now: &Timestamp, firing: Option<Timestamp>) -> (r: Timestamp)
    requires
        now.secs + CRON_FALLBACK_SECONDS <= i64::MAX,
    ensures
        r == cron_run(*now, firing),
        r@ > now@,
{
    pick_candidate(now, firing, CRON_FALLBACK_SECONDS)
}

/// What to do with a run that has come due.
#[derive(Clone, Copy, Debug, PartialEq, Eq, Structural)]
pub enum Trigger {
    /// Start the run.
    Run,
    /// Count the slot as skipped and wait for the next one.
    Skip,
}

/// A due run is skipped exactly where a run is in progress and overlap is
/// not allowed.
pub open spec fn trigger_decision(run_in_progress: bool, allow_overlap: bool) -> Trigger {
    if run_in_progress && !allow_overlap {
        Trigger::Skip
    } else {
        Trigger::Run
    }
}

/// The scheduler's only state that outlives a slot: whether a run is in
/// progress.
#[derive(Clone, Copy, Debug, PartialEq, Eq, Structural)]
pub struct ScheduleState {
    pub run_in_progress: bool,
}

impl ScheduleState {
    /// The state before any run.
    pub fn new() -> (state: ScheduleState)
        ensures
            !state.run_in_progress,
    {
        ScheduleState { run_in_progress: false }
    }

    /// Decides on a run that has come due, and marks a run as in progress
    /// where it is to start. A skipped slot leaves the state as it was.
    pub fn on_trigger(&mut self, allow_overlap: bool) -> (decision: Trigger)
        ensures
            decision == trigger_decision(old(self).run_in_progress, allow_overlap),
            decision is Run ==> final(self).run_in_progress,
            decision is Skip ==> *final(self) == *old(self),
    {
        if self.run_in_progress && !allow_overlap {
            Trigger::Skip
        } else {
            self.run_in_progress = true;
            Trigger::Run
        }
    }

    /// Marks the run as ended, however it ended.
    pub fn on_run_complete(&mut self)
        ensures
            !final(self).run_in_progress,
    {
        self.run_in_progress = false;
    }
}

/// Adding seconds to an instant adds as many thousand million
/// nanoseconds to its view.
pub proof fn lemma_later_by(now: Timestamp, seconds: int)
    requires
        0 <= seconds,
        now.secs + seconds <= i64::MAX,
    ensures
        later_by(now, seconds)@ == now@ + seconds * 1_000_000_000,
{
    assert((now.secs + seconds) * 1_000_000_000 == now.secs * 1_000_000_000 + seconds
        * 1_000_000_000) by (nonlinear_arith);
}

/// In every mode the next run lies strictly after the time of asking,
/// unless the mode is `Interval` and the interval is zero seconds.
pub proof fn lemma_next_run_is_later(schedule: ScheduleConfig, now: Timestamp)
    requires
        in_schedule_range(schedule, now),
        !(schedule.mode is Interval && schedule.interval_seconds == 0),
    ensures
        next_run_of(schedule, now)@ > now@,
{
    match schedule.mode {
        ScheduleMode::HourlyAligned => lemma_later_by(now, ALIGNED_FALLBACK_SECONDS as int),
        ScheduleMode::Interval => lemma_later_by(now, schedule.interval_seconds as int),
        ScheduleMode::Cron => lemma_later_by(now, CRON_FALLBACK_SECONDS as int),
    }
}

/// In `HourlyAligned` mode, where the zone shows `now` exactly at the top
/// of an hour, the next run is due exactly one hour later, and so never
/// at `now` itself.
pub proof fn lemma_run_on_the_hour(schedule: ScheduleConfig, now: Timestamp)
    requires
        schedule.mode is HourlyAligned,
        in_schedule_range(schedule, now),
        local_time_at(schedule.timezone@, now.secs as int, now.nanos as int) matches Some(time)
            && on_hour_boundary(time),
    ensures
        next_run_of(schedule, now) == later_by(now, 3600),
        next_run_of(schedule, now)@ == now@ + 3600 * 1_000_000_000,
{
    lemma_later_by(now, 3600);
}

/// In `Interval` mode the next run is due exactly one interval after the
/// time of asking, whatever the wall clock shows.
pub proof fn lemma_interval_run(schedule: ScheduleConfig, now: Timestamp)
    requires
        schedule.mode is Interval,
        in_schedule_range(schedule, now),
    ensures
        next_run_of(schedule, now)@ == now@ + schedule.interval_seconds * 1_000_000_000,
{
    lemma_later_by(now, schedule.interval_seconds as int);
}

/// While a run is in progress, a run that comes due is skipped where
/// overlap is not allowed and started where it is; while none is in
/// progress it is started.
pub proof fn lemma_overlap_guard(run_in_progress: bool, allow_overlap: bool)
    ensures
        run_in_progress && !allow_overlap ==> trigger_decision(run_in_progress, allow_overlap)
            is Skip,
        run_in_progress && allow_overlap ==> trigger_decision(run_in_progress, allow_overlap)
            is Run,
        !run_in_progress ==> trigger_decision(run_in_progress, allow_overlap) is Run,
{
}

/// What can happen to the scheduler between two waits.
pub enum SlotEvent {
    /// A run has come due.
    Due,
    /// A run has ended.
    RunEnded,
}

/// The scheduler's flag together with the number of runs that are in
/// fact under way.
pub struct RunLedger {
    pub run_in_progress: bool,
    pub in_flight: nat,
}

/// The ledger after an event. A due run that is not skipped starts; a
/// run that ends clears the flag.
pub open spec fn ledger_after(
    ledger: RunLedger,
    allow_overlap: bool,
    event: SlotEvent,
) -> RunLedger {
    match event {
        SlotEvent::Due => match trigger_decision(ledger.run_in_progress, allow_overlap) {
            Trigger::Run => RunLedger { run_in_progress: true, in_flight: ledger.in_flight + 1 },
            Trigger::Skip => ledger,
        },
        SlotEvent::RunEnded => RunLedger {
            run_in_progress: false,
            in_flight: (ledger.in_flight - 1) as nat,
        },
    }
}

/// The flag is set exactly while one run is under way, and never more
/// than one is.
pub open spec fn at_most_one_run(ledger: RunLedger) -> bool {
    ledger.in_flight <= 1 && (ledger.run_in_progress <==> ledger.in_flight == 1)
}

/// The ledger after a sequence of events.
pub open spec fn ledger_after_all(
    ledger: RunLedger,
    allow_overlap: bool,
    events: Seq<SlotEvent>,
) -> RunLedger
    decreases events.len(),
{
    if events.len() == 0 {
        ledger
    } else {
        ledger_after(
            ledger_after_all(ledger, allow_overlap, events.drop_last()),
            allow_overlap,
            events.last(),
        )
    }
}

/// Whether every `RunEnded` in a sequence of events ends a run that is
/// under way.
pub open spec fn ends_only_started_runs(
    ledger: RunLedger,
    allow_overlap: bool,
    events: Seq<SlotEvent>,
) -> bool
    decreases events.len(),
{
    events.len() > 0 ==> ends_only_started_runs(ledger, allow_overlap, events.drop_last()) && (
    events.last() is RunEnded ==> ledger_after_all(
        ledger,
        allow_overlap,
        events.drop_last(),
    ).in_flight > 0)
}

/// Where overlap is not allowed, no sequence of due and ended runs brings
/// two runs under way at once, and the flag is set exactly while one is.
pub proof fn lemma_at_most_one_run(events: Seq<SlotEvent>)
    requires
        ends_only_started_runs(RunLedger { run_in_progress: false, in_flight: 0 }, false, events),
    ensures
        at_most_one_run(
            ledger_after_all(RunLedger { run_in_progress: false, in_flight: 0 }, false, events),
        ),
    decreases events.len(),
{
    if events.len() > 0 {
        lemma_at_most_one_run(events.drop_last());
    }
}

/// The label under which a slot is counted.
#[derive(Clone, Copy, Debug, PartialEq, Eq, Structural)]
pub enum OutcomeLabel {
    Success,
    Failure,
    Skipped,
}

impl OutcomeLabel {
    /// The label as the metrics write it.
    pub open spec fn text(self) -> Seq<char> {
        match self {
            OutcomeLabel::Success => "success"@,
            OutcomeLabel::Failure => "failure"@,
            OutcomeLabel::Skipped => "skipped"@,
        }
    }

    /// The label as the metrics write it.
    pub fn as_str(&self) -> (label: &'static str)
        ensures
            label@ == self.text(),
    {
        match self {
            OutcomeLabel::Success => "success",
            OutcomeLabel::Failure => "failure",
            OutcomeLabel::Skipped => "skipped",
        }
    }
}

/// One change to the metrics.
#[derive(Clone, Copy, Debug, PartialEq, Eq)]
pub enum MetricUpdate {
    /// Set the time of the last run, in seconds since the Unix epoch.
    RunTimestamp(i64),
    /// Set the duration of the last run.
    RunDuration(RunDuration),
    /// Set whether the last run succeeded.
    LastSuccess(bool),
    /// Add one to the count of slots with this label.
    CountRun(OutcomeLabel),
    /// Set the download throughput in bits per second.
    Download(Decimal),
    /// Set the upload throughput in bits per second.
    Upload(Decimal),
    /// Set the latency in seconds.
    Latency(Decimal),
    /// Set the jitter in seconds.
    Jitter(Decimal),
    /// Set the packet loss ratio.
    PacketLoss(Decimal),
}

/// The changes for an optional reading: one where it is there, none
/// where it is not.
pub open spec fn optional_update(value: Option<Decimal>, jitter: bool) -> Seq<MetricUpdate> {
    match value {
        Some(d) => seq![if jitter {
            MetricUpdate::Jitter(d)
        } else {
            MetricUpdate::PacketLoss(d)
        }],
        None => Seq::empty(),
    }
}

/// The changes to the metrics after a run that ended at `finished_at`:
/// time and duration of the run, whether it succeeded, one more run under
/// its label, and after a success the readings, of which jitter and
/// packet loss only where they were measured.
pub open spec fn metric_updates(
    outcome: RunOutcomeView,
    duration: RunDuration,
    finished_at: Timestamp,
) -> Seq<MetricUpdate> {
    let head = seq![
        MetricUpdate::RunTimestamp(finished_at.secs),
        MetricUpdate::RunDuration(duration),
    ];
    match outcome {
        RunOutcomeView::Success(result) => head + seq![
            MetricUpdate::LastSuccess(true),
            MetricUpdate::CountRun(OutcomeLabel::Success),
            MetricUpdate::Download(result.download_bps),
            MetricUpdate::Upload(result.upload_bps),
            MetricUpdate::Latency(result.latency_seconds),
        ] + optional_update(result.jitter_seconds, true) + optional_update(
            result.packet_loss_ratio,
            false,
        ),
        RunOutcomeView::Failure(_) => head + seq![
            MetricUpdate::LastSuccess(false),
            MetricUpdate::CountRun(OutcomeLabel::Failure),
        ],
    }
}

/// Whether an outcome is notified: a notifier is configured, and the
/// outcome's kind is among those to notify.
pub open spec fn notifies(outcome: RunOutcomeView, configured: bool, notify_on: NotifyOn) -> bool {
    configured && match outcome {
        RunOutcomeView::Success(_) => notify_on.success,
        RunOutcomeView::Failure(_) => notify_on.failure,
    }
}

/// What is published for one slot.
#[derive(Clone, Debug, PartialEq, Eq)]
pub struct RunReport {
    /// The changes to the metrics, in the order to apply them.
    pub metrics: Vec<MetricUpdate>,
    /// The notification to send, if any.
    pub notification: Option<Notification>,
}

/// The changes to the metrics after a run.
pub fn plan_metrics(result: &RunResult, finished_at: &Timestamp) -> (updates: Vec<MetricUpdate>)
    ensures
        updates@ == metric_updates(result.outcome@, result.duration, *finished_at),
{
    let mut updates: Vec<MetricUpdate> = Vec::new();
    updates.push(MetricUpdate::RunTimestamp(finished_at.secs));
    updates.push(MetricUpdate::RunDuration(result.duration));
    match &result.outcome {
        RunOutcome::Success(measured) => {
            updates.push(MetricUpdate::LastSuccess(true));
            updates.push(MetricUpdate::CountRun(OutcomeLabel::Success));
            updates.push(MetricUpdate::Download(measured.download_bps));
            updates.push(MetricUpdate::Upload(measured.upload_bps));
            updates.push(MetricUpdate::Latency(measured.latency_seconds));
            match measured.jitter_seconds {
                Some(jitter) => {
                    updates.push(MetricUpdate::Jitter(jitter));
                },
                None => {},
            }
            match measured.packet_loss_ratio {
                Some(loss) => {
                    updates.push(MetricUpdate::PacketLoss(loss));
                },
                None => {},
            }
        },
        RunOutcome::Failure(_) => {
            updates.push(MetricUpdate::LastSuccess(false));
            updates.push(MetricUpdate::CountRun(OutcomeLabel::Failure));
        },
    }
    updates
}

/// What is published for a skipped slot: one more slot counted as
/// skipped, and no notification.
pub fn report_skip() -> (report: RunReport)
    ensures
        report.metrics@ == seq![MetricUpdate::CountRun(OutcomeLabel::Skipped)],
        report.notification is None,
{
    let mut metrics: Vec<MetricUpdate> = Vec::new();
    metrics.push(MetricUpdate::CountRun(OutcomeLabel::Skipped));
    RunReport { metrics, notification: None }
}

/// The scheduler: its configuration and its state.
#[derive(Clone, Debug, PartialEq, Eq)]
pub struct Scheduler {
    pub config: Config,
    pub state: ScheduleState,
}

impl Scheduler {
    /// A scheduler with no run in progress.
    pub fn new(config: Config) -> (scheduler: Scheduler)
        ensures
            scheduler.config == config,
            !scheduler.state.run_in_progress,
    {
        Scheduler { config, state: ScheduleState::new() }
    }

    /// The next run after `now` under the configured mode.
    ///
    /// Unless the mode is `Interval` with an interval of zero seconds, the
    /// run lies after `now`.
    pub fn calculate_next_run(&self, now: &Timestamp) -> (next: Timestamp)
        requires
            in_schedule_range(self.config.schedule, *now),
        ensures
            next == next_run_of(self.config.schedule, *now),
            !(self.config.schedule.mode is Interval && self.config.schedule.interval_seconds == 0)
                ==> next@ > now@,
    {
        match self.config.schedule.mode {
            ScheduleMode::HourlyAligned => self.calculate_next_aligned_run(now),
            ScheduleMode::Interval => self.calculate_next_interval_run(now),
            ScheduleMode::Cron => self.calculate_next_cron_run(now),
        }
    }

    /// The next run after `now`, or `None` where it could not be written
    /// as an instant.
    pub fn try_next_run(&self, now: &Timestamp) -> (next: Option<Timestamp>)
        ensures
            next == (if in_schedule_range(self.config.schedule, *now) {
                Some(next_run_of(self.config.schedule, *now))
            } else {
                None
            }),
    {
        let reach: u64 = match self.config.schedule.mode {
            ScheduleMode::HourlyAligned => ALIGNED_FALLBACK_SECONDS,
            ScheduleMode::Interval => self.config.schedule.interval_seconds,
            ScheduleMode::Cron => CRON_FALLBACK_SECONDS,
        };
        if now.secs as i128 + reach as i128 <= i64::MAX as i128 {
            Some(self.calculate_next_run(now))
        } else {
            None
        }
    }

    /// The next firing of the configured cron expression after `now`, or
    /// one minute after `now` where there is none.
    pub fn calculate_next_cron_run(&self, now: &Timestamp) -> (next: Timestamp)
        requires
            now.secs + CRON_FALLBACK_SECONDS <= i64::MAX,
        ensures
            next == cron_run(
                *now,
                cron_firing_for(
                    optional_text(self.config.schedule.cron_expression),
                    self.config.schedule.timezone@,
                    *now,
                ),
            ),
            next@ > now@,
    {
        let firing = match &self.config.schedule.cron_expression {
            Some(five) => match six_field_expression(five.as_str()) {
                Some(six) => {
                    if now.secs <= CRON_HORIZON {
                        next_firing(six.as_str(), self.config.schedule.timezone.as_str(), now)
                    } else {
                        None
                    }
                },
                None => None,
            },
            None => None,
        };
        choose_cron_run(now, firing)
    }

    /// The next top of the hour after `now` in the configured zone.
    ///
    /// Exactly at the top of an hour this is one hour after `now`.
    /// Otherwise it is the beginning of the hour that follows on the
    /// zone's wall clock. Where the zone is not known, or shows that
    /// beginning never (the clocks go forward over it) or twice (they go
    /// back over it), the run is due one hour after `now`.
    pub fn calculate_next_aligned_run(&self, now: &Timestamp) -> (next: Timestamp)
        requires
            now.secs + ALIGNED_FALLBACK_SECONDS <= i64::MAX,
        ensures
            next == aligned_run_in(self.config.schedule.timezone@, *now),
            next@ > now@,
    {
        let zone = self.config.schedule.timezone.as_str();
        let local = local_time(zone, now);
        let next_hour = match local {
            Some(time) => {
                if time.minute == 0 && time.second == 0 && time.nanosecond == 0 {
                    None
                } else {
                    match time.next_hour() {
                        Some((year, month, day, hour)) => resolve_local_hour(
                            zone,
                            year,
                            month,
                            day,
                            hour,
                        ),
                        None => None,
                    }
                }
            },
            None => None,
        };
        choose_aligned_run(now, local, next_hour)
    }

    /// The instant one interval after `now`.
    pub fn calculate_next_interval_run(&self, now: &Timestamp) -> (next: Timestamp)
        requires
            now.secs + self.config.schedule.interval_seconds <= i64::MAX,
        ensures
            next == later_by(*now, self.config.schedule.interval_seconds as int),
            next@ == now@ + self.config.schedule.interval_seconds * 1_000_000_000,
    {
        now.plus_seconds(self.config.schedule.interval_seconds)
    }

    /// Decides on a run that has come due: it is skipped exactly where a
    /// run is in progress and the configuration does not allow overlap.
    pub fn on_wake(&mut self) -> (decision: Trigger)
        ensures
            decision == trigger_decision(
                old(self).state.run_in_progress,
                old(self).config.schedule.allow_overlap,
            ),
            final(self).config == old(self).config,
            decision is Run ==> final(self).state.run_in_progress,
            decision is Skip ==> final(self).state == old(self).state,
    {
        let allow_overlap = self.config.schedule.allow_overlap;
        self.state.on_trigger(allow_overlap)
    }

    /// Takes in the result of the run that ended at `finished_at`: no run
    /// is in progress any more, and the report says what to publish.
    /// `notifier_present` tells whether notifications can be sent at all.
    pub fn complete_run(&mut self, result: &RunResult, finished_at: &Timestamp) -> (report:
        RunReport)
        ensures
            final(self).config == old(self).config,
            !final(self).state.run_in_progress,
            report.metrics@ == metric_updates(result.outcome@, result.duration, *finished_at),
            report.notification is Some <==> notifies(
                result.outcome@,
                old(self).config.ntfy is Some,
                old(self).config.notify_on,
            ),
            report.notification matches Some(n) ==> old(self).config.ntfy matches Some(ntfy)
                && n.title@ == notification_title(ntfy.title@, result.outcome@) && n.message@
                == notification_message(result.outcome@, result.duration),
    {
        self.state.on_run_complete();
        let metrics = plan_metrics(result, finished_at);
        let wanted = match &result.outcome {
            RunOutcome::Success(_) => self.config.notify_on.success,
            RunOutcome::Failure(_) => self.config.notify_on.failure,
        };
        let notification = match &self.config.ntfy {
            Some(ntfy) => {
                if wanted {
                    Some(build_notification(ntfy.title.as_str(), &result.outcome, result.duration))
                } else {
                    None
                }
            },
            None => None,
        };
        RunReport { metrics, notification }
    }
}

} // verus!
