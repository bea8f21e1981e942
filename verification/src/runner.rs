//! The outcome of one measurement run: the result types, the failure
//! categories, and the rules that turn what the measurement process did
//! and wrote into one of them.
use vstd::prelude::*;
use crate::decimal::{decimal_reading, decimal_text, per_thousand_of, times_eight_of, Decimal};
use crate::payload::{
    decode_document, json_decoding, payload_nodes, read_nodes, JsonNode, JsonNodeView,
    PayloadNodes, PayloadNodesView,
};
use crate::text::{append_str, chars_of, joined_by, lemma_joined_push, string_of};

verus! {

/// One successful measurement, in normalised units.
#[derive(Clone, Copy, Debug, PartialEq, Eq)]
pub struct SpeedtestResult {
    /// Download throughput in bits per second.
    pub download_bps: Decimal,
    /// Upload throughput in bits per second.
    pub upload_bps: Decimal,
    /// Latency in seconds.
    pub latency_seconds: Decimal,
    /// Jitter in seconds, where the tool reported it.
    pub jitter_seconds: Option<Decimal>,
    /// Packet loss as a ratio between 0 and 1, where a backend reports it.
    pub packet_loss_ratio: Option<Decimal>,
}

/// The ways in which a run can fail.
#[derive(Clone, Debug, PartialEq, Eq)]
pub enum ErrorCategory {
    /// The command did not exit within this many seconds.
    Timeout(u64),
    /// No executable of this name was found.
    CommandNotFound(String),
    /// The command exited with this code (-1 where it had none).
    CommandFailed(i32),
    /// The payload could not be decoded, or held an invalid value.
    InvalidOutput(String),
    /// The payload lacked these required fields, joined by commas.
    MissingFields(String),
    /// Any other fault.
    Internal(String),
}

/// The mathematical value of an `ErrorCategory`.
pub enum ErrorCategoryView {
    Timeout(u64),
    CommandNotFound(Seq<char>),
    CommandFailed(i32),
    InvalidOutput(Seq<char>),
    MissingFields(Seq<char>),
    Internal(Seq<char>),
}

impl View for ErrorCategory {
    type V = ErrorCategoryView;

    open spec fn view(&self) -> ErrorCategoryView {
        match self {
            ErrorCategory::Timeout(seconds) => ErrorCategoryView::Timeout(*seconds),
            ErrorCategory::CommandNotFound(name) => ErrorCategoryView::CommandNotFound(name@),
            ErrorCategory::CommandFailed(code) => ErrorCategoryView::CommandFailed(*code),
            ErrorCategory::InvalidOutput(detail) => ErrorCategoryView::InvalidOutput(detail@),
            ErrorCategory::MissingFields(names) => ErrorCategoryView::MissingFields(names@),
            ErrorCategory::Internal(detail) => ErrorCategoryView::Internal(detail@),
        }
    }
}

/// How a run ended.
#[derive(Clone, Debug, PartialEq, Eq)]
pub enum RunOutcome {
    Success(SpeedtestResult),
    Failure(ErrorCategory),
}

/// The mathematical value of a `RunOutcome`.
pub enum RunOutcomeView {
    Success(SpeedtestResult),
    Failure(ErrorCategoryView),
}

impl View for RunOutcome {
    type V = RunOutcomeView;

    open spec fn view(&self) -> RunOutcomeView {
        match self {
            RunOutcome::Success(result) => RunOutcomeView::Success(*result),
            RunOutcome::Failure(error) => RunOutcomeView::Failure(error@),
        }
    }
}

/// Wall-clock time that a run took: whole seconds and the nanoseconds
/// beyond them.
#[derive(Clone, Copy, Debug, PartialEq, Eq)]
pub struct RunDuration {
    pub secs: u64,
    pub subsec_nanos: u32,
}

/// A run's outcome together with the time it took.
#[derive(Clone, Debug, PartialEq, Eq)]
pub struct RunResult {
    pub outcome: RunOutcome,
    pub duration: RunDuration,
}

/// The mathematical value of a classification: the measurement, or the
/// view of the failure.
pub open spec fn verdict_view(r: Result<SpeedtestResult, ErrorCategory>) -> Result<
    SpeedtestResult,
    ErrorCategoryView,
> {
    match r {
        Ok(result) => Ok(result),
        Err(error) => Err(error@),
    }
}

/// The outcome that a classification amounts to.
pub open spec fn outcome_of(v: Result<SpeedtestResult, ErrorCategoryView>) -> RunOutcomeView {
    match v {
        Ok(result) => RunOutcomeView::Success(result),
        Err(error) => RunOutcomeView::Failure(error),
    }
}

/// What the payload says of one required or optional number.
#[derive(Clone, Copy, Debug, PartialEq, Eq, Structural)]
pub enum LeafKind {
    /// The place that should hold the number's object holds something else.
    NotAnObject,
    /// The number's place holds something that is no number.
    NotANumber,
    /// The object or the number is left out or null.
    Missing,
    /// A number stands there.
    Present,
}

/// What the payload says of the number at `leaf` inside `container`. The
/// leaf counts only where the container is an object.
pub open spec fn leaf_kind_of(container: JsonNodeView, leaf: JsonNodeView) -> LeafKind {
    match container {
        JsonNodeView::Absent | JsonNodeView::Null => LeafKind::Missing,
        JsonNodeView::Object => match leaf {
            JsonNodeView::Absent | JsonNodeView::Null => LeafKind::Missing,
            JsonNodeView::Number(_) => LeafKind::Present,
            _ => LeafKind::NotANumber,
        },
        _ => LeafKind::NotAnObject,
    }
}

/// The numeral at a place, empty where no number stands there.
pub open spec fn numeral_of(leaf: JsonNodeView) -> Seq<char> {
    match leaf {
        JsonNodeView::Number(numeral) => numeral,
        _ => Seq::empty(),
    }
}

/// The first place of the payload that holds a value of the wrong kind,
/// in words; `None` where every place read is of an accepted kind.
pub open spec fn shape_fault(n: PayloadNodesView) -> Option<Seq<char>> {
    let download = leaf_kind_of(n.download, n.download_bandwidth);
    let upload = leaf_kind_of(n.upload, n.upload_bandwidth);
    let latency = leaf_kind_of(n.ping, n.ping_latency);
    let jitter = leaf_kind_of(n.ping, n.ping_jitter);
    if !(n.root is Object) {
        Some("payload is not an object"@)
    } else if download is NotAnObject {
        Some("download is not an object"@)
    } else if download is NotANumber {
        Some("download.bandwidth is not a number"@)
    } else if upload is NotAnObject {
        Some("upload is not an object"@)
    } else if upload is NotANumber {
        Some("upload.bandwidth is not a number"@)
    } else if latency is NotAnObject {
        Some("ping is not an object"@)
    } else if latency is NotANumber {
        Some("ping.latency is not a number"@)
    } else if jitter is NotANumber {
        Some("ping.jitter is not a number"@)
    } else {
        None
    }
}

/// The names of the required fields among the three that are missing, in
/// the order download, upload, latency.
pub open spec fn missing_names(download: bool, upload: bool, latency: bool) -> Seq<Seq<char>> {
    (if download {
        seq!["download.bandwidth"@]
    } else {
        Seq::empty()
    }) + (if upload {
        seq!["upload.bandwidth"@]
    } else {
        Seq::empty()
    }) + (if latency {
        seq!["ping.latency"@]
    } else {
        Seq::empty()
    })
}

/// Bits per second from a numeral of bytes per second.
pub open spec fn bits_per_second(numeral: Seq<char>) -> Option<Decimal> {
    match decimal_reading(numeral) {
        Some(d) => times_eight_of(d),
        None => None,
    }
}

/// Seconds from a numeral of milliseconds.
pub open spec fn seconds_of_millis(numeral: Seq<char>) -> Option<Decimal> {
    match decimal_reading(numeral) {
        Some(d) => per_thousand_of(d),
        None => None,
    }
}

/// The measurement that four numerals give: bandwidths times eight,
/// latency and jitter divided by a thousand. A numeral that cannot be
/// read or scaled is reported first, in the order download, upload,
/// latency, jitter; then a negative download, upload or latency, in that
/// order, each with the offending value.
pub open spec fn measurement_verdict(
    download: Seq<char>,
    upload: Seq<char>,
    latency: Seq<char>,
    jitter: Option<Seq<char>>,
) -> Result<SpeedtestResult, ErrorCategoryView> {
    let d = bits_per_second(download);
    let u = bits_per_second(upload);
    let l = seconds_of_millis(latency);
    let j = match jitter {
        Some(numeral) => seconds_of_millis(numeral),
        None => None,
    };
    if d is None {
        Err(ErrorCategoryView::InvalidOutput("download.bandwidth is out of range"@))
    } else if u is None {
        Err(ErrorCategoryView::InvalidOutput("upload.bandwidth is out of range"@))
    } else if l is None {
        Err(ErrorCategoryView::InvalidOutput("ping.latency is out of range"@))
    } else if jitter is Some && j is None {
        Err(ErrorCategoryView::InvalidOutput("ping.jitter is out of range"@))
    } else if d->0.is_negative() {
        Err(ErrorCategoryView::InvalidOutput("Invalid download speed: "@ + decimal_text(d->0)))
    } else if u->0.is_negative() {
        Err(ErrorCategoryView::InvalidOutput("Invalid upload speed: "@ + decimal_text(u->0)))
    } else if l->0.is_negative() {
        Err(ErrorCategoryView::InvalidOutput("Invalid latency: "@ + decimal_text(l->0)))
    } else {
        Ok(
            SpeedtestResult {
                download_bps: d->0,
                upload_bps: u->0,
                latency_seconds: l->0,
                jitter_seconds: j,
                packet_loss_ratio: None,
            },
        )
    }
}

/// What a payload amounts to, from the eight places read of it: a place
/// of the wrong kind makes it invalid; else every missing required field
/// is named; else the numbers decide.
pub open spec fn payload_verdict(n: PayloadNodesView) -> Result<
    SpeedtestResult,
    ErrorCategoryView,
> {
    let download = leaf_kind_of(n.download, n.download_bandwidth);
    let upload = leaf_kind_of(n.upload, n.upload_bandwidth);
    let latency = leaf_kind_of(n.ping, n.ping_latency);
    let jitter = leaf_kind_of(n.ping, n.ping_jitter);
    match shape_fault(n) {
        Some(what) => Err(ErrorCategoryView::InvalidOutput("JSON parse error: "@ + what)),
        None => if download is Missing || upload is Missing || latency is Missing {
            Err(
                ErrorCategoryView::MissingFields(
                    joined_by(
                        ',',
                        missing_names(download is Missing, upload is Missing, latency is Missing),
                    ),
                ),
            )
        } else {
            measurement_verdict(
                numeral_of(n.download_bandwidth),
                numeral_of(n.upload_bandwidth),
                numeral_of(n.ping_latency),
                if jitter is Present {
                    Some(numeral_of(n.ping_jitter))
                } else {
                    None
                },
            )
        },
    }
}

/// What a payload text amounts to, given what the decoder makes of it: a
/// text that does not decode is invalid, with the decoder's message.
pub open spec fn output_verdict(
    decoding: Result<Map<Seq<char>, JsonNodeView>, Seq<char>>,
) -> Result<SpeedtestResult, ErrorCategoryView> {
    match decoding {
        Ok(nodes) => payload_verdict(payload_nodes(nodes)),
        Err(detail) => Err(ErrorCategoryView::InvalidOutput("JSON parse error: "@ + detail)),
    }
}

/// The text made of `prefix` followed by `rest`.
fn joined(prefix: &str, rest: &str) -> (out: String)
    ensures
        out@ == prefix@ + rest@,
{
    let mut chars: Vec<char> = chars_of(prefix);
    append_str(&mut chars, rest);
    string_of(&chars)
}

/// What the payload says of the number at `leaf` inside `container`.
fn leaf_kind(container: &JsonNode, leaf: &JsonNode) -> (kind: LeafKind)
    ensures
        kind == leaf_kind_of(container@, leaf@),
{
    match container {
        JsonNode::Absent => LeafKind::Missing,
        JsonNode::Null => LeafKind::Missing,
        JsonNode::Object => match leaf {
            JsonNode::Absent => LeafKind::Missing,
            JsonNode::Null => LeafKind::Missing,
            JsonNode::Number(_) => LeafKind::Present,
            _ => LeafKind::NotANumber,
        },
        _ => LeafKind::NotAnObject,
    }
}

/// The numeral at a place, empty where no number stands there.
fn numeral(leaf: &JsonNode) -> (out: &str)
    ensures
        out@ == numeral_of(leaf@),
{
    proof {
        reveal_strlit("");
        assert(""@ =~= Seq::<char>::empty());
    }
    match leaf {
        JsonNode::Number(numeral) => numeral.as_str(),
        _ => "",
    }
}

/// The comma-joined names of the missing required fields.
fn missing_text(download: bool, upload: bool, latency: bool) -> (out: String)
    ensures
        out@ == joined_by(',', missing_names(download, upload, latency)),
{
    let mut chars: Vec<char> = Vec::new();
    let mut any = false;
    let ghost mut names: Seq<Seq<char>> = Seq::empty();
    if download {
        append_str(&mut chars, "download.bandwidth");
        proof {
            lemma_joined_push(',', names, "download.bandwidth"@);
            names = names.push("download.bandwidth"@);
        }
        any = true;
    }
    assert(chars@ == joined_by(',', names) && any == (names.len() > 0));
    if upload {
        if any {
            chars.push(',');
        }
        append_str(&mut chars, "upload.bandwidth");
        proof {
            lemma_joined_push(',', names, "upload.bandwidth"@);
            names = names.push("upload.bandwidth"@);
        }
        any = true;
    }
    assert(chars@ == joined_by(',', names) && any == (names.len() > 0));
    if latency {
        if any {
            chars.push(',');
        }
        append_str(&mut chars, "ping.latency");
        proof {
            lemma_joined_push(',', names, "ping.latency"@);
            names = names.push("ping.latency"@);
        }
    }
    proof {
        assert(names == missing_names(download, upload, latency));
    }
    string_of(&chars)
}

/// Bits per second from a numeral of bytes per second.
fn to_bits_per_second(numeral: &str) -> (r: Option<Decimal>)
    ensures
        r == bits_per_second(numeral@),
{
    match Decimal::parse(numeral) {
        Some(d) => d.times_eight(),
        None => None,
    }
}

/// Seconds from a numeral of milliseconds.
fn to_seconds(numeral: &str) -> (r: Option<Decimal>)
    ensures
        r == seconds_of_millis(numeral@),
{
    match Decimal::parse(numeral) {
        Some(d) => d.per_thousand(),
        None => None,
    }
}

/// The failure for a value that must not be negative.
fn invalid_value(label: &str, value: &Decimal) -> (e: ErrorCategory)
    ensures
        e@ == ErrorCategoryView::InvalidOutput(label@ + decimal_text(*value)),
{
    let text = value.to_text();
    ErrorCategory::InvalidOutput(joined(label, text.as_str()))
}

/// Normalises the numerals of a payload into a measurement: bandwidths
/// from bytes to bits per second, latency and jitter from milliseconds to
/// seconds. Download, upload and latency must not be negative.
pub fn normalize_measurement(
    download: &str,
    upload: &str,
    latency: &str,
    jitter: Option<&str>,
) -> (r: Result<SpeedtestResult, ErrorCategory>)
    ensures
        verdict_view(r) == measurement_verdict(
            download@,
            upload@,
            latency@,
            match jitter {
                Some(numeral) => Some(numeral@),
                None => None,
            },
        ),
{
    let d = match to_bits_per_second(download) {
        Some(d) => d,
        None => {
            return Err(
                ErrorCategory::InvalidOutput(
                    String::from_str("download.bandwidth is out of range"),
                ),
            );
        },
    };
    let u = match to_bits_per_second(upload) {
        Some(u) => u,
        None => {
            return Err(
                ErrorCategory::InvalidOutput(String::from_str("upload.bandwidth is out of range")),
            );
        },
    };
    let l = match to_seconds(latency) {
        Some(l) => l,
        None => {
            return Err(
                ErrorCategory::InvalidOutput(String::from_str("ping.latency is out of range")),
            );
        },
    };
    let j = match jitter {
        Some(numeral) => match to_seconds(numeral) {
            Some(j) => Some(j),
            None => {
                return Err(
                    ErrorCategory::InvalidOutput(String::from_str("ping.jitter is out of range")),
                );
            },
        },
        None => None,
    };
    if d.below_zero() {
        return Err(invalid_value("Invalid download speed: ", &d));
    }
    if u.below_zero() {
        return Err(invalid_value("Invalid upload speed: ", &u));
    }
    if l.below_zero() {
        return Err(invalid_value("Invalid latency: ", &l));
    }
    Ok(
        SpeedtestResult {
            download_bps: d,
            upload_bps: u,
            latency_seconds: l,
            jitter_seconds: j,
            packet_loss_ratio: None,
        },
    )
}

/// The first place of the payload that holds a value of the wrong kind.
fn find_shape_fault(nodes: &PayloadNodes) -> (r: Option<&'static str>)
    ensures
        match r {
            Some(what) => shape_fault(nodes@) == Some(what@),
            None => shape_fault(nodes@) is None,
        },
{
    let download = leaf_kind(&nodes.download, &nodes.download_bandwidth);
    let upload = leaf_kind(&nodes.upload, &nodes.upload_bandwidth);
    let latency = leaf_kind(&nodes.ping, &nodes.ping_latency);
    let jitter = leaf_kind(&nodes.ping, &nodes.ping_jitter);
    let root_is_object = match nodes.root {
        JsonNode::Object => true,
        _ => false,
    };
    if !root_is_object {
        Some("payload is not an object")
    } else if download == LeafKind::NotAnObject {
        Some("download is not an object")
    } else if download == LeafKind::NotANumber {
        Some("download.bandwidth is not a number")
    } else if upload == LeafKind::NotAnObject {
        Some("upload is not an object")
    } else if upload == LeafKind::NotANumber {
        Some("upload.bandwidth is not a number")
    } else if latency == LeafKind::NotAnObject {
        Some("ping is not an object")
    } else if latency == LeafKind::NotANumber {
        Some("ping.latency is not a number")
    } else if jitter == LeafKind::NotANumber {
        Some("ping.jitter is not a number")
    } else {
        None
    }
}

/// Classifies a payload from the eight places read of it.
///
/// A place of the wrong kind gives `InvalidOutput`. Otherwise, if any of
/// `download.bandwidth`, `upload.bandwidth` and `ping.latency` is left out
/// or null, `MissingFields` names every one that is. Otherwise the
/// numbers are normalised and checked as `normalize_measurement` does.
pub fn classify_payload(nodes: &PayloadNodes) -> (r: Result<SpeedtestResult, ErrorCategory>)
    ensures
        verdict_view(r) == payload_verdict(nodes@),
{
    match find_shape_fault(nodes) {
        Some(what) => {
            return Err(ErrorCategory::InvalidOutput(joined("JSON parse error: ", what)));
        },
        None => {},
    }
    let download = leaf_kind(&nodes.download, &nodes.download_bandwidth);
    let upload = leaf_kind(&nodes.upload, &nodes.upload_bandwidth);
    let latency = leaf_kind(&nodes.ping, &nodes.ping_latency);
    let jitter = leaf_kind(&nodes.ping, &nodes.ping_jitter);
    let download_missing = download == LeafKind::Missing;
    let upload_missing = upload == LeafKind::Missing;
    let latency_missing = latency == LeafKind::Missing;
    if download_missing || upload_missing || latency_missing {
        return Err(
            ErrorCategory::MissingFields(
                missing_text(download_missing, upload_missing, latency_missing),
            ),
        );
    }
    let jitter_numeral = if jitter == LeafKind::Present {
        Some(numeral(&nodes.ping_jitter))
    } else {
        None
    };
    normalize_measurement(
        numeral(&nodes.download_bandwidth),
        numeral(&nodes.upload_bandwidth),
        numeral(&nodes.ping_latency),
        jitter_numeral,
    )
}

/// Classifies the text that the measurement tool wrote.
///
/// The text is decoded as JSON. A text that does not decode gives
/// `InvalidOutput` with the decoder's message; a decoded document is
/// classified as `classify_payload` does from its places.
pub fn parse_speedtest_output(json_str: &str) -> (r: Result<SpeedtestResult, ErrorCategory>)
    ensures
        verdict_view(r) == output_verdict(json_decoding(json_str@)),
        json_decoding(json_str@) is Err ==> r is Err && r->Err_0 is InvalidOutput,
{
    match decode_document(json_str) {
        Ok(doc) => {
            let nodes = read_nodes(&doc);
            classify_payload(&nodes)
        },
        Err(detail) => Err(
            ErrorCategory::InvalidOutput(joined("JSON parse error: ", detail.as_str())),
        ),
    }
}

/// What became of the measurement process, as the caller that started it
/// saw it.
#[derive(Clone, Debug, PartialEq, Eq)]
pub enum ProcessEvent {
    /// The process could not be started. `not_found` says that the
    /// executable could not be located; `detail` is the system's message.
    SpawnFailed { not_found: bool, detail: String },
    /// The process did not exit within the timeout and was killed.
    TimedOut,
    /// Waiting for the process failed; `detail` is the system's message.
    WaitFailed { detail: String },
    /// The process exited. `code` is its exit code where it had one, and
    /// `stdout` what it wrote to standard output.
    Exited { success: bool, code: Option<i32>, stdout: String },
}

/// The mathematical value of a `ProcessEvent`.
pub enum ProcessEventView {
    SpawnFailed { not_found: bool, detail: Seq<char> },
    TimedOut,
    WaitFailed { detail: Seq<char> },
    Exited { success: bool, code: Option<i32>, stdout: Seq<char> },
}

impl View for ProcessEvent {
    type V = ProcessEventView;

    open spec fn view(&self) -> ProcessEventView {
        match self {
            ProcessEvent::SpawnFailed { not_found, detail } => ProcessEventView::SpawnFailed {
                not_found: *not_found,
                detail: detail@,
            },
            ProcessEvent::TimedOut => ProcessEventView::TimedOut,
            ProcessEvent::WaitFailed { detail } => ProcessEventView::WaitFailed { detail: detail@ },
            ProcessEvent::Exited { success, code, stdout } => ProcessEventView::Exited {
                success: *success,
                code: *code,
                stdout: stdout@,
            },
        }
    }
}

/// The exit code that is reported: the process's own, or -1 where it had
/// none.
pub open spec fn reported_exit_code(code: Option<i32>) -> i32 {
    match code {
        Some(c) => c,
        None => -1i32,
    }
}

/// The outcome of a run of `command` under a timeout of `timeout_seconds`,
/// from what became of the process.
///
/// An executable that was not found is `CommandNotFound` with the
/// command's name, any other failure to start or to wait is `Internal`,
/// an expired timeout is `Timeout` with the configured seconds, and an
/// unsuccessful exit is `CommandFailed` with the reported exit code,
/// whatever the process wrote. Only after a successful exit is the output
/// classified.
pub open spec fn process_verdict(
    command: Seq<char>,
    timeout_seconds: u64,
    event: ProcessEventView,
) -> RunOutcomeView {
    match event {
        ProcessEventView::SpawnFailed { not_found, detail } => if not_found {
            RunOutcomeView::Failure(ErrorCategoryView::CommandNotFound(command))
        } else {
            RunOutcomeView::Failure(
                ErrorCategoryView::Internal("Failed to spawn command: "@ + detail),
            )
        },
        ProcessEventView::TimedOut => RunOutcomeView::Failure(
            ErrorCategoryView::Timeout(timeout_seconds),
        ),
        ProcessEventView::WaitFailed { detail } => RunOutcomeView::Failure(
            ErrorCategoryView::Internal("Failed to wait for command: "@ + detail),
        ),
        ProcessEventView::Exited { success, code, stdout } => if success {
            outcome_of(output_verdict(json_decoding(stdout)))
        } else {
            RunOutcomeView::Failure(ErrorCategoryView::CommandFailed(reported_exit_code(code)))
        },
    }
}

/// Classifies one run of `command` from what became of its process.
pub fn classify_process_event(command: &str, timeout_seconds: u64, event: &ProcessEvent) -> (r:
    RunOutcome)
    ensures
        r@ == process_verdict(command@, timeout_seconds, event@),
        event is TimedOut ==> r@ == RunOutcomeView::Failure(
            ErrorCategoryView::Timeout(timeout_seconds),
        ),
        event matches ProcessEvent::SpawnFailed { not_found: true, .. } ==> r@
            == RunOutcomeView::Failure(ErrorCategoryView::CommandNotFound(command@)),
        !(event matches ProcessEvent::Exited { success: true, .. }) ==> r is Failure,
{
    match event {
        ProcessEvent::SpawnFailed { not_found, detail } => {
            if *not_found {
                RunOutcome::Failure(ErrorCategory::CommandNotFound(String::from_str(command)))
            } else {
                RunOutcome::Failure(
                    ErrorCategory::Internal(joined("Failed to spawn command: ", detail.as_str())),
                )
            }
        },
        ProcessEvent::TimedOut => RunOutcome::Failure(ErrorCategory::Timeout(timeout_seconds)),
        ProcessEvent::WaitFailed { detail } => RunOutcome::Failure(
            ErrorCategory::Internal(joined("Failed to wait for command: ", detail.as_str())),
        ),
        ProcessEvent::Exited { success, code, stdout } => {
            if *success {
                match parse_speedtest_output(stdout.as_str()) {
                    Ok(result) => RunOutcome::Success(result),
                    Err(error) => RunOutcome::Failure(error),
                }
            } else {
                let reported: i32 = match code {
                    Some(c) => *c,
                    None => -1,
                };
                RunOutcome::Failure(ErrorCategory::CommandFailed(reported))
            }
        },
    }
}

/// Classifying the same text twice gives the same value both times: the
/// classification is a function of the text.
pub proof fn lemma_classification_is_repeatable(
    text: Seq<char>,
    first: Result<SpeedtestResult, ErrorCategory>,
    second: Result<SpeedtestResult, ErrorCategory>,
)
    requires
        verdict_view(first) == output_verdict(json_decoding(text)),
        verdict_view(second) == output_verdict(json_decoding(text)),
    ensures
        verdict_view(first) == verdict_view(second),
        first is Ok ==> second is Ok && first->Ok_0 == second->Ok_0,
{
}

/// A text that does not decode is classified as invalid output.
pub proof fn lemma_undecodable_is_invalid(text: Seq<char>)
    requires
        json_decoding(text) is Err,
    ensures
        output_verdict(json_decoding(text)) matches Err(ErrorCategoryView::InvalidOutput(_)),
{
}

/// A payload that is an object but lacks `download` is classified as
/// missing fields, and `download.bandwidth` is the first field named.
pub proof fn lemma_missing_download_is_named(n: PayloadNodesView)
    requires
        shape_fault(n) is None,
        n.download is Absent,
    ensures
        payload_verdict(n) matches Err(ErrorCategoryView::MissingFields(names))
            && "download.bandwidth"@.is_prefix_of(names),
{
    let upload = leaf_kind_of(n.upload, n.upload_bandwidth);
    let latency = leaf_kind_of(n.ping, n.ping_latency);
    let first = seq!["download.bandwidth"@];
    lemma_joined_push(',', Seq::empty(), "download.bandwidth"@);
    assert(Seq::<Seq<char>>::empty().push("download.bandwidth"@) == first);
    if upload is Missing {
        lemma_joined_push(',', first, "upload.bandwidth"@);
        let two = first.push("upload.bandwidth"@);
        if latency is Missing {
            lemma_joined_push(',', two, "ping.latency"@);
            assert(missing_names(true, true, true) == two.push("ping.latency"@));
        } else {
            assert(missing_names(true, true, false) == two);
        }
    } else {
        if latency is Missing {
            lemma_joined_push(',', first, "ping.latency"@);
            assert(missing_names(true, false, true) == first.push("ping.latency"@));
        } else {
            assert(missing_names(true, false, false) == first);
        }
    }
}

} // verus!
