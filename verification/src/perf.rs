//! Performance events, recorded as a trace fragment.
//!
//! A trace is a text file that opens with a bracket on a line of its own and
//! then holds one record per event: a JSON object in the form that trace
//! viewers read, followed by a comma and a line break. The file is never
//! closed with a bracket and its last record keeps its comma, so it is a
//! fragment, not a JSON document: whoever reads it removes the last comma
//! and appends `]` first. Each record by itself is a JSON object: the event's
//! name is written as a JSON string, with what needs it escaped.
//!
//! A write that fails turns recording off; the program goes on without it.
//!
//! Recording is off unless it was asked for when logging started. While it is
//! off, recording an event does nothing, and that is decided before the
//! clock is read. While it is on, each event becomes one piece of text to
//! append to the trace in one write.

use crate::logging::StepOutcome;
use crate::paths::ResolvedPath;
use crate::text::{decimal_digits, decimal_string, json_string, json_string_text};
use vstd::prelude::*;
use vstd::string::*;

verus! {

/// One timed event. Its category and phase are the same for every event.
#[derive(Clone, PartialEq, Eq, Debug)]
pub struct PerfEvent {
    /// What was measured.
    pub name: String,
    /// When the event was recorded, in microseconds since the Unix epoch.
    pub timestamp_micros: u128,
    /// How long the measured operation took, in microseconds.
    pub duration_micros: u128,
}

/// What an event is in contracts: its name, its timestamp, its duration.
pub struct PerfEventModel {
    pub name: Seq<char>,
    pub timestamp_micros: nat,
    pub duration_micros: nat,
}

impl View for PerfEvent {
    type V = PerfEventModel;

    open spec fn view(&self) -> PerfEventModel {
        PerfEventModel {
            name: self.name@,
            timestamp_micros: self.timestamp_micros as nat,
            duration_micros: self.duration_micros as nat,
        }
    }
}

/// Whether events are recorded, and where.
#[derive(Clone, PartialEq, Eq, Debug)]
pub struct TraceContext {
    /// Recording is on.
    pub enabled: bool,
    /// The directory that holds the trace file.
    pub directory: ResolvedPath,
    /// The trace file's name in that directory.
    pub file_name: String,
}

/// Text to append to a file, in one write.
#[derive(Clone, PartialEq, Eq, Debug)]
pub struct TraceWrite {
    /// The directory that holds the file, as the bytes of its path.
    pub directory: Vec<u8>,
    /// The file's name in that directory.
    pub file_name: String,
    /// What to append.
    pub text: String,
}

/// The system clock is set to a time before the Unix epoch, so an event has
/// no timestamp.
#[derive(Clone, Copy, PartialEq, Eq, Debug, Structural)]
pub struct ClockBeforeEpoch;

/// The category of every event.
pub open spec fn category_text() -> Seq<char> {
    "PERF"@
}

/// The phase of every event: a complete event, with a duration.
pub open spec fn phase_text() -> Seq<char> {
    "X"@
}

/// The line that opens a trace.
pub open spec fn trace_header_text() -> Seq<char> {
    "[\n"@
}

/// What follows each event in a trace.
pub open spec fn record_end_text() -> Seq<char> {
    ",\n"@
}

/// An event as a JSON object.
pub open spec fn perf_event_text(event: PerfEventModel) -> Seq<char> {
    "{\n  \"name\": \""@ + json_string_text(event.name) + "\",\n  \"cat\": \""@
        + category_text()
        + "\",\n  \"ph\": \""@ + phase_text() + "\",\n  \"ts\": "@ + decimal_digits(
        event.timestamp_micros,
    ) + ",\n  \"dur\": "@ + decimal_digits(event.duration_micros) + "\n}"@
}

/// An event as it stands in a trace: the object, a comma, a line break.
pub open spec fn trace_record_text(event: PerfEventModel) -> Seq<char> {
    perf_event_text(event) + record_end_text()
}

/// The name of the trace file of a process that started at `timestamp`.
pub open spec fn trace_file_name_text(timestamp: Seq<char>) -> Seq<char> {
    "systemctl-tui-trace-"@ + timestamp + ".log"@
}

/// A trace that holds `events`, oldest first.
pub open spec fn fragment_text(events: Seq<PerfEventModel>) -> Seq<char>
    decreases events.len(),
{
    if events.len() == 0 {
        trace_header_text()
    } else {
        fragment_text(events.drop_last()) + trace_record_text(events.last())
    }
}

/// The write that records `event` under `context`.
pub open spec fn is_record_of(
    write: TraceWrite,
    context: TraceContext,
    event: PerfEventModel,
) -> bool {
    &&& write.directory@ == context.directory@
    &&& write.file_name@ == context.file_name@
    &&& write.text@ == trace_record_text(event)
}

/// The event named `name` that took `duration_micros` and was recorded at
/// `timestamp_micros`.
pub open spec fn event_at(name: Seq<char>, timestamp_micros: u128, duration_micros: u128) -> PerfEventModel {
    PerfEventModel {
        name,
        timestamp_micros: timestamp_micros as nat,
        duration_micros: duration_micros as nat,
    }
}

#[verifier::external_type_specification]
#[verifier::external_body]
pub struct ExSystemTime(std::time::SystemTime);

/// `std::time::SystemTime::now` reads the system clock. Nothing is claimed
/// of the time it gives.
pub assume_specification[ std::time::SystemTime::now ]() -> (now: std::time::SystemTime)
;

/// `std::time::Duration::as_micros` gives the whole microseconds in a
/// duration. A duration is opaque here, so nothing is claimed of the number.
pub assume_specification[ std::time::Duration::as_micros ](duration: &std::time::Duration) -> (micros:
    u128)
;

/// `std::time::SystemTime::duration_since`, measured from
/// `std::time::UNIX_EPOCH`: the time elapsed since the epoch, or `None` for a
/// time that lies before it. Nothing is claimed of the duration.
#[verifier::external_body]
fn since_unix_epoch(time: &std::time::SystemTime) -> (elapsed: Option<std::time::Duration>) {
    time.duration_since(std::time::UNIX_EPOCH).ok()
}

/// The current time in microseconds since the Unix epoch, if the clock is
/// not set before it.
pub(crate) fn micros_since_epoch() -> (now: Option<u128>) {
    let time = std::time::SystemTime::now();
    match since_unix_epoch(&time) {
        Some(elapsed) => Some(elapsed.as_micros()),
        None => None,
    }
}

impl PerfEvent {
    /// The category under which every event is filed.
    pub fn category() -> (text: &'static str)
        ensures
            text@ == category_text(),
    {
        "PERF"
    }

    /// The phase of every event.
    pub fn phase() -> (text: &'static str)
        ensures
            text@ == phase_text(),
    {
        "X"
    }

    /// The event as a JSON object with the fields `name`, `cat`, `ph`, `ts`
    /// and `dur`, in that order, one to a line.
    pub fn render(&self) -> (text: String)
        ensures
            text@ == perf_event_text(self@),
    {
        let mut text = String::from_str("{\n  \"name\": \"");
        let name = json_string(self.name.as_str());
        text.append(name.as_str());
        text.append("\",\n  \"cat\": \"");
        text.append(PerfEvent::category());
        text.append("\",\n  \"ph\": \"");
        text.append(PerfEvent::phase());
        text.append("\",\n  \"ts\": ");
        let timestamp = decimal_string(self.timestamp_micros);
        text.append(timestamp.as_str());
        text.append(",\n  \"dur\": ");
        let duration = decimal_string(self.duration_micros);
        text.append(duration.as_str());
        text.append("\n}");
        text
    }

    /// The event as a record of a trace: the object, a comma and a line
    /// break.
    pub fn render_record(&self) -> (text: String)
        ensures
            text@ == trace_record_text(self@),
    {
        let mut text = self.render();
        text.append(",\n");
        text
    }
}

/// The line with which a new trace file starts.
pub fn trace_header() -> (text: String)
    ensures
        text@ == trace_header_text(),
{
    String::from_str("[\n")
}

/// The name of the trace file of a process that started at `timestamp`.
pub fn trace_file_name(timestamp: &str) -> (name: String)
    ensures
        name@ == trace_file_name_text(timestamp@),
{
    let mut name = String::from_str("systemctl-tui-trace-");
    name.append(timestamp);
    name.append(".log");
    name
}

impl TraceContext {
    /// A context in which nothing is recorded.
    pub fn disabled(directory: ResolvedPath) -> (context: TraceContext)
        ensures
            !context.enabled,
            context.directory@ == directory@,
            context.file_name@ == Seq::<char>::empty(),
    {
        TraceContext { enabled: false, directory, file_name: String::new() }
    }

    /// A context that records into the file `file_name` in `directory`.
    pub fn recording(directory: ResolvedPath, file_name: String) -> (context: TraceContext)
        ensures
            context.enabled,
            context.directory@ == directory@,
            context.file_name@ == file_name@,
    {
        TraceContext { enabled: true, directory, file_name }
    }

    /// The context after a write into the trace was tried: recording goes on
    /// if the write was made, and is off from then on if it failed. Where the
    /// trace is kept does not change.
    pub fn after_write(self, outcome: StepOutcome) -> (next: TraceContext)
        ensures
            next.enabled == (self.enabled && outcome@ is Done),
            next.directory@ == self.directory@,
            next.file_name@ == self.file_name@,
    {
        let written = match outcome {
            StepOutcome::Done => true,
            StepOutcome::Failed(_) => false,
        };
        TraceContext {
            enabled: self.enabled && written,
            directory: self.directory,
            file_name: self.file_name,
        }
    }

    /// The write that creates the trace: the header, into the trace file.
    pub fn opening_write(&self) -> (write: TraceWrite)
        ensures
            write.directory@ == self.directory@,
            write.file_name@ == self.file_name@,
            write.text@ == trace_header_text(),
    {
        TraceWrite {
            directory: self.directory.path.clone(),
            file_name: self.file_name.clone(),
            text: trace_header(),
        }
    }
}

/// Decides what recording an event at a known time amounts to: nothing while
/// recording is off, and otherwise one write that appends the event's record
/// to the trace file.
pub fn record_perf_event(
    context: &TraceContext,
    event: &str,
    timestamp_micros: u128,
    duration_micros: u128,
) -> (write: Option<TraceWrite>)
    ensures
        write is Some <==> context.enabled,
        write matches Some(w) ==> is_record_of(
            w,
            *context,
            event_at(event@, timestamp_micros, duration_micros),
        ),
{
    if !context.enabled {
        return None;
    }
    let recorded = PerfEvent { name: String::from_str(event), timestamp_micros, duration_micros };
    Some(
        TraceWrite {
            directory: context.directory.path.clone(),
            file_name: context.file_name.clone(),
            text: recorded.render_record(),
        },
    )
}

/// Records that the operation `event` took `duration_micros` microseconds.
///
/// While recording is off the result is `Ok(None)`: there is nothing to
/// write, and the clock is not read. While it is on, the event is stamped
/// with the current time and the result is the one write that appends its
/// record to the trace file; if the clock is set before the Unix epoch there
/// is no timestamp to give it, and the result is the error.
pub fn log_perf_event(context: &TraceContext, event: &str, duration_micros: u128) -> (outcome:
    Result<Option<TraceWrite>, ClockBeforeEpoch>)
    ensures
        !context.enabled ==> outcome == Ok::<Option<TraceWrite>, ClockBeforeEpoch>(None),
        context.enabled ==> match outcome {
            Ok(Some(w)) => exists|timestamp_micros: u128|
                is_record_of(
                    w,
                    *context,
                    #[trigger] event_at(event@, timestamp_micros, duration_micros),
                ),
            Ok(None) => false,
            Err(_) => true,
        },
{
    if !context.enabled {
        return Ok(None);
    }
    match micros_since_epoch() {
        Some(now) => {
            let write = record_perf_event(context, event, now, duration_micros);
            Ok(write)
        },
        None => Err(ClockBeforeEpoch),
    }
}

/// A trace starts with its header, whatever it holds.
pub proof fn law_fragment_starts_with_header(events: Seq<PerfEventModel>)
    ensures
        trace_header_text().is_prefix_of(fragment_text(events)),
    decreases events.len(),
{
    if events.len() > 0 {
        law_fragment_starts_with_header(events.drop_last());
    }
}

/// Appending an event's record to a trace gives the trace that holds one
/// event more, the new one last: records are kept whole and in the order in
/// which they were written.
pub proof fn law_append_extends_fragment(events: Seq<PerfEventModel>, event: PerfEventModel)
    ensures
        fragment_text(events) + trace_record_text(event) == fragment_text(events.push(event)),
{
    assert(events.push(event).drop_last() =~= events);
}

/// Every record ends with the comma and line break that separate it from
/// the next, so a trace that holds an event ends with them too.
pub proof fn law_fragment_ends_with_separator(events: Seq<PerfEventModel>)
    requires
        events.len() > 0,
    ensures
        record_end_text().is_suffix_of(fragment_text(events)),
{
    let body = fragment_text(events.drop_last()) + perf_event_text(events.last());
    assert(fragment_text(events) =~= body + record_end_text());
    let whole = fragment_text(events);
    let tail = record_end_text();
    assert(whole.subrange(whole.len() - tail.len(), whole.len() as int) =~= tail);
}

} // verus!
