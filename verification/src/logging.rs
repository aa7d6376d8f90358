//! The start of logging, step by step.
//!
//! Logging goes to two sinks: a file in the data directory that starts anew
//! each day, and a bounded feed in memory that the log viewer reads. Both
//! drop what is below their filter, and both filters have the same default.
//!
//! Starting it takes several effects in a fixed order, any of which may
//! fail: create the data directory, open the file sink, start the feed,
//! install the subscriber that serves both sinks, create the trace file if
//! tracing was asked for, and announce that logging is up. This module
//! decides the order and what each failure means. The caller performs a step
//! and reports how it went; the feed is started here, through `tui_logger`.

use crate::paths::{
    get_data_dir, names_application, outcome_bytes, resolved, shown_text, DirectoryKind,
    DirectoryResolutionError, PlatformDirectoriesModel, ResolvedPath,
};
use crate::perf::{
    trace_file_name, trace_file_name_text, trace_header_text, TraceContext, TraceWrite,
};
use vstd::prelude::*;
use vstd::string::*;
use vstd::utf8::*;

verus! {

/// How severe a log record is, from the least to the most.
#[derive(Clone, Copy, PartialEq, Eq, Debug, Structural)]
pub enum Severity {
    Trace,
    Debug,
    Info,
    Warn,
    Error,
}

/// How often the file sink starts a new file.
#[derive(Clone, Copy, PartialEq, Eq, Debug, Structural)]
pub enum Rotation {
    Minutely,
    Hourly,
    Daily,
    Never,
}

/// The steps of starting logging, in the order in which they are taken.
#[derive(Clone, Copy, PartialEq, Eq, Debug, Structural)]
pub enum InitStep {
    CreateDirectory,
    OpenFileSink,
    InitFeed,
    InstallSubscriber,
    CreateTraceFile,
    Announce,
}

/// Why logging could not be started.
#[derive(Clone, PartialEq, Eq, Debug)]
pub enum LoggingInitError {
    /// The data directory could not be resolved.
    DirectoryResolution(DirectoryResolutionError),
    /// The data directory could not be created.
    DirectoryCreation { directory: String, cause: String },
    /// The file sink could not be opened.
    SinkConstruction { cause: String },
    /// The feed in memory could not be started.
    FeedInitialization { cause: String },
    /// The process already has a subscriber: logging was started before.
    AlreadyInitialized { cause: String },
    /// The trace file could not be created.
    TraceFile { cause: String },
}

/// A `LoggingInitError` in contracts.
pub enum LoggingInitErrorModel {
    DirectoryResolution(DirectoryResolutionError),
    DirectoryCreation { directory: Seq<char>, cause: Seq<char> },
    SinkConstruction { cause: Seq<char> },
    FeedInitialization { cause: Seq<char> },
    AlreadyInitialized { cause: Seq<char> },
    TraceFile { cause: Seq<char> },
}

impl View for LoggingInitError {
    type V = LoggingInitErrorModel;

    open spec fn view(&self) -> LoggingInitErrorModel {
        match *self {
            LoggingInitError::DirectoryResolution(e) => LoggingInitErrorModel::DirectoryResolution(
                e,
            ),
            LoggingInitError::DirectoryCreation { directory, cause } => {
                LoggingInitErrorModel::DirectoryCreation { directory: directory@, cause: cause@ }
            },
            LoggingInitError::SinkConstruction { cause } => {
                LoggingInitErrorModel::SinkConstruction { cause: cause@ }
            },
            LoggingInitError::FeedInitialization { cause } => {
                LoggingInitErrorModel::FeedInitialization { cause: cause@ }
            },
            LoggingInitError::AlreadyInitialized { cause } => {
                LoggingInitErrorModel::AlreadyInitialized { cause: cause@ }
            },
            LoggingInitError::TraceFile { cause } => LoggingInitErrorModel::TraceFile {
                cause: cause@,
            },
        }
    }
}

/// How a step went.
#[derive(Clone, PartialEq, Eq, Debug)]
pub enum StepOutcome {
    /// The step was performed.
    Done,
    /// The step failed, for the reason given.
    Failed(String),
}

/// A `StepOutcome` in contracts.
pub enum StepOutcomeModel {
    Done,
    Failed(Seq<char>),
}

impl View for StepOutcome {
    type V = StepOutcomeModel;

    open spec fn view(&self) -> StepOutcomeModel {
        match *self {
            StepOutcome::Done => StepOutcomeModel::Done,
            StepOutcome::Failed(cause) => StepOutcomeModel::Failed(cause@),
        }
    }
}

/// How far the start of logging has come.
#[derive(Clone, PartialEq, Eq, Debug)]
pub enum InitState {
    /// The step is due next.
    Pending(InitStep),
    /// Every step was taken: logging is up.
    Ready,
    /// A step failed: logging is not up and nothing more is done.
    Failed(LoggingInitError),
}

/// An `InitState` in contracts.
pub enum InitStateModel {
    Pending(InitStep),
    Ready,
    Failed(LoggingInitErrorModel),
}

impl View for InitState {
    type V = InitStateModel;

    open spec fn view(&self) -> InitStateModel {
        match *self {
            InitState::Pending(step) => InitStateModel::Pending(step),
            InitState::Ready => InitStateModel::Ready,
            InitState::Failed(e) => InitStateModel::Failed(e@),
        }
    }
}

/// The step that follows `step` when it was performed; `None` after the last.
/// The trace file is created only when tracing was asked for.
pub open spec fn following_step(step: InitStep, tracing: bool) -> Option<InitStep> {
    match step {
        InitStep::CreateDirectory => Some(InitStep::OpenFileSink),
        InitStep::OpenFileSink => Some(InitStep::InitFeed),
        InitStep::InitFeed => Some(InitStep::InstallSubscriber),
        InitStep::InstallSubscriber => if tracing {
            Some(InitStep::CreateTraceFile)
        } else {
            Some(InitStep::Announce)
        },
        InitStep::CreateTraceFile => Some(InitStep::Announce),
        InitStep::Announce => None,
    }
}

/// What it means that `step` failed; `None` for the announcement, which is
/// made as well as it can be and fails nothing.
pub open spec fn failure_of(step: InitStep, directory: Seq<char>, cause: Seq<char>) -> Option<
    LoggingInitErrorModel,
> {
    match step {
        InitStep::CreateDirectory => Some(
            LoggingInitErrorModel::DirectoryCreation { directory, cause },
        ),
        InitStep::OpenFileSink => Some(LoggingInitErrorModel::SinkConstruction { cause }),
        InitStep::InitFeed => Some(LoggingInitErrorModel::FeedInitialization { cause }),
        InitStep::InstallSubscriber => Some(LoggingInitErrorModel::AlreadyInitialized { cause }),
        InitStep::CreateTraceFile => Some(LoggingInitErrorModel::TraceFile { cause }),
        InitStep::Announce => None,
    }
}

/// The state that follows `state` once the step that was due has gone as
/// `outcome` says. A state in which no step is due stays as it is.
pub open spec fn next_state(
    state: InitStateModel,
    outcome: StepOutcomeModel,
    tracing: bool,
    directory: Seq<char>,
) -> InitStateModel {
    match state {
        InitStateModel::Pending(step) => {
            let failure = match outcome {
                StepOutcomeModel::Done => None,
                StepOutcomeModel::Failed(cause) => failure_of(step, directory, cause),
            };
            match failure {
                Some(error) => InitStateModel::Failed(error),
                None => match following_step(step, tracing) {
                    Some(next) => InitStateModel::Pending(next),
                    None => InitStateModel::Ready,
                },
            }
        },
        InitStateModel::Ready => InitStateModel::Ready,
        InitStateModel::Failed(error) => InitStateModel::Failed(error),
    }
}

/// The state reached from `state` when the steps go as `outcomes` say, one
/// after the other.
pub open spec fn state_after(
    state: InitStateModel,
    outcomes: Seq<StepOutcomeModel>,
    tracing: bool,
    directory: Seq<char>,
) -> InitStateModel
    decreases outcomes.len(),
{
    if outcomes.len() == 0 {
        state
    } else {
        next_state(
            state_after(state, outcomes.drop_last(), tracing, directory),
            outcomes.last(),
            tracing,
            directory,
        )
    }
}

/// What the error says to the user.
pub open spec fn init_error_text(error: LoggingInitErrorModel) -> Seq<char> {
    match error {
        LoggingInitErrorModel::DirectoryResolution(e) => crate::paths::resolution_error_text(e.kind),
        LoggingInitErrorModel::DirectoryCreation { directory, cause } => "\""@ + directory
            + "\" could not be created"@,
        LoggingInitErrorModel::SinkConstruction { cause } => "the log file could not be opened: "@
            + cause,
        LoggingInitErrorModel::FeedInitialization { cause } => "the log feed could not be started: "@
            + cause,
        LoggingInitErrorModel::AlreadyInitialized { cause } => "logging is already initialized: "@
            + cause,
        LoggingInitErrorModel::TraceFile { cause } => "the trace file could not be created: "@
            + cause,
    }
}

/// What lies behind the error, as the failed step reported it; empty where
/// the error has no cause of its own.
pub open spec fn init_error_cause(error: LoggingInitErrorModel) -> Seq<char> {
    match error {
        LoggingInitErrorModel::DirectoryResolution(e) => Seq::<char>::empty(),
        LoggingInitErrorModel::DirectoryCreation { directory, cause } => cause,
        LoggingInitErrorModel::SinkConstruction { cause } => cause,
        LoggingInitErrorModel::FeedInitialization { cause } => cause,
        LoggingInitErrorModel::AlreadyInitialized { cause } => cause,
        LoggingInitErrorModel::TraceFile { cause } => cause,
    }
}

impl LoggingInitError {
    /// The error as a sentence for the user.
    pub fn message(&self) -> (text: String)
        ensures
            text@ == init_error_text(self@),
    {
        match self {
            LoggingInitError::DirectoryResolution(e) => e.message(),
            LoggingInitError::DirectoryCreation { directory, cause } => {
                let mut text = String::from_str("\"");
                text.append(directory.as_str());
                text.append("\" could not be created");
                text
            },
            LoggingInitError::SinkConstruction { cause } => {
                let mut text = String::from_str("the log file could not be opened: ");
                text.append(cause.as_str());
                text
            },
            LoggingInitError::FeedInitialization { cause } => {
                let mut text = String::from_str("the log feed could not be started: ");
                text.append(cause.as_str());
                text
            },
            LoggingInitError::AlreadyInitialized { cause } => {
                let mut text = String::from_str("logging is already initialized: ");
                text.append(cause.as_str());
                text
            },
            LoggingInitError::TraceFile { cause } => {
                let mut text = String::from_str("the trace file could not be created: ");
                text.append(cause.as_str());
                text
            },
        }
    }

    /// What the failed step reported as its reason.
    pub fn cause(&self) -> (text: String)
        ensures
            text@ == init_error_cause(self@),
    {
        match self {
            LoggingInitError::DirectoryResolution(e) => String::new(),
            LoggingInitError::DirectoryCreation { directory, cause } => cause.clone(),
            LoggingInitError::SinkConstruction { cause } => cause.clone(),
            LoggingInitError::FeedInitialization { cause } => cause.clone(),
            LoggingInitError::AlreadyInitialized { cause } => cause.clone(),
            LoggingInitError::TraceFile { cause } => cause.clone(),
        }
    }
}

impl InitStep {
    /// The step to take once this one is done, if any is left.
    pub fn following(self, tracing: bool) -> (next: Option<InitStep>)
        ensures
            next == following_step(self, tracing),
    {
        match self {
            InitStep::CreateDirectory => Some(InitStep::OpenFileSink),
            InitStep::OpenFileSink => Some(InitStep::InitFeed),
            InitStep::InitFeed => Some(InitStep::InstallSubscriber),
            InitStep::InstallSubscriber => if tracing {
                Some(InitStep::CreateTraceFile)
            } else {
                Some(InitStep::Announce)
            },
            InitStep::CreateTraceFile => Some(InitStep::Announce),
            InitStep::Announce => None,
        }
    }

    /// The error that a failure of this step amounts to, if it amounts to
    /// one.
    pub fn failure(self, directory: &str, cause: String) -> (error: Option<LoggingInitError>)
        ensures
            error.deep_view() == failure_of(self, directory@, cause@),
    {
        match self {
            InitStep::CreateDirectory => Some(
                LoggingInitError::DirectoryCreation {
                    directory: String::from_str(directory),
                    cause,
                },
            ),
            InitStep::OpenFileSink => Some(LoggingInitError::SinkConstruction { cause }),
            InitStep::InitFeed => Some(LoggingInitError::FeedInitialization { cause }),
            InitStep::InstallSubscriber => Some(LoggingInitError::AlreadyInitialized { cause }),
            InitStep::CreateTraceFile => Some(LoggingInitError::TraceFile { cause }),
            InitStep::Announce => None,
        }
    }
}

impl DeepView for LoggingInitError {
    type V = LoggingInitErrorModel;

    open spec fn deep_view(&self) -> LoggingInitErrorModel {
        self@
    }
}

impl InitState {
    /// Moves on from the step that was due, given how it went. A failure
    /// ends the start of logging with the error that belongs to the step;
    /// success leads to the next step, or to `Ready` after the last.
    /// `directory` is the data directory, which the error of a failed
    /// creation names.
    pub fn transition(self, outcome: StepOutcome, tracing: bool, directory: &str) -> (next:
        InitState)
        ensures
            next@ == next_state(self@, outcome@, tracing, directory@),
    {
        match self {
            InitState::Pending(step) => {
                let failure = match outcome {
                    StepOutcome::Done => None,
                    StepOutcome::Failed(cause) => step.failure(directory, cause),
                };
                match failure {
                    Some(error) => InitState::Failed(error),
                    None => match step.following(tracing) {
                        Some(next) => InitState::Pending(next),
                        None => InitState::Ready,
                    },
                }
            },
            InitState::Ready => InitState::Ready,
            InitState::Failed(error) => InitState::Failed(error),
        }
    }
}

/// Once logging is up it stays up, whatever is reported afterwards.
pub proof fn law_ready_is_final(outcomes: Seq<StepOutcomeModel>, tracing: bool, directory: Seq<char>)
    ensures
        state_after(InitStateModel::Ready, outcomes, tracing, directory) == InitStateModel::Ready,
    decreases outcomes.len(),
{
    if outcomes.len() > 0 {
        law_ready_is_final(outcomes.drop_last(), tracing, directory);
    }
}

/// A failure is final: no report that comes later changes the error.
pub proof fn law_failure_is_final(
    error: LoggingInitErrorModel,
    outcomes: Seq<StepOutcomeModel>,
    tracing: bool,
    directory: Seq<char>,
)
    ensures
        state_after(InitStateModel::Failed(error), outcomes, tracing, directory)
            == InitStateModel::Failed(error),
    decreases outcomes.len(),
{
    if outcomes.len() > 0 {
        law_failure_is_final(error, outcomes.drop_last(), tracing, directory);
    }
}

/// The steps of a start in which nothing fails, in order.
pub open spec fn steps_of_start(tracing: bool) -> Seq<InitStep> {
    if tracing {
        seq![
            InitStep::CreateDirectory,
            InitStep::OpenFileSink,
            InitStep::InitFeed,
            InitStep::InstallSubscriber,
            InitStep::CreateTraceFile,
            InitStep::Announce,
        ]
    } else {
        seq![
            InitStep::CreateDirectory,
            InitStep::OpenFileSink,
            InitStep::InitFeed,
            InitStep::InstallSubscriber,
            InitStep::Announce,
        ]
    }
}

/// `count` reports of success.
pub open spec fn all_done(count: nat) -> Seq<StepOutcomeModel> {
    Seq::new(count, |i: int| StepOutcomeModel::Done)
}

/// The state in which a start rests after `count` steps that went well.
pub open spec fn state_after_successes(count: nat, tracing: bool) -> InitStateModel {
    if count < steps_of_start(tracing).len() {
        InitStateModel::Pending(steps_of_start(tracing)[count as int])
    } else {
        InitStateModel::Ready
    }
}

/// A start in which every step goes well takes the steps in their order,
/// each once, and ends with logging up: the directory, the file sink, the
/// feed, the subscriber, the trace file if tracing was asked for, the
/// announcement.
pub proof fn law_successful_start_takes_each_step_in_order(
    count: nat,
    tracing: bool,
    directory: Seq<char>,
)
    ensures
        state_after(
            InitStateModel::Pending(InitStep::CreateDirectory),
            all_done(count),
            tracing,
            directory,
        ) == state_after_successes(count, tracing),
    decreases count,
{
    if count > 0 {
        let shorter = (count - 1) as nat;
        law_successful_start_takes_each_step_in_order(shorter, tracing, directory);
        assert(all_done(count).drop_last() =~= all_done(shorter));
        assert(all_done(count).last() == StepOutcomeModel::Done);
    }
}

/// Whether a state has to do with the trace file: its creation is due, or
/// it has failed.
pub open spec fn concerns_trace_file(state: InitStateModel) -> bool {
    match state {
        InitStateModel::Pending(step) => step == InitStep::CreateTraceFile,
        InitStateModel::Ready => false,
        InitStateModel::Failed(error) => error is TraceFile,
    }
}

/// Without a request for tracing the trace file is never touched: whatever
/// is reported, its creation neither becomes due nor fails.
pub proof fn law_no_trace_file_unless_requested(
    outcomes: Seq<StepOutcomeModel>,
    directory: Seq<char>,
)
    ensures
        !concerns_trace_file(
            state_after(
                InitStateModel::Pending(InitStep::CreateDirectory),
                outcomes,
                false,
                directory,
            ),
        ),
    decreases outcomes.len(),
{
    if outcomes.len() > 0 {
        law_no_trace_file_unless_requested(outcomes.drop_last(), directory);
    }
}

/// The first step that fails decides the outcome: if the steps before it
/// went well, the start ends with the error that belongs to that step.
pub proof fn law_first_failure_decides(
    successes: nat,
    cause: Seq<char>,
    later: Seq<StepOutcomeModel>,
    tracing: bool,
    directory: Seq<char>,
)
    requires
        successes < steps_of_start(tracing).len(),
        failure_of(steps_of_start(tracing)[successes as int], directory, cause) is Some,
    ensures
        state_after(
            InitStateModel::Pending(InitStep::CreateDirectory),
            all_done(successes).push(StepOutcomeModel::Failed(cause)) + later,
            tracing,
            directory,
        ) == InitStateModel::Failed(
            failure_of(steps_of_start(tracing)[successes as int], directory, cause)->Some_0,
        ),
    decreases later.len(),
{
    let start = InitStateModel::Pending(InitStep::CreateDirectory);
    let failing = all_done(successes).push(StepOutcomeModel::Failed(cause));
    if later.len() == 0 {
        assert(failing + later =~= failing);
        assert(failing.drop_last() =~= all_done(successes));
        law_successful_start_takes_each_step_in_order(successes, tracing, directory);
    } else {
        law_first_failure_decides(successes, cause, later.drop_last(), tracing, directory);
        assert((failing + later).drop_last() =~= failing + later.drop_last());
        assert((failing + later).last() == later.last());
    }
}

/// How the lines of the log file are laid out.
#[derive(Clone, Copy, PartialEq, Eq, Debug, Structural)]
pub struct FormatSettings {
    /// Each line names the source file of its record.
    pub with_file: bool,
    /// Each line gives the line number of its record.
    pub with_line_number: bool,
    /// Each line names the target of its record.
    pub with_target: bool,
    /// Lines are coloured with escape sequences.
    pub with_ansi: bool,
}

/// How the subscriber serves the two sinks.
#[derive(Clone, Copy, PartialEq, Eq, Debug, Structural)]
pub struct SubscriberSettings {
    /// The layout of the log file's lines.
    pub file_format: FormatSettings,
    /// The least severity that reaches the file when the environment names
    /// no filter.
    pub file_default_level: Severity,
    /// The least severity that reaches the feed when the environment names
    /// no filter.
    pub feed_default_level: Severity,
}

/// The settings of the subscriber: log lines carry file and line number but
/// neither target nor colour, and both sinks admit records from `Info` up
/// unless the environment says otherwise.
pub open spec fn subscriber_settings_model() -> SubscriberSettings {
    SubscriberSettings {
        file_format: FormatSettings {
            with_file: true,
            with_line_number: true,
            with_target: false,
            with_ansi: false,
        },
        file_default_level: Severity::Info,
        feed_default_level: Severity::Info,
    }
}

/// Both sinks are given the same default filter: what the one admits when
/// the environment names no filter, the other admits too.
pub proof fn law_both_sinks_share_the_default_filter()
    ensures
        subscriber_settings_model().file_default_level
            == subscriber_settings_model().feed_default_level,
        subscriber_settings_model().file_default_level == Severity::Info,
{
}

/// The name of the log file, to which the file sink adds the date.
pub open spec fn log_file_name_text() -> Seq<char> {
    "systemctl-tui.log"@
}

/// What the announcement says.
pub open spec fn announcement_text() -> Seq<char> {
    "Logging initialized"@
}

/// The pattern, in the notation of `chrono`, after which the trace file's
/// timestamp is written: year, month, day, hour, minute and second, joined
/// by hyphens.
pub open spec fn timestamp_pattern_text() -> Seq<char> {
    "%Y-%m-%d-%H-%M-%S"@
}

/// The pattern after which the caller writes the local time of the start.
pub fn timestamp_pattern() -> (pattern: &'static str)
    ensures
        pattern@ == timestamp_pattern_text(),
{
    "%Y-%m-%d-%H-%M-%S"
}

/// The severity from which the feed captures records.
pub open spec fn feed_capture_level() -> Severity {
    Severity::Trace
}

/// The settings of the subscriber.
pub fn subscriber_settings() -> (settings: SubscriberSettings)
    ensures
        settings == subscriber_settings_model(),
{
    SubscriberSettings {
        file_format: FormatSettings {
            with_file: true,
            with_line_number: true,
            with_target: false,
            with_ansi: false,
        },
        file_default_level: Severity::Info,
        feed_default_level: Severity::Info,
    }
}

/// An effect that the caller is to perform.
#[derive(Clone, PartialEq, Eq, Debug)]
pub enum InitAction {
    /// Create the directory, given as the bytes of its path, and what is
    /// missing above it.
    CreateDirectory { directory: Vec<u8> },
    /// Open the log file `file_name` in `directory`, to be started anew as
    /// `rotation` says, behind a writer that does not block.
    OpenFileSink { directory: Vec<u8>, file_name: String, rotation: Rotation },
    /// Install the subscriber that serves the file sink and the feed.
    InstallSubscriber(SubscriberSettings),
    /// Create the trace file with the text given.
    CreateTraceFile(TraceWrite),
    /// Log `message` at `Info`, with the data directory, as text, as the
    /// field `directory`.
    Announce { message: String, directory_text: String },
    /// Nothing is left to do: logging is up, or its start has failed.
    Stop,
}

/// An `InitAction` in contracts.
pub enum InitActionModel {
    CreateDirectory { directory: Seq<u8> },
    OpenFileSink { directory: Seq<u8>, file_name: Seq<char>, rotation: Rotation },
    InstallSubscriber(SubscriberSettings),
    CreateTraceFile { directory: Seq<u8>, file_name: Seq<char>, text: Seq<char> },
    Announce { message: Seq<char>, directory_text: Seq<char> },
    Stop,
}

impl View for InitAction {
    type V = InitActionModel;

    open spec fn view(&self) -> InitActionModel {
        match *self {
            InitAction::CreateDirectory { directory } => InitActionModel::CreateDirectory {
                directory: directory@,
            },
            InitAction::OpenFileSink { directory, file_name, rotation } => {
                InitActionModel::OpenFileSink {
                    directory: directory@,
                    file_name: file_name@,
                    rotation,
                }
            },
            InitAction::InstallSubscriber(settings) => InitActionModel::InstallSubscriber(settings),
            InitAction::CreateTraceFile(write) => InitActionModel::CreateTraceFile {
                directory: write.directory@,
                file_name: write.file_name@,
                text: write.text@,
            },
            InitAction::Announce { message, directory_text } => InitActionModel::Announce {
                message: message@,
                directory_text: directory_text@,
            },
            InitAction::Stop => InitActionModel::Stop,
        }
    }
}

/// A start of logging in contracts.
pub struct LoggingSetupModel {
    /// How far the start has come.
    pub state: InitStateModel,
    /// Whether tracing was asked for.
    pub tracing: bool,
    /// The data directory, as the bytes of its path.
    pub directory: Seq<u8>,
    /// The data directory as it is shown in messages.
    pub directory_text: Seq<char>,
    /// The trace file's name; empty when tracing was not asked for.
    pub trace_file_name: Seq<char>,
}

/// What a start reports when tracing is asked for and no timestamp is given
/// after which the trace file could be named.
pub open spec fn missing_timestamp_text() -> Seq<char> {
    "no timestamp was given to name the trace file after"@
}

/// The start of logging in the directory that resolution gave: its first
/// step is due, or it has failed already, because there is no directory or,
/// where tracing is asked for, no timestamp for the trace file's name.
pub open spec fn begun(
    tracing: bool,
    directory: Result<Seq<u8>, DirectoryResolutionError>,
    timestamp: Option<Seq<char>>,
) -> LoggingSetupModel {
    match directory {
        Ok(found) => if !tracing {
            LoggingSetupModel {
                state: InitStateModel::Pending(InitStep::CreateDirectory),
                tracing,
                directory: found,
                directory_text: shown_text(found),
                trace_file_name: Seq::<char>::empty(),
            }
        } else {
            match timestamp {
                Some(stamp) => LoggingSetupModel {
                    state: InitStateModel::Pending(InitStep::CreateDirectory),
                    tracing,
                    directory: found,
                    directory_text: shown_text(found),
                    trace_file_name: trace_file_name_text(stamp),
                },
                None => LoggingSetupModel {
                    state: InitStateModel::Failed(
                        LoggingInitErrorModel::TraceFile { cause: missing_timestamp_text() },
                    ),
                    tracing,
                    directory: found,
                    directory_text: shown_text(found),
                    trace_file_name: Seq::<char>::empty(),
                },
            }
        },
        Err(e) => LoggingSetupModel {
            state: InitStateModel::Failed(LoggingInitErrorModel::DirectoryResolution(e)),
            tracing,
            directory: Seq::<u8>::empty(),
            directory_text: Seq::<char>::empty(),
            trace_file_name: Seq::<char>::empty(),
        },
    }
}

/// The start after the caller's report `outcome`. Where that report makes
/// the feed due, the feed is started at once, and `feed` says how that went.
pub open spec fn advanced(
    setup: LoggingSetupModel,
    outcome: StepOutcomeModel,
    feed: StepOutcomeModel,
) -> LoggingSetupModel {
    let reported = next_state(setup.state, outcome, setup.tracing, setup.directory_text);
    LoggingSetupModel {
        state: if reported == InitStateModel::Pending(InitStep::InitFeed) {
            next_state(reported, feed, setup.tracing, setup.directory_text)
        } else {
            reported
        },
        ..setup
    }
}

/// What the caller is to do in a state.
pub open spec fn action_for(setup: LoggingSetupModel) -> InitActionModel {
    match setup.state {
        InitStateModel::Pending(step) => match step {
            InitStep::CreateDirectory => InitActionModel::CreateDirectory {
                directory: setup.directory,
            },
            InitStep::OpenFileSink => InitActionModel::OpenFileSink {
                directory: setup.directory,
                file_name: log_file_name_text(),
                rotation: Rotation::Daily,
            },
            InitStep::InitFeed => InitActionModel::Stop,
            InitStep::InstallSubscriber => InitActionModel::InstallSubscriber(
                subscriber_settings_model(),
            ),
            InitStep::CreateTraceFile => InitActionModel::CreateTraceFile {
                directory: setup.directory,
                file_name: setup.trace_file_name,
                text: trace_header_text(),
            },
            InitStep::Announce => InitActionModel::Announce {
                message: announcement_text(),
                directory_text: setup.directory_text,
            },
        },
        InitStateModel::Ready => InitActionModel::Stop,
        InitStateModel::Failed(error) => InitActionModel::Stop,
    }
}

/// Whether events are recorded once the start has come to `setup`: only
/// when tracing was asked for and logging is up.
pub open spec fn records_events(setup: LoggingSetupModel) -> bool {
    setup.tracing && setup.state == InitStateModel::Ready
}

/// `tui_logger::init_logger`, which starts the feed in memory and lets it
/// capture records from `capture_level` up. Whether it succeeds depends on
/// the process, so nothing is claimed of the outcome; a failure carries the
/// text of the crate's error.
#[verifier::external_body]
fn start_feed(capture_level: Severity) -> (outcome: StepOutcome)
    requires
        capture_level == feed_capture_level(),
{
    let level = match capture_level {
        Severity::Trace => tui_logger::LevelFilter::Trace,
        Severity::Debug => tui_logger::LevelFilter::Debug,
        Severity::Info => tui_logger::LevelFilter::Info,
        Severity::Warn => tui_logger::LevelFilter::Warn,
        Severity::Error => tui_logger::LevelFilter::Error,
    };
    match tui_logger::init_logger(level) {
        Ok(()) => StepOutcome::Done,
        Err(e) => StepOutcome::Failed(e.to_string()),
    }
}

/// A start of logging under way. It never rests at the step that starts the
/// feed: that step is taken here as soon as it is due.
#[derive(Debug)]
pub struct LoggingSetup {
    state: InitState,
    tracing: bool,
    directory: ResolvedPath,
    directory_text: String,
    trace_file_name: String,
}

impl View for LoggingSetup {
    type V = LoggingSetupModel;

    closed spec fn view(&self) -> LoggingSetupModel {
        LoggingSetupModel {
            state: self.state@,
            tracing: self.tracing,
            directory: self.directory@,
            directory_text: self.directory_text@,
            trace_file_name: self.trace_file_name@,
        }
    }
}

impl LoggingSetup {
    #[verifier::type_invariant]
    spec fn feed_is_never_due(self) -> bool {
        self.state@ != InitStateModel::Pending(InitStep::InitFeed)
    }

    /// Begins the start of logging in the directory that resolution gave.
    /// `timestamp` goes into the trace file's name and is read only when
    /// tracing is asked for; without one, such a start fails at once.
    pub fn begin(
        tracing: bool,
        directory: Result<ResolvedPath, DirectoryResolutionError>,
        timestamp: Option<String>,
    ) -> (setup: LoggingSetup)
        ensures
            setup@ == begun(tracing, outcome_bytes(directory), timestamp.deep_view()),
    {
        let found = match directory {
            Ok(found) => found,
            Err(e) => {
                return LoggingSetup {
                    state: InitState::Failed(LoggingInitError::DirectoryResolution(e)),
                    tracing,
                    directory: ResolvedPath::new(Vec::new()),
                    directory_text: String::new(),
                    trace_file_name: String::new(),
                };
            },
        };
        let directory_text = found.display_text();
        if !tracing {
            LoggingSetup {
                state: InitState::Pending(InitStep::CreateDirectory),
                tracing,
                directory: found,
                directory_text,
                trace_file_name: String::new(),
            }
        } else {
            match timestamp {
                Some(stamp) => LoggingSetup {
                    state: InitState::Pending(InitStep::CreateDirectory),
                    tracing,
                    directory: found,
                    directory_text,
                    trace_file_name: trace_file_name(stamp.as_str()),
                },
                None => LoggingSetup {
                    state: InitState::Failed(
                        LoggingInitError::TraceFile {
                            cause: String::from_str(
                                "no timestamp was given to name the trace file after",
                            ),
                        },
                    ),
                    tracing,
                    directory: found,
                    directory_text,
                    trace_file_name: String::new(),
                },
            }
        }
    }

    /// Moves on after the caller's report, with the feed's outcome given:
    /// `feed` is read only if the report makes the feed due.
    pub fn advance_with(self, outcome: StepOutcome, feed: StepOutcome) -> (next: LoggingSetup)
        ensures
            next@ == advanced(self@, outcome@, feed@),
    {
        let LoggingSetup { state, tracing, directory, directory_text, trace_file_name } = self;
        let reported = state.transition(outcome, tracing, directory_text.as_str());
        let settled = match reported {
            InitState::Pending(InitStep::InitFeed) => reported.transition(
                feed,
                tracing,
                directory_text.as_str(),
            ),
            other => other,
        };
        LoggingSetup { state: settled, tracing, directory, directory_text, trace_file_name }
    }

    /// Moves on after the caller's report of the step that was due.
    ///
    /// A failure ends the start with the error that belongs to the step. A
    /// success makes the next step due. When that step is the feed, it is
    /// taken at once, so the state that comes back is the one after it: the
    /// subscriber is due, or the feed has failed.
    pub fn advance(self, outcome: StepOutcome) -> (next: LoggingSetup)
        ensures
            exists|feed: StepOutcomeModel| next@ == #[trigger] advanced(self@, outcome@, feed),
            next_state(self@.state, outcome@, self@.tracing, self@.directory_text)
                != InitStateModel::Pending(InitStep::InitFeed) ==> next@ == advanced(
                self@,
                outcome@,
                StepOutcomeModel::Done,
            ),
    {
        let LoggingSetup { state, tracing, directory, directory_text, trace_file_name } = self;
        let reported = state.transition(outcome, tracing, directory_text.as_str());
        let settled = match reported {
            InitState::Pending(InitStep::InitFeed) => {
                let feed = start_feed(Severity::Trace);
                let ghost feed_model = feed@;
                let settled = reported.transition(feed, tracing, directory_text.as_str());
                assert(settled@ == advanced(self@, outcome@, feed_model).state);
                settled
            },
            other => {
                assert(other@ == advanced(self@, outcome@, StepOutcomeModel::Done).state);
                other
            },
        };
        LoggingSetup { state: settled, tracing, directory, directory_text, trace_file_name }
    }

    /// What the caller is to do now. After performing it the caller reports
    /// the outcome to `advance`. `Stop` says that nothing is left to do.
    pub fn next_action(&self) -> (action: InitAction)
        ensures
            action@ == action_for(self@),
            action@ is Stop <==> !(self@.state is Pending),
    {
        proof {
            use_type_invariant(self);
        }
        match &self.state {
            InitState::Pending(step) => match step {
                InitStep::CreateDirectory => InitAction::CreateDirectory {
                    directory: self.directory.path.clone(),
                },
                InitStep::OpenFileSink => InitAction::OpenFileSink {
                    directory: self.directory.path.clone(),
                    file_name: String::from_str("systemctl-tui.log"),
                    rotation: Rotation::Daily,
                },
                InitStep::InitFeed => InitAction::Stop,
                InitStep::InstallSubscriber => InitAction::InstallSubscriber(subscriber_settings()),
                InitStep::CreateTraceFile => InitAction::CreateTraceFile(
                    TraceWrite {
                        directory: self.directory.path.clone(),
                        file_name: self.trace_file_name.clone(),
                        text: crate::perf::trace_header(),
                    },
                ),
                InitStep::Announce => InitAction::Announce {
                    message: String::from_str("Logging initialized"),
                    directory_text: self.directory_text.clone(),
                },
            },
            InitState::Ready => InitAction::Stop,
            InitState::Failed(_) => InitAction::Stop,
        }
    }

    /// How far the start has come.
    pub fn state(&self) -> (state: &InitState)
        ensures
            state@ == self@.state,
            state@ != InitStateModel::Pending(InitStep::InitFeed),
    {
        proof {
            use_type_invariant(self);
        }
        &self.state
    }

    /// Whether logging is up.
    pub fn is_ready(&self) -> (ready: bool)
        ensures
            ready == (self@.state == InitStateModel::Ready),
    {
        match &self.state {
            InitState::Ready => true,
            _ => false,
        }
    }

    /// The error with which the start has failed, if it has.
    pub fn failure(&self) -> (error: Option<&LoggingInitError>)
        ensures
            match error {
                Some(e) => self@.state == InitStateModel::Failed(e@),
                None => !(self@.state is Failed),
            },
    {
        match &self.state {
            InitState::Failed(e) => Some(e),
            _ => None,
        }
    }

    /// Whether tracing was asked for.
    pub fn tracing_requested(&self) -> (tracing: bool)
        ensures
            tracing == self@.tracing,
    {
        self.tracing
    }

    /// The data directory; empty if it could not be resolved.
    pub fn data_dir(&self) -> (directory: &ResolvedPath)
        ensures
            directory@ == self@.directory,
    {
        &self.directory
    }

    /// The data directory as it is shown in messages.
    pub fn data_dir_text(&self) -> (text: &str)
        ensures
            text@ == self@.directory_text,
    {
        self.directory_text.as_str()
    }

    /// The context for recording performance events from here on. Events
    /// are recorded only if tracing was asked for and logging is up.
    pub fn trace_context(&self) -> (context: TraceContext)
        ensures
            context.enabled == records_events(self@),
            context.directory@ == self@.directory,
            context.file_name@ == self@.trace_file_name,
    {
        TraceContext {
            enabled: self.tracing && self.is_ready(),
            directory: self.directory.duplicate(),
            file_name: self.trace_file_name.clone(),
        }
    }
}

/// Begins the start of logging.
///
/// `data_override` is the value of the variable that overrides the data
/// directory, or `None` when it is not set. The data directory is resolved
/// from it as `get_data_dir` does. If that fails, the start has failed. If
/// not, the first step is due: to create that directory. `timestamp` is the
/// local time of the call, written after `timestamp_pattern`; the trace file
/// is named after it. It is read only when tracing is asked for, and then
/// the start fails if there is none.
pub fn initialize_logging(
    enable_tracing: bool,
    data_override: Option<String>,
    timestamp: Option<String>,
) -> (setup: LoggingSetup)
    ensures
        exists|platform: Option<PlatformDirectoriesModel>|
            names_application(platform) && setup@ == #[trigger] begun(
                enable_tracing,
                resolved(DirectoryKind::Data, data_override.deep_view(), platform),
                timestamp.deep_view(),
            ),
        data_override matches Some(given) ==> setup@.directory == encode_utf8(given@)
            && setup@.directory_text == given@,
        data_override is Some && (!enable_tracing || timestamp is Some) ==> setup@.state
            == InitStateModel::Pending(InitStep::CreateDirectory),
        !enable_tracing ==> setup@.trace_file_name == Seq::<char>::empty(),
{
    let directory = get_data_dir(data_override);
    let ghost platform = choose|platform: Option<PlatformDirectoriesModel>|
        names_application(platform) && outcome_bytes(directory) == resolved(
            DirectoryKind::Data,
            data_override.deep_view(),
            platform,
        );
    proof {
        if data_override is Some {
            encode_utf8_valid_utf8(data_override->Some_0@);
            encode_utf8_decode_utf8(data_override->Some_0@);
        }
    }
    let setup = LoggingSetup::begin(enable_tracing, directory, timestamp);
    assert(setup@ == begun(
        enable_tracing,
        resolved(DirectoryKind::Data, data_override.deep_view(), platform),
        timestamp.deep_view(),
    ));
    setup
}

} // verus!
