//! What happens once the program has failed fatally.
//!
//! The handler takes three steps and takes them in this order: it puts the
//! terminal back into the mode in which the program found it, it writes a
//! report of the failure to standard error, and it ends the process with a
//! status that says failure. If the terminal cannot be restored, that is
//! logged and the report is written all the same. Nothing is retried, and
//! control never goes back to the code that failed.
//!
//! This module decides the order. The caller installs the hook, performs
//! each action and reports what happened.

use vstd::prelude::*;
use vstd::string::*;

verus! {

/// Where the handler stands.
#[derive(Clone, Copy, PartialEq, Eq, Debug, Structural)]
pub enum PanicState {
    /// The program runs.
    Normal,
    /// A fatal failure has happened and the terminal is being restored.
    RestoringTerminal,
    /// The report is being written.
    Reporting,
    /// The process is to end; nothing follows.
    Terminated,
}

/// What the caller reports to the handler.
#[derive(Clone, PartialEq, Eq, Debug)]
pub enum PanicEvent {
    /// The program has failed fatally.
    Panicked,
    /// The terminal is back in the mode in which the program found it.
    TerminalRestored,
    /// The terminal could not be restored, for the reason given.
    TerminalRestoreFailed(String),
    /// The report has been written.
    ReportWritten,
}

/// A `PanicEvent` in contracts.
pub enum PanicEventModel {
    Panicked,
    TerminalRestored,
    TerminalRestoreFailed(Seq<char>),
    ReportWritten,
}

impl View for PanicEvent {
    type V = PanicEventModel;

    open spec fn view(&self) -> PanicEventModel {
        match *self {
            PanicEvent::Panicked => PanicEventModel::Panicked,
            PanicEvent::TerminalRestored => PanicEventModel::TerminalRestored,
            PanicEvent::TerminalRestoreFailed(cause) => PanicEventModel::TerminalRestoreFailed(
                cause@,
            ),
            PanicEvent::ReportWritten => PanicEventModel::ReportWritten,
        }
    }
}

/// How the report is laid out.
#[derive(Clone, Copy, PartialEq, Eq, Debug, Structural)]
pub struct ReportSettings {
    /// The most recent frame of the backtrace comes first.
    pub most_recent_first: bool,
    /// Each source location ends with its line number.
    pub lineno_suffix: bool,
}

/// What the caller is to do.
#[derive(Clone, PartialEq, Eq, Debug)]
pub enum PanicAction {
    /// Nothing.
    Nothing,
    /// Put the terminal back into the mode in which the program found it.
    RestoreTerminal,
    /// Log `restore_failure` as an error if there is one, then write the
    /// report of the failure to standard error.
    Report { settings: ReportSettings, restore_failure: Option<String> },
    /// End the process with the status `code`.
    Exit { code: i32 },
}

/// A `PanicAction` in contracts.
pub enum PanicActionModel {
    Nothing,
    RestoreTerminal,
    Report { settings: ReportSettings, restore_failure: Option<Seq<char>> },
    Exit { code: i32 },
}

impl View for PanicAction {
    type V = PanicActionModel;

    open spec fn view(&self) -> PanicActionModel {
        match *self {
            PanicAction::Nothing => PanicActionModel::Nothing,
            PanicAction::RestoreTerminal => PanicActionModel::RestoreTerminal,
            PanicAction::Report { settings, restore_failure } => PanicActionModel::Report {
                settings,
                restore_failure: restore_failure.deep_view(),
            },
            PanicAction::Exit { code } => PanicActionModel::Exit { code },
        }
    }
}

/// The layout of the report: the oldest frame first, line numbers appended.
pub open spec fn report_settings_model() -> ReportSettings {
    ReportSettings { most_recent_first: false, lineno_suffix: true }
}

/// The status with which the process ends: the one that `libc` calls
/// `EXIT_FAILURE`.
pub open spec fn failure_status() -> i32 {
    1
}

/// What is logged when the terminal could not be restored.
pub open spec fn restore_failure_text(cause: Seq<char>) -> Seq<char> {
    "Unable to exit Terminal: "@ + cause
}

/// The state that follows `state` on `event`. An event that the state does
/// not wait for changes nothing.
pub open spec fn panic_next(state: PanicState, event: PanicEventModel) -> PanicState {
    match state {
        PanicState::Normal => match event {
            PanicEventModel::Panicked => PanicState::RestoringTerminal,
            _ => PanicState::Normal,
        },
        PanicState::RestoringTerminal => match event {
            PanicEventModel::TerminalRestored => PanicState::Reporting,
            PanicEventModel::TerminalRestoreFailed(cause) => PanicState::Reporting,
            _ => PanicState::RestoringTerminal,
        },
        PanicState::Reporting => match event {
            PanicEventModel::ReportWritten => PanicState::Terminated,
            _ => PanicState::Reporting,
        },
        PanicState::Terminated => PanicState::Terminated,
    }
}

/// What the caller is to do when `event` arrives in `state`.
pub open spec fn panic_action(state: PanicState, event: PanicEventModel) -> PanicActionModel {
    match state {
        PanicState::Normal => match event {
            PanicEventModel::Panicked => PanicActionModel::RestoreTerminal,
            _ => PanicActionModel::Nothing,
        },
        PanicState::RestoringTerminal => match event {
            PanicEventModel::TerminalRestored => PanicActionModel::Report {
                settings: report_settings_model(),
                restore_failure: None,
            },
            PanicEventModel::TerminalRestoreFailed(cause) => PanicActionModel::Report {
                settings: report_settings_model(),
                restore_failure: Some(restore_failure_text(cause)),
            },
            _ => PanicActionModel::Nothing,
        },
        PanicState::Reporting => match event {
            PanicEventModel::ReportWritten => PanicActionModel::Exit { code: failure_status() },
            _ => PanicActionModel::Nothing,
        },
        PanicState::Terminated => PanicActionModel::Nothing,
    }
}

/// The state in which the handler stands before the event at `index`, when
/// it started in `Normal` and has seen the events before it.
pub open spec fn state_before(events: Seq<PanicEventModel>, index: int) -> PanicState
    decreases index,
{
    if index <= 0 {
        PanicState::Normal
    } else {
        panic_next(state_before(events, index - 1), events[index - 1])
    }
}

/// What the handler asks for on the event at `index`.
pub open spec fn action_at(events: Seq<PanicEventModel>, index: int) -> PanicActionModel {
    panic_action(state_before(events, index), events[index])
}

/// The value of `libc::EXIT_FAILURE`, which is 1 on every platform that
/// `libc` knows.
#[verifier::external_body]
fn exit_failure() -> (code: i32)
    ensures
        code == failure_status(),
{
    libc::EXIT_FAILURE
}

/// The handler for fatal failures.
#[derive(Debug)]
pub struct PanicHandler {
    state: PanicState,
}

impl View for PanicHandler {
    type V = PanicState;

    closed spec fn view(&self) -> PanicState {
        self.state
    }
}

/// The handler as it is installed when the program starts: nothing has
/// failed yet.
pub fn initialize_panic_handler() -> (handler: PanicHandler)
    ensures
        handler@ == PanicState::Normal,
{
    PanicHandler { state: PanicState::Normal }
}

/// The layout of the report.
pub fn report_settings() -> (settings: ReportSettings)
    ensures
        settings == report_settings_model(),
{
    ReportSettings { most_recent_first: false, lineno_suffix: true }
}

impl PanicHandler {
    /// Where the handler stands.
    pub fn state(&self) -> (state: PanicState)
        ensures
            state == self@,
    {
        self.state
    }

    /// Takes an event and says what to do about it.
    ///
    /// A fatal failure asks for the terminal to be restored. Once that has
    /// been tried, whether it worked or not, the report is due; a failure to
    /// restore is handed on to be logged first. Once the report is written
    /// the process is to exit with the failure status. An event that the
    /// handler does not wait for is ignored.
    pub fn step(self, event: PanicEvent) -> (next: (PanicHandler, PanicAction))
        ensures
            next.0@ == panic_next(self@, event@),
            next.1@ == panic_action(self@, event@),
    {
        match self.state {
            PanicState::Normal => match event {
                PanicEvent::Panicked => (
                    PanicHandler { state: PanicState::RestoringTerminal },
                    PanicAction::RestoreTerminal,
                ),
                _ => (self, PanicAction::Nothing),
            },
            PanicState::RestoringTerminal => match event {
                PanicEvent::TerminalRestored => (
                    PanicHandler { state: PanicState::Reporting },
                    PanicAction::Report { settings: report_settings(), restore_failure: None },
                ),
                PanicEvent::TerminalRestoreFailed(cause) => {
                    let mut line = String::from_str("Unable to exit Terminal: ");
                    line.append(cause.as_str());
                    (
                        PanicHandler { state: PanicState::Reporting },
                        PanicAction::Report {
                            settings: report_settings(),
                            restore_failure: Some(line),
                        },
                    )
                },
                _ => (self, PanicAction::Nothing),
            },
            PanicState::Reporting => match event {
                PanicEvent::ReportWritten => (
                    PanicHandler { state: PanicState::Terminated },
                    PanicAction::Exit { code: exit_failure() },
                ),
                _ => (self, PanicAction::Nothing),
            },
            PanicState::Terminated => (self, PanicAction::Nothing),
        }
    }
}

proof fn lemma_restoring_follows_restore_request(events: Seq<PanicEventModel>, index: int)
    requires
        0 <= index <= events.len(),
        state_before(events, index) == PanicState::RestoringTerminal
            || state_before(events, index) == PanicState::Reporting
            || state_before(events, index) == PanicState::Terminated,
    ensures
        exists|earlier: int|
            0 <= earlier < index && #[trigger] action_at(events, earlier)
                == PanicActionModel::RestoreTerminal,
    decreases index,
{
    if index > 0 {
        let before = state_before(events, index - 1);
        if before == PanicState::Normal {
            assert(action_at(events, index - 1) == PanicActionModel::RestoreTerminal);
        } else {
            lemma_restoring_follows_restore_request(events, index - 1);
        }
    }
}

proof fn lemma_terminated_follows_report(events: Seq<PanicEventModel>, index: int)
    requires
        0 <= index <= events.len(),
        state_before(events, index) == PanicState::Reporting || state_before(events, index)
            == PanicState::Terminated,
    ensures
        exists|earlier: int|
            0 <= earlier < index && #[trigger] action_at(events, earlier) is Report,
    decreases index,
{
    if index > 0 {
        let before = state_before(events, index - 1);
        if before == PanicState::RestoringTerminal {
            assert(action_at(events, index - 1) is Report);
        } else {
            lemma_terminated_follows_report(events, index - 1);
        }
    }
}

proof fn lemma_terminated_stays(events: Seq<PanicEventModel>, from: int, to: int)
    requires
        0 <= from <= to,
        state_before(events, from) == PanicState::Terminated,
    ensures
        state_before(events, to) == PanicState::Terminated,
    decreases to - from,
{
    if from < to {
        lemma_terminated_stays(events, from, to - 1);
    }
}

/// The terminal comes first: whenever the handler asks for the report, it
/// has asked for the terminal to be restored before.
pub proof fn law_terminal_is_restored_before_report(events: Seq<PanicEventModel>, index: int)
    requires
        0 <= index < events.len(),
        action_at(events, index) is Report,
    ensures
        exists|earlier: int|
            0 <= earlier < index && #[trigger] action_at(events, earlier)
                == PanicActionModel::RestoreTerminal,
{
    lemma_restoring_follows_restore_request(events, index);
}

/// The report comes before the end: whenever the handler asks for the
/// process to exit, it has asked for the report before, and the status is
/// the one for failure.
pub proof fn law_report_is_written_before_exit(events: Seq<PanicEventModel>, index: int)
    requires
        0 <= index < events.len(),
        action_at(events, index) is Exit,
    ensures
        action_at(events, index) == (PanicActionModel::Exit { code: failure_status() }),
        failure_status() != 0,
        exists|earlier: int|
            0 <= earlier < index && #[trigger] action_at(events, earlier) is Report,
{
    lemma_terminated_follows_report(events, index);
}

/// A failure to restore the terminal does not stop the report: once the
/// handler has asked for the terminal to be restored, either answer makes
/// it ask for the report.
pub proof fn law_report_follows_either_answer(cause: Seq<char>)
    ensures
        panic_action(PanicState::RestoringTerminal, PanicEventModel::TerminalRestored) is Report,
        panic_action(
            PanicState::RestoringTerminal,
            PanicEventModel::TerminalRestoreFailed(cause),
        ) is Report,
        panic_next(PanicState::RestoringTerminal, PanicEventModel::TerminalRestored)
            == PanicState::Reporting,
        panic_next(PanicState::RestoringTerminal, PanicEventModel::TerminalRestoreFailed(cause))
            == PanicState::Reporting,
{
}

/// Control never goes back: after the handler has asked for the process to
/// exit, it asks for nothing more, whatever it is told.
pub proof fn law_nothing_follows_exit(events: Seq<PanicEventModel>, index: int, later: int)
    requires
        0 <= index < later < events.len(),
        action_at(events, index) is Exit,
    ensures
        action_at(events, later) == PanicActionModel::Nothing,
        state_before(events, later) == PanicState::Terminated,
{
    assert(state_before(events, index + 1) == PanicState::Terminated);
    lemma_terminated_stays(events, index + 1, later);
}

/// Each of the three actions is asked for at most once.
pub proof fn law_each_action_is_asked_once(events: Seq<PanicEventModel>, first: int, second: int)
    requires
        0 <= first < second < events.len(),
        action_at(events, first) != PanicActionModel::Nothing,
    ensures
        action_at(events, second) is RestoreTerminal ==> !(action_at(events, first)
            is RestoreTerminal),
        action_at(events, second) is Report ==> !(action_at(events, first) is Report),
        action_at(events, second) is Exit ==> !(action_at(events, first) is Exit),
{
    lemma_state_only_moves_forward(events, first + 1, second);
}

/// The rank of a state in the order in which the handler passes through
/// them.
pub open spec fn progress(state: PanicState) -> nat {
    match state {
        PanicState::Normal => 0,
        PanicState::RestoringTerminal => 1,
        PanicState::Reporting => 2,
        PanicState::Terminated => 3,
    }
}

proof fn lemma_state_only_moves_forward(events: Seq<PanicEventModel>, from: int, to: int)
    requires
        0 <= from <= to,
    ensures
        progress(state_before(events, from)) <= progress(state_before(events, to)),
    decreases to - from,
{
    if from < to {
        lemma_state_only_moves_forward(events, from, to - 1);
    }
}

} // verus!
