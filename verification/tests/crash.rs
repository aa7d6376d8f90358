use tui_diagnostics::crash::{
    initialize_panic_handler, report_settings, PanicAction, PanicEvent, PanicState,
    ReportSettings,
};

fn run(events: Vec<PanicEvent>) -> (PanicState, Vec<PanicAction>) {
    let mut handler = initialize_panic_handler();
    let mut actions = Vec::new();
    for event in events {
        let (next, action) = handler.step(event);
        handler = next;
        actions.push(action);
    }
    (handler.state(), actions)
}

fn layout() -> ReportSettings {
    ReportSettings { most_recent_first: false, lineno_suffix: true }
}

#[test]
fn handler_starts_in_normal() {
    assert_eq!(initialize_panic_handler().state(), PanicState::Normal);
}

#[test]
fn report_lists_oldest_frame_first_with_line_numbers() {
    assert_eq!(report_settings(), layout());
}

#[test]
fn fatal_failure_restores_then_reports_then_exits() {
    let (state, actions) = run(vec![
        PanicEvent::Panicked,
        PanicEvent::TerminalRestored,
        PanicEvent::ReportWritten,
    ]);
    assert_eq!(state, PanicState::Terminated);
    assert_eq!(
        actions,
        vec![
            PanicAction::RestoreTerminal,
            PanicAction::Report { settings: layout(), restore_failure: None },
            PanicAction::Exit { code: 1 },
        ]
    );
}

#[test]
fn exit_status_is_the_failure_status_of_libc() {
    let (_, actions) = run(vec![
        PanicEvent::Panicked,
        PanicEvent::TerminalRestored,
        PanicEvent::ReportWritten,
    ]);
    assert_eq!(actions[2], PanicAction::Exit { code: libc::EXIT_FAILURE });
    assert_ne!(libc::EXIT_FAILURE, 0);
}

#[test]
fn failed_restoration_is_logged_and_the_report_still_written() {
    let (state, actions) = run(vec![
        PanicEvent::Panicked,
        PanicEvent::TerminalRestoreFailed(String::from("not a tty")),
        PanicEvent::ReportWritten,
    ]);
    assert_eq!(state, PanicState::Terminated);
    assert_eq!(
        actions,
        vec![
            PanicAction::RestoreTerminal,
            PanicAction::Report {
                settings: layout(),
                restore_failure: Some(String::from("Unable to exit Terminal: not a tty")),
            },
            PanicAction::Exit { code: 1 },
        ]
    );
}

#[test]
fn states_are_passed_in_order() {
    let handler = initialize_panic_handler();
    let (handler, _) = handler.step(PanicEvent::Panicked);
    assert_eq!(handler.state(), PanicState::RestoringTerminal);
    let (handler, _) = handler.step(PanicEvent::TerminalRestored);
    assert_eq!(handler.state(), PanicState::Reporting);
    let (handler, _) = handler.step(PanicEvent::ReportWritten);
    assert_eq!(handler.state(), PanicState::Terminated);
}

#[test]
fn events_out_of_turn_are_ignored() {
    let (state, actions) = run(vec![
        PanicEvent::TerminalRestored,
        PanicEvent::ReportWritten,
        PanicEvent::TerminalRestoreFailed(String::from("x")),
    ]);
    assert_eq!(state, PanicState::Normal);
    assert_eq!(
        actions,
        vec![PanicAction::Nothing, PanicAction::Nothing, PanicAction::Nothing]
    );

    let (state, actions) = run(vec![
        PanicEvent::Panicked,
        PanicEvent::Panicked,
        PanicEvent::ReportWritten,
    ]);
    assert_eq!(state, PanicState::RestoringTerminal);
    assert_eq!(
        actions,
        vec![PanicAction::RestoreTerminal, PanicAction::Nothing, PanicAction::Nothing]
    );
}

#[test]
fn nothing_follows_the_exit() {
    let (state, actions) = run(vec![
        PanicEvent::Panicked,
        PanicEvent::TerminalRestored,
        PanicEvent::ReportWritten,
        PanicEvent::Panicked,
        PanicEvent::TerminalRestored,
        PanicEvent::ReportWritten,
    ]);
    assert_eq!(state, PanicState::Terminated);
    assert_eq!(actions[3], PanicAction::Nothing);
    assert_eq!(actions[4], PanicAction::Nothing);
    assert_eq!(actions[5], PanicAction::Nothing);
}

#[test]
fn terminal_is_restored_before_the_report_in_any_run() {
    let alphabet = [
        PanicEvent::Panicked,
        PanicEvent::TerminalRestored,
        PanicEvent::TerminalRestoreFailed(String::from("e")),
        PanicEvent::ReportWritten,
    ];
    // Every sequence of five events over the four kinds.
    let mut code: usize = 0;
    while code < 1024 {
        let mut events = Vec::new();
        let mut rest = code;
        for _ in 0..5 {
            events.push(alphabet[rest % 4].clone());
            rest /= 4;
        }
        let (_, actions) = run(events);
        let restore = actions.iter().position(|a| *a == PanicAction::RestoreTerminal);
        let report = actions.iter().position(|a| matches!(a, PanicAction::Report { .. }));
        let exit = actions.iter().position(|a| matches!(a, PanicAction::Exit { .. }));
        if let Some(at) = report {
            assert!(restore.unwrap() < at);
        }
        if let Some(at) = exit {
            assert!(report.unwrap() < at);
            assert!(actions[at + 1..].iter().all(|a| *a == PanicAction::Nothing));
        }
        let restores = actions.iter().filter(|a| **a == PanicAction::RestoreTerminal).count();
        let reports = actions.iter().filter(|a| matches!(a, PanicAction::Report { .. })).count();
        assert!(restores <= 1 && reports <= 1);
        code += 1;
    }
}
