use refer::cursor::{Focus, Pointer, Region};
use refer::event::{Event, KeyCode, KeyEvent, CONTROL, NONE};
use refer::input::EntryBox;
use refer::resource::FileBuff;
use refer::session::{Command, Report, TerminalSession, CREATE_FAILED, RUN_FAILED};
use refer::DELTA;

fn key(code: KeyCode, modifiers: u8) -> Report {
    Report::Input(Event::Key(KeyEvent { code, modifiers }))
}

fn names() -> Vec<String> {
    vec!["notes.md".to_string()]
}

/// A session that holds the terminal and waits for its first poll.
fn polling() -> TerminalSession {
    let mut session = TerminalSession::new(names());
    assert_eq!(session.next(Report::Done), Command::EnterScreen);
    assert_eq!(session.next(Report::Done), Command::Poll(DELTA));
    session
}

fn release(session: &mut TerminalSession, reports: [Report; 4]) -> Vec<Command> {
    let mut commands = vec![session.command()];
    for report in reports {
        commands.push(session.next(report));
    }
    commands
}

fn full_release() -> Vec<Command> {
    vec![
        Command::LeaveScreen,
        Command::ReleaseMouse,
        Command::DisableRaw,
        Command::ShowCursor,
        Command::Exit,
    ]
}

#[test]
fn tick_is_sixteen_milliseconds() {
    assert_eq!(DELTA, 16);
}

#[test]
fn session_without_files_is_over_at_once() {
    let mut session = TerminalSession::new(Vec::new());
    assert_eq!(session.command(), Command::Exit);
    assert!(session.failure().is_none());
    assert_eq!(session.next(Report::Done), Command::Exit);
    assert!(session.failure().is_none());
}

#[test]
fn session_starts_by_acquiring_raw_mode() {
    let session = TerminalSession::new(names());
    assert_eq!(session.command(), Command::EnableRaw);
    assert!(session.failure().is_none());
    assert_eq!(session.resource().get::<Vec<String>>(), &names());
    assert_eq!(
        session.resource().get::<Pointer>().cursor(),
        Focus::Region(Region::Files)
    );
    assert!(!session.resource().get::<EntryBox>().bool());
    assert_eq!(session.resource().get::<FileBuff>().names().len(), 0);
}

#[test]
fn raw_mode_failure_ends_the_session_without_release() {
    let mut session = TerminalSession::new(names());
    assert_eq!(
        session.next(Report::Failed("not a tty".to_string())),
        Command::Exit
    );
    assert_eq!(
        session.failure().map(|m| m.as_str()),
        Some("Couldn't create App object: not a tty")
    );
    assert_eq!(session.next(Report::Done), Command::Exit);
    assert_eq!(CREATE_FAILED, "Couldn't create App object: ");
}

#[test]
fn screen_failure_releases_the_terminal() {
    let mut session = TerminalSession::new(names());
    assert_eq!(session.next(Report::Done), Command::EnterScreen);
    assert_eq!(
        session.next(Report::Failed("broken pipe".to_string())),
        Command::LeaveScreen
    );
    let commands = release(
        &mut session,
        [Report::Done, Report::Done, Report::Done, Report::Done],
    );
    assert_eq!(commands, full_release());
    assert_eq!(
        session.failure().map(|m| m.as_str()),
        Some("Ran into issue while running the application: broken pipe")
    );
    assert_eq!(RUN_FAILED, "Ran into issue while running the application: ");
}

#[test]
fn every_poll_is_followed_by_a_frame() {
    let mut session = polling();
    assert_eq!(session.next(Report::Done), Command::Render);
    assert_eq!(session.next(Report::Done), Command::Poll(DELTA));
    assert_eq!(session.next(key(KeyCode::Right, NONE)), Command::Render);
    assert_eq!(
        session.resource().get::<Pointer>().cursor(),
        Focus::Region(Region::View)
    );
    assert_eq!(session.next(Report::Done), Command::Poll(DELTA));
    assert_eq!(session.next(key(KeyCode::Char('x'), NONE)), Command::Render);
    assert_eq!(session.next(Report::Done), Command::Poll(DELTA));
    assert!(session.failure().is_none());
}

#[test]
fn session_dispatches_polled_events() {
    let mut session = polling();
    for report in [
        key(KeyCode::Char('n'), CONTROL),
        key(KeyCode::Char('l'), NONE),
        key(KeyCode::Char('o'), NONE),
        key(KeyCode::Char('g'), NONE),
        key(KeyCode::Enter, NONE),
    ] {
        assert_eq!(session.next(report), Command::Render);
        assert_eq!(session.next(Report::Done), Command::Poll(DELTA));
    }
    assert_eq!(
        session.resource().get::<FileBuff>().names(),
        &vec!["log".to_string()]
    );
    assert!(!session.resource().get::<EntryBox>().bool());
}

#[test]
fn events_reported_outside_a_poll_are_not_dispatched() {
    let mut session = polling();
    assert_eq!(session.next(Report::Done), Command::Render);
    assert_eq!(session.next(key(KeyCode::Right, NONE)), Command::Poll(DELTA));
    assert_eq!(
        session.resource().get::<Pointer>().cursor(),
        Focus::Region(Region::Files)
    );
    // a quit combination counts only as the answer to a poll
    assert_eq!(session.next(Report::Done), Command::Render);
    assert_eq!(session.next(key(KeyCode::Char('q'), CONTROL)), Command::Poll(DELTA));
}

#[test]
fn teardown_after_normal_quit() {
    let mut session = polling();
    assert_eq!(session.next(Report::Done), Command::Render);
    assert_eq!(session.next(Report::Done), Command::Poll(DELTA));
    assert_eq!(
        session.next(key(KeyCode::Char('q'), CONTROL)),
        Command::LeaveScreen
    );
    let commands = release(
        &mut session,
        [Report::Done, Report::Done, Report::Done, Report::Done],
    );
    assert_eq!(commands, full_release());
    assert!(session.failure().is_none());
}

#[test]
fn teardown_after_quit_in_entry_mode() {
    let mut session = polling();
    assert_eq!(session.next(key(KeyCode::Char('n'), CONTROL)), Command::Render);
    assert_eq!(session.next(Report::Done), Command::Poll(DELTA));
    assert_eq!(session.next(key(KeyCode::Char('a'), NONE)), Command::Render);
    assert_eq!(session.next(Report::Done), Command::Poll(DELTA));
    assert_eq!(
        session.next(key(KeyCode::Char('c'), CONTROL)),
        Command::LeaveScreen
    );
    assert_eq!(session.resource().get::<EntryBox>().text(), "a");
    let commands = release(
        &mut session,
        [Report::Done, Report::Done, Report::Done, Report::Done],
    );
    assert_eq!(commands, full_release());
    assert!(session.failure().is_none());
}

#[test]
fn teardown_after_failure_mid_loop() {
    let mut session = polling();
    assert_eq!(session.next(Report::Done), Command::Render);
    assert_eq!(
        session.next(Report::Failed("frame lost".to_string())),
        Command::LeaveScreen
    );
    let commands = release(
        &mut session,
        [Report::Done, Report::Done, Report::Done, Report::Done],
    );
    assert_eq!(commands, full_release());
    assert_eq!(
        session.failure().map(|m| m.as_str()),
        Some("Ran into issue while running the application: frame lost")
    );
}

#[test]
fn teardown_after_failed_poll() {
    let mut session = polling();
    assert_eq!(
        session.next(Report::Failed("stdin closed".to_string())),
        Command::LeaveScreen
    );
    let commands = release(
        &mut session,
        [Report::Done, Report::Done, Report::Done, Report::Done],
    );
    assert_eq!(commands, full_release());
    assert_eq!(
        session.failure().map(|m| m.as_str()),
        Some("Ran into issue while running the application: stdin closed")
    );
}

#[test]
fn release_goes_on_when_its_steps_fail() {
    let mut session = polling();
    assert_eq!(
        session.next(Report::Failed("first".to_string())),
        Command::LeaveScreen
    );
    let commands = release(
        &mut session,
        [
            Report::Failed("second".to_string()),
            Report::Failed("third".to_string()),
            key(KeyCode::Char('q'), CONTROL),
            Report::Failed("fourth".to_string()),
        ],
    );
    assert_eq!(commands, full_release());
    assert_eq!(
        session.failure().map(|m| m.as_str()),
        Some("Ran into issue while running the application: first")
    );
}

#[test]
fn release_failures_after_a_clean_quit_are_not_reported() {
    let mut session = polling();
    assert_eq!(
        session.next(key(KeyCode::Char('q'), CONTROL)),
        Command::LeaveScreen
    );
    let commands = release(
        &mut session,
        [
            Report::Failed("a".to_string()),
            Report::Failed("b".to_string()),
            Report::Failed("c".to_string()),
            Report::Failed("d".to_string()),
        ],
    );
    assert_eq!(commands, full_release());
    assert!(session.failure().is_none());
}

#[test]
fn a_session_that_is_over_stays_over() {
    let mut session = polling();
    session.next(key(KeyCode::Char('q'), CONTROL));
    release(
        &mut session,
        [Report::Done, Report::Done, Report::Done, Report::Done],
    );
    for report in [
        Report::Done,
        Report::Failed("late".to_string()),
        key(KeyCode::Char('n'), CONTROL),
        Report::Done,
    ] {
        assert_eq!(session.next(report), Command::Exit);
    }
    assert!(session.failure().is_none());
    assert!(!session.resource().get::<EntryBox>().bool());
}
