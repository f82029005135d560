//! The terminal session as a state machine.
//!
//! The session itself touches no terminal. It tells its driver what to do
//! next, one [`Command`] at a time, and the driver answers each with a
//! [`Report`]. What the session decides is the order: raw mode before the
//! alternate screen, one frame for every poll, and, however the loop ends,
//! every step of the release once and in order before the driver may stop.

use vstd::prelude::*;
use vstd::string::StringExecFns;
use crate::dispatch::{
    apply, init_resource, initial, key_listener, polled, populated, quits, same_rest, state_of,
    State,
};
use crate::event::Event;
use crate::resource::Resource;
use crate::DELTA;

verus! {

/// What the driver is to do next.
#[derive(Clone, Copy, Debug, PartialEq, Eq, Structural)]
pub enum Command {
    /// Put the terminal into raw input mode.
    EnableRaw,
    /// Enter the alternate screen and capture the mouse.
    EnterScreen,
    /// Wait for an input event, for at most this many milliseconds.
    Poll(u64),
    /// Draw a frame from the registry.
    Render,
    /// Leave the alternate screen.
    LeaveScreen,
    /// Stop capturing the mouse.
    ReleaseMouse,
    /// Put the terminal back into cooked input mode.
    DisableRaw,
    /// Make the terminal's cursor visible.
    ShowCursor,
    /// Stop: the session is over.
    Exit,
}

/// What the driver says of the command it was given.
pub enum Report {
    /// The command was carried out. Of a poll: the tick passed without an
    /// event.
    Done,
    /// The poll brought an event.
    Input(Event),
    /// The command failed, for the reason given.
    Failed(String),
}

/// What a session is in: the command that its driver owes a report of, the
/// failure that ended it, if one did, and the dispatcher's state.
pub struct SessionState {
    pub pending: Command,
    pub failure: Option<Seq<char>>,
    pub state: State,
}

/// The terminal session.
pub struct TerminalSession {
    pending: Command,
    failure: Option<String>,
    resource: Resource,
}

/// What a failure to acquire the terminal is reported with, before its reason.
pub const CREATE_FAILED: &'static str = "Couldn't create App object: ";

/// What a failure in the loop is reported with, before its reason.
pub const RUN_FAILED: &'static str = "Ran into issue while running the application: ";

impl Command {
    /// Whether the command is a step of the release.
    pub open spec fn is_release(self) -> bool {
        self is LeaveScreen || self is ReleaseMouse || self is DisableRaw || self is ShowCursor
    }

    /// Whether the session holds the terminal while the command is pending:
    /// raw mode is on, and the release has not begun.
    pub open spec fn is_live(self) -> bool {
        self is EnterScreen || self is Poll || self is Render
    }

    /// The place of the command in the course of a session.
    pub open spec fn rank(self) -> nat {
        match self {
            Command::EnableRaw => 0,
            Command::EnterScreen => 1,
            Command::Poll(_) | Command::Render => 2,
            Command::LeaveScreen => 3,
            Command::ReleaseMouse => 4,
            Command::DisableRaw => 5,
            Command::ShowCursor => 6,
            Command::Exit => 7,
        }
    }
}

impl Report {
    /// The event that the report brings, if it brings one.
    pub open spec fn event(self) -> Option<Event> {
        match self {
            Report::Input(event) => Some(event),
            _ => None,
        }
    }
}

/// Whether the report ends the work of the pending command for good: the
/// command failed, or the poll brought a quit combination.
pub open spec fn ends(pending: Command, report: Report) -> bool {
    match report {
        Report::Failed(_) => true,
        Report::Input(event) => pending is Poll && quits(event),
        Report::Done => false,
    }
}

/// The command that follows the pending one, given the report of it.
pub open spec fn following(pending: Command, report: Report) -> Command {
    match pending {
        Command::EnableRaw => if report is Failed {
            Command::Exit
        } else {
            Command::EnterScreen
        },
        Command::EnterScreen => if report is Failed {
            Command::LeaveScreen
        } else {
            Command::Poll(DELTA)
        },
        Command::Poll(_) => if ends(pending, report) {
            Command::LeaveScreen
        } else {
            Command::Render
        },
        Command::Render => if report is Failed {
            Command::LeaveScreen
        } else {
            Command::Poll(DELTA)
        },
        Command::LeaveScreen => Command::ReleaseMouse,
        Command::ReleaseMouse => Command::DisableRaw,
        Command::DisableRaw => Command::ShowCursor,
        Command::ShowCursor => Command::Exit,
        Command::Exit => Command::Exit,
    }
}

/// The failure that the report makes the session's own, if it does: a
/// failure to acquire the terminal or in the loop. A failure of a step of
/// the release is passed over.
pub open spec fn blamed(pending: Command, report: Report) -> Option<Seq<char>> {
    match report {
        Report::Failed(reason) => match pending {
            Command::EnableRaw => Some(CREATE_FAILED@ + reason@),
            Command::EnterScreen | Command::Poll(_) | Command::Render => Some(
                RUN_FAILED@ + reason@,
            ),
            _ => None,
        },
        _ => None,
    }
}

/// The session after the report of its pending command.
pub open spec fn advance(session: SessionState, report: Report) -> SessionState {
    SessionState {
        pending: following(session.pending, report),
        failure: match blamed(session.pending, report) {
            Some(message) => Some(message),
            None => session.failure,
        },
        state: if session.pending is Poll && !(report is Failed) {
            apply(session.state, polled(session.state.entry.active, report.event()))
        } else {
            session.state
        },
    }
}

/// The session after the reports, taken in turn.
pub open spec fn run(session: SessionState, reports: Seq<Report>) -> SessionState
    decreases reports.len(),
{
    if reports.len() == 0 {
        session
    } else {
        advance(run(session, reports.drop_last()), reports.last())
    }
}

impl View for TerminalSession {
    type V = SessionState;

    open spec fn view(&self) -> SessionState {
        SessionState {
            pending: self.pending(),
            failure: self.failed(),
            state: state_of(self.registry()),
        }
    }
}

impl TerminalSession {
    /// The command that the driver owes a report of.
    pub closed spec fn pending(self) -> Command {
        self.pending
    }

    /// The failure that ended the session, if one did.
    pub closed spec fn failed(self) -> Option<Seq<char>> {
        match self.failure {
            Some(message) => Some(message@),
            None => None,
        }
    }

    /// The registry of the session.
    pub closed spec fn registry(self) -> Resource {
        self.resource
    }

    /// The registry holds what the dispatcher reads.
    pub open spec fn wf(self) -> bool {
        populated(self.registry())
    }

    /// A session over the files named. With no file named there is nothing
    /// to show, and the session is over before it began.
    pub fn new(filenames: Vec<String>) -> (session: TerminalSession)
        ensures
            session.wf(),
            session@.pending == if filenames@.len() == 0 {
                Command::Exit
            } else {
                Command::EnableRaw
            },
            session@.failure is None,
            session@.state == initial(),
            session.registry().has::<Vec<String>>(),
            session.registry().value::<Vec<String>>() == filenames,
    {
        let pending = if filenames.len() == 0 {
            Command::Exit
        } else {
            Command::EnableRaw
        };
        TerminalSession { pending, failure: None, resource: init_resource(filenames) }
    }

    /// The command that the driver owes a report of.
    pub fn command(&self) -> (command: Command)
        ensures
            command == self@.pending,
    {
        self.pending
    }

    /// The registry, for the renderer to read.
    pub fn resource(&self) -> (res: &Resource)
        ensures
            *res == self.registry(),
    {
        &self.resource
    }

    /// The failure that ended the session, if one did.
    pub fn failure(&self) -> (failure: Option<&String>)
        ensures
            match failure {
                Some(message) => self@.failure == Some(message@),
                None => self@.failure is None,
            },
    {
        self.failure.as_ref()
    }

    /// Takes the report of the pending command and gives the next command.
    pub fn next(&mut self, report: Report) -> (command: Command)
        requires
            old(self).wf(),
        ensures
            final(self).wf(),
            final(self)@ == advance(old(self)@, report),
            command == final(self)@.pending,
            same_rest(old(self).registry(), final(self).registry()),
            !(old(self)@.pending is Poll) ==> final(self).registry() == old(self).registry(),
    {
        let command = match self.pending {
            Command::EnableRaw => match report {
                Report::Failed(reason) => {
                    self.failure = Some(String::from_str(CREATE_FAILED).concat(reason.as_str()));
                    Command::Exit
                },
                _ => Command::EnterScreen,
            },
            Command::EnterScreen => match report {
                Report::Failed(reason) => {
                    self.failure = Some(String::from_str(RUN_FAILED).concat(reason.as_str()));
                    Command::LeaveScreen
                },
                _ => Command::Poll(DELTA),
            },
            Command::Poll(_) => match report {
                Report::Failed(reason) => {
                    self.failure = Some(String::from_str(RUN_FAILED).concat(reason.as_str()));
                    Command::LeaveScreen
                },
                Report::Input(event) => if key_listener(Some(event), &mut self.resource) {
                    Command::LeaveScreen
                } else {
                    Command::Render
                },
                Report::Done => if key_listener(None, &mut self.resource) {
                    Command::LeaveScreen
                } else {
                    Command::Render
                },
            },
            Command::Render => match report {
                Report::Failed(reason) => {
                    self.failure = Some(String::from_str(RUN_FAILED).concat(reason.as_str()));
                    Command::LeaveScreen
                },
                _ => Command::Poll(DELTA),
            },
            Command::LeaveScreen => Command::ReleaseMouse,
            Command::ReleaseMouse => Command::DisableRaw,
            Command::DisableRaw => Command::ShowCursor,
            Command::ShowCursor => Command::Exit,
            Command::Exit => Command::Exit,
        };
        self.pending = command;
        command
    }
}

/// However a session that holds the terminal ends, by a quit combination or
/// by the failure of a command, the four steps of the release follow, each
/// once and in order, whatever the driver reports of them, failures too; then
/// the session is over. A failure of a step of the release changes nothing in
/// what the session reports.
pub proof fn lemma_teardown(
    session: SessionState,
    end: Report,
    left: Report,
    released: Report,
    disabled: Report,
    shown: Report,
)
    requires
        session.pending.is_live(),
        ends(session.pending, end),
    ensures
        ({
            let leaving = advance(session, end);
            let releasing = advance(leaving, left);
            let disabling = advance(releasing, released);
            let showing = advance(disabling, disabled);
            let over = advance(showing, shown);
            &&& leaving.pending == Command::LeaveScreen
            &&& releasing.pending == Command::ReleaseMouse
            &&& disabling.pending == Command::DisableRaw
            &&& showing.pending == Command::ShowCursor
            &&& over.pending == Command::Exit
            &&& over.failure == leaving.failure
            &&& over.state == leaving.state
        }),
{
}

/// A session never goes back: no report leads to a command that stands
/// earlier in its course, and a step of the release leads to a later one.
pub proof fn lemma_onward(session: SessionState, report: Report)
    ensures
        advance(session, report).pending.rank() >= session.pending.rank(),
        session.pending.is_release() ==> advance(session, report).pending.rank()
            > session.pending.rank(),
{
}

/// A step of the release is asked for once: after the report of it, whatever
/// the reports that follow, it is never pending again. A session that is
/// over stays over.
pub proof fn lemma_release_once(session: SessionState, reports: Seq<Report>)
    ensures
        run(session, reports).pending.rank() >= session.pending.rank(),
        session.pending.is_release() && reports.len() > 0 ==> run(session, reports).pending.rank()
            > session.pending.rank(),
        session.pending is Exit ==> run(session, reports).pending is Exit,
    decreases reports.len(),
{
    if reports.len() > 0 {
        lemma_release_once(session, reports.drop_last());
        lemma_onward(run(session, reports.drop_last()), reports.last());
    }
}

/// A report that gives the session a failure begins the release or ends
/// the session.
pub proof fn lemma_failure_ends(session: SessionState, report: Report)
    requires
        blamed(session.pending, report) is Some,
    ensures
        advance(session, report).pending is LeaveScreen || advance(session, report).pending is Exit,
{
}

/// A session reports one failure at most: once the release has begun, or the
/// session is over, no report changes the failure that it holds.
pub proof fn lemma_single_failure(session: SessionState, reports: Seq<Report>)
    requires
        session.pending.is_release() || session.pending is Exit,
    ensures
        run(session, reports).failure == session.failure,
    decreases reports.len(),
{
    if reports.len() > 0 {
        lemma_single_failure(session, reports.drop_last());
        lemma_release_once(session, reports.drop_last());
    }
}

/// While the loop goes on, every poll is followed by one frame, whether or
/// not it brought an event, and every frame by the next poll, which waits for
/// one tick at most.
pub proof fn lemma_frame_per_poll(session: SessionState, polled: Report, drawn: Report)
    requires
        session.pending is Poll,
        !ends(session.pending, polled),
        !(drawn is Failed),
    ensures
        advance(session, polled).pending == Command::Render,
        advance(advance(session, polled), drawn).pending == Command::Poll(DELTA),
{
}

} // verus!
