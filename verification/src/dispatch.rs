//! The dispatcher: one input event, at most one change of the state.

use vstd::prelude::*;
use crate::cursor::{CursorSet, Pointer, Region};
use crate::event::{is_printable, printable, Event, KeyCode, KeyEvent, CONTROL, NONE, SHIFT};
use crate::input::{EntryBox, EntryState};
use crate::resource::{FileBuff, Kind, Resource, Stored};

verus! {

/// The state that the dispatcher reads and changes.
pub struct State {
    pub pointer: Pointer,
    pub entry: EntryState,
    pub files: Seq<Seq<char>>,
}

/// What one event asks for.
pub enum Action {
    /// End the session.
    Quit,
    /// Open the entry line.
    Begin,
    /// Move the cursor to a navigation region.
    Focus(Region),
    /// Close the entry line and drop what was typed.
    Cancel,
    /// Close the entry line and open what was typed as a file.
    Commit,
    /// Remove the last character typed.
    Erase,
    /// Add a character to what was typed.
    Type(char),
    /// Nothing.
    Ignore,
}

/// Whether the event is a quit combination: control with `q`, or control
/// with `c`, and no other modifier.
pub open spec fn quits(event: Event) -> bool {
    event matches Event::Key(key) && key.modifiers == CONTROL && (key.code == KeyCode::Char('q')
        || key.code == KeyCode::Char('c'))
}

/// Whether the event is control with `n`, and no other modifier.
pub open spec fn switches(event: Event) -> bool {
    event matches Event::Key(key) && key.modifiers == CONTROL && key.code == KeyCode::Char('n')
}

/// What an event asks for while the entry line is closed.
pub open spec fn normal_action(event: Event) -> Action {
    if switches(event) {
        Action::Begin
    } else {
        match event {
            Event::Key(KeyEvent { code: KeyCode::Left, .. }) => Action::Focus(Region::Files),
            Event::Key(KeyEvent { code: KeyCode::Right, .. }) => Action::Focus(Region::View),
            _ => Action::Ignore,
        }
    }
}

/// The character that the event types, if it types one: a printable
/// character, with no modifier held or shift alone.
pub open spec fn plain_char(event: Event) -> Option<char> {
    match event {
        Event::Key(KeyEvent { code: KeyCode::Char(c), modifiers }) => if (modifiers == NONE
            || modifiers == SHIFT) && printable(c) {
            Some(c)
        } else {
            None
        },
        _ => None,
    }
}

/// What an event asks for while the entry line is open.
pub open spec fn write_action(event: Event) -> Action {
    if switches(event) {
        Action::Cancel
    } else {
        match event {
            Event::Key(KeyEvent { code: KeyCode::Enter, .. }) => Action::Commit,
            Event::Key(KeyEvent { code: KeyCode::Backspace, .. }) => Action::Erase,
            _ => match plain_char(event) {
                Some(c) => Action::Type(c),
                None => Action::Ignore,
            },
        }
    }
}

/// What an event asks for: a quit combination ends the session whatever the
/// mode, and any other event is read by the mode, open or closed, of the
/// entry line.
pub open spec fn decide(active: bool, event: Event) -> Action {
    if quits(event) {
        Action::Quit
    } else if active {
        write_action(event)
    } else {
        normal_action(event)
    }
}

/// The state after an action.
pub open spec fn apply(state: State, action: Action) -> State {
    match action {
        Action::Quit | Action::Ignore => state,
        Action::Begin => State {
            pointer: state.pointer.toggled(),
            entry: state.entry.toggled(),
            ..state
        },
        Action::Focus(region) => State { pointer: state.pointer.moved(region), ..state },
        Action::Cancel => State {
            pointer: state.pointer.toggled(),
            entry: state.entry.cleared().toggled(),
            ..state
        },
        Action::Commit => State {
            pointer: state.pointer.toggled(),
            entry: state.entry.cleared().toggled(),
            files: state.files.push(state.entry.text),
        },
        Action::Erase => State { entry: state.entry.popped(), ..state },
        Action::Type(c) => State { entry: state.entry.pushed(c), ..state },
    }
}

/// The registry holds what the dispatcher reads: the pointer, the entry line
/// and the open files.
pub open spec fn populated(res: Resource) -> bool {
    &&& res.wf()
    &&& res.has::<Pointer>()
    &&& res.has::<EntryBox>()
    &&& res.has::<FileBuff>()
}

/// The dispatcher's state, as the registry holds it.
pub open spec fn state_of(res: Resource) -> State {
    State {
        pointer: res.value::<Pointer>(),
        entry: res.value::<EntryBox>()@,
        files: res.value::<FileBuff>()@,
    }
}

/// The two registries hold values of the same kinds, and the same value of
/// every kind that the dispatcher never writes.
pub open spec fn same_rest(before: Resource, after: Resource) -> bool {
    &&& after@.dom() =~= before@.dom()
    &&& forall|kind: Kind|
        kind != Kind::Pointer && kind != Kind::EntryBox && kind != Kind::FileBuff
            ==> after@[kind] == before@[kind]
}

/// Whether the event is a quit combination.
pub fn quit_listener(event: &Event) -> (quit: bool)
    ensures
        quit == quits(*event),
{
    match event {
        Event::Key(KeyEvent { code: KeyCode::Char('q'), modifiers: CONTROL })
        | Event::Key(KeyEvent { code: KeyCode::Char('c'), modifiers: CONTROL }) => true,
        _ => false,
    }
}

/// Handles an event while the entry line is closed.
pub fn normal_key_event(event: Event, res: &mut Resource)
    requires
        populated(*old(res)),
    ensures
        populated(*final(res)),
        state_of(*final(res)) == apply(state_of(*old(res)), normal_action(event)),
        same_rest(*old(res), *final(res)),
        normal_action(event) is Ignore ==> *final(res) == *old(res),
{
    match event {
        Event::Key(KeyEvent { code: KeyCode::Char('n'), modifiers: CONTROL }) => {
            res.get_mut::<Pointer>().toggle();
            res.get_mut::<EntryBox>().toggle();
        },
        Event::Key(KeyEvent { code: KeyCode::Left, .. }) => res.get_mut::<Pointer>().set_cursor(
            Region::Files,
        ),
        Event::Key(KeyEvent { code: KeyCode::Right, .. }) => res.get_mut::<Pointer>().set_cursor(
            Region::View,
        ),
        _ => {},
    }
}

/// Handles an event while the entry line is open.
pub fn write_key_event(event: Event, res: &mut Resource)
    requires
        populated(*old(res)),
    ensures
        populated(*final(res)),
        state_of(*final(res)) == apply(state_of(*old(res)), write_action(event)),
        same_rest(*old(res), *final(res)),
        write_action(event) is Ignore ==> *final(res) == *old(res),
{
    match event {
        Event::Key(KeyEvent { code: KeyCode::Char('n'), modifiers: CONTROL }) => {
            res.get_mut::<Pointer>().toggle();
            res.get_mut::<EntryBox>().clear();
            res.get_mut::<EntryBox>().toggle();
        },
        Event::Key(KeyEvent { code: KeyCode::Enter, .. }) => {
            let name = res.get_mut::<EntryBox>().take();
            res.get_mut::<FileBuff>().insert(name);
            res.get_mut::<Pointer>().toggle();
            res.get_mut::<EntryBox>().toggle();
        },
        Event::Key(KeyEvent { code: KeyCode::Backspace, .. }) => res.get_mut::<EntryBox>().pop(),
        Event::Key(KeyEvent { code: KeyCode::Char(c), modifiers }) => {
            if (modifiers == NONE || modifiers == SHIFT) && is_printable(c) {
                res.get_mut::<EntryBox>().push(c);
            }
        },
        _ => {},
    }
}

/// What one poll asks for: what the event asks for, if one arrived within
/// the tick, and nothing otherwise.
pub open spec fn polled(active: bool, event: Option<Event>) -> Action {
    match event {
        Some(event) => decide(active, event),
        None => Action::Ignore,
    }
}

/// Handles what one poll brought, and says whether the session is to end.
pub fn key_listener(event: Option<Event>, res: &mut Resource) -> (quit: bool)
    requires
        populated(*old(res)),
    ensures
        populated(*final(res)),
        quit == (polled(state_of(*old(res)).entry.active, event) is Quit),
        state_of(*final(res)) == apply(
            state_of(*old(res)),
            polled(state_of(*old(res)).entry.active, event),
        ),
        same_rest(*old(res), *final(res)),
        polled(state_of(*old(res)).entry.active, event) is Quit || polled(
            state_of(*old(res)).entry.active,
            event,
        ) is Ignore ==> *final(res) == *old(res),
{
    if let Some(event) = event {
        if quit_listener(&event) {
            return true;
        }
        match res.get::<EntryBox>().bool() {
            true => write_key_event(event, res),
            false => normal_key_event(event, res),
        }
    }
    false
}

/// The state in which a session starts: the cursor on `Files`, the entry
/// line closed and empty, and no file open.
pub open spec fn initial() -> State {
    State {
        pointer: Pointer { set: CursorSet::Navigation, region: Region::Files },
        entry: EntryState { active: false, text: Seq::empty() },
        files: Seq::empty(),
    }
}

/// The registry of a new session: the file names given to the program, and
/// the dispatcher's state as a session starts with it.
pub fn init_resource(filenames: Vec<String>) -> (res: Resource)
    ensures
        populated(res),
        state_of(res) == initial(),
        res.has::<Vec<String>>(),
        res.value::<Vec<String>>() == filenames,
{
    let mut resource = Resource::default();
    resource.insert(filenames);
    resource.insert(Pointer::new());
    resource.insert(EntryBox::new());
    resource.insert(FileBuff::default());
    resource
}

/// The entry line is open exactly while the entry set is active, and holds
/// no character while it is closed.
pub open spec fn coherent(state: State) -> bool {
    &&& state.entry.active <==> state.pointer.set == CursorSet::Entry
    &&& !state.entry.active ==> state.entry.text.len() == 0
}

/// The state after the characters of `text` were typed in turn.
pub open spec fn typed(state: State, text: Seq<char>) -> State
    decreases text.len(),
{
    if text.len() == 0 {
        state
    } else {
        apply(typed(state, text.drop_last()), Action::Type(text.last()))
    }
}

/// A session starts in a coherent state.
pub proof fn lemma_initial_coherent()
    ensures
        coherent(initial()),
{
}

/// No event leads out of the coherent states.
pub proof fn lemma_coherence_kept(state: State, event: Option<Event>)
    requires
        coherent(state),
    ensures
        coherent(apply(state, polled(state.entry.active, event))),
{
}

/// A quit combination ends the session whether the entry line is open or
/// closed, and changes nothing: it is never read as a character typed.
pub proof fn lemma_quit_first(state: State, event: Event)
    requires
        quits(event),
    ensures
        decide(state.entry.active, event) is Quit,
        apply(state, decide(state.entry.active, event)) == state,
{
}

/// The two modes share no action but to do nothing: an event changes the
/// state as the mode of the entry line reads it, and in no other way.
pub proof fn lemma_modes_apart(event: Event)
    ensures
        normal_action(event) is Begin || normal_action(event) is Focus || normal_action(
            event,
        ) is Ignore,
        write_action(event) is Cancel || write_action(event) is Commit || write_action(
            event,
        ) is Erase || write_action(event) is Type || write_action(event) is Ignore,
{
}

/// In entry mode a character key types its character only if the character
/// is printable and no modifier is held with it but, at most, shift. Any
/// other character key leaves the state as it was, unless it is the switch.
pub proof fn lemma_typing_keys(state: State, c: char, modifiers: u8)
    ensures
        ({
            let event = Event::Key(KeyEvent { code: KeyCode::Char(c), modifiers });
            &&& write_action(event) is Type <==> printable(c) && (modifiers == NONE || modifiers
                == SHIFT)
            &&& write_action(event) is Type ==> write_action(event) == Action::Type(c)
            &&& !(write_action(event) is Type) && !switches(event) ==> apply(
                state,
                write_action(event),
            ) == state
        }),
{
}

/// An event that the mode gives no meaning leaves the state as it was.
pub proof fn lemma_unmatched_ignored(state: State, event: Option<Event>)
    requires
        polled(state.entry.active, event) is Ignore,
    ensures
        apply(state, polled(state.entry.active, event)) == state,
{
}

/// Typing adds the characters to the end of the buffer, in order, and
/// changes nothing else.
pub proof fn lemma_typed(state: State, text: Seq<char>)
    ensures
        typed(state, text) == (State {
            entry: EntryState { text: state.entry.text + text, ..state.entry },
            ..state
        }),
    decreases text.len(),
{
    if text.len() == 0 {
        assert(state.entry.text + text =~= state.entry.text);
    } else {
        lemma_typed(state, text.drop_last());
        assert((state.entry.text + text.drop_last()).push(text.last()) =~= state.entry.text
            + text);
    }
}

/// A commit opens exactly what was typed, as the last of the open files, and
/// leaves the buffer empty; a second commit right after it opens the empty
/// name.
pub proof fn lemma_commit(state: State, text: Seq<char>)
    requires
        state.entry.text.len() == 0,
    ensures
        apply(typed(state, text), Action::Commit).files == state.files.push(text),
        apply(typed(state, text), Action::Commit).entry.text.len() == 0,
        apply(apply(typed(state, text), Action::Commit), Action::Commit).files
            == state.files.push(text).push(Seq::empty()),
{
    lemma_typed(state, text);
    assert(state.entry.text + text =~= text);
}

/// A cancel opens no file and leaves the buffer empty, whatever was typed.
pub proof fn lemma_cancel(state: State, text: Seq<char>)
    ensures
        apply(typed(state, text), Action::Cancel).files == state.files,
        apply(typed(state, text), Action::Cancel).entry.text.len() == 0,
{
    lemma_typed(state, text);
}

/// Erasing from an empty buffer changes nothing.
pub proof fn lemma_erase_empty(state: State)
    requires
        state.entry.text.len() == 0,
    ensures
        apply(state, Action::Erase) == state,
{
}

} // verus!
