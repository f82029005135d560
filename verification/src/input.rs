//! The text-entry line: a buffer of characters behind an on/off switch.

use vstd::prelude::*;

verus! {

/// `String::push` appends the character to the end of the string.
pub assume_specification[ String::push ](s: &mut String, c: char)
    ensures
        final(s)@ == old(s)@.push(c),
;

/// `String::pop` removes the last character and returns it, and returns `None`
/// and leaves the string as it is when the string is empty.
pub assume_specification[ String::pop ](s: &mut String) -> (r: Option<char>)
    ensures
        old(s)@.len() == 0 ==> r.is_none() && final(s)@ == old(s)@,
        old(s)@.len() > 0 ==> r == Some(old(s)@.last()) && final(s)@ == old(s)@.drop_last(),
;

/// `String::clear` removes every character of the string.
pub assume_specification[ String::clear ](s: &mut String)
    ensures
        final(s)@ == Seq::<char>::empty(),
;

/// What an [`EntryBox`] holds: the switch and the characters typed so far.
pub struct EntryState {
    pub active: bool,
    pub text: Seq<char>,
}

impl EntryState {
    /// The state with `c` added after the characters typed.
    pub open spec fn pushed(self, c: char) -> EntryState {
        EntryState { text: self.text.push(c), ..self }
    }

    /// The state without the last character typed, and the state itself if no
    /// character was typed.
    pub open spec fn popped(self) -> EntryState {
        if self.text.len() > 0 {
            EntryState { text: self.text.drop_last(), ..self }
        } else {
            self
        }
    }

    /// The state with no character typed.
    pub open spec fn cleared(self) -> EntryState {
        EntryState { text: Seq::empty(), ..self }
    }

    /// The state with the switch flipped.
    pub open spec fn toggled(self) -> EntryState {
        EntryState { active: !self.active, ..self }
    }
}

/// The text-entry line.
pub struct EntryBox {
    active: bool,
    buffer: String,
}

impl View for EntryBox {
    type V = EntryState;

    closed spec fn view(&self) -> EntryState {
        EntryState { active: self.active, text: self.buffer@ }
    }
}

impl EntryBox {
    /// An inactive line with an empty buffer.
    pub fn new() -> (e: EntryBox)
        ensures
            e@ == (EntryState { active: false, text: Seq::empty() }),
    {
        EntryBox { active: false, buffer: String::new() }
    }

    /// Appends `c` to the buffer.
    pub fn push(&mut self, c: char)
        ensures
            final(self)@ == old(self)@.pushed(c),
    {
        self.buffer.push(c);
    }

    /// Removes the last character of the buffer, if there is one.
    pub fn pop(&mut self)
        ensures
            final(self)@ == old(self)@.popped(),
    {
        let _ = self.buffer.pop();
    }

    /// Empties the buffer and leaves the switch as it is.
    pub fn clear(&mut self)
        ensures
            final(self)@ == old(self)@.cleared(),
    {
        self.buffer.clear();
    }

    /// Empties the buffer and hands its contents to the caller.
    pub fn take(&mut self) -> (text: String)
        ensures
            text@ == old(self)@.text,
            final(self)@ == old(self)@.cleared(),
    {
        let mut text = String::new();
        std::mem::swap(&mut self.buffer, &mut text);
        text
    }

    /// Flips the switch and leaves the buffer as it is.
    pub fn toggle(&mut self)
        ensures
            final(self)@ == old(self)@.toggled(),
    {
        self.active = !self.active;
    }

    /// The characters typed so far.
    pub fn text(&self) -> (text: &str)
        ensures
            text@ == self@.text,
    {
        self.buffer.as_str()
    }

    /// Whether the line is active.
    pub fn bool(&self) -> (b: bool)
        ensures
            b == self@.active,
    {
        self.active
    }
}

/// Removing a character from an empty buffer changes nothing.
pub proof fn lemma_pop_empty(entry: EntryState)
    requires
        entry.text.len() == 0,
    ensures
        entry.popped() == entry,
{
}

/// What was pushed last is what a pop removes.
pub proof fn lemma_push_pop(entry: EntryState, c: char)
    ensures
        entry.pushed(c).popped() == entry,
{
    assert(entry.text.push(c).drop_last() =~= entry.text);
}

} // verus!
