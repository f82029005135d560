//! The focus state machine: which region of the interface holds the cursor.
//!
//! The regions fall into two cursor sets. The navigation set holds the regions
//! that the arrow keys move between; the entry set holds the text-entry line
//! alone. A [`Pointer`] is always on a member of the set that is active.

use vstd::prelude::*;

verus! {

/// A region of the navigation set.
#[derive(Clone, Copy, Debug, PartialEq, Eq, Structural)]
pub enum Region {
    Files,
    View,
}

/// One of the two cursor sets.
#[derive(Clone, Copy, Debug, PartialEq, Eq, Structural)]
pub enum CursorSet {
    Navigation,
    Entry,
}

/// What the cursor is on: a navigation region, or the text-entry line.
#[derive(Clone, Copy, Debug, PartialEq, Eq, Structural)]
pub enum Focus {
    Region(Region),
    Entry,
}

/// The cursor over the focusable regions.
///
/// It records the active set and the navigation region that was, or still is,
/// under the cursor, so that leaving the entry set brings the cursor back to
/// where it was.
#[derive(Clone, Copy, Debug, PartialEq, Eq, Structural)]
pub struct Pointer {
    /// The set that is active.
    pub set: CursorSet,
    /// The navigation region under the cursor while the navigation set is
    /// active, and the one the cursor returns to while the entry set is.
    pub region: Region,
}

impl CursorSet {
    /// The set that is not `self`.
    pub open spec fn other(self) -> CursorSet {
        match self {
            CursorSet::Navigation => CursorSet::Entry,
            CursorSet::Entry => CursorSet::Navigation,
        }
    }
}

impl Pointer {
    /// What the cursor is on.
    pub open spec fn focus(self) -> Focus {
        match self.set {
            CursorSet::Navigation => Focus::Region(self.region),
            CursorSet::Entry => Focus::Entry,
        }
    }

    /// The state that `toggle` leads to.
    pub open spec fn toggled(self) -> Pointer {
        Pointer { set: self.set.other(), region: self.region }
    }

    /// The state that `set_cursor` leads to.
    pub open spec fn moved(self, region: Region) -> Pointer {
        match self.set {
            CursorSet::Navigation => Pointer { set: CursorSet::Navigation, region },
            CursorSet::Entry => self,
        }
    }

    /// The initial state: the navigation set, with the cursor on `Files`.
    pub fn new() -> (p: Pointer)
        ensures
            p == (Pointer { set: CursorSet::Navigation, region: Region::Files }),
    {
        Pointer { set: CursorSet::Navigation, region: Region::Files }
    }

    /// Switches the active set. From the navigation set the cursor goes to the
    /// entry line; from the entry set it returns to the navigation region it
    /// left.
    pub fn toggle(&mut self)
        ensures
            *final(self) == old(self).toggled(),
    {
        self.set = match self.set {
            CursorSet::Navigation => CursorSet::Entry,
            CursorSet::Entry => CursorSet::Navigation,
        };
    }

    /// Moves the cursor to `region` while the navigation set is active, and
    /// does nothing while the entry set is.
    pub fn set_cursor(&mut self, region: Region)
        ensures
            *final(self) == old(self).moved(region),
    {
        match self.set {
            CursorSet::Navigation => {
                self.region = region;
            },
            CursorSet::Entry => {},
        }
    }

    /// The active set.
    pub fn active_set(&self) -> (s: CursorSet)
        ensures
            s == self.set,
    {
        self.set
    }

    /// What the cursor is on.
    pub fn cursor(&self) -> (f: Focus)
        ensures
            f == self.focus(),
    {
        match self.set {
            CursorSet::Navigation => Focus::Region(self.region),
            CursorSet::Entry => Focus::Entry,
        }
    }

    /// Toggling twice leads back to the state before: the same set is active
    /// and the cursor is on the same region.
    pub proof fn lemma_toggle_involution(self)
        ensures
            self.toggled().toggled() == self,
    {
    }

    /// A toggle out of the navigation set and back leaves the cursor on the
    /// region it was on.
    pub proof fn lemma_toggle_returns(self, region: Region)
        requires
            self.focus() == Focus::Region(region),
        ensures
            self.toggled().focus() == Focus::Entry,
            self.toggled().toggled().focus() == Focus::Region(region),
            self.toggled().toggled().set == CursorSet::Navigation,
    {
    }
}

} // verus!
