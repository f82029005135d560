use refer::cursor::{CursorSet, Focus, Pointer, Region};

#[test]
fn pointer_starts_on_files() {
    let pointer = Pointer::new();
    assert_eq!(pointer.active_set(), CursorSet::Navigation);
    assert_eq!(pointer.cursor(), Focus::Region(Region::Files));
}

#[test]
fn toggle_twice_returns_to_files() {
    let mut pointer = Pointer::new();
    pointer.toggle();
    assert_eq!(pointer.active_set(), CursorSet::Entry);
    assert_eq!(pointer.cursor(), Focus::Entry);
    pointer.toggle();
    assert_eq!(pointer.active_set(), CursorSet::Navigation);
    assert_eq!(pointer.cursor(), Focus::Region(Region::Files));
    assert_eq!(pointer, Pointer::new());
}

#[test]
fn toggle_twice_returns_to_view() {
    let mut pointer = Pointer::new();
    pointer.set_cursor(Region::View);
    let before = pointer;
    pointer.toggle();
    assert_eq!(pointer.cursor(), Focus::Entry);
    pointer.toggle();
    assert_eq!(pointer.cursor(), Focus::Region(Region::View));
    assert_eq!(pointer, before);
}

#[test]
fn toggle_twice_from_entry_set_returns_to_entry() {
    let mut pointer = Pointer::new();
    pointer.set_cursor(Region::View);
    pointer.toggle();
    let before = pointer;
    pointer.toggle();
    pointer.toggle();
    assert_eq!(pointer, before);
    assert_eq!(pointer.cursor(), Focus::Entry);
}

#[test]
fn set_cursor_moves_within_navigation_set() {
    let mut pointer = Pointer::new();
    pointer.set_cursor(Region::View);
    assert_eq!(pointer.cursor(), Focus::Region(Region::View));
    assert_eq!(pointer.active_set(), CursorSet::Navigation);
    pointer.set_cursor(Region::View);
    assert_eq!(pointer.cursor(), Focus::Region(Region::View));
    pointer.set_cursor(Region::Files);
    assert_eq!(pointer.cursor(), Focus::Region(Region::Files));
}

#[test]
fn set_cursor_is_ignored_in_entry_set() {
    let mut pointer = Pointer::new();
    pointer.toggle();
    pointer.set_cursor(Region::View);
    assert_eq!(pointer.cursor(), Focus::Entry);
    assert_eq!(pointer.active_set(), CursorSet::Entry);
    pointer.toggle();
    assert_eq!(pointer.cursor(), Focus::Region(Region::Files));
}
