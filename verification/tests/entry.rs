use refer::input::EntryBox;
use refer::resource::FileBuff;

#[test]
fn entry_box_starts_inactive_and_empty() {
    let entry = EntryBox::new();
    assert!(!entry.bool());
    assert_eq!(entry.text(), "");
}

#[test]
fn push_appends_in_order() {
    let mut entry = EntryBox::new();
    entry.push('a');
    assert_eq!(entry.text(), "a");
    entry.push('b');
    entry.push('c');
    assert_eq!(entry.text(), "abc");
    assert!(!entry.bool());
}

#[test]
fn push_keeps_wide_characters() {
    let mut entry = EntryBox::new();
    entry.push('é');
    entry.push('日');
    entry.push(' ');
    assert_eq!(entry.text(), "é日 ");
    entry.pop();
    entry.pop();
    assert_eq!(entry.text(), "é");
}

#[test]
fn pop_removes_the_last_character() {
    let mut entry = EntryBox::new();
    entry.push('x');
    entry.push('y');
    entry.pop();
    assert_eq!(entry.text(), "x");
    entry.pop();
    assert_eq!(entry.text(), "");
}

#[test]
fn pop_on_empty_buffer_is_a_no_op() {
    let mut entry = EntryBox::new();
    entry.pop();
    assert_eq!(entry.text(), "");
    assert!(!entry.bool());
    entry.toggle();
    entry.pop();
    entry.pop();
    assert_eq!(entry.text(), "");
    assert!(entry.bool());
    entry.push('z');
    assert_eq!(entry.text(), "z");
}

#[test]
fn clear_empties_and_keeps_the_switch() {
    let mut entry = EntryBox::new();
    entry.toggle();
    entry.push('x');
    entry.push('y');
    entry.clear();
    assert_eq!(entry.text(), "");
    assert!(entry.bool());
    entry.clear();
    assert_eq!(entry.text(), "");
}

#[test]
fn take_hands_out_the_buffer() {
    let mut entry = EntryBox::new();
    entry.toggle();
    entry.push('a');
    entry.push('b');
    entry.push('c');
    let text = entry.take();
    assert_eq!(text, "abc");
    assert_eq!(entry.text(), "");
    assert!(entry.bool());
}

#[test]
fn toggle_flips_the_switch_only() {
    let mut entry = EntryBox::new();
    entry.push('q');
    entry.toggle();
    assert!(entry.bool());
    assert_eq!(entry.text(), "q");
    entry.toggle();
    assert!(!entry.bool());
    assert_eq!(entry.text(), "q");
}

#[test]
fn commit_round_trip() {
    let mut entry = EntryBox::new();
    let mut files = FileBuff::default();
    files.insert("first".to_string());
    entry.push('a');
    entry.push('b');
    entry.push('c');
    let name = entry.take();
    assert_eq!(name, "abc");
    assert_eq!(entry.text(), "");
    files.insert(name);
    assert_eq!(files.names().last(), Some(&"abc".to_string()));
    assert_eq!(files.names().len(), 2);
    let name = entry.take();
    assert_eq!(name, "");
    files.insert(name);
    assert_eq!(
        files.names(),
        &vec!["first".to_string(), "abc".to_string(), "".to_string()]
    );
}
