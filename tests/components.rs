use pacfront::action::Action;
use pacfront::event::Event;
use pacfront::focus::{Focus, HomeComponent};
use pacfront::info::PackageInfo;
use pacfront::key::{KeyCode, KeyEvent, KeyModifiers};
use pacfront::package::{metadata_or_placeholder, Package};
use pacfront::search::PackageSearch;
use pacfront::table::PackagesTable;
use pacfront::terminal::{TerminalCommand, TerminalState};

fn pkg(name: &str) -> Package {
    let mut p = Package::empty();
    p.name = name.to_string();
    p
}

fn plain(c: char) -> KeyEvent {
    KeyEvent::new(KeyCode::Char(c), KeyModifiers::Plain)
}

fn active_table(n: usize) -> PackagesTable {
    let mut t = PackagesTable::new();
    let list: Vec<Package> = (0..n).map(|i| pkg(&format!("pkg{}", i))).collect();
    t.update(&Event::FoundPackages(list));
    t.update(&Event::FocusChanged(Focus::Table));
    t
}

#[test]
fn next_then_previous_returns_everywhere() {
    for n in 1..5usize {
        for start in 0..n {
            let mut t = active_table(n);
            t.selected = Some(start);
            t.handle_key_event(&plain('j'));
            t.handle_key_event(&plain('k'));
            assert_eq!(t.selected, Some(start));
            t.handle_key_event(&plain('k'));
            t.handle_key_event(&plain('j'));
            assert_eq!(t.selected, Some(start));
        }
    }
}

#[test]
fn previous_wraps_from_first_to_last() {
    let mut t = active_table(3);
    let a = t.handle_key_event(&plain('k'));
    assert_eq!(t.selected, Some(2));
    assert!(matches!(&a[..], [Action::SelectPackage(p)] if p.name == "pkg2"));
}

#[test]
fn single_item_list_stays_put() {
    let mut t = active_table(1);
    t.handle_key_event(&plain('j'));
    assert_eq!(t.selected, Some(0));
    t.handle_key_event(&plain('k'));
    assert_eq!(t.selected, Some(0));
}

#[test]
fn found_packages_resets_cursor() {
    let mut t = active_table(4);
    t.selected = Some(3);
    t.update(&Event::FoundPackages(vec![pkg("x"), pkg("y")]));
    assert_eq!(t.selected, Some(0));
    assert_eq!(t.packages.len(), 2);
}

#[test]
fn found_nothing_clears_cursor() {
    let mut t = active_table(2);
    t.update(&Event::FoundPackages(vec![]));
    assert_eq!(t.selected, None);
    assert!(t.get_selected_package().is_none());
}

#[test]
fn empty_table_ignores_navigation() {
    let mut t = PackagesTable::new();
    t.update(&Event::FocusChanged(Focus::Table));
    for key in [
        plain('j'),
        plain('k'),
        plain('g'),
        plain('i'),
        plain('r'),
        KeyEvent::new(KeyCode::Char('G'), KeyModifiers::Shift),
        KeyEvent::new(KeyCode::Char('I'), KeyModifiers::Shift),
    ] {
        let a = t.handle_key_event(&key);
        assert!(a.is_empty());
        assert_eq!(t.selected, None);
    }
}

#[test]
fn inactive_table_ignores_keys() {
    let mut t = active_table(3);
    t.update(&Event::FocusChanged(Focus::Search));
    let a = t.handle_key_event(&plain('j'));
    assert!(a.is_empty());
    assert_eq!(t.selected, Some(0));
}

#[test]
fn install_event_for_unknown_name_changes_nothing() {
    let mut t = active_table(2);
    t.update(&Event::PackageInstalled("nothere".to_string()));
    assert!(t.packages.iter().all(|p| !p.installed));
}

#[test]
fn install_event_marks_first_of_equal_names() {
    let mut t = PackagesTable::new();
    t.update(&Event::FoundPackages(vec![pkg("a"), pkg("vim"), pkg("vim")]));
    t.update(&Event::PackageInstalled("vim".to_string()));
    let flags: Vec<bool> = t.packages.iter().map(|p| p.installed).collect();
    assert_eq!(flags, vec![false, true, false]);
    assert_eq!(t.position_of(&"vim".to_string()), Some(1));
    assert_eq!(t.position_of(&"zsh".to_string()), None);
}

#[test]
fn search_input_edits_text() {
    let mut s = PackageSearch::new();
    for c in "hello big world".chars() {
        let a = s.handle_key_event(&plain(c));
        assert_eq!(a.len(), 1);
    }
    assert_eq!(s.text, "hello big world");
    let a = s.handle_key_event(&KeyEvent::new(KeyCode::Char('w'), KeyModifiers::Control));
    assert_eq!(s.text, "hello big");
    assert!(matches!(&a[..], [Action::SearchPackage(q)] if q == "hello big"));
    s.handle_key_event(&KeyEvent::new(KeyCode::Backspace, KeyModifiers::Plain));
    assert_eq!(s.text, "hello bi");
    s.handle_key_event(&KeyEvent::new(KeyCode::Char('w'), KeyModifiers::Control));
    assert_eq!(s.text, "hello");
    s.handle_key_event(&KeyEvent::new(KeyCode::Char('w'), KeyModifiers::Control));
    assert_eq!(s.text, "");
    let a = s.handle_key_event(&KeyEvent::new(KeyCode::Backspace, KeyModifiers::Plain));
    assert_eq!(s.text, "");
    assert!(matches!(&a[..], [Action::SearchPackage(q)] if q.is_empty()));
}

#[test]
fn search_input_handles_non_ascii() {
    let mut s = PackageSearch::default();
    s.handle_key_event(&plain('é'));
    s.handle_key_event(&plain(' '));
    s.handle_key_event(&plain('ü'));
    assert_eq!(s.text, "é ü");
    s.handle_key_event(&KeyEvent::new(KeyCode::Backspace, KeyModifiers::Plain));
    assert_eq!(s.text, "é ");
    s.handle_key_event(&KeyEvent::new(KeyCode::Char('w'), KeyModifiers::Control));
    assert_eq!(s.text, "é");
}

#[test]
fn inactive_search_ignores_keys() {
    let mut s = PackageSearch::new();
    s.update(&Event::FocusChanged(Focus::Table));
    assert!(!s.active);
    let a = s.handle_key_event(&plain('a'));
    assert!(a.is_empty());
    assert_eq!(s.text, "");
    let a = s.handle_key_event(&KeyEvent::new(KeyCode::Tab, KeyModifiers::Plain));
    assert!(a.is_empty());
}

#[test]
fn shifted_and_other_keys_do_not_edit() {
    let mut s = PackageSearch::new();
    let a = s.handle_key_event(&KeyEvent::new(KeyCode::Char('A'), KeyModifiers::Shift));
    assert!(a.is_empty());
    let a = s.handle_key_event(&KeyEvent::new(KeyCode::Other, KeyModifiers::Plain));
    assert!(a.is_empty());
}

#[test]
fn home_sets_and_toggles_focus() {
    let mut h = HomeComponent::default();
    assert_eq!(h.focus, Focus::Search);
    assert!(h.set_focus(Focus::Search).is_none());
    assert!(matches!(h.set_focus(Focus::Table), Some(Action::Focus(Focus::Table))));
    assert!(matches!(h.toggle_focus(), Action::Focus(Focus::Search)));
    assert!(matches!(h.toggle_focus(), Action::Focus(Focus::Table)));
    let a = h.handle_key_event(&KeyEvent::new(KeyCode::Char('k'), KeyModifiers::Control));
    assert!(matches!(&a[..], [Action::Focus(Focus::Search)]));
    let a = h.handle_key_event(&KeyEvent::new(KeyCode::Char('x'), KeyModifiers::Control));
    assert!(a.is_empty());
    assert_eq!(Focus::from('j'), Focus::Table);
    assert_eq!(Focus::from('k'), Focus::Search);
}

#[test]
fn detail_panel_follows_selection() {
    let mut i = PackageInfo::new();
    assert_eq!(i.package.name, "");
    i.update(&Event::PackageSelected(pkg("vim")));
    assert_eq!(i.package.name, "vim");
    i.update(&Event::PackageInstalled("vim".to_string()));
    assert_eq!(i.package.name, "vim");
}

#[test]
fn suspend_restores_managed_mode() {
    let mut t = TerminalState::new();
    assert_eq!(t.enter(), vec![TerminalCommand::EnterManaged]);
    let (ticket, before) = t.suspend();
    assert_eq!(before, vec![TerminalCommand::LeaveManaged]);
    assert!(!t.managed);
    // The operation tears the terminal down once more.
    assert!(t.exit().is_empty());
    let after = t.resume(ticket);
    assert_eq!(after, vec![TerminalCommand::EnterManaged, TerminalCommand::Clear]);
    assert!(t.managed);
}

#[test]
fn suspend_outside_managed_mode_enters_nothing() {
    let mut t = TerminalState::new();
    let (ticket, before) = t.suspend();
    assert!(before.is_empty());
    let after = t.resume(ticket);
    assert!(after.is_empty());
    assert!(!t.managed);
    assert!(t.enter().len() == 1);
    assert!(t.enter().is_empty());
    assert_eq!(t.exit(), vec![TerminalCommand::LeaveManaged]);
}

#[test]
fn placeholder_for_missing_metadata() {
    assert_eq!(metadata_or_placeholder(None), "-");
    assert_eq!(metadata_or_placeholder(Some("Vi IMproved")), "Vi IMproved");
}
