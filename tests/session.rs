use file_console::choice::Choice;
use file_console::console::{Action, Console, Policy};
use file_console::report::report;

fn line(a: Action, failure: Option<&str>) -> Option<String> {
    report(a, failure)
}

#[test]
fn new_console_holds_no_handle() {
    let c = Console::new(Policy::Handle);
    assert_eq!(c, Console { policy: Policy::Handle, has_handle: false });
    let c = Console::new(Policy::Reopen);
    assert!(!c.has_handle);
}

#[test]
fn append_without_open_gives_guidance() {
    let mut c = Console::new(Policy::Handle);
    for choice in [Choice::Append, Choice::Truncate, Choice::Print] {
        assert_eq!(c.step(Some(choice), true), Action::NotCreated);
        assert!(!c.has_handle);
    }
    assert_eq!(
        line(Action::NotCreated, None).as_deref(),
        Some("File has not been created yet.")
    );
}

#[test]
fn open_append_print_sequence() {
    let mut c = Console::new(Policy::Handle);
    let mut content = String::new();
    assert_eq!(c.handle_line("1\n", false), Action::Open);
    c.opened(true);
    assert!(c.has_handle);
    assert_eq!(c.handle_line("append\n", true), Action::Append);
    content.push_str("hello");
    assert_eq!(c.handle_line("P\n", true), Action::Print);
    assert!(content.ends_with("hello"));
    assert_eq!(line(Action::Append, None), None);
    assert_eq!(line(Action::Print, None), None);
}

#[test]
fn open_append_truncate_print_sequence() {
    let mut c = Console::new(Policy::Handle);
    let mut content = String::new();
    assert_eq!(c.step(Some(Choice::Open), false), Action::Open);
    c.opened(true);
    assert_eq!(c.step(Some(Choice::Append), true), Action::Append);
    content.push_str("a");
    assert_eq!(c.step(Some(Choice::Truncate), true), Action::Truncate);
    content.clear();
    assert_eq!(c.step(Some(Choice::Print), true), Action::Print);
    assert!(content.is_empty());
}

#[test]
fn failed_open_leaves_no_handle() {
    let mut c = Console::new(Policy::Handle);
    assert_eq!(c.step(Some(Choice::Open), false), Action::Open);
    c.opened(true);
    assert_eq!(c.step(Some(Choice::Open), true), Action::Open);
    c.opened(false);
    assert!(!c.has_handle);
    assert_eq!(c.step(Some(Choice::Append), true), Action::NotCreated);
}

#[test]
fn delete_drops_the_handle() {
    let mut c = Console::new(Policy::Handle);
    c.step(Some(Choice::Open), false);
    c.opened(true);
    assert_eq!(c.step(Some(Choice::Delete), true), Action::Delete);
    assert!(!c.has_handle);
    assert_eq!(c.step(Some(Choice::Print), false), Action::NotCreated);
}

#[test]
fn delete_of_missing_file_reports_failure() {
    let mut c = Console::new(Policy::Handle);
    assert_eq!(c.handle_line("delete", false), Action::Delete);
    assert_eq!(
        line(Action::Delete, Some("entity not found")).as_deref(),
        Some("Could not delete file: entity not found.")
    );
    assert_eq!(c.handle_line("q", false), Action::Quit);
}

#[test]
fn create_twice_reports_already_exists() {
    let mut c = Console::new(Policy::Reopen);
    assert_eq!(c.step(Some(Choice::Open), false), Action::Create);
    assert_eq!(c.step(Some(Choice::Open), true), Action::AlreadyExists);
    assert_eq!(line(Action::AlreadyExists, None).as_deref(), Some("File already exists."));
    assert!(!c.has_handle);
}

#[test]
fn reopen_policy_needs_an_existing_file() {
    let mut c = Console::new(Policy::Reopen);
    assert_eq!(c.step(Some(Choice::Truncate), false), Action::NotCreated);
    assert_eq!(c.step(Some(Choice::Append), false), Action::NotCreated);
    assert_eq!(c.step(Some(Choice::Print), false), Action::NotCreated);
    assert_eq!(c.step(Some(Choice::Truncate), true), Action::Truncate);
    assert_eq!(c.step(Some(Choice::Append), true), Action::Append);
    assert_eq!(c.step(Some(Choice::Print), true), Action::Print);
    c.opened(true);
    assert!(!c.has_handle);
}

#[test]
fn quit_ends_at_once() {
    let mut c = Console::new(Policy::Handle);
    c.step(Some(Choice::Open), false);
    c.opened(true);
    let before = c;
    assert_eq!(c.handle_line(" QUIT ", true), Action::Quit);
    assert_eq!(c, before);
    assert_eq!(line(Action::Quit, None), None);
}

#[test]
fn unrecognized_line_is_rejected() {
    let mut c = Console::new(Policy::Handle);
    assert_eq!(c.handle_line("hello", true), Action::Reject);
    assert_eq!(c.step(None, true), Action::Reject);
    assert_eq!(
        line(Action::Reject, None).as_deref(),
        Some("Unrecognized option, try again.")
    );
}

#[test]
fn reports_of_each_operation() {
    assert_eq!(line(Action::Open, None).as_deref(), Some("File has been opened."));
    assert_eq!(
        line(Action::Open, Some("permission denied")).as_deref(),
        Some("Could not open/create file: permission denied.")
    );
    assert_eq!(line(Action::Create, None).as_deref(), Some("File has been created."));
    assert_eq!(
        line(Action::Create, Some("already exists")).as_deref(),
        Some("Could not create file: already exists.")
    );
    assert_eq!(line(Action::Delete, None).as_deref(), Some("File has been deleted."));
    assert_eq!(
        line(Action::Append, Some("other error")).as_deref(),
        Some("Could not append to file: other error.")
    );
    assert_eq!(
        line(Action::Truncate, Some("other error")).as_deref(),
        Some("Could not truncate file: other error.")
    );
    assert_eq!(line(Action::Truncate, None), None);
    assert_eq!(
        line(Action::Print, Some("invalid data")).as_deref(),
        Some("Could not read from file: invalid data.")
    );
    assert_eq!(
        line(Action::NotCreated, Some("ignored")).as_deref(),
        Some("File has not been created yet.")
    );
}
