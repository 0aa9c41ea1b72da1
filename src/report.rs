//! The one line printed to the user after each action.

use vstd::prelude::*;
use crate::console::Action;

verus! {

/// The failure line of a file operation: `prefix`, the kind of I/O error,
/// and a full stop.
pub open spec fn failure_text(prefix: Seq<char>, kind: Seq<char>) -> Seq<char> {
    prefix + kind + "."@
}

/// The line printed after action `a` was carried out; `failure` holds the
/// kind of the I/O error where a file operation failed (it is not looked at
/// for the other actions). `None`: nothing is printed (a successful Append
/// or Truncate, Quit; a successful Print prints the file instead).
pub open spec fn report_of(a: Action, failure: Option<Seq<char>>) -> Option<Seq<char>> {
    match a {
        Action::Reject => Some("Unrecognized option, try again."@),
        Action::AlreadyExists => Some("File already exists."@),
        Action::NotCreated => Some("File has not been created yet."@),
        Action::Quit => None,
        Action::Open => match failure {
            None => Some("File has been opened."@),
            Some(k) => Some(failure_text("Could not open/create file: "@, k)),
        },
        Action::Create => match failure {
            None => Some("File has been created."@),
            Some(k) => Some(failure_text("Could not create file: "@, k)),
        },
        Action::Delete => match failure {
            None => Some("File has been deleted."@),
            Some(k) => Some(failure_text("Could not delete file: "@, k)),
        },
        Action::Append => match failure {
            None => None,
            Some(k) => Some(failure_text("Could not append to file: "@, k)),
        },
        Action::Truncate => match failure {
            None => None,
            Some(k) => Some(failure_text("Could not truncate file: "@, k)),
        },
        Action::Print => match failure {
            None => None,
            Some(k) => Some(failure_text("Could not read from file: "@, k)),
        },
    }
}

/// The view of an optional text.
pub open spec fn opt_view(t: Option<&str>) -> Option<Seq<char>> {
    match t {
        None => None,
        Some(k) => Some(k@),
    }
}

fn failure_line(prefix: &str, kind: &str) -> (r: String)
    ensures
        r@ == failure_text(prefix@, kind@),
{
    let mut r = String::from_str(prefix);
    r.append(kind);
    r.append(".");
    r
}

fn text(t: &str) -> (r: String)
    ensures
        r@ == t@,
{
    String::from_str(t)
}

/// The line to print after action `a`, given how its file operation ended.
pub fn report(a: Action, failure: Option<&str>) -> (r: Option<String>)
    ensures
        r matches Some(m) ==> report_of(a, opt_view(failure)) == Some(m@),
        r is None <==> report_of(a, opt_view(failure)) is None,
{
    match a {
        Action::Reject => Some(text("Unrecognized option, try again.")),
        Action::AlreadyExists => Some(text("File already exists.")),
        Action::NotCreated => Some(text("File has not been created yet.")),
        Action::Quit => None,
        Action::Open => match failure {
            None => Some(text("File has been opened.")),
            Some(k) => Some(failure_line("Could not open/create file: ", k)),
        },
        Action::Create => match failure {
            None => Some(text("File has been created.")),
            Some(k) => Some(failure_line("Could not create file: ", k)),
        },
        Action::Delete => match failure {
            None => Some(text("File has been deleted.")),
            Some(k) => Some(failure_line("Could not delete file: ", k)),
        },
        Action::Append => match failure {
            None => None,
            Some(k) => Some(failure_line("Could not append to file: ", k)),
        },
        Action::Truncate => match failure {
            None => None,
            Some(k) => Some(failure_line("Could not truncate file: ", k)),
        },
        Action::Print => match failure {
            None => None,
            Some(k) => Some(failure_line("Could not read from file: ", k)),
        },
    }
}

} // verus!
