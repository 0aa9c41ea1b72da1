//! What carrying out each action does to the file, and the laws that
//! sequences of commands obey in a session.

use vstd::prelude::*;
use crate::choice::Choice;
use crate::console::{
    Action, Console, Policy, action_for, opened_state, state_after, touches_file,
};
use crate::report::{failure_text, report_of};

verus! {

/// The effect of carrying out action `a` on the file, `None` when the file
/// is absent, else its text; `line` is the text read for an Append, which
/// is written verbatim at the end.
pub open spec fn file_after(a: Action, file: Option<Seq<char>>, line: Seq<char>) -> Option<
    Seq<char>,
> {
    match a {
        Action::Open | Action::Create => match file {
            None => Some(Seq::empty()),
            Some(t) => Some(t),
        },
        Action::Delete => None,
        Action::Append => match file {
            None => None,
            Some(t) => Some(t + line),
        },
        Action::Truncate => match file {
            None => None,
            Some(_) => Some(Seq::empty()),
        },
        _ => file,
    }
}

/// What a Print shows of the file.
pub open spec fn shown(file: Option<Seq<char>>) -> Seq<char> {
    match file {
        None => Seq::empty(),
        Some(t) => t,
    }
}

/// Whether `t` ends in `suffix`.
pub open spec fn ends_with(t: Seq<char>, suffix: Seq<char>) -> bool {
    suffix.len() <= t.len() && t.subrange(t.len() - suffix.len(), t.len() as int) == suffix
}

/// An action that does not touch the file leaves it as it was.
pub proof fn lemma_untouched_file_kept(a: Action, file: Option<Seq<char>>, line: Seq<char>)
    requires
        !touches_file(a),
    ensures
        file_after(a, file, line) == file,
{
}

/// When each operation reopens the path, a second Create on the same path
/// reports that the file exists already and leaves the file as the first
/// one left it.
pub proof fn lemma_create_twice(con: Console, file: Option<Seq<char>>, line: Seq<char>)
    requires
        con.policy == Policy::Reopen,
    ensures
        ({
            let a1 = action_for(con, Some(Choice::Open), file is Some);
            let f1 = file_after(a1, file, line);
            let a2 = action_for(state_after(con, a1), Some(Choice::Open), f1 is Some);
            &&& f1 is Some
            &&& a2 == Action::AlreadyExists
            &&& !touches_file(a2)
            &&& file_after(a2, f1, line) == f1
            &&& report_of(a2, None) == Some("File already exists."@)
        }),
{
}

/// Delete on a missing file is still carried out as a Delete; its failure
/// is reported as one line, the handle is given up, and the session goes on
/// in a state from which every command is decided again.
pub proof fn lemma_delete_missing(con: Console, kind: Seq<char>)
    ensures
        action_for(con, Some(Choice::Delete), false) == Action::Delete,
        !state_after(con, Action::Delete).has_handle,
        state_after(con, Action::Delete).policy == con.policy,
        report_of(Action::Delete, Some(kind)) == Some(
            failure_text("Could not delete file: "@, kind),
        ),
{
}

/// With a kept handle, Append before any successful Open prints guidance
/// and writes nothing.
pub proof fn lemma_append_needs_open(
    con: Console,
    file_exists: bool,
    file: Option<Seq<char>>,
    line: Seq<char>,
)
    requires
        con.policy == Policy::Handle,
        !con.has_handle,
    ensures
        action_for(con, Some(Choice::Append), file_exists) == Action::NotCreated,
        !touches_file(Action::NotCreated),
        file_after(Action::NotCreated, file, line) == file,
        state_after(con, Action::NotCreated) == con,
        report_of(Action::NotCreated, None) == Some("File has not been created yet."@),
{
}

/// With a kept handle, Open (succeeding), Append of `line`, then Print
/// shows a text that ends in `line`.
pub proof fn lemma_open_append_print(
    con: Console,
    file: Option<Seq<char>>,
    line: Seq<char>,
    e1: bool,
    e2: bool,
    e3: bool,
)
    requires
        con.policy == Policy::Handle,
    ensures
        ({
            let a1 = action_for(con, Some(Choice::Open), e1);
            let c1 = opened_state(state_after(con, a1), true);
            let f1 = file_after(a1, file, line);
            let a2 = action_for(c1, Some(Choice::Append), e2);
            let c2 = state_after(c1, a2);
            let f2 = file_after(a2, f1, line);
            let a3 = action_for(c2, Some(Choice::Print), e3);
            &&& a1 == Action::Open
            &&& a2 == Action::Append
            &&& a3 == Action::Print
            &&& ends_with(shown(f2), line)
        }),
{
    let t = shown(file) + line;
    assert(t.subrange(t.len() - line.len(), t.len() as int) =~= line);
}

/// With a kept handle, Open (succeeding), Append of `line`, Truncate, then
/// Print shows empty text.
pub proof fn lemma_open_append_truncate_print(
    con: Console,
    file: Option<Seq<char>>,
    line: Seq<char>,
    e1: bool,
    e2: bool,
    e3: bool,
    e4: bool,
)
    requires
        con.policy == Policy::Handle,
    ensures
        ({
            let a1 = action_for(con, Some(Choice::Open), e1);
            let c1 = opened_state(state_after(con, a1), true);
            let f1 = file_after(a1, file, line);
            let a2 = action_for(c1, Some(Choice::Append), e2);
            let c2 = state_after(c1, a2);
            let f2 = file_after(a2, f1, line);
            let a3 = action_for(c2, Some(Choice::Truncate), e3);
            let c3 = state_after(c2, a3);
            let f3 = file_after(a3, f2, line);
            let a4 = action_for(c3, Some(Choice::Print), e4);
            &&& a1 == Action::Open
            &&& a2 == Action::Append
            &&& a3 == Action::Truncate
            &&& a4 == Action::Print
            &&& shown(f3) == Seq::<char>::empty()
        }),
{
}

/// Quit ends the session at once, in any state, and touches no file.
pub proof fn lemma_quit(con: Console, file_exists: bool, file: Option<Seq<char>>, line: Seq<char>)
    ensures
        action_for(con, Some(Choice::Quit), file_exists) == Action::Quit,
        state_after(con, Action::Quit) == con,
        !touches_file(Action::Quit),
        file_after(Action::Quit, file, line) == file,
        report_of(Action::Quit, None) is None,
{
}

} // verus!
