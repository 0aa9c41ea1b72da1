//! The decisions of the menu session: from the current state and the
//! command read, which action the caller is to carry out on the file, and
//! how the state changes.
//!
//! One policy holds for both ways of reaching the file: Append, Truncate
//! and Print act only on a file that is there (an existing file when each
//! operation reopens the path, an open handle otherwise). Truncate never
//! creates the file.

use vstd::prelude::*;
use crate::choice::{Choice, choice_of, normalized};

verus! {

/// How the session reaches the file.
#[derive(Clone, Copy, Debug, PartialEq, Eq, Structural)]
pub enum Policy {
    /// Every operation opens the path anew; Create refuses an existing file.
    Reopen,
    /// Open stores one read+append handle that later operations reuse.
    Handle,
}

/// What the caller is to do after one line of menu input.
#[derive(Clone, Copy, Debug, PartialEq, Eq, Structural)]
pub enum Action {
    /// The input names no command: say so and prompt again.
    Reject,
    /// Open the file for reading and appending, creating it if absent, and
    /// keep the handle (then report the outcome with `Console::opened`).
    Open,
    /// Create the file, which is known to be absent.
    Create,
    /// Refuse to create: the file exists already. Nothing is touched.
    AlreadyExists,
    /// Drop any handle and remove the file.
    Delete,
    /// There is no file to act on: print guidance, touch nothing.
    NotCreated,
    /// Ask for one line and write it verbatim at the end of the file.
    Append,
    /// Set the length of the file to zero.
    Truncate,
    /// Read the whole file from its start and print it.
    Print,
    /// End the session.
    Quit,
}

/// The state of a session: the policy, and whether a handle is held.
#[derive(Clone, Copy, Debug, PartialEq, Eq, Structural)]
pub struct Console {
    pub policy: Policy,
    pub has_handle: bool,
}

/// Whether there is a file for Append, Truncate and Print to act on.
pub open spec fn file_ready(con: Console, file_exists: bool) -> bool {
    match con.policy {
        Policy::Reopen => file_exists,
        Policy::Handle => con.has_handle,
    }
}

/// The action for a parsed command (`None`: unrecognized input).
pub open spec fn action_for(con: Console, choice: Option<Choice>, file_exists: bool) -> Action {
    match choice {
        None => Action::Reject,
        Some(Choice::Open) => match con.policy {
            Policy::Handle => Action::Open,
            Policy::Reopen => if file_exists {
                Action::AlreadyExists
            } else {
                Action::Create
            },
        },
        Some(Choice::Delete) => Action::Delete,
        Some(Choice::Append) => if file_ready(con, file_exists) {
            Action::Append
        } else {
            Action::NotCreated
        },
        Some(Choice::Truncate) => if file_ready(con, file_exists) {
            Action::Truncate
        } else {
            Action::NotCreated
        },
        Some(Choice::Print) => if file_ready(con, file_exists) {
            Action::Print
        } else {
            Action::NotCreated
        },
        Some(Choice::Quit) => Action::Quit,
    }
}

/// The state once an action is decided: Delete gives up the handle.
pub open spec fn state_after(con: Console, a: Action) -> Console {
    if a == Action::Delete {
        Console { has_handle: false, ..con }
    } else {
        con
    }
}

/// The state once an `Open` action has succeeded (`ok`) or failed.
pub open spec fn opened_state(con: Console, ok: bool) -> Console {
    Console { has_handle: ok && con.policy == Policy::Handle, ..con }
}

/// Whether carrying out the action reads or changes the file system.
pub open spec fn touches_file(a: Action) -> bool {
    match a {
        Action::Reject | Action::AlreadyExists | Action::NotCreated | Action::Quit => false,
        _ => true,
    }
}

impl Console {
    /// A new session: no handle is held.
    pub fn new(policy: Policy) -> (r: Console)
        ensures
            r.policy == policy,
            !r.has_handle,
    {
        Console { policy, has_handle: false }
    }

    /// Decides the action for a parsed command. `file_exists` tells whether
    /// the file is on disk; only the `Reopen` policy looks at it.
    pub fn step(&mut self, choice: Option<Choice>, file_exists: bool) -> (a: Action)
        ensures
            a == action_for(*old(self), choice, file_exists),
            *final(self) == state_after(*old(self), a),
    {
        let ready = match self.policy {
            Policy::Reopen => file_exists,
            Policy::Handle => self.has_handle,
        };
        let a = match choice {
            None => Action::Reject,
            Some(Choice::Open) => match self.policy {
                Policy::Handle => Action::Open,
                Policy::Reopen => if file_exists {
                    Action::AlreadyExists
                } else {
                    Action::Create
                },
            },
            Some(Choice::Delete) => Action::Delete,
            Some(Choice::Append) => if ready {
                Action::Append
            } else {
                Action::NotCreated
            },
            Some(Choice::Truncate) => if ready {
                Action::Truncate
            } else {
                Action::NotCreated
            },
            Some(Choice::Print) => if ready {
                Action::Print
            } else {
                Action::NotCreated
            },
            Some(Choice::Quit) => Action::Quit,
        };
        if let Action::Delete = a {
            self.has_handle = false;
        }
        a
    }

    /// Parses a line of menu input and decides the action for it.
    pub fn handle_line(&mut self, line: &str, file_exists: bool) -> (a: Action)
        ensures
            a == action_for(*old(self), choice_of(normalized(line@)), file_exists),
            *final(self) == state_after(*old(self), a),
    {
        let choice = match Choice::from_str(line) {
            Ok(c) => Some(c),
            Err(()) => None,
        };
        self.step(choice, file_exists)
    }

    /// Records the outcome of an `Open` action: the new handle replaces any
    /// earlier one, and a failed open leaves none. Under `Reopen` no handle
    /// is ever kept.
    pub fn opened(&mut self, ok: bool)
        ensures
            *final(self) == opened_state(*old(self), ok),
    {
        self.has_handle = match self.policy {
            Policy::Handle => ok,
            Policy::Reopen => false,
        };
    }
}

} // verus!
