//! A menu-driven console over a single text file: the parsing of menu
//! input and the decisions of the session loop, with their contracts.
//! Reading the terminal and touching the file are left to the caller.

pub mod choice;
pub mod console;
pub mod effects;
pub mod report;
