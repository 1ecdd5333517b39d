//! The top-level menu: decoding a choice from an input line.
use vstd::prelude::*;
use crate::line::{same_text, trim, trim_text};

verus! {

/// What the user picked from the menu.
#[derive(Clone, Copy, Debug, PartialEq, Eq, Structural)]
pub enum MenuChoice {
    SystemStats,
    FileExplorer,
    Invalid,
}

/// The choice that a line of input selects, after trimming.
pub open spec fn menu_choice_of(line: Seq<char>) -> MenuChoice {
    let t = trim_text(line);
    if t == "1"@ {
        MenuChoice::SystemStats
    } else if t == "2"@ {
        MenuChoice::FileExplorer
    } else {
        MenuChoice::Invalid
    }
}

/// Decodes one line of menu input.
pub fn decode_menu_choice(line: &str) -> (r: MenuChoice)
    ensures
        r == menu_choice_of(line@),
{
    let t = trim(line);
    if same_text(t, "1") {
        MenuChoice::SystemStats
    } else if same_text(t, "2") {
        MenuChoice::FileExplorer
    } else {
        MenuChoice::Invalid
    }
}

/// The lines of the menu prompt.
pub fn menu_lines() -> (r: Vec<String>)
    ensures
        r@.len() == 4,
        r@[0]@ == "System Health Monitor and File Explorer"@,
        r@[1]@ == "1. Show System Health Stats"@,
        r@[2]@ == "2. Enter File Explorer"@,
        r@[3]@ == "Enter your choice (1 or 2): "@,
{
    let mut v: Vec<String> = Vec::new();
    v.push(String::from_str("System Health Monitor and File Explorer"));
    v.push(String::from_str("1. Show System Health Stats"));
    v.push(String::from_str("2. Enter File Explorer"));
    v.push(String::from_str("Enter your choice (1 or 2): "));
    v
}

} // verus!
