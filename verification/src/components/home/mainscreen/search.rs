//! The search field of the main screen.
use vstd::prelude::*;

use crate::keys::KeyInput;

verus! {

/// How a search is applied.
#[derive(Clone, Copy, Debug, PartialEq, Eq, Structural)]
pub enum SearchType {
    /// Try the search as typed so far.
    Normal,
    /// Keep the search and leave the field.
    Confirm,
    /// Go back to the search from before the field opened.
    Revert,
}

/// The search field's decision on a key: the search to apply and how. `saved` is the search
/// from before the field opened, `line` the field's text before the key, `after` its text once
/// the key went in. Escape reverts, enter confirms, backspace on an empty field reverts, and
/// other keys go to the field.
pub fn handle_raw(key: KeyInput, saved: &String, line: &String, after: String) -> (r: (String, SearchType))
    ensures
        match key {
            KeyInput::Esc => r.0 == *saved && r.1 == SearchType::Revert,
            KeyInput::Enter => r.0 == *line && r.1 == SearchType::Confirm,
            KeyInput::Backspace => if line@.len() == 0 {
                r.0 == *saved && r.1 == SearchType::Revert
            } else {
                r.0 == after && r.1 == SearchType::Normal
            },
            _ => r.0 == after && r.1 == SearchType::Normal,
        },
{
    match key {
        KeyInput::Esc => (saved.clone(), SearchType::Revert),
        KeyInput::Enter => (line.clone(), SearchType::Confirm),
        KeyInput::Backspace => {
            if line.as_str().is_empty() {
                (saved.clone(), SearchType::Revert)
            } else {
                (after, SearchType::Normal)
            }
        },
        _ => (after, SearchType::Normal),
    }
}

} // verus!
