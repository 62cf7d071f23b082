//! The search field of the playlist queue.
use vstd::prelude::*;

use crate::keys::KeyInput;

verus! {

/// What a key in the search field asks for.
#[derive(Clone, Debug)]
pub enum SearchResult {
    /// Search results so that results that matches this string appear
    ApplySearch(String),
    ConfirmSearch(String),
    /// Clear filter, and display all elements
    ClearSearch,
}

/// The search field's decision on a key: escape confirms the search from before the field
/// opened (`saved`), enter confirms the field's text, and other keys go to the field and
/// apply its text (`line`, after the key).
pub fn handle_raw(key: KeyInput, saved: &String, line: String) -> (r: SearchResult)
    ensures
        match key {
            KeyInput::Esc => r matches SearchResult::ConfirmSearch(s) && s == *saved,
            KeyInput::Enter => r matches SearchResult::ConfirmSearch(s) && s == line,
            _ => r matches SearchResult::ApplySearch(s) && s == line,
        },
{
    match key {
        KeyInput::Esc => SearchResult::ConfirmSearch(saved.clone()),
        KeyInput::Enter => SearchResult::ConfirmSearch(line),
        _ => SearchResult::ApplySearch(line),
    }
}

} // verus!
