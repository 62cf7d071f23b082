//! The filter field of the playlist queue.
use vstd::prelude::*;

use crate::keys::KeyInput;

verus! {

/// What a key in the filter field asks for.
#[derive(Clone, Debug)]
pub enum FilterResult {
    /// Filtered result should not change
    NoChange,
    /// Filter results so that results that matches this string appear
    ApplyFilter(String),
    /// Clear filter, and display all elements
    ClearFilter,
    /// Exit filter mode, but do not change the applied filter
    Exit,
}

/// The filter field's decision on a key, `line` being the field's text: escape leaves, enter
/// applies the text or clears the filter when it is empty, other keys go to the field.
pub fn handle_raw(key: KeyInput, line: String) -> (r: FilterResult)
    ensures
        match key {
            KeyInput::Esc => r is Exit,
            KeyInput::Enter => if line@.len() == 0 {
                r is ClearFilter
            } else {
                r matches FilterResult::ApplyFilter(f) && f == line
            },
            _ => r is NoChange,
        },
{
    match key {
        KeyInput::Esc => FilterResult::Exit,
        KeyInput::Enter => {
            if line.as_str().is_empty() {
                FilterResult::ClearFilter
            } else {
                FilterResult::ApplyFilter(line)
            }
        },
        _ => FilterResult::NoChange,
    }
}

} // verus!
