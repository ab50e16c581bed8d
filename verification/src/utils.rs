//! Cursor movement over a fixed-length list, wrapping at both ends.

use vstd::prelude::*;

verus! {

/// Moves a list cursor one entry down, wrapping from the last entry to the
/// first.
pub fn select_next_in_list(current_item: usize, list_length: usize) -> (r: usize)
    requires
        list_length >= 1,
        current_item < list_length,
    ensures
        r == if current_item + 1 < list_length {
            current_item + 1
        } else {
            0
        },
        r < list_length,
{
    if current_item != list_length - 1 {
        current_item + 1
    } else {
        0
    }
}

/// Moves a list cursor one entry up, wrapping from the first entry to the
/// last.
pub fn select_prev_in_list(current_item: usize, list_length: usize) -> (r: usize)
    requires
        list_length >= 1,
        current_item < list_length,
    ensures
        r == if current_item > 0 {
            (current_item - 1) as int
        } else {
            (list_length - 1) as int
        },
        r < list_length,
{
    if current_item != 0 {
        current_item - 1
    } else {
        list_length - 1
    }
}

} // verus!
