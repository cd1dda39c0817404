//! Selection-index arithmetic and focus cycling for the panes of the
//! terminal interface.

use vstd::prelude::*;

verus! {

/// Moves a selection index one step forward inside a list of `len` entries.
/// With `wrap` the index cycles past the end back to the start; without it
/// the index sticks at the last entry.
pub fn increment(x: usize, len: usize, wrap: bool) -> (r: usize)
    requires
        x < len,
    ensures
        r < len,
        wrap ==> r == (x + 1) % (len as int),
        !wrap ==> r == if x + 1 < len { x + 1 } else { (len - 1) as int },
{
    if wrap {
        (x + 1) % len
    } else {
        if x + 1 < len {
            x + 1
        } else {
            len - 1
        }
    }
}

/// Moves a selection index one step backward inside a list of `len` entries.
/// With `wrap` the index cycles past the start to the end; without it the
/// index sticks at the first entry.
pub fn decrement(x: usize, len: usize, wrap: bool) -> (r: usize)
    requires
        x < len,
    ensures
        r < len,
        wrap ==> r == if x == 0 { (len - 1) as int } else { x - 1 },
        !wrap ==> r == if x == 0 { 0int } else { x - 1 },
{
    if wrap {
        if x == 0 {
            len - 1
        } else {
            x - 1
        }
    } else {
        if x == 0 {
            0
        } else {
            x - 1
        }
    }
}

} // verus!
