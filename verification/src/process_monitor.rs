//! Telling Cursor's processes apart from the rest.
use vstd::prelude::*;

use crate::text::{contains, has_infix};

verus! {

/// Cursor's processes carry `Cursor` in their name (`Cursor`,
/// `Cursor Helper (Renderer)`, ...).
pub fn is_cursor_process_name(name: &str) -> (r: bool)
    ensures
        r == has_infix(name@, "Cursor"@),
{
    contains(name, "Cursor")
}

} // verus!
