//! The rule that decides whether a name is known.

use vstd::prelude::*;

verus! {

/// The character a known name begins with.
pub const MARKER: char = 'd';

/// The identifier every known name maps to.
pub const USER_ID: i32 = 123;

/// A name is known when it is non-empty and its first character is the marker.
pub open spec fn has_marker(name: Seq<char>) -> bool {
    name.len() > 0 && name[0] == MARKER
}

/// Tests whether `name` begins with the marker character.
pub fn starts_with_marker(name: &str) -> (found: bool)
    ensures
        found == has_marker(name@),
{
    !name.is_empty() && name.get_char(0) == MARKER
}

} // verus!
