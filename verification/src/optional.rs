//! Lookup that only signals absence when the name is unknown.

use vstd::prelude::*;
use crate::decimal::{append_decimal, decimal, numeral};
use crate::marker::{has_marker, starts_with_marker, USER_ID};

verus! {

/// The outcome of looking `name` up: the identifier when the name is known,
/// nothing otherwise.
pub open spec fn lookup(name: Seq<char>) -> Option<i32> {
    if has_marker(name) {
        Some(USER_ID)
    } else {
        None
    }
}

/// The line that reports an outcome.
pub open spec fn line(outcome: Option<i32>) -> Seq<char> {
    match outcome {
        Some(id) => "User = "@ + decimal(id as int),
        None => "Not found"@,
    }
}

/// Looks the identifier of `name` up, if there is one.
pub fn get_id_from_name(name: &str) -> (found: Option<i32>)
    ensures
        found == lookup(name@),
{
    if !starts_with_marker(name) {
        return None;
    }
    Some(USER_ID)
}

/// Writes the line that reports `found`, whichever of the two cases it is.
pub fn message(found: Option<i32>) -> (text: String)
    ensures
        text@ == line(found),
        match found {
            Some(id) => text@ == "User = "@ + decimal(id as int),
            None => text@ == "Not found"@,
        },
{
    match found {
        Some(id) => {
            let mut text = String::from_str("User = ");
            append_decimal(&mut text, id);
            text
        },
        _ => String::from_str("Not found"),
    }
}

/// Looks `name` up and writes the line that reports what was found.
pub fn answer(name: &str) -> (text: String)
    ensures
        text@ == line(lookup(name@)),
{
    message(get_id_from_name(name))
}

/// Looking one name up twice gives the same outcome both times.
pub proof fn lookup_is_repeatable(name: Seq<char>, first: Option<i32>, second: Option<i32>)
    requires
        first == lookup(name),
        second == lookup(name),
    ensures
        first == second,
{
}

/// A name that begins with the marker is found, with the one identifier, and
/// is reported as `User = 123`.
pub proof fn known_name_is_found(name: Seq<char>)
    requires
        has_marker(name),
    ensures
        lookup(name) == Some(123i32),
        line(lookup(name)) == "User = 123"@,
{
    reveal_strlit("User = ");
    reveal_strlit("User = 123");
    reveal_with_fuel(numeral, 3);
    assert(line(lookup(name)) =~= "User = 123"@);
}

/// A name that does not begin with the marker, the empty name among them, is
/// absent, and is reported as `Not found`.
pub proof fn unknown_name_is_absent(name: Seq<char>)
    requires
        !has_marker(name),
    ensures
        lookup(name) == None::<i32>,
        line(lookup(name)) == "Not found"@,
{
}

/// Both lookups decide alike: a name has an identifier here exactly when the
/// lookup that gives reasons succeeds on it, and then it is the same one.
pub proof fn agrees_with_fallible(name: Seq<char>)
    ensures
        lookup(name) == match crate::fallible::lookup(name) {
            Ok(id) => Some(id),
            Err(_) => None,
        },
{
}

} // verus!
