//! Lookup that gives a reason when the name is unknown.

use vstd::prelude::*;
use crate::decimal::{append_decimal, decimal, numeral};
use crate::marker::{has_marker, starts_with_marker, USER_ID};

verus! {

/// A lookup's outcome as plain values: the identifier, or the reason's text.
pub type Outcome = Result<i32, Seq<char>>;

/// The reason given for an unknown name.
pub open spec fn not_found() -> Seq<char> {
    "not found"@
}

/// The outcome of looking `name` up: the identifier when the name is known,
/// the fixed reason otherwise.
pub open spec fn lookup(name: Seq<char>) -> Outcome {
    if has_marker(name) {
        Ok(USER_ID)
    } else {
        Err(not_found())
    }
}

/// The outcome that a returned value stands for.
pub open spec fn outcome_of(found: Result<i32, &str>) -> Outcome {
    match found {
        Ok(id) => Ok(id),
        Err(reason) => Err(reason@),
    }
}

/// The line that reports an outcome.
pub open spec fn line(outcome: Outcome) -> Seq<char> {
    match outcome {
        Ok(id) => "User = "@ + decimal(id as int),
        Err(reason) => "Error: "@ + reason,
    }
}

/// Looks the identifier of `name` up, or says why there is none.
pub fn get_id_from_name(name: &str) -> (found: Result<i32, &str>)
    ensures
        outcome_of(found) == lookup(name@),
{
    if !starts_with_marker(name) {
        return Err("not found");
    }
    Ok(USER_ID)
}

/// Writes the line that reports `found`, whichever of the two cases it is.
pub fn message(found: Result<i32, &str>) -> (text: String)
    ensures
        text@ == line(outcome_of(found)),
        match found {
            Ok(id) => text@ == "User = "@ + decimal(id as int),
            Err(reason) => text@ == "Error: "@ + reason@,
        },
{
    match found {
        Ok(id) => {
            let mut text = String::from_str("User = ");
            append_decimal(&mut text, id);
            text
        },
        Err(reason) => {
            let mut text = String::from_str("Error: ");
            text.append(reason);
            text
        },
    }
}

/// Looks `name` up and writes the line that reports what was found.
pub fn answer(name: &str) -> (text: String)
    ensures
        text@ == line(lookup(name@)),
{
    message(get_id_from_name(name))
}

/// Looking one name up twice gives the same outcome both times: whatever two
/// calls on `name` return, they stand for one and the same outcome.
pub proof fn lookup_is_repeatable(
    name: Seq<char>,
    first: Result<i32, &str>,
    second: Result<i32, &str>,
)
    requires
        outcome_of(first) == lookup(name),
        outcome_of(second) == lookup(name),
    ensures
        outcome_of(first) == outcome_of(second),
        first is Ok <==> second is Ok,
{
}

/// A name that begins with the marker is found, with the one identifier, and
/// is reported as `User = 123`.
pub proof fn known_name_is_found(name: Seq<char>)
    requires
        has_marker(name),
    ensures
        lookup(name) == Ok::<i32, Seq<char>>(123),
        line(lookup(name)) == "User = 123"@,
{
    reveal_strlit("User = ");
    reveal_strlit("User = 123");
    reveal_with_fuel(numeral, 3);
    assert(line(lookup(name)) =~= "User = 123"@);
}

/// A name that does not begin with the marker, the empty name among them, is
/// refused with the reason `not found`, and is reported as `Error: not found`.
pub proof fn unknown_name_is_refused(name: Seq<char>)
    requires
        !has_marker(name),
    ensures
        lookup(name) == Err::<i32, Seq<char>>("not found"@),
        line(lookup(name)) == "Error: not found"@,
{
    reveal_strlit("Error: ");
    reveal_strlit("not found");
    reveal_strlit("Error: not found");
    assert(line(lookup(name)) =~= "Error: not found"@);
}

} // verus!
