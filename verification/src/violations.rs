//! The failure payload of a validation: the violations the engine reported,
//! reduced to one message per instance location and written as a JSON object.

use crate::json::{
    new_object, object_insert, object_members, object_text, object_to_text, string_document,
    string_value,
};
use serde_json::Value;
use vstd::prelude::*;
use vstd::string::StringExecFns;

verus! {

/// A violation as the engine reports it: the instance location and the
/// message.
pub type Violation = (String, String);

/// The violations as plain text values, in the order of the report.
pub open spec fn violations_view(violations: Seq<Violation>) -> Seq<(Seq<char>, Seq<char>)> {
    Seq::new(violations.len(), |i: int| (violations[i].0@, violations[i].1@))
}

/// Location to message, the violations taken in order: a later message at a
/// location replaces an earlier one.
pub open spec fn last_messages(violations: Seq<(Seq<char>, Seq<char>)>) -> Map<
    Seq<char>,
    Seq<char>,
>
    decreases violations.len(),
{
    if violations.len() == 0 {
        Map::empty()
    } else {
        last_messages(violations.drop_last()).insert(violations.last().0, violations.last().1)
    }
}

/// The violation at index `i` is at `location`.
pub open spec fn is_at(violations: Seq<(Seq<char>, Seq<char>)>, i: int, location: Seq<char>) -> bool {
    0 <= i < violations.len() && violations[i].0 == location
}

/// The violation at index `i` is the last one at `location`.
pub open spec fn is_last_at(
    violations: Seq<(Seq<char>, Seq<char>)>,
    i: int,
    location: Seq<char>,
) -> bool {
    is_at(violations, i, location) && forall|j: int|
        i < j ==> !#[trigger] is_at(violations, j, location)
}

/// A location is reported exactly when some violation is at it.
pub proof fn law_reported_when_named(violations: Seq<(Seq<char>, Seq<char>)>, location: Seq<char>)
    ensures
        last_messages(violations).contains_key(location) <==> exists|i: int| #[trigger]
            is_at(violations, i, location),
    decreases violations.len(),
{
    if violations.len() > 0 {
        let front = violations.drop_last();
        law_reported_when_named(front, location);
        if violations.last().0 == location {
            assert(is_at(violations, violations.len() - 1, location));
        } else if last_messages(front).contains_key(location) {
            let i = choose|i: int| #[trigger] is_at(front, i, location);
            assert(is_at(violations, i, location));
        } else if exists|i: int| #[trigger] is_at(violations, i, location) {
            let i = choose|i: int| #[trigger] is_at(violations, i, location);
            assert(is_at(front, i, location));
        }
    }
}

/// Several violations at one location leave the message of the last.
pub proof fn law_last_message_wins(
    violations: Seq<(Seq<char>, Seq<char>)>,
    i: int,
    location: Seq<char>,
)
    requires
        is_last_at(violations, i, location),
    ensures
        last_messages(violations).contains_key(location),
        last_messages(violations)[location] == violations[i].1,
    decreases violations.len(),
{
    if i < violations.len() - 1 {
        let front = violations.drop_last();
        assert(!is_at(violations, violations.len() - 1, location));
        assert(is_at(front, i, location));
        assert forall|j: int| i < j implies !#[trigger] is_at(front, j, location) by {
            if is_at(front, j, location) {
                assert(is_at(violations, j, location));
            }
        }
        law_last_message_wins(front, i, location);
    }
}

/// The members of the JSON object that reports `messages`: under each
/// location the message as a JSON string.
pub open spec fn message_members(messages: Map<Seq<char>, Seq<char>>) -> Map<Seq<char>, Value> {
    Map::new(|location: Seq<char>| messages.contains_key(location), |location: Seq<char>|
        string_document(messages[location]))
}

/// The text that stands in for the payload where it cannot be written.
pub open spec fn unwritable_payload() -> Seq<char> {
    "Failed to serialize errors"@
}

/// The failure payload for the violations, as text.
pub open spec fn payload_spec(violations: Seq<(Seq<char>, Seq<char>)>) -> Seq<char> {
    match object_text(message_members(last_messages(violations))) {
        Ok(text) => text,
        Err(_) => unwritable_payload(),
    }
}

/// What a validation ends in once the engine has evaluated the content.
pub open spec fn conclude_spec(valid: bool, violations: Seq<(Seq<char>, Seq<char>)>) -> Result<
    (),
    Seq<char>,
> {
    if valid {
        Ok(())
    } else {
        Err(payload_spec(violations))
    }
}

/// Collects the violations into a JSON object, location to message.
pub fn error_object(violations: &Vec<Violation>) -> (object: serde_json::Map<String, Value>)
    ensures
        object_members(object) == message_members(last_messages(violations_view(violations@))),
{
    let mut object = new_object();
    let ghost all = violations_view(violations@);
    assert(message_members(last_messages(all.take(0))) =~= Map::<Seq<char>, Value>::empty());
    for i in 0..violations.len()
        invariant
            all == violations_view(violations@),
            object_members(object) == message_members(last_messages(all.take(i as int))),
    {
        let location = violations[i].0.clone();
        let message = violations[i].1.clone();
        proof {
            let before = all.take(i as int);
            let after = all.take(i + 1);
            assert(after.drop_last() == before);
            assert(after.last() == (location@, message@));
            assert(message_members(last_messages(after)) =~= message_members(
                last_messages(before),
            ).insert(location@, string_document(message@)));
        }
        object_insert(&mut object, location, string_value(message));
    }
    assert(all.take(violations.len() as int) == all);
    object
}

/// The failure payload for the violations: the JSON object of `error_object`
/// as compact text.
pub fn payload(violations: &Vec<Violation>) -> (text: String)
    ensures
        text@ == payload_spec(violations_view(violations@)),
{
    let object = error_object(violations);
    match object_to_text(&object) {
        Ok(text) => text,
        Err(_) => String::from_str("Failed to serialize errors"),
    }
}

/// The end of a validation: success where the engine found the content
/// valid, the failure payload where it did not.
pub fn conclude(valid: bool, violations: &Vec<Violation>) -> (r: Result<(), String>)
    ensures
        match (r, conclude_spec(valid, violations_view(violations@))) {
            (Ok(_), Ok(_)) => true,
            (Err(text), Err(named)) => text@ == named,
            _ => false,
        },
{
    if valid {
        Ok(())
    } else {
        Err(payload(violations))
    }
}

} // verus!
