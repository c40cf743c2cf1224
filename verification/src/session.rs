//! The session logic: turning the two input lines (a name and an age
//! as text) into the full sequence of reply lines, in order.

use vstd::prelude::*;
use crate::category::categorize;
use crate::category::spec_category;
use crate::category::spec_milestone;
use crate::decimal::digits_val;
use crate::decimal::parse_u32;
use crate::decimal::parses_as_u32;
use crate::greeting::create_greeting;
use crate::greeting::spec_greeting;

verus! {

/// The age denoted by `text`: its value when it parses as a base-10
/// `u32`, and the default 0 otherwise.
pub open spec fn spec_age_of(text: Seq<char>) -> u32 {
    if parses_as_u32(text) {
        digits_val(text) as u32
    } else {
        0
    }
}

/// Interprets `text` as an age, substituting the default 0 when it
/// is not a non-empty in-range digit string.
pub fn parse_age(text: &str) -> (age: u32)
    ensures
        age == spec_age_of(text@),
{
    match parse_u32(text) {
        Some(v) => v,
        None => 0,
    }
}

/// The warning emitted when the age text does not parse.
pub open spec fn spec_warning() -> Seq<char> {
    "That doesn't look like a valid age. Using 0 instead."@
}

/// The reply lines for the inputs `name` and `age_text`: the parse
/// warning exactly when `age_text` does not parse, then the greeting,
/// the insights header, the category line and the milestone line.
pub open spec fn spec_response(name: Seq<char>, age_text: Seq<char>) -> Seq<Seq<char>> {
    let age = spec_age_of(age_text);
    let tail = seq![
        "\n"@ + spec_greeting(name, age),
        "\n--- Age Insights ---"@,
        spec_category(age),
        spec_milestone(age),
    ];
    if parses_as_u32(age_text) {
        tail
    } else {
        seq![spec_warning()].add(tail)
    }
}

/// Computes every reply line for one session, in print order.
pub fn respond(name: &str, age_text: &str) -> (out: Vec<String>)
    ensures
        out.deep_view() == spec_response(name@, age_text@),
{
    let mut out: Vec<String> = Vec::new();
    let age: u32 = match parse_u32(age_text) {
        Some(v) => v,
        None => {
            out.push(String::from_str("That doesn't look like a valid age. Using 0 instead."));
            0
        },
    };
    let mut greeting_line = String::from_str("\n");
    let greeting = create_greeting(name, age);
    greeting_line.append(greeting.as_str());
    out.push(greeting_line);
    out.push(String::from_str("\n--- Age Insights ---"));
    let (cat, mile) = categorize(age);
    out.push(cat);
    out.push(mile);
    proof {
        assert(out.deep_view() =~~= spec_response(name@, age_text@));
    }
    out
}

} // verus!
