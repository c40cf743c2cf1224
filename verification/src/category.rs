//! Age-dependent messages: the category line picked from a fixed
//! table of age ranges, and the milestone line about turning 100.

use vstd::prelude::*;
use crate::decimal::dec_seq;
use crate::decimal::u32_to_decimal;

verus! {

/// The category line for `age`, picked by the first matching row of
/// the range table.
pub open spec fn spec_category(age: u32) -> Seq<char> {
    if age == 0 {
        "Age not specified or invalid."@
    } else if age <= 12 {
        "You're in the childhood phase! 🧒"@
    } else if age <= 19 {
        "Teenage years - enjoy them! 🎸"@
    } else if age <= 35 {
        "Young adult - prime time! 💪"@
    } else if age <= 60 {
        "Experienced and wise! 🎓"@
    } else {
        "Age is just a number! ✨"@
    }
}

/// The milestone line for `age`: the decimal count of years left
/// until 100, or the congratulation once 100 is reached.
pub open spec fn spec_milestone(age: u32) -> Seq<char> {
    if age < 100 {
        "You have "@ + dec_seq((100 - age) as nat) + " years until your 100th birthday!"@
    } else {
        "Congratulations on reaching 100+! 🎂"@
    }
}

/// Each age falls in exactly one row of the table, and that row's
/// message is the category line.
pub proof fn lemma_category_follows_table(age: u32)
    ensures
        age == 0 ==> spec_category(age) == "Age not specified or invalid."@,
        1 <= age <= 12 ==> spec_category(age) == "You're in the childhood phase! 🧒"@,
        13 <= age <= 19 ==> spec_category(age) == "Teenage years - enjoy them! 🎸"@,
        20 <= age <= 35 ==> spec_category(age) == "Young adult - prime time! 💪"@,
        36 <= age <= 60 ==> spec_category(age) == "Experienced and wise! 🎓"@,
        61 <= age ==> spec_category(age) == "Age is just a number! ✨"@,
{
}

/// Picks the category line for `age`.
pub fn age_category(age: u32) -> (r: &'static str)
    ensures
        r@ == spec_category(age),
{
    if age == 0 {
        "Age not specified or invalid."
    } else if age <= 12 {
        "You're in the childhood phase! 🧒"
    } else if age <= 19 {
        "Teenage years - enjoy them! 🎸"
    } else if age <= 35 {
        "Young adult - prime time! 💪"
    } else if age <= 60 {
        "Experienced and wise! 🎓"
    } else {
        "Age is just a number! ✨"
    }
}

/// Builds the milestone line for `age`.
pub fn milestone_message(age: u32) -> (r: String)
    ensures
        r@ == spec_milestone(age),
{
    if age < 100 {
        let mut s = String::from_str("You have ");
        let digits = u32_to_decimal(100 - age);
        s.append(digits.as_str());
        s.append(" years until your 100th birthday!");
        s
    } else {
        String::from_str("Congratulations on reaching 100+! 🎂")
    }
}

/// Produces both age-dependent lines for `age`: exactly one category
/// line and exactly one milestone line, picked independently.
pub fn categorize(age: u32) -> (r: (String, String))
    ensures
        r.0@ == spec_category(age),
        r.1@ == spec_milestone(age),
{
    let cat = String::from_str(age_category(age));
    let mile = milestone_message(age);
    (cat, mile)
}

} // verus!
