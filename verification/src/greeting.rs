//! Building the greeting line from a name and an age.

use vstd::prelude::*;
use crate::decimal::dec_seq;
use crate::decimal::u32_to_decimal;

verus! {

/// The fixed greeting used when no name was given.
pub open spec fn spec_fallback_greeting() -> Seq<char> {
    "Hello, mysterious stranger! 👋"@
}

/// The greeting for `name` and `age`: the fallback when `name` is
/// empty, otherwise the personalized sentence with `age` in decimal.
pub open spec fn spec_greeting(name: Seq<char>, age: u32) -> Seq<char> {
    if name.len() == 0 {
        spec_fallback_greeting()
    } else {
        "Hello, "@ + name + "! At "@ + dec_seq(age as nat)
            + " years old, you're doing great! 🎉"@
    }
}

/// With an empty name the greeting is the fixed fallback, whatever
/// the age.
pub proof fn lemma_empty_name_gets_fallback(age: u32)
    ensures
        spec_greeting(Seq::<char>::empty(), age) == spec_fallback_greeting(),
{
}

/// With a non-empty name the greeting is exactly the personalized
/// sentence, with the age rendered in decimal.
pub proof fn lemma_nonempty_name_greeting(name: Seq<char>, age: u32)
    requires
        name.len() > 0,
    ensures
        spec_greeting(name, age) == "Hello, "@ + name + "! At "@ + dec_seq(age as nat)
            + " years old, you're doing great! 🎉"@,
{
}

/// Builds the greeting line for `name` and `age`.
pub fn create_greeting(name: &str, age: u32) -> (r: String)
    ensures
        r@ == spec_greeting(name@, age),
{
    if name.unicode_len() == 0 {
        String::from_str("Hello, mysterious stranger! 👋")
    } else {
        let mut s = String::from_str("Hello, ");
        s.append(name);
        s.append("! At ");
        let digits = u32_to_decimal(age);
        s.append(digits.as_str());
        s.append(" years old, you're doing great! 🎉");
        s
    }
}

} // verus!
