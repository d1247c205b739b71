//! Small control-flow exercises: a conditional value and age brackets.
use vstd::prelude::*;

verus! {

/// The value that a conditional with a true condition selects.
pub fn exo2() -> (r: u32)
    ensures
        r == 1,
{
    let var: u32 = if true {
        1u32
    } else {
        2u32
    };
    var
}

/// The bracket of an age matched exactly: 17 is a minor, 18 an adult, any
/// other age elderly.
pub open spec fn exact_bracket(age: i32) -> Seq<char> {
    if age == 17 {
        "mineur"@
    } else if age == 18 {
        "majeur"@
    } else {
        "vieillard"@
    }
}

/// The bracket of an age by thresholds: over 60 elderly, over 17 an adult,
/// and, as the exercise has it, elderly below that too.
pub open spec fn threshold_bracket(age: i32) -> Seq<char> {
    if age > 60 {
        "vieillard"@
    } else if age > 17 {
        "majeur"@
    } else {
        "vieillard"@
    }
}

pub fn age(years: i32) -> (r: &'static str)
    ensures
        r@ == exact_bracket(years),
{
    match years {
        17 => "mineur",
        18 => "majeur",
        _ => "vieillard",
    }
}

pub fn age1(years: i32) -> (r: &'static str)
    ensures
        r@ == threshold_bracket(years),
{
    if years > 60 {
        "vieillard"
    } else if years > 17 {
        "majeur"
    } else {
        "vieillard"
    }
}

pub fn age2(years: i32) -> (r: &'static str)
    ensures
        r@ == threshold_bracket(years),
{
    age1(years)
}

} // verus!
