//! The persona personality model: four functions, two attitudes, and a
//! weighted dominant/auxiliary/inferior triple, with its prose rendering.

use vstd::prelude::*;

use crate::text::decimal_spec;
use crate::text::decimal_string;

verus! {

/// The four psychological functions.
#[derive(Debug, Clone, Copy, PartialEq, Eq, Structural)]
pub enum FunctionType {
    Thinking,
    Feeling,
    Sensation,
    Intuition,
}

/// The two attitudes.
#[derive(Debug, Clone, Copy, PartialEq, Eq, Structural)]
pub enum Attitude {
    Introverted,
    Extraverted,
}

/// A function with its type, attitude and relative strength in percent
/// (0 to 100, descriptive only).
#[derive(Debug, Clone, Copy)]
pub struct PsychologicalFunction {
    pub function: FunctionType,
    pub attitude: Attitude,
    pub weight: u8,
}

/// A personality: dominant, auxiliary and inferior functions.
#[derive(Debug, Clone)]
pub struct Personality {
    pub dominant: PsychologicalFunction,
    pub auxiliary: PsychologicalFunction,
    pub inferior: PsychologicalFunction,
}

/// The display name of an attitude.
pub open spec fn attitude_name(a: Attitude) -> Seq<char> {
    match a {
        Attitude::Introverted => "Introverted"@,
        Attitude::Extraverted => "Extraverted"@,
    }
}

/// The display name of a function type.
pub open spec fn function_name(f: FunctionType) -> Seq<char> {
    match f {
        FunctionType::Thinking => "Thinking"@,
        FunctionType::Feeling => "Feeling"@,
        FunctionType::Sensation => "Sensation"@,
        FunctionType::Intuition => "Intuition"@,
    }
}

/// The display name of an attitude.
pub fn attitude_str(attitude: Attitude) -> (r: &'static str)
    ensures
        r@ == attitude_name(attitude),
{
    match attitude {
        Attitude::Introverted => "Introverted",
        Attitude::Extraverted => "Extraverted",
    }
}

/// The display name of a function type.
pub fn function_str(function: FunctionType) -> (r: &'static str)
    ensures
        r@ == function_name(function),
{
    match function {
        FunctionType::Thinking => "Thinking",
        FunctionType::Feeling => "Feeling",
        FunctionType::Sensation => "Sensation",
        FunctionType::Intuition => "Intuition",
    }
}

/// How one weighted function renders: attitude, function name, weight percent.
pub open spec fn function_clause(f: PsychologicalFunction) -> Seq<char> {
    attitude_name(f.attitude) + " "@ + function_name(f.function) + " ("@ + decimal_spec(
        f.weight as nat,
    ) + "%)"@
}

/// The prose rendering of a whole personality.
pub open spec fn personality_description_spec(p: Personality) -> Seq<char> {
    function_clause(p.dominant) + ", "@ + function_clause(p.auxiliary) + ", with inferior "@
        + function_clause(p.inferior)
}

fn append_function_clause(out: &mut String, f: &PsychologicalFunction)
    ensures
        final(out)@ == old(out)@ + function_clause(*f),
{
    out.append(attitude_str(f.attitude));
    out.append(" ");
    out.append(function_str(f.function));
    out.append(" (");
    let w = decimal_string(f.weight as u64);
    out.append(w.as_str());
    out.append("%)");
    proof {
        assert(final(out)@ =~= old(out)@ + function_clause(*f));
    }
}

/// Renders a personality as prose: dominant, auxiliary, then the inferior
/// function, each with attitude, function name and weight percentage.
pub fn personality_description(personality: &Personality) -> (r: String)
    ensures
        r@ == personality_description_spec(*personality),
{
    let mut out = String::new();
    append_function_clause(&mut out, &personality.dominant);
    out.append(", ");
    append_function_clause(&mut out, &personality.auxiliary);
    out.append(", with inferior ");
    append_function_clause(&mut out, &personality.inferior);
    proof {
        assert(out@ =~= personality_description_spec(*personality));
    }
    out
}

} // verus!
