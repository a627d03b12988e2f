//! The one command that the frontend can invoke.

use vstd::prelude::*;
use vstd::string::*;

verus! {

/// The greeting for `name`: a fixed opening, the name as given, a fixed close.
pub open spec fn greeting(name: Seq<char>) -> Seq<char> {
    "Hello, "@ + name + "! Welcome to Lazy Learn."@
}

/// Greets `name`. Any string is accepted, the empty one too, and nothing but
/// the returned text is produced.
pub fn greet(name: &str) -> (text: String)
    ensures
        text@ == greeting(name@),
{
    let mut text = String::from_str("Hello, ");
    text.append(name);
    text.append("! Welcome to Lazy Learn.");
    text
}

/// Greeting the same name twice gives the same text.
pub proof fn lemma_greeting_repeatable(first: Seq<char>, second: Seq<char>)
    requires
        first == second,
    ensures
        greeting(first) == greeting(second),
{
}

/// The greeting holds the name unchanged, right after the seven characters of
/// the opening, and is thirty-one characters longer than the name.
pub proof fn lemma_greeting_embeds_name(name: Seq<char>)
    ensures
        greeting(name).len() == name.len() + 31,
        greeting(name).subrange(7, 7 + name.len() as int) == name,
{
    reveal_strlit("Hello, ");
    reveal_strlit("! Welcome to Lazy Learn.");
    assert(greeting(name).subrange(7, 7 + name.len() as int) =~= name);
}

/// Different names get different greetings.
pub proof fn lemma_greeting_injective(first: Seq<char>, second: Seq<char>)
    requires
        greeting(first) == greeting(second),
    ensures
        first == second,
{
    lemma_greeting_embeds_name(first);
    lemma_greeting_embeds_name(second);
}

} // verus!
