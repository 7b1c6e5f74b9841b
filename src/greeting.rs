use vstd::prelude::*;
use vstd::string::StringExecFns;

verus! {

/// The text placed before the name in a greeting.
pub open spec fn greeting_prefix() -> Seq<char> {
    "Hello, "@
}

/// The text placed after the name in a greeting.
pub open spec fn greeting_suffix() -> Seq<char> {
    "! You've been greeted from Rust!"@
}

/// The greeting for `name`: `Hello, {name}! You've been greeted from Rust!`.
pub open spec fn greeting_of(name: Seq<char>) -> Seq<char> {
    greeting_prefix() + name + greeting_suffix()
}

/// Builds the greeting that the `greet` command answers with.
pub fn greet(name: &str) -> (r: String)
    ensures
        r@ == greeting_of(name@),
{
    let mut r = String::from_str("Hello, ");
    r.append(name);
    r.append("! You've been greeted from Rust!");
    r
}

/// Greeting is a pure function of the name: two calls on equal names give
/// equal greetings, whatever happened between them.
pub proof fn greeting_is_deterministic(first: Seq<char>, second: Seq<char>)
    requires
        first == second,
    ensures
        greeting_of(first) == greeting_of(second),
{
}

} // verus!
