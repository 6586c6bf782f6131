use vstd::prelude::*;
use crate::name::Name;

verus! {

/// The greeting for a name: `Hello, ` then the name verbatim, then `!`.
pub open spec fn greeting_for(name: Seq<char>) -> Seq<char> {
    "Hello, "@ + name + "!"@
}

/// Formats greetings. It holds no state.
pub struct GreetingService;

impl GreetingService {
    pub fn new() -> (r: GreetingService) {
        GreetingService
    }

    /// Greets `name`, neither trimmed nor case-adjusted.
    pub fn greet(&self, name: &Name) -> (r: String)
        ensures
            r@ == greeting_for(name@),
    {
        let mut r = String::from_str("Hello, ");
        r.append(name.value());
        r.append("!");
        r
    }
}

/// Greeting two equal names gives the same text: the greeting depends on the
/// name alone.
pub proof fn lemma_greet_deterministic(a: Name, b: Name)
    requires
        a@ == b@,
    ensures
        greeting_for(a@) == greeting_for(b@),
{
}

} // verus!
