use vstd::prelude::*;
use crate::greeting_dto::GreetingRequest;
use crate::greeting_service::GreetingService;
use crate::greeting_use_case::{greeting_outcome, use_case_error_text, GreetingUseCase};

verus! {

/// The object that the `hello` field returns.
pub struct GreetingResult {
    pub message: String,
}

/// What the `hello` field resolves to for a raw name: the greeting, or the
/// use-case error's text.
pub open spec fn hello_outcome(raw: Seq<char>) -> Result<Seq<char>, Seq<char>> {
    match greeting_outcome(raw) {
        Ok(message) => Ok(message),
        Err(e) => Err(use_case_error_text(e)),
    }
}

/// The root query object of the GraphQL schema.
pub struct Query;

impl Query {
    /// Resolves the `hello(name)` field through a fresh use case.
    pub fn hello(&self, name: String) -> (r: Result<GreetingResult, String>)
        ensures
            match r {
                Ok(g) => hello_outcome(name@) == Ok::<Seq<char>, Seq<char>>(g.message@),
                Err(m) => hello_outcome(name@) == Err::<Seq<char>, Seq<char>>(m@),
            },
    {
        let greeting_service = GreetingService::new();
        let greeting_use_case = GreetingUseCase::new(greeting_service);
        let request = GreetingRequest { name };
        match greeting_use_case.execute(request) {
            Ok(response) => Ok(GreetingResult { message: response.message }),
            Err(e) => Err(e.message()),
        }
    }
}

} // verus!
