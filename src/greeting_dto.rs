use vstd::prelude::*;

verus! {

/// Raw, unvalidated input of one greeting.
pub struct GreetingRequest {
    pub name: String,
}

/// The finished greeting.
pub struct GreetingResponse {
    pub message: String,
}

} // verus!
