use vstd::prelude::*;
use crate::greeting_dto::{GreetingRequest, GreetingResponse};
use crate::greeting_service::{greeting_for, GreetingService};
use crate::name::{is_blank, name_error_text, utf8_len, validate_name, Name, NameError, MAX_NAME_LEN};

verus! {

/// Why a greeting could not be made.
#[derive(Debug, Clone, Copy, PartialEq, Eq, Structural)]
pub enum GreetingUseCaseError {
    /// The raw input was not a valid name.
    InvalidName(NameError),
}

/// The fixed text of a use-case error: the name error's text behind a prefix.
pub open spec fn use_case_error_text(e: GreetingUseCaseError) -> Seq<char> {
    match e {
        GreetingUseCaseError::InvalidName(inner) => "Invalid name: "@ + name_error_text(inner),
    }
}

impl GreetingUseCaseError {
    /// Human-readable text of the error.
    pub fn message(&self) -> (r: String)
        ensures
            r@ == use_case_error_text(*self),
    {
        match self {
            GreetingUseCaseError::InvalidName(inner) => {
                let mut r = String::from_str("Invalid name: ");
                let text = inner.message();
                r.append(text.as_str());
                r
            },
        }
    }
}

impl From<NameError> for GreetingUseCaseError {
    fn from(e: NameError) -> (r: GreetingUseCaseError) {
        GreetingUseCaseError::InvalidName(e)
    }
}

impl vstd::std_specs::convert::FromSpecImpl<NameError> for GreetingUseCaseError {
    open spec fn obeys_from_spec() -> bool {
        true
    }

    open spec fn from_spec(e: NameError) -> GreetingUseCaseError {
        GreetingUseCaseError::InvalidName(e)
    }
}

/// What the use case gives for a raw name: the greeting for it, or the
/// validation error wrapped as `InvalidName`.
pub open spec fn greeting_outcome(raw: Seq<char>) -> Result<Seq<char>, GreetingUseCaseError> {
    match validate_name(raw) {
        Ok(n) => Ok(greeting_for(n)),
        Err(e) => Err(GreetingUseCaseError::InvalidName(e)),
    }
}

/// Text that is not blank and at most `MAX_NAME_LEN` code units long is
/// accepted as it is, and its greeting is `Hello, ` + the text + `!` with no
/// trimming.
pub proof fn lemma_valid_name_greeted_verbatim(s: Seq<char>)
    requires
        !is_blank(s),
        utf8_len(s) <= MAX_NAME_LEN,
    ensures
        validate_name(s) == Ok::<Seq<char>, NameError>(s),
        greeting_for(s) == "Hello, "@ + s + "!"@,
        greeting_outcome(s) == Ok::<Seq<char>, GreetingUseCaseError>("Hello, "@ + s + "!"@),
{
}

/// Turns a greeting request into a response: validate, then greet.
pub struct GreetingUseCase {
    greeting_service: GreetingService,
}

impl GreetingUseCase {
    pub fn new(greeting_service: GreetingService) -> (r: GreetingUseCase) {
        GreetingUseCase { greeting_service }
    }

    /// Validates `request.name` and greets it. Fails with `InvalidName` and the
    /// name's own error exactly when validation fails.
    pub fn execute(&self, request: GreetingRequest) -> (r: Result<
        GreetingResponse,
        GreetingUseCaseError,
    >)
        ensures
            match r {
                Ok(resp) => greeting_outcome(request.name@) == Ok::<
                    Seq<char>,
                    GreetingUseCaseError,
                >(resp.message@),
                Err(e) => greeting_outcome(request.name@) == Err::<
                    Seq<char>,
                    GreetingUseCaseError,
                >(e),
            },
    {
        let name = match Name::new(request.name) {
            Ok(name) => name,
            Err(e) => {
                return Err(GreetingUseCaseError::from(e));
            },
        };
        let message = self.greeting_service.greet(&name);
        Ok(GreetingResponse { message })
    }
}

} // verus!
