//! A small layered greeting service: a validated `Name` value object, a
//! `GreetingService` that formats a greeting for it, a `GreetingUseCase` that
//! ties the two together, and the `Query` resolver logic that a GraphQL layer
//! exposes as its `hello` field.

pub mod greeting_dto;
pub mod greeting_service;
pub mod greeting_use_case;
pub mod name;
pub mod query;

pub use greeting_dto::{GreetingRequest, GreetingResponse};
pub use greeting_service::GreetingService;
pub use greeting_use_case::{GreetingUseCase, GreetingUseCaseError};
pub use name::{Name, NameError};
pub use query::{GreetingResult, Query};
