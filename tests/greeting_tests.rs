use rust_ddd_template::{
    GreetingRequest, GreetingService, GreetingUseCase, GreetingUseCaseError, Name, NameError,
};

#[test]
fn test_greet() {
    let service = GreetingService::new();
    let name = Name::new("World".to_string()).unwrap();

    assert_eq!(service.greet(&name), "Hello, World!");
}

#[test]
fn test_greeting_use_case() {
    let greeting_service = GreetingService::new();
    let use_case = GreetingUseCase::new(greeting_service);

    let request = GreetingRequest {
        name: "World".to_string(),
    };

    let response = use_case.execute(request).unwrap();
    assert_eq!(response.message, "Hello, World!");
}

#[test]
fn test_greeting_use_case_empty_name() {
    let greeting_service = GreetingService::new();
    let use_case = GreetingUseCase::new(greeting_service);

    let request = GreetingRequest {
        name: "".to_string(),
    };

    let result = use_case.execute(request);
    assert!(result.is_err());
}

fn run(name: String) -> Result<String, GreetingUseCaseError> {
    let use_case = GreetingUseCase::new(GreetingService::new());
    use_case
        .execute(GreetingRequest { name })
        .map(|response| response.message)
}

#[test]
fn empty_name_message_from_use_case() {
    let err = run(String::new()).unwrap_err();
    assert_eq!(err, GreetingUseCaseError::InvalidName(NameError::Empty));
    assert_eq!(err.message(), "Invalid name: Name cannot be empty");
}

#[test]
fn three_spaces_fail_like_the_empty_name() {
    let err = run("   ".to_string()).unwrap_err();
    assert_eq!(err, GreetingUseCaseError::InvalidName(NameError::Empty));
}

#[test]
fn too_long_name_message_from_use_case() {
    let err = run("a".repeat(101)).unwrap_err();
    assert_eq!(err, GreetingUseCaseError::InvalidName(NameError::TooLong));
    assert_eq!(
        err.message(),
        "Invalid name: Name is too long (maximum 100 characters)"
    );
}

#[test]
fn hundred_character_name_is_greeted() {
    let text = "a".repeat(100);
    assert_eq!(run(text.clone()).unwrap(), format!("Hello, {}!", text));
}

#[test]
fn greeting_keeps_the_name_verbatim() {
    assert_eq!(run(" Mixed Case ".to_string()).unwrap(), "Hello,  Mixed Case !");
}

#[test]
fn greeting_equal_names_twice_gives_the_same_text() {
    let service = GreetingService::new();
    let a = Name::new("Grace".to_string()).unwrap();
    let b = Name::new("Grace".to_string()).unwrap();
    let first = service.greet(&a);
    let second = service.greet(&b);
    assert_eq!(first, second);
    assert_eq!(first, service.greet(&a));
}

#[test]
fn name_error_converts_into_use_case_error() {
    let err: GreetingUseCaseError = NameError::TooLong.into();
    assert_eq!(err, GreetingUseCaseError::InvalidName(NameError::TooLong));
}
