use rust_ddd_template::Query;

#[test]
fn hello_field_greets_a_valid_name() {
    let result = Query.hello("Test".to_string()).unwrap();
    assert_eq!(result.message, "Hello, Test!");
}

#[test]
fn hello_field_reports_an_empty_name() {
    let error = Query.hello(String::new()).err().unwrap();
    assert_eq!(error, "Invalid name: Name cannot be empty");
    assert!(error.contains("Name cannot be empty"));
}

#[test]
fn hello_field_reports_a_long_name() {
    let error = Query.hello("b".repeat(101)).err().unwrap();
    assert_eq!(error, "Invalid name: Name is too long (maximum 100 characters)");
}
