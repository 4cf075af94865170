use snippets::greeting::greeting;

#[test]
fn greeting_contains_name() {
    let result = greeting("Carol");
    assert!(result.contains("Carol"), "Greeting did not contains name, value was {}", result);
}

#[test]
fn greeting_exact_value() {
    assert_eq!(greeting("Carol"), "Hello, Carol!");
}

#[test]
fn greeting_empty_name() {
    assert_eq!(greeting(""), "Hello, !");
}

#[test]
fn greeting_other_name() {
    let result = greeting("Dave");
    assert!(result.contains("Dave"));
    assert_eq!(result, "Hello, Dave!");
}
