use bounded_guess::greeting::greeting;

#[test]
fn greeting_contains_name() {
    let result = greeting("Carol");
    assert!(
        result.contains("Carol"),
        "Greeting did not contain name, value was `{}`",
        result
    );
}

#[test]
fn greeting_is_hello_and_the_name() {
    assert_eq!(greeting("Carol"), "Hello, Carol");
}

#[test]
fn greeting_of_an_empty_name() {
    assert_eq!(greeting(""), "Hello, ");
}

#[test]
fn greeting_keeps_the_name_as_given() {
    assert_eq!(greeting("  Zoë O'Neil "), "Hello,   Zoë O'Neil ");
}

#[test]
fn it_works() -> Result<(), String> {
    if 2 + 2 == 4 {
        Ok(())
    } else {
        Err(String::from("two plus two does not equal four"))
    }
}
