use pizza_menu::catalog::Pizza;
use pizza_menu::response::{build_failure_response, build_success_response, process_event};

#[test]
fn build_success_response_test() {
    let test_pizza = Pizza { name: String::from("test_pizza"), price: 100 };
    let result = build_success_response(&test_pizza);
    assert_eq!(200, result.status);
    assert_eq!("application/json", result.content_type);
    assert_eq!("{\"name\":\"test_pizza\",\"price\":100}", result.body.to_ascii_lowercase());
}

#[test]
fn build_failure_response_test() {
    let result = build_failure_response("test error message");
    assert_eq!(400, result.status);
    assert_eq!("application/json", result.content_type);
    assert_eq!("{\"error\":\"test error message\"}", result.body.to_ascii_lowercase());
}

#[test]
fn success_body_for_catalog_pizza() {
    let pizza = Pizza { name: String::from("veggie"), price: 10 };
    assert_eq!("{\"name\":\"veggie\",\"price\":10}", build_success_response(&pizza).body);
}

#[test]
fn success_body_formats_prices() {
    let zero = Pizza { name: String::from("free"), price: 0 };
    assert_eq!("{\"name\":\"free\",\"price\":0}", build_success_response(&zero).body);
    let low = Pizza { name: String::from("x"), price: i32::MIN };
    assert_eq!("{\"name\":\"x\",\"price\":-2147483648}", build_success_response(&low).body);
    let high = Pizza { name: String::from("y"), price: i32::MAX };
    assert_eq!("{\"name\":\"y\",\"price\":2147483647}", build_success_response(&high).body);
}

#[test]
fn success_body_escapes_the_name() {
    let pizza = Pizza { name: String::from("say \"hi\""), price: 5 };
    assert_eq!("{\"name\":\"say \\\"hi\\\"\",\"price\":5}", build_success_response(&pizza).body);
}

#[test]
fn failure_body_escapes_the_message() {
    let r = build_failure_response("a\"b\\c\nd\te\u{1}f\u{8}\u{c}\r");
    assert_eq!("{\"error\":\"a\\\"b\\\\c\\nd\\te\\u0001f\\b\\f\\r\"}", r.body);
    let r = build_failure_response("\u{1f}é/");
    assert_eq!("{\"error\":\"\\u001fé/\"}", r.body);
}

#[test]
fn failure_body_for_empty_message() {
    let r = build_failure_response("");
    assert_eq!(400, r.status);
    assert_eq!("{\"error\":\"\"}", r.body);
}

#[test]
fn process_event_found() {
    let r = process_event("deluxe");
    assert_eq!(200, r.status);
    assert_eq!("application/json", r.content_type);
    assert_eq!("{\"name\":\"deluxe\",\"price\":9}", r.body);
}

#[test]
fn process_event_not_found() {
    let r = process_event("hawaiian");
    assert_eq!(400, r.status);
    assert_eq!("application/json", r.content_type);
    assert_eq!("{\"error\":\"pizza not found\"}", r.body);
    assert_eq!(400, process_event("Veggie").status);
}
