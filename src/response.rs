use vstd::prelude::*;

use crate::catalog::{catalog, find_pizza, get_pizza_from_name, Pizza, PizzaList};
use crate::json::{decimal, json_integer, json_string, json_string_literal};

verus! {

/// An HTTP response whose body is JSON text.
pub struct JsonResponse {
    pub status: u16,
    pub content_type: String,
    pub body: String,
}

/// The media type that every response of this library declares.
pub open spec fn json_content_type() -> Seq<char> {
    "application/json"@
}

/// The JSON object for a pizza: `{"name":<name>,"price":<price>}`.
pub open spec fn success_body(pizza: (Seq<char>, i32)) -> Seq<char> {
    "{\"name\":"@ + json_string(pizza.0) + ",\"price\":"@ + decimal(pizza.1 as int) + "}"@
}

/// The JSON object for an error: `{"error":<message>}`.
pub open spec fn failure_body(message: Seq<char>) -> Seq<char> {
    "{\"error\":"@ + json_string(message) + "}"@
}

/// The message of the failure response for a name that is not on the menu.
pub open spec fn not_found_message() -> Seq<char> {
    "pizza not found"@
}

/// The response that reports `pizza`: status 200, JSON, and the pizza as a
/// JSON object with its name and then its price.
pub fn build_success_response(pizza: &Pizza) -> (r: JsonResponse)
    ensures
        r.status == 200,
        r.content_type@ == json_content_type(),
        r.body@ == success_body(pizza@),
{
    let mut body = String::from_str("{\"name\":");
    let name = json_string_literal(pizza.name.as_str());
    body.append(name.as_str());
    body.append(",\"price\":");
    let price = json_integer(pizza.price);
    body.append(price.as_str());
    body.append("}");
    JsonResponse { status: 200, content_type: String::from_str("application/json"), body }
}

/// The response that reports an error: status 400, JSON, and the message as
/// the one field `error` of a JSON object.
pub fn build_failure_response(error_message: &str) -> (r: JsonResponse)
    ensures
        r.status == 400,
        r.content_type@ == json_content_type(),
        r.body@ == failure_body(error_message@),
{
    let mut body = String::from_str("{\"error\":");
    let message = json_string_literal(error_message);
    body.append(message.as_str());
    body.append("}");
    JsonResponse { status: 400, content_type: String::from_str("application/json"), body }
}

/// Answers a request for the pizza named `pizza_name`: the pizza when the
/// menu has it, else the error "pizza not found".
pub fn process_event(pizza_name: &str) -> (r: JsonResponse)
    ensures
        r.content_type@ == json_content_type(),
        match find_pizza(catalog(), pizza_name@) {
            Some(p) => r.status == 200 && r.body@ == success_body(p),
            None => r.status == 400 && r.body@ == failure_body(not_found_message()),
        },
{
    let pizza_list = PizzaList::new();
    match get_pizza_from_name(pizza_name, &pizza_list) {
        Some(pizza) => build_success_response(pizza),
        None => build_failure_response("pizza not found"),
    }
}

} // verus!
