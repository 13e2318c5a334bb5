use rpc_lib::client::string_map_or_null;
use rpc_lib::{ErrorKind, ResponseError};
use serde_json::Value;

fn field_of(text: &str) -> Value {
    serde_json::from_str(text).unwrap()
}

fn refused(text: &str) -> String {
    let error = string_map_or_null(&field_of(text)).unwrap_err();
    match error.kind() {
        ErrorKind::Serialization(message) => message.clone(),
        other => panic!("not a serialization error: {:?}", other),
    }
}

const WRONG_SHAPE: &str = "invalid type: expected string, map, or null";
const WRONG_OBJECT: &str =
    "invalid error object: expected an integer `code` and a string `message`";

#[test]
fn null_is_no_error() {
    assert_eq!(string_map_or_null(&field_of("null")).unwrap(), None);
}

#[test]
fn string_is_an_error_with_code_minus_one() {
    assert_eq!(
        string_map_or_null(&field_of(r#""method not found""#)).unwrap(),
        Some(ResponseError { code: -1, message: "method not found".to_string() })
    );
}

#[test]
fn empty_string_is_still_an_error() {
    assert_eq!(
        string_map_or_null(&field_of(r#""""#)).unwrap(),
        Some(ResponseError { code: -1, message: String::new() })
    );
}

#[test]
fn string_is_kept_as_it_is() {
    let message = "line one\nline \"two\" \u{e9}\u{1F600}";
    assert_eq!(
        string_map_or_null(&Value::from(message)).unwrap(),
        Some(ResponseError { code: -1, message: message.to_string() })
    );
}

#[test]
fn object_gives_code_and_message() {
    assert_eq!(
        string_map_or_null(&field_of(r#"{"code":-32700,"message":"Parse error"}"#)).unwrap(),
        Some(ResponseError { code: -32700, message: "Parse error".to_string() })
    );
}

#[test]
fn object_members_may_come_in_any_order_with_others() {
    assert_eq!(
        string_map_or_null(&field_of(r#"{"data":[1],"message":"m","code":7}"#)).unwrap(),
        Some(ResponseError { code: 7, message: "m".to_string() })
    );
}

#[test]
fn object_code_spans_the_range_of_i32() {
    assert_eq!(
        string_map_or_null(&field_of(r#"{"code":2147483647,"message":""}"#)).unwrap(),
        Some(ResponseError { code: i32::MAX, message: String::new() })
    );
    assert_eq!(
        string_map_or_null(&field_of(r#"{"code":-2147483648,"message":""}"#)).unwrap(),
        Some(ResponseError { code: i32::MIN, message: String::new() })
    );
}

#[test]
fn object_code_out_of_range_is_refused() {
    assert_eq!(refused(r#"{"code":2147483648,"message":"m"}"#), WRONG_OBJECT);
    assert_eq!(refused(r#"{"code":-2147483649,"message":"m"}"#), WRONG_OBJECT);
    assert_eq!(refused(r#"{"code":18446744073709551615,"message":"m"}"#), WRONG_OBJECT);
}

#[test]
fn object_code_must_be_an_integer() {
    assert_eq!(refused(r#"{"code":1.0,"message":"m"}"#), WRONG_OBJECT);
    assert_eq!(refused(r#"{"code":"1","message":"m"}"#), WRONG_OBJECT);
    assert_eq!(refused(r#"{"code":null,"message":"m"}"#), WRONG_OBJECT);
}

#[test]
fn object_without_code_or_message_is_refused() {
    assert_eq!(refused(r#"{}"#), WRONG_OBJECT);
    assert_eq!(refused(r#"{"code":1}"#), WRONG_OBJECT);
    assert_eq!(refused(r#"{"message":"m"}"#), WRONG_OBJECT);
    assert_eq!(refused(r#"{"code":1,"message":2}"#), WRONG_OBJECT);
    assert_eq!(refused(r#"{"code":1,"message":null}"#), WRONG_OBJECT);
}

#[test]
fn number_is_refused() {
    assert_eq!(refused("5"), WRONG_SHAPE);
    assert_eq!(refused("-1"), WRONG_SHAPE);
    assert_eq!(refused("2.5"), WRONG_SHAPE);
}

#[test]
fn array_is_refused() {
    assert_eq!(refused("[]"), WRONG_SHAPE);
    assert_eq!(refused(r#"[1,"message"]"#), WRONG_SHAPE);
}

#[test]
fn boolean_is_refused() {
    assert_eq!(refused("true"), WRONG_SHAPE);
    assert_eq!(refused("false"), WRONG_SHAPE);
}
