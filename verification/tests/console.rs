use wasm_app::{error_doing_weird_stuff, ConsoleCall, Value};

#[test]
fn test_error() {
    error_doing_weird_stuff();
}

#[test]
fn error_diagnostic_is_three_calls_in_order() {
    let calls = error_doing_weird_stuff();
    assert_eq!(
        calls,
        vec![
            ConsoleCall::Info(Value::Text("<Expecting JsError>".to_string())),
            ConsoleCall::Error(
                Value::Text("JsError inside worker".to_string()),
                Value::Error("JsError inside worker, rust".to_string()),
            ),
            ConsoleCall::Info(Value::Text("</Expecting JsError>".to_string())),
        ]
    );
}

#[test]
fn error_diagnostic_logs_an_error_object_not_its_text() {
    let calls = error_doing_weird_stuff();
    assert!(matches!(&calls[1], ConsoleCall::Error(Value::Text(_), Value::Error(_))));
    assert_ne!(
        calls[1],
        ConsoleCall::Error(
            Value::Text("JsError inside worker".to_string()),
            Value::Text("JsError inside worker, rust".to_string()),
        )
    );
}

#[test]
fn error_diagnostic_is_the_same_every_time() {
    assert_eq!(error_doing_weird_stuff(), error_doing_weird_stuff());
}

#[test]
fn text_keeps_its_characters() {
    assert_eq!(Value::text("Hello, World"), Value::Text("Hello, World".to_string()));
    assert_eq!(Value::text(""), Value::Text(String::new()));
}

#[test]
fn error_keeps_its_message() {
    assert_eq!(Value::error("boom"), Value::Error("boom".to_string()));
    assert_ne!(Value::error("boom"), Value::text("boom"));
}
