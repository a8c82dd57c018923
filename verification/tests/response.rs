use pybridge::errors::BridgeError;
use pybridge::response::{interpret_line, PythonResponse};

#[test]
fn success_with_data_yields_the_data() {
    let r = interpret_line("{\"status\":\"success\",\"data\":{\"pong\":true}}");
    let expected: serde_json::Value = serde_json::from_str("{\"pong\":true}").unwrap();
    assert_eq!(r, Ok(Some(expected)));
}

#[test]
fn success_without_data_yields_none() {
    let r = interpret_line("{\"status\":\"success\"}");
    assert_eq!(r, Ok(None));
}

#[test]
fn worker_error_text_is_passed_verbatim() {
    let r = interpret_line("{\"status\":\"error\",\"error\":\"boom\"}");
    assert_eq!(r, Err(BridgeError::Worker("boom".to_string())));
}

#[test]
fn unparsable_line_is_a_protocol_failure() {
    let r = interpret_line("this is not json");
    assert_eq!(r, Err(BridgeError::Protocol));
}

#[test]
fn unknown_status_is_a_protocol_failure() {
    let r = interpret_line("{\"status\":\"working\"}");
    assert_eq!(r, Err(BridgeError::Protocol));
}

#[test]
fn non_string_status_is_a_protocol_failure() {
    let r = interpret_line("{\"status\":5}");
    assert_eq!(r, Err(BridgeError::Protocol));
}

#[test]
fn missing_status_is_a_protocol_failure() {
    let r = interpret_line("{\"data\":{\"pong\":true}}");
    assert_eq!(r, Err(BridgeError::Protocol));
}

#[test]
fn error_status_without_message_is_a_protocol_failure() {
    let r = interpret_line("{\"status\":\"error\"}");
    assert_eq!(r, Err(BridgeError::Protocol));
}

#[test]
fn envelope_fields_decide_directly() {
    let ok = PythonResponse {
        status: "success".to_string(),
        data: None,
        error: None,
    };
    assert_eq!(ok.interpret(), Ok(None));
    let failed = PythonResponse {
        status: "error".to_string(),
        data: None,
        error: Some("out of memory".to_string()),
    };
    assert_eq!(failed.interpret(), Err(BridgeError::Worker("out of memory".to_string())));
}

#[test]
fn non_object_line_is_a_protocol_failure() {
    let r = interpret_line("[1,2,3]");
    assert_eq!(r, Err(BridgeError::Protocol));
}

#[test]
fn success_with_null_data_yields_the_null() {
    let r = interpret_line("{\"status\":\"success\",\"data\":null}");
    assert_eq!(r, Ok(Some(serde_json::Value::Null)));
}
