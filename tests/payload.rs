use api::payload::{frame_rejection, hello_payload, hello_rejection, GetEndpointRejected};

#[test]
fn hello_payload_is_fixed_json_text() {
    let bytes = hello_payload();
    assert_eq!(
        String::from_utf8(bytes).unwrap(),
        "{\"code\":401,\"message\":\"hello world\"}"
    );
}

#[test]
fn hello_payload_decodes_to_code_and_message() {
    let bytes = hello_payload();
    let value: serde_json::Value = serde_json::from_slice(&bytes).unwrap();
    let object = value.as_object().unwrap();
    assert_eq!(object.len(), 2);
    assert_eq!(object["code"].as_u64(), Some(401));
    assert_eq!(object["message"].as_str(), Some("hello world"));
}

#[test]
fn hello_payload_is_the_same_every_time() {
    assert_eq!(hello_payload(), hello_payload());
}

#[test]
fn hello_rejection_fields() {
    let r = hello_rejection();
    assert_eq!(r.code, 401);
    assert_eq!(r.message, "hello world");
}

#[test]
fn frame_places_code_and_quoted_message() {
    let framed = frame_rejection(404, &b"\"gone\"".to_vec());
    assert_eq!(framed, b"{\"code\":404,\"message\":\"gone\"}".to_vec());
}

#[test]
fn frame_zero_and_largest_code() {
    assert_eq!(
        frame_rejection(0, &b"\"\"".to_vec()),
        b"{\"code\":0,\"message\":\"\"}".to_vec()
    );
    assert_eq!(
        frame_rejection(65535, &b"\"x\"".to_vec()),
        b"{\"code\":65535,\"message\":\"x\"}".to_vec()
    );
}

#[test]
fn to_json_escapes_quote_and_backslash() {
    let r = GetEndpointRejected { code: 7, message: "a\"b\\c" };
    let bytes = r.to_json();
    assert_eq!(bytes, b"{\"code\":7,\"message\":\"a\\\"b\\\\c\"}".to_vec());
}

#[test]
fn to_json_escapes_newline() {
    let r = GetEndpointRejected { code: 500, message: "line\nbreak" };
    let bytes = r.to_json();
    assert_eq!(
        String::from_utf8(bytes).unwrap(),
        "{\"code\":500,\"message\":\"line\\nbreak\"}"
    );
}

#[test]
fn to_json_empty_message() {
    let r = GetEndpointRejected { code: 401, message: "" };
    assert_eq!(
        r.to_json(),
        b"{\"code\":401,\"message\":\"\"}".to_vec()
    );
}
