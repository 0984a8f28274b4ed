use kluster::error::KubeError;
use kluster::json::decode_value;
use serde_json::Value;

#[test]
fn a_body_is_parsed() {
    let value = decode_value(b"{\"kind\":\"PodList\",\"items\":[1,2,3],\"ok\":true}").unwrap();
    assert_eq!(value["kind"], Value::String("PodList".to_string()));
    assert_eq!(value["items"].as_array().unwrap().len(), 3);
    assert_eq!(value["items"][1].as_u64(), Some(2));
    assert_eq!(value["ok"], Value::Bool(true));
}

#[test]
fn scalars_are_values_too() {
    assert_eq!(decode_value(b"null"), Ok(Value::Null));
    assert_eq!(decode_value(b" \"a\" "), Ok(Value::String("a".to_string())));
}

#[test]
fn a_malformed_body_is_a_deserialize_error() {
    let expected = serde_json::from_slice::<Value>(b"{\"items\":").unwrap_err().to_string();
    assert_eq!(decode_value(b"{\"items\":"), Err(KubeError::DeserializeError(expected)));
}

#[test]
fn the_error_says_where_parsing_stopped() {
    match decode_value(b"[1, 2,\n x]") {
        Err(KubeError::DeserializeError(message)) => {
            assert_eq!(message, "expected value at line 2 column 2");
        }
        other => panic!("not a deserialize error: {:?}", other),
    }
}

#[test]
fn an_empty_body_is_a_deserialize_error() {
    assert_eq!(
        decode_value(b""),
        Err(KubeError::DeserializeError(
            "EOF while parsing a value at line 1 column 0".to_string()
        ))
    );
}
