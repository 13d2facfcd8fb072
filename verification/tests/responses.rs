use webdriver_client::json::Json;
use webdriver_client::protocol::decode_ack;
use webdriver_client::protocol::decode_element;
use webdriver_client::protocol::decode_elements;
use webdriver_client::protocol::decode_session_id;
use webdriver_client::protocol::decode_status;
use webdriver_client::protocol::decode_string_value;
use webdriver_client::protocol::interpret_status;
use webdriver_client::protocol::ClientError;

#[test]
fn status_ready_true() {
    assert_eq!(decode_status("{\"value\":{\"ready\":true}}"), Ok(true));
}

#[test]
fn status_ready_false() {
    assert_eq!(decode_status("{\"value\":{\"ready\":false}}"), Ok(false));
}

#[test]
fn status_wrong_type_is_protocol_error() {
    let r = decode_status("{\"value\":{\"ready\":\"yes\"}}");
    match r {
        Err(e) => {
            assert!(e.is_protocol());
            let expected = Json::Obj(vec![(
                "value".to_string(),
                Json::Obj(vec![("ready".to_string(), Json::Str("yes".to_string()))]),
            )]);
            assert_eq!(e, ClientError::Protocol(expected));
        }
        Ok(_) => panic!("a non-boolean ready flag must not succeed"),
    }
}

#[test]
fn status_missing_flag_is_protocol_error() {
    let r = decode_status("{\"value\":{}}");
    assert!(matches!(r, Err(e) if e.is_protocol()));
}

#[test]
fn status_body_not_json_is_transport_error() {
    let r = decode_status("not json at all");
    match r {
        Err(ClientError::Transport(m)) => assert_eq!(m, "not json at all"),
        _ => panic!("a body that is not JSON must be a transport error"),
    }
}

#[test]
fn interpret_status_on_model_value() {
    let resp = Json::Obj(vec![(
        "value".to_string(),
        Json::Obj(vec![("ready".to_string(), Json::Bool(true))]),
    )]);
    assert_eq!(interpret_status(resp), Ok(true));
}

#[test]
fn session_id_extraction_ignores_capabilities() {
    let body = "{\"value\":{\"sessionId\":\"abc-123\",\"capabilities\":{\"browserName\":\"firefox\",\"headless\":false,\"timeouts\":{\"script\":30000}}}}";
    assert_eq!(decode_session_id(body), Ok("abc-123".to_string()));
}

#[test]
fn session_id_missing_is_protocol_error() {
    let r = decode_session_id("{\"value\":{\"capabilities\":{}}}");
    assert!(matches!(r, Err(e) if e.is_protocol()));
}

#[test]
fn session_id_wrong_type_is_protocol_error() {
    let r = decode_session_id("{\"value\":{\"sessionId\":17}}");
    assert!(matches!(r, Err(e) if e.is_protocol()));
}

#[test]
fn element_id_extraction_is_key_name_agnostic() {
    let spec_key = decode_element("{\"value\":{\"element-6066-11e4-a52e-4f735466cecf\":\"e1\"}}");
    assert_eq!(spec_key.unwrap().id(), "e1");
    let legacy_key = decode_element("{\"value\":{\"ELEMENT\":\"e1\"}}");
    assert_eq!(legacy_key.unwrap().id(), "e1");
}

#[test]
fn element_id_takes_first_member_in_document_order() {
    let r = decode_element("{\"value\":{\"zz\":\"first\",\"aa\":\"second\"}}");
    assert_eq!(r.unwrap().id(), "first");
}

#[test]
fn element_empty_object_is_protocol_error() {
    let r = decode_element("{\"value\":{}}");
    assert!(matches!(r, Err(e) if e.is_protocol()));
}

#[test]
fn element_error_document_is_protocol_error() {
    // The server's "zero matches" answer is an error document; it must
    // surface as a protocol error, not be mistaken for an element whose
    // id is the error code.
    let r = decode_element(
        "{\"value\":{\"error\":\"no such element\",\"message\":\"Unable to locate element\"}}",
    );
    assert!(matches!(r, Err(e) if e.is_protocol()));
}

#[test]
fn plural_find_filters_malformed_members() {
    let r = decode_elements("{\"value\":[{\"k\":\"e1\"},{},{\"k\":\"e2\"}]}").unwrap();
    let ids: Vec<&str> = r.iter().map(|e| e.id()).collect();
    assert_eq!(ids, vec!["e1", "e2"]);
}

#[test]
fn empty_plural_find_is_success() {
    let r = decode_elements("{\"value\":[]}").unwrap();
    assert!(r.is_empty());
}

#[test]
fn plural_find_non_array_is_protocol_error() {
    let r = decode_elements("{\"value\":{\"k\":\"e1\"}}");
    assert!(matches!(r, Err(e) if e.is_protocol()));
}

#[test]
fn title_is_the_envelope_string() {
    assert_eq!(decode_string_value("{\"value\":\"Google\"}"), Ok("Google".to_string()));
}

#[test]
fn title_wrong_shape_is_protocol_error() {
    let r = decode_string_value("{\"value\":{\"title\":\"Google\"}}");
    assert!(matches!(r, Err(e) if e.is_protocol()));
}

#[test]
fn ack_accepts_any_json_envelope() {
    assert_eq!(decode_ack("{\"value\":{}}"), Ok(true));
    assert_eq!(decode_ack("{\"value\":null}"), Ok(true));
}

#[test]
fn ack_rejects_a_body_that_is_not_json() {
    let r = decode_ack("<html>proxy error</html>");
    assert!(matches!(r, Err(e) if e.is_transport()));
}

#[test]
fn ack_rejects_a_document_that_is_no_envelope() {
    assert!(matches!(decode_ack("null"), Err(e) if e.is_protocol()));
    assert!(matches!(decode_ack("{}"), Err(e) if e.is_protocol()));
    assert!(matches!(decode_ack("[1,2]"), Err(e) if e.is_protocol()));
    assert!(matches!(decode_ack("{\"data\":{}}"), Err(e) if e.is_protocol()));
}

#[test]
fn ack_rejects_an_error_document() {
    let r = decode_ack("{\"value\":{\"error\":\"invalid session id\",\"message\":\"gone\"}}");
    assert!(matches!(r, Err(e) if e.is_protocol()));
}
