// These tests run with no WebDriver server listening, so every request
// fails at the transport; that is exactly the situation they probe.

use webdriver_client::protocol::decode_ack;
use webdriver_client::protocol::decode_element;
use webdriver_client::protocol::decode_session_id;
use webdriver_client::protocol::decode_status;
use webdriver_client::protocol::decode_string_value;
use webdriver_client::protocol::ClientError;
use webdriver_client::Session;

#[test]
fn teardown_is_best_effort() {
    // An explicit close against an unreachable server surfaces its error...
    let mut session = Session::attach("defunct".to_string());
    let first = session.close();
    assert!(first.is_err());

    // ...a second close is a deterministic no-op without a second request...
    let second = session.close();
    assert_eq!(second, Ok(false));
    drop(session);

    // ...and automatic release under the same failure must not panic.
    let other = Session::attach("also-defunct".to_string());
    drop(other);
}

#[test]
fn run_reports_the_failure_to_create_a_session() {
    // With no server to create a session, the program never runs and the
    // creation failure is the result; releasing the half-built state must
    // not panic.
    let r = Session::run(|_session| Ok(42u32));
    assert!(r.is_err());
}

#[test]
fn session_commands_error_without_a_server() {
    let session = Session::attach("defunct".to_string());
    assert!(session.navigate_to("https://www.google.com").is_err());
    assert!(session.get_title().is_err());
    assert!(session.find_element_by_css("[name=q]").is_err());
}

#[test]
fn scenario_decoded_flow() {
    // The wire bodies of one probe-create-navigate-read-find-delete flow,
    // as a conforming server would answer them, decoded in order.
    let ready = decode_status("{\"value\":{\"ready\":true}}").unwrap();
    assert!(ready);

    let sid = decode_session_id(
        "{\"value\":{\"sessionId\":\"9f9c6fdb-ea4a-41fd-84a3-fd54b9b1c58b\",\"capabilities\":{\"browserName\":\"firefox\"}}}",
    )
    .unwrap();
    assert_eq!(sid, "9f9c6fdb-ea4a-41fd-84a3-fd54b9b1c58b");

    assert_eq!(decode_ack("{\"value\":null}"), Ok(true));

    let title = decode_string_value("{\"value\":\"Google\"}").unwrap();
    assert_eq!(title, "Google");

    let q = decode_element(
        "{\"value\":{\"element-6066-11e4-a52e-4f735466cecf\":\"q-field\"}}",
    )
    .unwrap();
    assert!(!q.id().is_empty());

    assert_eq!(decode_ack("{\"value\":{}}"), Ok(true));

    // After deletion the server answers commands with an error document,
    // which must surface as a protocol error, not as success — for the
    // string-valued commands and the acknowledged ones alike.
    let after = decode_string_value(
        "{\"value\":{\"error\":\"invalid session id\",\"message\":\"session deleted\"}}",
    );
    match after {
        Err(ClientError::Protocol(_)) => {}
        _ => panic!("use after deletion must not silently succeed"),
    }
    let after_ack = decode_ack(
        "{\"value\":{\"error\":\"invalid session id\",\"message\":\"session deleted\"}}",
    );
    match after_ack {
        Err(ClientError::Protocol(_)) => {}
        _ => panic!("an acknowledged command must not succeed after deletion"),
    }
}
