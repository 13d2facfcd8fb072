use webdriver_client::request::build_empty_body;
use webdriver_client::request::build_find_body;
use webdriver_client::request::build_keys_body;
use webdriver_client::request::build_navigate_body;
use webdriver_client::request::create_session_url;
use webdriver_client::request::element_url;
use webdriver_client::request::session_url;
use webdriver_client::request::status_url;

#[test]
fn status_and_session_urls() {
    assert_eq!(status_url(), b"http://localhost:4444/status".to_vec());
    assert_eq!(create_session_url(), b"http://localhost:4444/session".to_vec());
}

#[test]
fn session_scoped_urls() {
    assert_eq!(
        session_url("abc-123", "/url"),
        b"http://localhost:4444/session/abc-123/url".to_vec()
    );
    assert_eq!(
        session_url("abc-123", ""),
        b"http://localhost:4444/session/abc-123".to_vec()
    );
}

#[test]
fn element_scoped_urls() {
    assert_eq!(
        element_url("abc-123", "e1", "/click"),
        b"http://localhost:4444/session/abc-123/element/e1/click".to_vec()
    );
    assert_eq!(
        element_url("abc-123", "e1", "/elements"),
        b"http://localhost:4444/session/abc-123/element/e1/elements".to_vec()
    );
}

#[test]
fn empty_body_is_an_empty_object() {
    assert_eq!(build_empty_body(), b"{}".to_vec());
}

#[test]
fn navigate_body_holds_the_url() {
    assert_eq!(
        build_navigate_body("https://www.google.com"),
        b"{\"url\":\"https://www.google.com\"}".to_vec()
    );
}

#[test]
fn navigate_body_escapes_quotes() {
    assert_eq!(
        build_navigate_body("https://x/\"q\""),
        b"{\"url\":\"https://x/\\\"q\\\"\"}".to_vec()
    );
}

#[test]
fn find_body_uses_the_css_selector_strategy() {
    assert_eq!(
        build_find_body("[name=q]"),
        b"{\"using\":\"css selector\",\"value\":\"[name=q]\"}".to_vec()
    );
}

#[test]
fn keys_body_escapes_backslashes_and_control_bytes() {
    assert_eq!(
        build_keys_body("a\\b\nc"),
        b"{\"text\":\"a\\\\b\\u000ac\"}".to_vec()
    );
}

#[test]
fn keys_body_passes_plain_text_through() {
    assert_eq!(
        build_keys_body("harlem shake"),
        b"{\"text\":\"harlem shake\"}".to_vec()
    );
}
