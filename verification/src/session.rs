//! A WebDriver session: the server-side handle to one live browser
//! instance, and the operations scoped to it.
//!
//! Every operation is one blocking HTTP round trip: the request is built
//! by the verified constructors in [`crate::request`], and the response
//! body is read by the verified decoders in [`crate::protocol`].  The
//! outcome of the round trip itself is the network's to decide, so the
//! operations promise only what holds whatever the server answered; the
//! decoders carry the exact response-shape contracts.

use vstd::prelude::*;

use crate::element::Element;
use crate::json::acknowledges;
use crate::json::element_id_of;
use crate::json::element_ids_of;
use crate::json::ready_flag;
use crate::json::session_id_of;
use crate::json::string_value_of;
use crate::protocol::ClientError;
use crate::protocol::decode_ack;
use crate::protocol::decode_element;
use crate::protocol::decode_elements;
use crate::protocol::decode_session_id;
use crate::protocol::decode_status;
use crate::protocol::decode_string_value;
use crate::request::build_empty_body;
use crate::request::build_find_body;
use crate::request::build_keys_body;
use crate::request::build_navigate_body;
use crate::request::create_session_url;
use crate::request::element_url;
use crate::request::session_url;
use crate::request::status_url;
use crate::transport::error_message;
use crate::transport::http_delete;
use crate::transport::http_get;
use crate::transport::http_plain_get;
use crate::transport::http_post;
use crate::transport::new_http_client;
use crate::transport::parsed_json;

verus! {

/// A session owns the server-assigned session identifier and the HTTP
/// client through which all of its commands travel.  The identifier is
/// immutable for the session's lifetime; every command is scoped under
/// it.  Deletion of the server-side session is attempted on release, and
/// may be requested earlier by [`Session::close`].
///
/// A session is not meant to be driven from two callers at once: the
/// protocol gives one session one browser, and callers that want
/// concurrency open one session each.
pub struct Session {
    id: String,
    client: reqwest::blocking::Client,
    closed: bool,
}

impl Drop for Session {
    /// Relies on reqwest's blocking client: a best-effort DELETE of the
    /// session when the handle is released.  Any failure comes back as a
    /// value and is discarded, so that teardown can never mask the
    /// program's own outcome.  reqwest documents a panic in blocking
    /// `send` only when its internal runtime thread has died or when it
    /// is called from inside an async runtime; this synchronous client
    /// creates neither situation, which is what the `no_unwind` claim
    /// rests on.  The URL comes from the verified builder.
    #[verifier::external_body]
    fn drop(&mut self)
        opens_invariants none
        no_unwind
    {
        if !self.closed {
            let url = session_url(self.id.as_str(), "");
            let _ = self.client.delete(String::from_utf8_lossy(&url).into_owned()).send();
        }
    }
}

impl Session {
    /// The server-assigned session identifier.
    pub closed spec fn sid(self) -> Seq<char> {
        self.id@
    }

    /// Whether the session has already been deleted by [`Session::close`].
    pub closed spec fn is_closed(self) -> bool {
        self.closed
    }

    /// The server-assigned session identifier.
    pub fn id(&self) -> (r: &str)
        ensures
            r@ == self.sid(),
    {
        self.id.as_str()
    }

    /// Creates a session and runs `program` in it, returning the
    /// program's outcome unchanged; the session is released when the
    /// call returns, whichever way it left `program`.  An error is
    /// either one the program could itself return, or the creation
    /// failure — a transport error, or a protocol error on a document
    /// without a session id.
    pub fn run<T, F: FnOnce(&Session) -> Result<T, ClientError>>(program: F) -> (r: Result<
        T,
        ClientError,
    >)
        requires
            forall|s: &Session| call_requires(program, (s,)),
        ensures
            r matches Ok(v) ==> exists|s: &Session|
                call_ensures(program, (s,), Ok::<T, ClientError>(v)),
            r matches Err(e) ==> ((match e {
                ClientError::Transport(_) => true,
                ClientError::Protocol(j) => session_id_of(j) is None,
            }) || exists|s: &Session| call_ensures(program, (s,), Err::<T, ClientError>(e))),
    {
        match Session::new() {
            Ok(session) => {
                let ret = program(&session);
                proof {
                    match &ret {
                        Ok(v) => {
                            assert(call_ensures(program, (&session,), Ok::<T, ClientError>(*v)));
                        },
                        Err(e) => {
                            assert(call_ensures(program, (&session,), Err::<T, ClientError>(*e)));
                        },
                    }
                }
                ret
            },
            Err(e) => Err(e),
        }
    }

    /// Creates a session: POST to the session endpoint with an empty
    /// capability object, binding the `value.sessionId` of the answer.
    /// A session is only ever handed out not yet closed and with its id
    /// the `value.sessionId` string of the server's decoded answer,
    /// whatever other members stood beside it; any other decoded answer
    /// is a `Protocol` error carrying it.
    pub fn new() -> (r: Result<Session, ClientError>)
        ensures
            r matches Ok(s) ==> !s.is_closed() && exists|b: Seq<char>|
                (#[trigger] parsed_json(b)) matches Some(j) && session_id_of(j) == Some(s.sid()),
            r matches Err(e) ==> match e {
                ClientError::Transport(_) => true,
                ClientError::Protocol(j) => session_id_of(j) is None,
            },
    {
        let client = new_http_client();
        let url = create_session_url();
        let body = build_empty_body();
        match http_post(&client, &url, &body) {
            Ok(answer) => match decode_session_id(answer.as_str()) {
                Ok(sid) => {
                    let session = Session { id: sid, client, closed: false };
                    proof {
                        assert(parsed_json(answer@) matches Some(j) && session_id_of(j) == Some(
                            session.sid(),
                        ));
                    }
                    Ok(session)
                },
                Err(e) => Err(e),
            },
            Err(e) => Err(ClientError::Transport(error_message(&e))),
        }
    }

    /// Binds a session handle to an identifier that was assigned
    /// earlier, without contacting the server.  Commands and closing
    /// behave exactly as on a freshly created session.
    pub fn attach(id: String) -> (r: Session)
        ensures
            r.sid() == id@,
            !r.is_closed(),
    {
        let client = new_http_client();
        Session { id, client, closed: false }
    }

    /// Deletes the server-side session: DELETE on the session's URL.
    /// Closing is attempted exactly once: the first call reports the
    /// server's answer — `Ok(true)` or an error — and every later call
    /// is a no-op that reports `Ok(false)` without a second request.
    pub fn close(&mut self) -> (r: Result<bool, ClientError>)
        ensures
            final(self).is_closed(),
            final(self).sid() == old(self).sid(),
            old(self).is_closed() ==> r == Ok::<bool, ClientError>(false),
            !old(self).is_closed() ==> (r matches Ok(b) ==> b && exists|bs: Seq<char>|
                (#[trigger] parsed_json(bs)) matches Some(j) && acknowledges(j)),
    {
        if self.closed {
            return Ok(false);
        }
        self.closed = true;
        let url = session_url(self.id.as_str(), "");
        match http_delete(&self.client, &url) {
            Ok(answer) => {
                let res = decode_ack(answer.as_str());
                proof {
                    if res is Ok {
                        assert(parsed_json(answer@) matches Some(j) && acknowledges(j));
                    }
                }
                res
            },
            Err(e) => Err(ClientError::Transport(error_message(&e))),
        }
    }

    /// Loads `url` in the browser: POST `{"url": <url>}` to the
    /// session's url endpoint.  Success reports nothing but `true`, and
    /// only for a decoded answer that is an acknowledging envelope; the
    /// page's effect is observed through later commands.
    pub fn navigate_to(&self, url: &str) -> (r: Result<bool, ClientError>)
        ensures
            r matches Ok(b) ==> b && exists|bs: Seq<char>|
                (#[trigger] parsed_json(bs)) matches Some(j) && acknowledges(j),
    {
        let path = session_url(self.id.as_str(), "/url");
        let body = build_navigate_body(url);
        match http_post(&self.client, &path, &body) {
            Ok(answer) => {
                let res = decode_ack(answer.as_str());
                proof {
                    if res is Ok {
                        assert(parsed_json(answer@) matches Some(j) && acknowledges(j));
                    }
                }
                res
            },
            Err(e) => Err(ClientError::Transport(error_message(&e))),
        }
    }

    /// The current page's title: GET on the session's title endpoint,
    /// whose envelope value must itself be a string.  A title is only
    /// ever the envelope string of a decoded server answer.
    pub fn get_title(&self) -> (r: Result<String, ClientError>)
        ensures
            r matches Ok(t) ==> exists|b: Seq<char>|
                (#[trigger] parsed_json(b)) matches Some(j) && string_value_of(j) == Some(t@),
    {
        let path = session_url(self.id.as_str(), "/title");
        match http_get(&self.client, &path) {
            Ok(answer) => {
                let res = decode_string_value(answer.as_str());
                proof {
                    match &res {
                        Ok(t) => {
                            assert(parsed_json(answer@) matches Some(j) && string_value_of(j)
                                == Some(t@));
                        },
                        Err(_) => {},
                    }
                }
                res
            },
            Err(e) => Err(ClientError::Transport(error_message(&e))),
        }
    }

    /// Locates one element by CSS selector: POST the selector to the
    /// session's element endpoint.  Zero matches is the server's "no
    /// such element" answer, which surfaces as a `Protocol` error; a
    /// handle is only ever the element reference of a decoded server
    /// answer.
    pub fn find_element_by_css(&self, selector: &str) -> (r: Result<Element, ClientError>)
        ensures
            r matches Ok(el) ==> exists|b: Seq<char>|
                (#[trigger] parsed_json(b)) matches Some(j) && element_id_of(j) == Some(el@),
    {
        let path = session_url(self.id.as_str(), "/element");
        let body = build_find_body(selector);
        match http_post(&self.client, &path, &body) {
            Ok(answer) => {
                let res = decode_element(answer.as_str());
                proof {
                    match &res {
                        Ok(el) => {
                            assert(parsed_json(answer@) matches Some(j) && element_id_of(j)
                                == Some(el@));
                        },
                        Err(_) => {},
                    }
                }
                res
            },
            Err(e) => Err(ClientError::Transport(error_message(&e))),
        }
    }

    /// Locates every element matching a CSS selector: POST the selector
    /// to the session's elements endpoint.  Zero matches is success with
    /// an empty vector, not an error; the handles are only ever the
    /// element references extracted, in order, from a decoded server
    /// answer.
    pub fn find_elements_by_css(&self, selector: &str) -> (r: Result<Vec<Element>, ClientError>)
        ensures
            r matches Ok(els) ==> exists|b: Seq<char>|
                (#[trigger] parsed_json(b)) matches Some(j) && element_ids_of(j) == Some(
                    els@.map_values(|e: Element| e@),
                ),
    {
        let path = session_url(self.id.as_str(), "/elements");
        let body = build_find_body(selector);
        match http_post(&self.client, &path, &body) {
            Ok(answer) => {
                let res = decode_elements(answer.as_str());
                proof {
                    match &res {
                        Ok(els) => {
                            assert(parsed_json(answer@) matches Some(j) && element_ids_of(j)
                                == Some(els@.map_values(|e: Element| e@)));
                        },
                        Err(_) => {},
                    }
                }
                res
            },
            Err(e) => Err(ClientError::Transport(error_message(&e))),
        }
    }

    /// Locates every element matching a CSS selector below `element`:
    /// POST the selector to the element's elements endpoint.  The
    /// handles are only ever the element references extracted, in order,
    /// from a decoded server answer.
    pub fn find_elements_from_element_by_css(&self, element: &Element, selector: &str) -> (r:
        Result<Vec<Element>, ClientError>)
        ensures
            r matches Ok(els) ==> exists|b: Seq<char>|
                (#[trigger] parsed_json(b)) matches Some(j) && element_ids_of(j) == Some(
                    els@.map_values(|e: Element| e@),
                ),
    {
        let path = element_url(self.id.as_str(), element.id(), "/elements");
        let body = build_find_body(selector);
        match http_post(&self.client, &path, &body) {
            Ok(answer) => {
                let res = decode_elements(answer.as_str());
                proof {
                    match &res {
                        Ok(els) => {
                            assert(parsed_json(answer@) matches Some(j) && element_ids_of(j)
                                == Some(els@.map_values(|e: Element| e@)));
                        },
                        Err(_) => {},
                    }
                }
                res
            },
            Err(e) => Err(ClientError::Transport(error_message(&e))),
        }
    }

    /// Types `text` into `element`: POST `{"text": <text>}` to the
    /// element's value endpoint.  Success reports nothing but `true`,
    /// and only for a decoded answer that is an acknowledging envelope.
    pub fn send_keys(&self, element: &Element, text: &str) -> (r: Result<bool, ClientError>)
        ensures
            r matches Ok(b) ==> b && exists|bs: Seq<char>|
                (#[trigger] parsed_json(bs)) matches Some(j) && acknowledges(j),
    {
        let path = element_url(self.id.as_str(), element.id(), "/value");
        let body = build_keys_body(text);
        match http_post(&self.client, &path, &body) {
            Ok(answer) => {
                let res = decode_ack(answer.as_str());
                proof {
                    if res is Ok {
                        assert(parsed_json(answer@) matches Some(j) && acknowledges(j));
                    }
                }
                res
            },
            Err(e) => Err(ClientError::Transport(error_message(&e))),
        }
    }

    /// Clicks `element`: POST an empty object to the element's click
    /// endpoint.  Success reports nothing but `true`, and only for a
    /// decoded answer that is an acknowledging envelope.
    pub fn click(&self, element: &Element) -> (r: Result<bool, ClientError>)
        ensures
            r matches Ok(b) ==> b && exists|bs: Seq<char>|
                (#[trigger] parsed_json(bs)) matches Some(j) && acknowledges(j),
    {
        let path = element_url(self.id.as_str(), element.id(), "/click");
        let body = build_empty_body();
        match http_post(&self.client, &path, &body) {
            Ok(answer) => {
                let res = decode_ack(answer.as_str());
                proof {
                    if res is Ok {
                        assert(parsed_json(answer@) matches Some(j) && acknowledges(j));
                    }
                }
                res
            },
            Err(e) => Err(ClientError::Transport(error_message(&e))),
        }
    }

    /// The visible text of `element`: GET on the element's text
    /// endpoint, whose envelope value must itself be a string.  A text
    /// is only ever the envelope string of a decoded server answer.
    pub fn get_element_text_by_css(&self, element: &Element) -> (r: Result<String, ClientError>)
        ensures
            r matches Ok(t) ==> exists|b: Seq<char>|
                (#[trigger] parsed_json(b)) matches Some(j) && string_value_of(j) == Some(t@),
    {
        let path = element_url(self.id.as_str(), element.id(), "/text");
        match http_get(&self.client, &path) {
            Ok(answer) => {
                let res = decode_string_value(answer.as_str());
                proof {
                    match &res {
                        Ok(t) => {
                            assert(parsed_json(answer@) matches Some(j) && string_value_of(j)
                                == Some(t@));
                        },
                        Err(_) => {},
                    }
                }
                res
            },
            Err(e) => Err(ClientError::Transport(error_message(&e))),
        }
    }
}

/// Asks the server whether it is ready to take a new session: GET on the
/// status endpoint, whose `value.ready` flag must be a boolean.  A single
/// probe, never retried: the caller owns the retry policy.  A reported
/// readiness is only ever the `value.ready` flag of a decoded server
/// answer.
pub fn get_status() -> (r: Result<bool, ClientError>)
    ensures
        r matches Ok(rdy) ==> exists|b: Seq<char>|
            (#[trigger] parsed_json(b)) matches Some(j) && ready_flag(j) == Some(rdy),
{
    let url = status_url();
    match http_plain_get(&url) {
        Ok(answer) => {
            let res = decode_status(answer.as_str());
            proof {
                match &res {
                    Ok(rdy) => {
                        assert(parsed_json(answer@) matches Some(j) && ready_flag(j) == Some(
                            *rdy,
                        ));
                    },
                    Err(_) => {},
                }
            }
            res
        },
        Err(e) => Err(ClientError::Transport(error_message(&e))),
    }
}

} // verus!
