//! Interpretation of WebDriver response bodies, and the errors it yields.
//!
//! Each command's response interpreter states exactly which decoded
//! documents succeed, what they yield, and that every other document
//! comes back as a [`ClientError::Protocol`] error carrying the document
//! itself for diagnosis.  The `decode_*` functions run the same
//! interpreters on the raw body text: a body that is not JSON yields a
//! [`ClientError::Transport`] error carrying the text.

use vstd::prelude::*;

use crate::element::Element;
use crate::json::Json;
use crate::json::acknowledges;
use crate::json::element_id_of;
use crate::json::element_ids_of;
use crate::json::extract_ack;
use crate::json::extract_element_id;
use crate::json::extract_element_ids;
use crate::json::extract_ready;
use crate::json::extract_session_id;
use crate::json::extract_string_value;
use crate::json::ready_flag;
use crate::json::session_id_of;
use crate::json::string_value_of;
use crate::transport::parse_json;
use crate::transport::parsed_json;

verus! {

/// Why a command failed.  The two kinds are disjoint: `Transport` means
/// the HTTP exchange itself failed or its body was not JSON, and carries
/// the transport's message or the raw body; `Protocol` means the body
/// decoded as JSON but did not have the shape the command expects, and
/// carries the decoded document — the only diagnostic available.
#[derive(Debug, PartialEq, Eq)]
pub enum ClientError {
    Transport(String),
    Protocol(Json),
}

impl ClientError {
    /// Whether this is a transport-level failure.
    pub fn is_transport(&self) -> (r: bool)
        ensures
            r == (self matches ClientError::Transport(_)),
    {
        match self {
            ClientError::Transport(_) => true,
            ClientError::Protocol(_) => false,
        }
    }

    /// Whether this is a protocol-level failure.
    pub fn is_protocol(&self) -> (r: bool)
        ensures
            r == (self matches ClientError::Protocol(_)),
    {
        match self {
            ClientError::Transport(_) => false,
            ClientError::Protocol(_) => true,
        }
    }
}

/// Reads a status response: yields the `value.ready` flag, and a
/// `Protocol` error carrying the document when the flag is absent or not
/// a boolean.
pub fn interpret_status(resp: Json) -> (r: Result<bool, ClientError>)
    ensures
        match r {
            Ok(b) => ready_flag(resp) == Some(b),
            Err(e) => ready_flag(resp) is None && e == ClientError::Protocol(resp),
        },
{
    match extract_ready(&resp) {
        Some(b) => Ok(b),
        None => Err(ClientError::Protocol(resp)),
    }
}

/// Reads a session-creation response: yields the `value.sessionId`
/// string, whatever other members stand beside it, and a `Protocol`
/// error carrying the document when it is absent or not a string.
pub fn interpret_session_id(resp: Json) -> (r: Result<String, ClientError>)
    ensures
        match r {
            Ok(sid) => session_id_of(resp) == Some(sid@),
            Err(e) => session_id_of(resp) is None && e == ClientError::Protocol(resp),
        },
{
    match extract_session_id(&resp) {
        Some(sid) => Ok(sid),
        None => Err(ClientError::Protocol(resp)),
    }
}

/// Reads a singular find-element response: the envelope value must be an
/// object whose first member's value is a string — the member's key name
/// is deliberately not assumed.  Anything else, a "no such element"
/// error document included, is a `Protocol` error carrying the document.
pub fn interpret_element(resp: Json) -> (r: Result<Element, ClientError>)
    ensures
        match r {
            Ok(el) => element_id_of(resp) == Some(el@),
            Err(e) => element_id_of(resp) is None && e == ClientError::Protocol(resp),
        },
{
    match extract_element_id(&resp) {
        Some(id) => Ok(Element::from_id(id)),
        None => Err(ClientError::Protocol(resp)),
    }
}

/// Reads a plural find-elements response: the envelope value must be an
/// array, whose members yield element handles in order; a member without
/// a string-valued first member is skipped, not fatal.  An empty array
/// yields an empty vector with no error; a non-array envelope value is a
/// `Protocol` error carrying the document.
pub fn interpret_elements(resp: Json) -> (r: Result<Vec<Element>, ClientError>)
    ensures
        match r {
            Ok(els) => element_ids_of(resp) == Some(els@.map_values(|e: Element| e@)),
            Err(e) => element_ids_of(resp) is None && e == ClientError::Protocol(resp),
        },
{
    match extract_element_ids(&resp) {
        Some(ids) => {
            let mut els: Vec<Element> = Vec::new();
            let mut i: usize = 0;
            while i < ids.len()
                invariant
                    i <= ids@.len(),
                    els@.len() == i,
                    forall|k: int| 0 <= k < i ==> els@[k]@ == ids@[k]@,
                decreases ids@.len() - i,
            {
                let id = ids[i].clone();
                els.push(Element::from_id(id));
                i += 1;
            }
            proof {
                assert(els@.map_values(|e: Element| e@) =~= ids@.map_values(|s: String| s@));
            }
            Ok(els)
        },
        None => Err(ClientError::Protocol(resp)),
    }
}

/// Reads a response whose envelope value is itself a string, as get-title
/// and element-text responses are; any other shape is a `Protocol` error
/// carrying the document.
pub fn interpret_string_value(resp: Json) -> (r: Result<String, ClientError>)
    ensures
        match r {
            Ok(s) => string_value_of(resp) == Some(s@),
            Err(e) => string_value_of(resp) is None && e == ClientError::Protocol(resp),
        },
{
    match extract_string_value(&resp) {
        Some(s) => Ok(s),
        None => Err(ClientError::Protocol(resp)),
    }
}

/// Decodes a status response body.
pub fn decode_status(body: &str) -> (r: Result<bool, ClientError>)
    ensures
        match parsed_json(body@) {
            Some(j) => match r {
                Ok(b) => ready_flag(j) == Some(b),
                Err(e) => ready_flag(j) is None && e == ClientError::Protocol(j),
            },
            None => match r {
                Err(ClientError::Transport(m)) => m@ == body@,
                _ => false,
            },
        },
{
    match parse_json(body) {
        Some(j) => interpret_status(j),
        None => Err(ClientError::Transport(body.to_owned())),
    }
}

/// Decodes a session-creation response body.
pub fn decode_session_id(body: &str) -> (r: Result<String, ClientError>)
    ensures
        match parsed_json(body@) {
            Some(j) => match r {
                Ok(sid) => session_id_of(j) == Some(sid@),
                Err(e) => session_id_of(j) is None && e == ClientError::Protocol(j),
            },
            None => match r {
                Err(ClientError::Transport(m)) => m@ == body@,
                _ => false,
            },
        },
{
    match parse_json(body) {
        Some(j) => interpret_session_id(j),
        None => Err(ClientError::Transport(body.to_owned())),
    }
}

/// Decodes a singular find-element response body.
pub fn decode_element(body: &str) -> (r: Result<Element, ClientError>)
    ensures
        match parsed_json(body@) {
            Some(j) => match r {
                Ok(el) => element_id_of(j) == Some(el@),
                Err(e) => element_id_of(j) is None && e == ClientError::Protocol(j),
            },
            None => match r {
                Err(ClientError::Transport(m)) => m@ == body@,
                _ => false,
            },
        },
{
    match parse_json(body) {
        Some(j) => interpret_element(j),
        None => Err(ClientError::Transport(body.to_owned())),
    }
}

/// Decodes a plural find-elements response body.
pub fn decode_elements(body: &str) -> (r: Result<Vec<Element>, ClientError>)
    ensures
        match parsed_json(body@) {
            Some(j) => match r {
                Ok(els) => element_ids_of(j) == Some(els@.map_values(|e: Element| e@)),
                Err(e) => element_ids_of(j) is None && e == ClientError::Protocol(j),
            },
            None => match r {
                Err(ClientError::Transport(m)) => m@ == body@,
                _ => false,
            },
        },
{
    match parse_json(body) {
        Some(j) => interpret_elements(j),
        None => Err(ClientError::Transport(body.to_owned())),
    }
}

/// Decodes a get-title or element-text response body.
pub fn decode_string_value(body: &str) -> (r: Result<String, ClientError>)
    ensures
        match parsed_json(body@) {
            Some(j) => match r {
                Ok(s) => string_value_of(j) == Some(s@),
                Err(e) => string_value_of(j) is None && e == ClientError::Protocol(j),
            },
            None => match r {
                Err(ClientError::Transport(m)) => m@ == body@,
                _ => false,
            },
        },
{
    match parse_json(body) {
        Some(j) => interpret_string_value(j),
        None => Err(ClientError::Transport(body.to_owned())),
    }
}

/// Decodes the body of a command whose effect, not whose payload, is the
/// point — navigate, click, send-keys, delete-session.  The command is
/// acknowledged exactly by a `{"value": ...}` envelope whose value is
/// not an error document; the envelope's contents are not otherwise
/// inspected.  Any other decoded document is a `Protocol` error carrying
/// it, so a server's error answer never reads as success.
pub fn decode_ack(body: &str) -> (r: Result<bool, ClientError>)
    ensures
        match parsed_json(body@) {
            Some(j) => match r {
                Ok(b) => acknowledges(j) && b,
                Err(e) => !acknowledges(j) && e == ClientError::Protocol(j),
            },
            None => match r {
                Err(ClientError::Transport(m)) => m@ == body@,
                _ => false,
            },
        },
{
    match parse_json(body) {
        Some(j) => {
            if extract_ack(&j) {
                Ok(true)
            } else {
                Err(ClientError::Protocol(j))
            }
        },
        None => Err(ClientError::Transport(body.to_owned())),
    }
}

} // verus!
