//! A client library for the W3C WebDriver remote-automation protocol.
//!
//! The library drives a browser through a locally running WebDriver server
//! (such as geckodriver): it creates a session, navigates, locates DOM
//! elements and interacts with them, issuing one HTTP command per operation
//! and interpreting the server's JSON responses.
//!
//! The JSON responses are modelled by [`Json`], and every response
//! interpreter carries a contract that pins down exactly which response
//! shapes succeed and which yield an error.

pub mod element;
pub mod json;
pub mod protocol;
pub mod request;
pub mod session;
pub mod transport;

pub use element::Element;
pub use json::Json;
pub use protocol::ClientError;
pub use session::Session;
pub use session::get_status;
