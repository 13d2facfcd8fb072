//! Construction of the HTTP requests a WebDriver command issues.
//!
//! Every command is addressed by a URL under the server's base address and
//! most carry a small JSON object body.  Both are built here as byte
//! vectors, with contracts that pin the exact bytes produced: the URL is
//! the concatenation of the fixed route pieces and the identifiers, and a
//! body embeds its string argument as a JSON string literal, escaped as
//! JSON requires.

use vstd::prelude::*;
use vstd::string::StringSliceAdditionalSpecFns;
use vstd::utf8::encode_utf8;

verus! {

/// The URL of one command scoped to a session: the session route followed
/// by the session id and the command's suffix.
pub open spec fn session_command_url(id: Seq<char>, suffix: Seq<char>) -> Seq<u8> {
    "http://localhost:4444/session/".spec_bytes() + encode_utf8(id) + encode_utf8(suffix)
}

/// The URL of one command scoped to an element of a session.
pub open spec fn element_command_url(id: Seq<char>, eid: Seq<char>, suffix: Seq<char>) -> Seq<
    u8,
> {
    "http://localhost:4444/session/".spec_bytes() + encode_utf8(id) + "/element/".spec_bytes()
        + encode_utf8(eid) + encode_utf8(suffix)
}

/// The hexadecimal digit for `n`, lower case.
pub open spec fn hex_digit(n: u8) -> u8 {
    if n < 10 {
        (0x30 + n) as u8
    } else {
        (0x57 + n) as u8
    }
}

/// How one byte of a string appears inside a JSON string literal: quote
/// and backslash get a backslash escape, control bytes a `\u00XX` escape,
/// and every other byte stands for itself.
pub open spec fn escape_byte(b: u8) -> Seq<u8> {
    if b == 0x22 {
        seq![0x5cu8, 0x22u8]
    } else if b == 0x5c {
        seq![0x5cu8, 0x5cu8]
    } else if b < 0x20 {
        seq![0x5cu8, 0x75u8, 0x30u8, 0x30u8, hex_digit(b / 16), hex_digit(b % 16)]
    } else {
        seq![b]
    }
}

/// A byte string escaped for use inside a JSON string literal.
pub open spec fn escaped(s: Seq<u8>) -> Seq<u8>
    decreases s.len(),
{
    if s.len() == 0 {
        Seq::empty()
    } else {
        escaped(s.drop_last()) + escape_byte(s.last())
    }
}

/// A byte string as a JSON string literal: escaped and quoted.
pub open spec fn quoted(s: Seq<u8>) -> Seq<u8> {
    seq![0x22u8] + escaped(s) + seq![0x22u8]
}

/// The body of a navigation command: `{"url": <url>}`.
pub open spec fn navigate_body(url: Seq<char>) -> Seq<u8> {
    "{\"url\":".spec_bytes() + quoted(encode_utf8(url)) + "}".spec_bytes()
}

/// The body of a find-element command: a CSS selector locator strategy.
pub open spec fn find_body(selector: Seq<char>) -> Seq<u8> {
    "{\"using\":\"css selector\",\"value\":".spec_bytes() + quoted(encode_utf8(selector))
        + "}".spec_bytes()
}

/// The body of a send-keys command: `{"text": <text>}`.
pub open spec fn keys_body(text: Seq<char>) -> Seq<u8> {
    "{\"text\":".spec_bytes() + quoted(encode_utf8(text)) + "}".spec_bytes()
}

/// Appends a byte slice to a buffer.
fn append_bytes(buf: &mut Vec<u8>, s: &[u8])
    ensures
        final(buf)@ == old(buf)@ + s@,
{
    let mut i: usize = 0;
    while i < s.len()
        invariant
            i <= s@.len(),
            buf@ == old(buf)@ + s@.take(i as int),
        decreases s@.len() - i,
    {
        buf.push(s[i]);
        proof {
            assert(s@.take(i as int + 1) =~= s@.take(i as int).push(s@[i as int]));
            assert(buf@ =~= old(buf)@ + s@.take(i as int + 1));
        }
        i += 1;
    }
    proof {
        assert(s@.take(s@.len() as int) =~= s@);
    }
}

/// Appends the UTF-8 bytes of a string to a buffer.
fn append_str(buf: &mut Vec<u8>, s: &str)
    ensures
        final(buf)@ == old(buf)@ + s.spec_bytes(),
{
    append_bytes(buf, s.as_bytes());
}

/// The hexadecimal digit for `n`, lower case.
fn hex_digit_exec(n: u8) -> (r: u8)
    requires
        n < 16,
    ensures
        r == hex_digit(n),
{
    if n < 10 {
        0x30 + n
    } else {
        0x57 + n
    }
}

/// Appends a byte slice to a buffer in JSON string-literal escaping.
fn append_escaped(buf: &mut Vec<u8>, s: &[u8])
    ensures
        final(buf)@ == old(buf)@ + escaped(s@),
{
    let mut i: usize = 0;
    while i < s.len()
        invariant
            i <= s@.len(),
            buf@ == old(buf)@ + escaped(s@.take(i as int)),
        decreases s@.len() - i,
    {
        let b = s[i];
        proof {
            assert(s@.take(i as int + 1).drop_last() =~= s@.take(i as int));
            assert(s@.take(i as int + 1).last() == s@[i as int]);
        }
        if b == 0x22 {
            buf.push(0x5c);
            buf.push(0x22);
        } else if b == 0x5c {
            buf.push(0x5c);
            buf.push(0x5c);
        } else if b < 0x20 {
            buf.push(0x5c);
            buf.push(0x75);
            buf.push(0x30);
            buf.push(0x30);
            buf.push(hex_digit_exec(b / 16));
            buf.push(hex_digit_exec(b % 16));
        } else {
            buf.push(b);
        }
        proof {
            assert(buf@ =~= old(buf)@ + escaped(s@.take(i as int + 1)));
        }
        i += 1;
    }
    proof {
        assert(s@.take(s@.len() as int) =~= s@);
    }
}

/// Appends a string as a JSON string literal: quoted and escaped.
fn append_quoted(buf: &mut Vec<u8>, s: &str)
    ensures
        final(buf)@ == old(buf)@ + quoted(s.spec_bytes()),
{
    buf.push(0x22);
    append_escaped(buf, s.as_bytes());
    buf.push(0x22);
    proof {
        assert(final(buf)@ =~= old(buf)@ + quoted(s.spec_bytes()));
    }
}

/// The URL of the server's readiness endpoint.
pub fn status_url() -> (r: Vec<u8>)
    ensures
        r@ == "http://localhost:4444/status".spec_bytes(),
{
    let mut buf: Vec<u8> = Vec::new();
    append_str(&mut buf, "http://localhost:4444/status");
    proof {
        assert(buf@ =~= "http://localhost:4444/status".spec_bytes());
    }
    buf
}

/// The URL of the session-creation endpoint.
pub fn create_session_url() -> (r: Vec<u8>)
    ensures
        r@ == "http://localhost:4444/session".spec_bytes(),
{
    let mut buf: Vec<u8> = Vec::new();
    append_str(&mut buf, "http://localhost:4444/session");
    proof {
        assert(buf@ =~= "http://localhost:4444/session".spec_bytes());
    }
    buf
}

/// The URL of a command scoped to the session `id`.
pub fn session_url(id: &str, suffix: &str) -> (r: Vec<u8>)
    ensures
        r@ == session_command_url(id@, suffix@),
{
    let mut buf: Vec<u8> = Vec::new();
    append_str(&mut buf, "http://localhost:4444/session/");
    append_str(&mut buf, id);
    append_str(&mut buf, suffix);
    proof {
        assert(buf@ =~= session_command_url(id@, suffix@));
    }
    buf
}

/// The URL of a command scoped to the element `eid` of the session `id`.
pub fn element_url(id: &str, eid: &str, suffix: &str) -> (r: Vec<u8>)
    ensures
        r@ == element_command_url(id@, eid@, suffix@),
{
    let mut buf: Vec<u8> = Vec::new();
    append_str(&mut buf, "http://localhost:4444/session/");
    append_str(&mut buf, id);
    append_str(&mut buf, "/element/");
    append_str(&mut buf, eid);
    append_str(&mut buf, suffix);
    proof {
        assert(buf@ =~= element_command_url(id@, eid@, suffix@));
    }
    buf
}

/// The empty JSON object body used by session creation and click.
pub fn build_empty_body() -> (r: Vec<u8>)
    ensures
        r@ == "{}".spec_bytes(),
{
    let mut buf: Vec<u8> = Vec::new();
    append_str(&mut buf, "{}");
    proof {
        assert(buf@ =~= "{}".spec_bytes());
    }
    buf
}

/// The body of a navigation command.
pub fn build_navigate_body(url: &str) -> (r: Vec<u8>)
    ensures
        r@ == navigate_body(url@),
{
    let mut buf: Vec<u8> = Vec::new();
    append_str(&mut buf, "{\"url\":");
    append_quoted(&mut buf, url);
    append_str(&mut buf, "}");
    proof {
        assert(buf@ =~= navigate_body(url@));
    }
    buf
}

/// The body of a find-element command.
pub fn build_find_body(selector: &str) -> (r: Vec<u8>)
    ensures
        r@ == find_body(selector@),
{
    let mut buf: Vec<u8> = Vec::new();
    append_str(&mut buf, "{\"using\":\"css selector\",\"value\":");
    append_quoted(&mut buf, selector);
    append_str(&mut buf, "}");
    proof {
        assert(buf@ =~= find_body(selector@));
    }
    buf
}

/// The body of a send-keys command.
pub fn build_keys_body(text: &str) -> (r: Vec<u8>)
    ensures
        r@ == keys_body(text@),
{
    let mut buf: Vec<u8> = Vec::new();
    append_str(&mut buf, "{\"text\":");
    append_quoted(&mut buf, text);
    append_str(&mut buf, "}");
    proof {
        assert(buf@ =~= keys_body(text@));
    }
    buf
}

} // verus!
