//! The two messages that the transport sends on its own account: the
//! handshake that opens a session and the close notice that ends it.

use crate::frame::{encode, encoding, write_frame, FrameError, Opcode};
use vstd::prelude::*;
use vstd::string::*;
use vstd::utf8::*;

verus! {

/// The lower-case hexadecimal digit for `n`.
pub open spec fn hex_digit(n: int) -> char
    recommends
        0 <= n < 16,
{
    if n < 10 {
        (0x30 + n) as char
    } else {
        (0x57 + n) as char
    }
}

/// What stands for the character `c` inside a JSON string literal: the
/// character itself, but for the double quote, the backslash and the
/// characters below the space, which are escaped.
pub open spec fn json_escaped(c: char) -> Seq<char> {
    if c == '"' {
        seq!['\\', '"']
    } else if c == '\\' {
        seq!['\\', '\\']
    } else if c == '\u{8}' {
        seq!['\\', 'b']
    } else if c == '\u{9}' {
        seq!['\\', 't']
    } else if c == '\u{a}' {
        seq!['\\', 'n']
    } else if c == '\u{c}' {
        seq!['\\', 'f']
    } else if c == '\u{d}' {
        seq!['\\', 'r']
    } else if (c as int) < 0x20 {
        seq!['\\', 'u', '0', '0', hex_digit(c as int / 16), hex_digit(c as int % 16)]
    } else {
        seq![c]
    }
}

/// The characters of `s`, each as it stands inside a JSON string literal.
pub open spec fn json_escaped_text(s: Seq<char>) -> Seq<char>
    decreases s.len(),
{
    if s.len() == 0 {
        Seq::empty()
    } else {
        json_escaped_text(s.drop_last()) + json_escaped(s.last())
    }
}

/// The JSON string literal for the text `s`: the escaped text in double
/// quotes.
pub open spec fn json_string(s: Seq<char>) -> Seq<char> {
    seq!['"'] + json_escaped_text(s) + seq!['"']
}

/// No character of `s` is escaped inside a JSON string literal.
pub open spec fn is_plain(s: Seq<char>) -> bool {
    forall|i: int| 0 <= i < s.len() ==> json_escaped(#[trigger] s[i]) == seq![s[i]]
}

/// A text without a double quote, a backslash or a character below the space
/// stands in its JSON string literal as it is.
pub proof fn lemma_json_string_plain(s: Seq<char>)
    requires
        is_plain(s),
    ensures
        json_escaped_text(s) == s,
        json_string(s) == seq!['"'] + s + seq!['"'],
    decreases s.len(),
{
    if s.len() > 0 {
        lemma_json_string_plain(s.drop_last());
        assert(s.drop_last() + seq![s.last()] =~= s);
    }
}

/// Trusted: `serde_json::Value::String(..).to_string()`, the compact JSON
/// rendering of a string value. It writes a double quote, then the text with
/// `"` and `\` behind a backslash, backspace, tab, line feed, form feed and
/// carriage return as `\b`, `\t`, `\n`, `\f` and `\r`, every other
/// character below the space as `\u00` and two lower-case hexadecimal
/// digits, and all others as they are, then a double quote.
#[verifier::external_body]
fn quote(s: &str) -> (text: String)
    ensures
        text@ == json_string(s@),
{
    serde_json::Value::String(s.to_owned()).to_string()
}

/// Trusted: `serde_json::Value::Object(..).to_string()` on an empty
/// `serde_json::Map`. The compact rendering of an object without members is
/// an opening and a closing brace.
#[verifier::external_body]
fn empty_object() -> (text: String)
    ensures
        text@ == seq!['{', '}'],
{
    serde_json::Value::Object(serde_json::Map::new()).to_string()
}

/// The handshake payload around an already quoted client id: a JSON object
/// that names protocol version 1 and the client.
pub open spec fn handshake_text(quoted_id: Seq<char>) -> Seq<char> {
    "{\"v\":1,\"client_id\":"@ + quoted_id + "}"@
}

/// Puts an already quoted client id into the handshake payload.
pub fn handshake_payload_around(quoted_id: &str) -> (text: String)
    ensures
        text@ == handshake_text(quoted_id@),
{
    let mut text = String::from_str("{\"v\":1,\"client_id\":");
    text.append(quoted_id);
    text.append("}");
    text
}

/// The handshake payload for the client `client_id`.
pub fn handshake_payload(client_id: &str) -> (text: String)
    ensures
        text@ == handshake_text(json_string(client_id@)),
{
    let quoted = quote(client_id);
    handshake_payload_around(quoted.as_str())
}

/// For a client id that needs no escaping, the handshake payload is the id in
/// double quotes inside the fixed text, and is 22 characters longer than the
/// id.
pub proof fn lemma_handshake_plain(client_id: Seq<char>)
    requires
        is_plain(client_id),
    ensures
        handshake_text(json_string(client_id)) == "{\"v\":1,\"client_id\":\""@ + client_id
            + "\"}"@,
        handshake_text(json_string(client_id)).len() == client_id.len() + 22,
{
    lemma_json_string_plain(client_id);
    reveal_strlit("{\"v\":1,\"client_id\":");
    reveal_strlit("}");
    reveal_strlit("{\"v\":1,\"client_id\":\"");
    reveal_strlit("\"}");
    assert(handshake_text(json_string(client_id)) =~= "{\"v\":1,\"client_id\":\""@ + client_id
        + "\"}"@);
}

/// The wire bytes of the frame that carries `payload` under `opcode`. Fails
/// only for a payload whose encoded length does not fit in the length field.
pub fn text_frame(opcode: Opcode, payload: &str) -> (res: Result<Vec<u8>, FrameError>)
    ensures
        match res {
            Ok(bytes) => encode_utf8(payload@).len() <= u32::MAX && bytes@ == encoding(
                opcode.spec_code(),
                encode_utf8(payload@),
            ),
            Err(e) => encode_utf8(payload@).len() > u32::MAX && e == FrameError::PayloadTooLarge,
        },
{
    encode(opcode.code(), payload.as_bytes())
}

/// The handshake frame for the client `client_id`.
pub fn handshake_frame(client_id: &str) -> (res: Result<Vec<u8>, FrameError>)
    ensures
        ({
            let payload = encode_utf8(handshake_text(json_string(client_id@)));
            match res {
                Ok(bytes) => payload.len() <= u32::MAX && bytes@ == encoding(
                    Opcode::Handshake.spec_code(),
                    payload,
                ),
                Err(e) => payload.len() > u32::MAX && e == FrameError::PayloadTooLarge,
            }
        }),
{
    let payload = handshake_payload(client_id);
    text_frame(Opcode::Handshake, payload.as_str())
}

/// The close frame: opcode `Close` with an empty JSON object as payload.
pub fn close_frame() -> (bytes: Vec<u8>)
    ensures
        bytes@ == encoding(Opcode::Close.spec_code(), seq![0x7bu8, 0x7du8]),
        bytes@ == seq![2u8, 0u8, 0u8, 0u8, 2u8, 0u8, 0u8, 0u8, 0x7bu8, 0x7du8],
{
    let payload = empty_object();
    proof {
        is_ascii_chars_encode_utf8(payload@);
        assert(encode_utf8(payload@) =~= seq![0x7bu8, 0x7du8]);
    }
    let bytes = write_frame(Opcode::Close.code(), payload.as_str().as_bytes());
    assert(bytes@ =~= seq![2u8, 0u8, 0u8, 0u8, 2u8, 0u8, 0u8, 0u8, 0x7bu8, 0x7du8]);
    bytes
}

} // verus!
