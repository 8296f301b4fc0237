//! The acknowledgement that answers each inbound change on its socket.

use crate::error::AppError;
use crate::error::AppResult;
use crate::text::decimal;
use crate::text::decimal_text;
use crate::text::digit_char;
use vstd::prelude::*;
use vstd::utf8::encode_utf8;

verus! {

/// The envelope of an acknowledgement: a status and a message.
#[derive(Debug, Clone, PartialEq, Eq)]
pub struct WsResponse {
    pub status: u16,
    pub message: String,
}

/// The status that answers `outcome`: 200 for success, else the error's.
pub open spec fn ack_status<T>(outcome: AppResult<T>) -> u16 {
    match outcome {
        Ok(_) => 200,
        Err(error) => error.spec_status_code(),
    }
}

/// The message that answers `outcome`: `Ok` for success, else the error's.
pub open spec fn ack_message<T>(outcome: AppResult<T>) -> Seq<char> {
    match outcome {
        Ok(_) => "Ok"@,
        Err(error) => error.spec_message(),
    }
}

/// The lower-case hexadecimal digit of `d`.
pub open spec fn hex_digit(d: nat) -> char
    recommends
        d < 16,
{
    if d < 10 {
        digit_char(d)
    } else if d == 10 {
        'a'
    } else if d == 11 {
        'b'
    } else if d == 12 {
        'c'
    } else if d == 13 {
        'd'
    } else if d == 14 {
        'e'
    } else {
        'f'
    }
}

/// How one character stands in a JSON string literal: the quote and the
/// backslash after a backslash, a control character below U+0020 as its
/// short escape or as `\u00` and two hexadecimal digits, and every other
/// character as itself.
pub open spec fn json_escape(c: char) -> Seq<char> {
    if c == '"' {
        seq!['\\', '"']
    } else if c == '\\' {
        seq!['\\', '\\']
    } else if c == '\u{8}' {
        seq!['\\', 'b']
    } else if c == '\t' {
        seq!['\\', 't']
    } else if c == '\n' {
        seq!['\\', 'n']
    } else if c == '\u{c}' {
        seq!['\\', 'f']
    } else if c == '\r' {
        seq!['\\', 'r']
    } else if (c as u32) < 0x20 {
        seq![
            '\\',
            'u',
            '0',
            '0',
            hex_digit(((c as u32) / 16) as nat),
            hex_digit(((c as u32) % 16) as nat),
        ]
    } else {
        seq![c]
    }
}

/// The characters of `text`, each as it stands in a JSON string literal.
pub open spec fn json_escaped(text: Seq<char>) -> Seq<char>
    decreases text.len(),
{
    if text.len() == 0 {
        Seq::empty()
    } else {
        json_escaped(text.drop_last()) + json_escape(text.last())
    }
}

/// `text` as a JSON string literal: its characters, escaped where JSON
/// asks for it, between quotes.
pub open spec fn json_string(text: Seq<char>) -> Seq<char> {
    seq!['"'] + json_escaped(text) + seq!['"']
}

/// `serde_json::to_string` on a string slice, which cannot fail: the JSON
/// string literal for `text`.
#[verifier::external_body]
fn json_quote(text: &str) -> (quoted: String)
    ensures
        quoted@ == json_string(text@),
{
    serde_json::to_string(text).unwrap_or_default()
}

/// The JSON object of an acknowledgement: the status as a number, then the
/// message as a string, without white space.
pub open spec fn ack_text(status: u16, message: Seq<char>) -> Seq<char> {
    "{\"status\":"@ + decimal(status as nat) + ",\"message\":"@ + json_string(message) + "}"@
}

/// The bytes of the binary frame that acknowledges `outcome`.
pub open spec fn ack_frame<T>(outcome: AppResult<T>) -> Seq<u8> {
    encode_utf8(ack_text(ack_status(outcome), ack_message(outcome)))
}

/// Writes the JSON object of an acknowledgement whose message is already a
/// JSON string literal.
pub fn frame_ack(status: u16, quoted_message: &str) -> (text: String)
    ensures
        text@ == "{\"status\":"@ + decimal(status as nat) + ",\"message\":"@ + quoted_message@
            + "}"@,
{
    let mut text = "{\"status\":".to_owned();
    let number = decimal_text(status as u32);
    text.append(number.as_str());
    text.append(",\"message\":");
    text.append(quoted_message);
    text.append("}");
    text
}

/// A message without a quote, a backslash or a control character stands
/// in its acknowledgement as it is, between quotes.
pub proof fn lemma_plain_message(message: Seq<char>)
    requires
        forall|i: int|
            0 <= i < message.len() ==> (#[trigger] message[i]) != '"' && message[i] != '\\'
                && message[i] as u32 >= 0x20,
    ensures
        json_escaped(message) == message,
        json_string(message) == seq!['"'] + message + seq!['"'],
    decreases message.len(),
{
    if message.len() > 0 {
        let front = message.drop_last();
        lemma_plain_message(front);
        assert(json_escape(message.last()) == seq![message.last()]);
        assert(message == front + seq![message.last()]);
    } else {
        assert(message == Seq::<char>::empty());
    }
}

/// Success is acknowledged with the text `{"status":200,"message":"Ok"}`.
pub proof fn lemma_ok_ack_text()
    ensures
        ack_text(200, "Ok"@) == "{\"status\":200,\"message\":\"Ok\"}"@,
{
    reveal_strlit("Ok");
    reveal_strlit("{\"status\":");
    reveal_strlit(",\"message\":");
    reveal_strlit("}");
    reveal_strlit("{\"status\":200,\"message\":\"Ok\"}");
    lemma_plain_message("Ok"@);
    assert(decimal(2) == seq!['2']);
    assert(decimal(20) == seq!['2', '0']) by {
        assert(20nat / 10 == 2 && 20nat % 10 == 0);
    }
    assert(decimal(200) == seq!['2', '0', '0']) by {
        assert(200nat / 10 == 20 && 200nat % 10 == 0);
    }
    assert(json_string("Ok"@) == seq!['"', 'O', 'k', '"']);
}

impl WsResponse {
    /// The acknowledgement of an outcome.
    pub fn from_result<T>(outcome: &AppResult<T>) -> (response: Self)
        ensures
            response.status == ack_status(*outcome),
            response.message@ == ack_message(*outcome),
    {
        match outcome {
            Ok(_) => WsResponse { status: 200, message: "Ok".to_owned() },
            Err(error) => WsResponse { status: error.status_code(), message: error.message() },
        }
    }

    /// The acknowledgement as text.
    pub fn to_json_text(&self) -> (text: String)
        ensures
            text@ == ack_text(self.status, self.message@),
    {
        let quoted = json_quote(self.message.as_str());
        frame_ack(self.status, quoted.as_str())
    }

    /// The acknowledgement as the bytes of a binary frame.
    pub fn to_json(&self) -> (bytes: Vec<u8>)
        ensures
            bytes@ == encode_utf8(ack_text(self.status, self.message@)),
    {
        self.to_json_text().as_str().as_bytes_vec()
    }
}

/// The binary frame that acknowledges `outcome`.
pub fn acknowledge<T>(outcome: &AppResult<T>) -> (frame: Vec<u8>)
    ensures
        frame@ == ack_frame(*outcome),
{
    WsResponse::from_result(outcome).to_json()
}

} // verus!
