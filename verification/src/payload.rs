//! Turning message content into the bytes that go on the wire, and bytes read
//! from the wire into text.

use crate::hex::{hex_decode, hex_decoded};
use crate::message::{bytes_content, bytes_from_vec, MessageContent, MessageType};
use bytes::Bytes;
use vstd::prelude::*;
use vstd::string::StrSliceExecFns;
use vstd::utf8::{encode_utf8, valid_utf8};

verus! {

/// The bytes that stand for a message on the wire: the UTF-8 encoding of
/// text, binary data as it is, the bytes that hex digits spell. Lifecycle
/// notices and hex text that does not decode have none.
pub open spec fn encoded(content: MessageContent) -> Option<Seq<u8>> {
    match content {
        MessageContent::Text(text) => Some(encode_utf8(text)),
        MessageContent::Binary(data) => Some(data),
        MessageContent::Hex(digits) => hex_decoded(digits),
        MessageContent::ClientConnected => None,
        MessageContent::ClientDisconnected => None,
    }
}

/// Encodes a message for sending, or returns `None` where it has no encoding
/// and is to be dropped.
pub fn encode_payload(message: MessageType) -> (r: Option<Bytes>)
    ensures
        match r {
            Some(data) => encoded(message@) == Some(bytes_content(data)),
            None => encoded(message@) is None,
        },
{
    match message {
        MessageType::Text(text) => Some(bytes_from_vec(text.as_str().as_bytes_vec())),
        MessageType::Binary(data) => Some(data),
        MessageType::Hex(digits) => match hex_decode(digits.as_str()) {
            Some(data) => Some(bytes_from_vec(data)),
            None => None,
        },
        MessageType::ClientConnected => None,
        MessageType::ClientDisconnected => None,
    }
}

/// The text that `String::from_utf8_lossy` makes of `bytes`.
pub uninterp spec fn lossy_text(bytes: Seq<u8>) -> Seq<char>;

/// Reads bytes as text with `String::from_utf8_lossy`, which never fails:
/// valid UTF-8 comes back as the text it encodes, and each malformed sequence
/// is replaced by U+FFFD.
#[verifier::external_body]
pub(crate) fn decode_lossy(data: &[u8]) -> (text: String)
    ensures
        text@ == lossy_text(data@),
        valid_utf8(data@) ==> encode_utf8(text@) == data@,
{
    String::from_utf8_lossy(data).into_owned()
}

} // verus!
