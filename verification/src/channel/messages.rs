//! The two messages of the protocol and their wire format.
//!
//! A payload is one byte, the tag, that tells which message it is, followed
//! by the node identifier in UTF-8, which runs to the end of the payload:
//!
//! ```text
//! payload := tag node_id
//! tag     := 0x01 (discover) | 0x02 (info)
//! ```

use crate::config::Config;
use vstd::prelude::*;
use vstd::string::*;
use vstd::utf8::*;

verus! {

/// First byte of an encoded [`DiscoverMessage`].
pub const DISCOVER_TAG: u8 = 1;

/// First byte of an encoded [`InfoMessage`].
pub const INFO_TAG: u8 = 2;

/// Why a payload is not the message that was expected.
#[derive(Clone, Copy, Debug, PartialEq, Eq, Structural)]
pub enum DecodeError {
    /// The payload holds no byte at all.
    Empty,
    /// The first byte is not the tag of the message that was expected.
    UnexpectedTag,
    /// What follows the tag is not UTF-8.
    InvalidNodeId,
}

/// `core::str::Utf8Error`, which `core::str::from_utf8` returns for bytes
/// that are not UTF-8. Nothing is claimed of what it holds.
#[verifier::external_type_specification]
#[verifier::external_body]
pub struct ExUtf8Error(core::str::Utf8Error);

/// `core::str::from_utf8` accepts exactly the byte sequences that are
/// well-formed UTF-8, and the text it returns is made of the very bytes it
/// was given.
pub assume_specification[ core::str::from_utf8 ](v: &[u8]) -> (text: Result<
    &str,
    core::str::Utf8Error,
>)
    ensures
        text is Ok <==> valid_utf8(v@),
        text matches Ok(s) ==> s.spec_bytes() == v@,
;

/// Payload of the message with tag `tag` that names `node_id`.
pub open spec fn frame(tag: u8, node_id: Seq<char>) -> Seq<u8> {
    seq![tag] + encode_utf8(node_id)
}

/// The node that `payload` names when read as the message with tag `tag`,
/// or the reason why it cannot be read so.
pub open spec fn unframe(tag: u8, payload: Seq<u8>) -> Result<Seq<char>, DecodeError> {
    if payload.len() == 0 {
        Err(DecodeError::Empty)
    } else if payload[0] != tag {
        Err(DecodeError::UnexpectedTag)
    } else if !valid_utf8(payload.skip(1)) {
        Err(DecodeError::InvalidNodeId)
    } else {
        Ok(decode_utf8(payload.skip(1)))
    }
}

/// Reading back what was framed gives the node identifier that went in,
/// whatever it is, the empty one included.
pub proof fn lemma_unframe_frame(tag: u8, node_id: Seq<char>)
    ensures
        unframe(tag, frame(tag, node_id)) == Ok::<Seq<char>, DecodeError>(node_id),
{
    let payload = frame(tag, node_id);
    assert(payload.skip(1) =~= encode_utf8(node_id));
    encode_utf8_valid_utf8(node_id);
    encode_utf8_decode_utf8(node_id);
}

/// A payload has one reading at most: framing what was read gives the
/// payload back.
pub proof fn lemma_frame_unframe(tag: u8, payload: Seq<u8>)
    requires
        unframe(tag, payload) is Ok,
    ensures
        frame(tag, unframe(tag, payload)->Ok_0) == payload,
{
    decode_utf8_encode_utf8(payload.skip(1));
    assert(seq![tag] + payload.skip(1) =~= payload);
}

/// Writes the payload of the message with tag `tag` that names `node_id`.
fn write_frame(tag: u8, node_id: &str) -> (payload: Vec<u8>)
    ensures
        payload@ == frame(tag, node_id@),
{
    let mut payload: Vec<u8> = Vec::new();
    payload.push(tag);
    payload.extend_from_slice(node_id.as_bytes());
    assert(payload@ =~= frame(tag, node_id@));
    payload
}

/// Reads `payload` as the message with tag `tag`.
fn read_frame(tag: u8, payload: &[u8]) -> (node_id: Result<String, DecodeError>)
    ensures
        match unframe(tag, payload@) {
            Ok(id) => node_id matches Ok(text) && text@ == id,
            Err(reason) => node_id == Err::<String, DecodeError>(reason),
        },
{
    let len = payload.len();
    if len == 0 {
        return Err(DecodeError::Empty);
    }
    if payload[0] != tag {
        return Err(DecodeError::UnexpectedTag);
    }
    let rest = &payload[1..len];
    assert(rest@ =~= payload@.skip(1));
    match core::str::from_utf8(rest) {
        Ok(text) => {
            proof {
                encode_utf8_decode_utf8(text@);
            }
            Ok(String::from_str(text))
        },
        Err(_) => Err(DecodeError::InvalidNodeId),
    }
}

/// Announces that the node `sender` is present.
#[derive(Debug, PartialEq, Eq)]
pub struct DiscoverMessage {
    /// The node that announces itself.
    pub sender: String,
}

/// Mathematical model of a [`DiscoverMessage`].
pub struct DiscoverMessageView {
    pub sender: Seq<char>,
}

impl View for DiscoverMessage {
    type V = DiscoverMessageView;

    open spec fn view(&self) -> DiscoverMessageView {
        DiscoverMessageView { sender: self.sender@ }
    }
}

/// Payload that carries `message`.
pub open spec fn encode_discover(message: DiscoverMessageView) -> Seq<u8> {
    frame(DISCOVER_TAG, message.sender)
}

/// The announcement that `payload` carries, if it carries one.
pub open spec fn decode_discover(payload: Seq<u8>) -> Result<DiscoverMessageView, DecodeError> {
    match unframe(DISCOVER_TAG, payload) {
        Ok(sender) => Ok(DiscoverMessageView { sender }),
        Err(reason) => Err(reason),
    }
}

impl DiscoverMessage {
    /// The announcement of the node `sender`.
    pub fn new(sender: &str) -> (message: DiscoverMessage)
        ensures
            message@.sender == sender@,
    {
        DiscoverMessage { sender: String::from_str(sender) }
    }

    /// Encodes the announcement. This cannot fail.
    pub fn encode(&self) -> (payload: Vec<u8>)
        ensures
            payload@ == encode_discover(self@),
    {
        write_frame(DISCOVER_TAG, self.sender.as_str())
    }

    /// Decodes an announcement, or says why `payload` is none.
    pub fn decode(payload: &[u8]) -> (message: Result<DiscoverMessage, DecodeError>)
        ensures
            match decode_discover(payload@) {
                Ok(expected) => message matches Ok(found) && found@ == expected,
                Err(reason) => message == Err::<DiscoverMessage, DecodeError>(reason),
            },
    {
        match read_frame(DISCOVER_TAG, payload) {
            Ok(sender) => Ok(DiscoverMessage { sender }),
            Err(reason) => Err(reason),
        }
    }
}

/// Describes the node `node_id` to whoever asked, or to everyone.
#[derive(Debug, PartialEq, Eq)]
pub struct InfoMessage {
    /// The node that is described.
    pub node_id: String,
}

/// Mathematical model of an [`InfoMessage`].
pub struct InfoMessageView {
    pub node_id: Seq<char>,
}

impl View for InfoMessage {
    type V = InfoMessageView;

    open spec fn view(&self) -> InfoMessageView {
        InfoMessageView { node_id: self.node_id@ }
    }
}

/// Payload that carries `message`.
pub open spec fn encode_info(message: InfoMessageView) -> Seq<u8> {
    frame(INFO_TAG, message.node_id)
}

/// The description that `payload` carries, if it carries one.
pub open spec fn decode_info(payload: Seq<u8>) -> Result<InfoMessageView, DecodeError> {
    match unframe(INFO_TAG, payload) {
        Ok(node_id) => Ok(InfoMessageView { node_id }),
        Err(reason) => Err(reason),
    }
}

impl InfoMessage {
    /// The description of the node that `config` configures.
    pub fn new(config: &Config) -> (message: InfoMessage)
        ensures
            message@.node_id == config@.node_id,
    {
        InfoMessage { node_id: config.node_id.clone() }
    }

    /// Encodes the description. This cannot fail.
    pub fn encode(&self) -> (payload: Vec<u8>)
        ensures
            payload@ == encode_info(self@),
    {
        write_frame(INFO_TAG, self.node_id.as_str())
    }

    /// Decodes a description, or says why `payload` is none.
    pub fn decode(payload: &[u8]) -> (message: Result<InfoMessage, DecodeError>)
        ensures
            match decode_info(payload@) {
                Ok(expected) => message matches Ok(found) && found@ == expected,
                Err(reason) => message == Err::<InfoMessage, DecodeError>(reason),
            },
    {
        match read_frame(INFO_TAG, payload) {
            Ok(node_id) => Ok(InfoMessage { node_id }),
            Err(reason) => Err(reason),
        }
    }
}

/// Decoding an encoded announcement gives the announcement back.
pub proof fn lemma_discover_round_trip(message: DiscoverMessageView)
    ensures
        decode_discover(encode_discover(message)) == Ok::<DiscoverMessageView, DecodeError>(
            message,
        ),
{
    lemma_unframe_frame(DISCOVER_TAG, message.sender);
}

/// Decoding an encoded description gives the description back.
pub proof fn lemma_info_round_trip(message: InfoMessageView)
    ensures
        decode_info(encode_info(message)) == Ok::<InfoMessageView, DecodeError>(message),
{
    lemma_unframe_frame(INFO_TAG, message.node_id);
}

/// Neither message is ever taken for the other.
pub proof fn lemma_messages_are_disjoint(discover: DiscoverMessageView, info: InfoMessageView)
    ensures
        decode_info(encode_discover(discover)) == Err::<InfoMessageView, DecodeError>(
            DecodeError::UnexpectedTag,
        ),
        decode_discover(encode_info(info)) == Err::<DiscoverMessageView, DecodeError>(
            DecodeError::UnexpectedTag,
        ),
{
}

} // verus!
