use peer_discovery::channel::messages::{
    DecodeError, DiscoverMessage, InfoMessage, DISCOVER_TAG, INFO_TAG,
};
use peer_discovery::config::Config;

#[test]
fn discover_payload_is_the_tag_then_the_sender() {
    let payload = DiscoverMessage::new("x1").encode();
    assert_eq!(payload, vec![1u8, b'x', b'1']);
    assert_eq!(payload[0], DISCOVER_TAG);
}

#[test]
fn info_payload_is_the_tag_then_the_node() {
    let config = Config::new("y1", "mesh", ".");
    let payload = InfoMessage::new(&config).encode();
    assert_eq!(payload, vec![2u8, b'y', b'1']);
    assert_eq!(payload[0], INFO_TAG);
}

#[test]
fn node_id_is_written_in_utf8() {
    let payload = DiscoverMessage::new("né").encode();
    assert_eq!(payload, vec![1u8, b'n', 0xc3, 0xa9]);
}

#[test]
fn discover_round_trip() {
    for sender in ["x1", "", "a", "node-with-a-long-name.example", "nœud-é", "節點", "🦀"] {
        let message = DiscoverMessage::new(sender);
        let decoded = DiscoverMessage::decode(&message.encode());
        assert_eq!(decoded, Ok(DiscoverMessage::new(sender)));
        assert_eq!(decoded.unwrap().sender, sender);
    }
}

#[test]
fn info_round_trip() {
    for node_id in ["y1", "", "a", "node-with-a-long-name.example", "nœud-é", "節點", "🦀"] {
        let message = InfoMessage::new(&Config::new(node_id, "mesh", "."));
        let decoded = InfoMessage::decode(&message.encode());
        assert_eq!(decoded.as_ref().map(|m| m.node_id.as_str()), Ok(node_id));
        assert_eq!(decoded, Ok(message));
    }
}

#[test]
fn empty_node_id_is_one_byte_on_the_wire() {
    assert_eq!(DiscoverMessage::new("").encode(), vec![1u8]);
    assert_eq!(DiscoverMessage::decode(&[1u8]), Ok(DiscoverMessage::new("")));
    assert_eq!(InfoMessage::decode(&[2u8]).unwrap().node_id, "");
}

#[test]
fn decoding_reads_the_bytes_as_text() {
    let decoded = DiscoverMessage::decode(&[1u8, b'x', b'1']).unwrap();
    assert_eq!(decoded.sender, "x1");
    let decoded = InfoMessage::decode(&[2u8, 0xc3, 0xa9]).unwrap();
    assert_eq!(decoded.node_id, "é");
}

#[test]
fn empty_payload_is_rejected() {
    assert_eq!(DiscoverMessage::decode(&[]), Err(DecodeError::Empty));
    assert_eq!(InfoMessage::decode(&[]), Err(DecodeError::Empty));
}

#[test]
fn unexpected_tag_is_rejected() {
    assert_eq!(
        DiscoverMessage::decode(&[2u8, b'x', b'1']),
        Err(DecodeError::UnexpectedTag)
    );
    assert_eq!(
        InfoMessage::decode(&[1u8, b'x', b'1']),
        Err(DecodeError::UnexpectedTag)
    );
    assert_eq!(DiscoverMessage::decode(&[0u8]), Err(DecodeError::UnexpectedTag));
    assert_eq!(
        InfoMessage::decode(b"{\"node\":\"y1\"}"),
        Err(DecodeError::UnexpectedTag)
    );
}

#[test]
fn node_id_that_is_not_utf8_is_rejected() {
    assert_eq!(
        DiscoverMessage::decode(&[1u8, 0xff]),
        Err(DecodeError::InvalidNodeId)
    );
    assert_eq!(
        InfoMessage::decode(&[2u8, b'a', 0xc3]),
        Err(DecodeError::InvalidNodeId)
    );
    // an overlong encoding and a surrogate are no UTF-8 either
    assert_eq!(
        DiscoverMessage::decode(&[1u8, 0xc0, 0x80]),
        Err(DecodeError::InvalidNodeId)
    );
    assert_eq!(
        DiscoverMessage::decode(&[1u8, 0xed, 0xa0, 0x80]),
        Err(DecodeError::InvalidNodeId)
    );
}

#[test]
fn the_tag_is_checked_before_the_text() {
    assert_eq!(
        DiscoverMessage::decode(&[2u8, 0xff]),
        Err(DecodeError::UnexpectedTag)
    );
}

#[test]
fn one_message_is_never_taken_for_the_other() {
    let config = Config::new("y1", "mesh", ".");
    let discover = DiscoverMessage::new("y1").encode();
    let info = InfoMessage::new(&config).encode();
    assert_eq!(InfoMessage::decode(&discover), Err(DecodeError::UnexpectedTag));
    assert_eq!(DiscoverMessage::decode(&info), Err(DecodeError::UnexpectedTag));
}

#[test]
fn encoding_what_was_decoded_gives_the_payload_back() {
    let payloads: [&[u8]; 4] = [&[1u8], &[1u8, b'a'], &[1u8, 0xe7, 0xaf, 0x80], &[1u8, b'.', b'*']];
    for payload in payloads {
        let message = DiscoverMessage::decode(payload).unwrap();
        assert_eq!(message.encode(), payload);
    }
}
