//! Tests of the tree value model, the token dictionaries, and the binary
//! codec, including the round-trip, truncation and trailing-byte checks.

use whatsmeow::node::{Node, AttrValue, NodeContent};
use whatsmeow::tokens::{get_token, get_token_index, get_double_token};
use whatsmeow::encoder::{encode, is_encodable};
use whatsmeow::decoder::decode;
use whatsmeow::jid::JID;

#[test]
fn test_node_creation() {
    let mut node = Node::new("message");
    node.set_attr("id", AttrValue::text("123"));
    node.set_attr("type", AttrValue::text("text"));

    assert_eq!(node.tag, "message");
    assert_eq!(node.get_attr_str("id"), Some("123"));
    assert_eq!(node.get_attr_str("type"), Some("text"));
}

#[test]
fn test_node_children() {
    let mut parent = Node::new("iq");
    let child1 = Node::new("query");
    let child2 = Node::new("result");

    parent.add_child(child1);
    parent.add_child(child2);

    let children = parent.get_children().unwrap();
    assert_eq!(children.len(), 2);
    assert_eq!(children[0].tag, "query");
    assert_eq!(children[1].tag, "result");
}

#[test]
fn test_node_bytes() {
    let mut node = Node::new("media");
    node.set_bytes(vec![1, 2, 3, 4]);

    assert_eq!(node.get_bytes(), Some(&[1, 2, 3, 4][..]));
}

#[test]
fn test_token_lookup() {
    assert_eq!(get_token(3), Some("s.whatsapp.net"));
    assert_eq!(get_token(28), Some("g.us"));
    assert_eq!(get_token(19), Some("message"));
}

#[test]
fn test_reverse_lookup() {
    assert_eq!(get_token_index("s.whatsapp.net"), Some(3));
    assert_eq!(get_token_index("g.us"), Some(28));
    assert_eq!(get_token_index("message"), Some(19));
}

#[test]
fn test_unknown_token() {
    assert_eq!(get_token_index("unknown_string_xyz"), None);
}

#[test]
fn token_bijection_holds_for_every_entry() {
    for index in 1..=235u8 {
        let s = get_token(index).unwrap();
        if let Some(back) = get_token_index(s) {
            assert_eq!(get_token(back), Some(s));
        } else {
            panic!("token {} did not reverse", index);
        }
    }
}

#[test]
fn double_token_lookup_works() {
    assert_eq!(get_double_token(0, 0), Some("read-self"));
    assert_eq!(get_double_token(3, 0), Some("stream:features"));
    assert_eq!(get_double_token(3, 200), None);
    assert_eq!(get_double_token(9, 0), None);
}

#[test]
fn test_encode_simple_node() {
    let mut node = Node::new("message");
    node.set_attr("id", AttrValue::text("123"));

    let encoded = encode(&node);
    assert!(!encoded.is_empty());
}

#[test]
fn test_roundtrip() {
    let mut node = Node::new("message");
    node.set_attr("id", AttrValue::text("test123"));
    node.set_attr("type", AttrValue::text("text"));

    let encoded = encode(&node);
    assert!(!encoded.is_empty());
    let back = decode(&encoded).unwrap();
    assert_eq!(back.tag, "message");
    assert_eq!(back.get_attr_str("id"), Some("test123"));
    assert_eq!(back.get_attr_str("type"), Some("text"));
}

#[test]
fn roundtrip_preserves_full_tree() {
    let mut node = Node::new("message");
    node.set_attr("id", AttrValue::text("abc"));
    node.set_attr("payload", AttrValue::Bytes(vec![0xFF, 0x00, 0x7F]));
    node.set_attr("jid", AttrValue::Jid(JID::new("12345", "s.whatsapp.net")));
    let mut child = Node::new("body");
    child.set_bytes(b"hello codec".to_vec());
    node.add_child(child);
    let mut empty_child = Node::new("enc");
    empty_child.set_attr("v", AttrValue::text("2"));
    node.add_child(empty_child);

    let encoded = encode(&node);
    let back = decode(&encoded).unwrap();
    assert_eq!(back.tag, "message");
    assert_eq!(back.get_attr_str("id"), Some("abc"));
    match back.get_attr("payload") {
        Some(AttrValue::Bytes(b)) => assert_eq!(b, &vec![0xFF, 0x00, 0x7F]),
        other => panic!("payload came back as {:?}", other),
    }
    let jid = back.get_attr_jid("jid").unwrap();
    assert_eq!(jid.user, "12345");
    assert_eq!(jid.server, "s.whatsapp.net");
    let children = back.get_children().unwrap();
    assert_eq!(children.len(), 2);
    assert_eq!(children[0].tag, "body");
    assert_eq!(children[0].get_bytes(), Some(&b"hello codec"[..]));
    assert_eq!(children[1].tag, "enc");
    assert_eq!(children[1].get_attr_str("v"), Some("2"));
}

#[test]
fn decode_of_empty_input_reports_end_of_data() {
    let err = decode(&[]).unwrap_err();
    assert_eq!(err.0, "unexpected end of data");
}

#[test]
fn decode_rejects_every_truncation() {
    let mut node = Node::new("message");
    node.set_attr("id", AttrValue::text("truncate-me"));
    let mut child = Node::new("body");
    child.set_bytes(vec![9, 8, 7]);
    node.add_child(child);
    let encoded = encode(&node);
    for n in 0..encoded.len() {
        assert!(decode(&encoded[..n]).is_err(), "prefix of {} bytes decoded", n);
    }
}

#[test]
fn decode_rejects_trailing_byte() {
    let mut node = Node::new("presence");
    node.set_attr("type", AttrValue::text("available"));
    let mut encoded = encode(&node);
    encoded.push(0x00);
    let err = decode(&encoded).unwrap_err();
    assert_eq!(err.0, "leftover bytes after decoding");
}

#[test]
fn dictionary_roundtrip_uses_token_and_raw_forms() {
    let mut node = Node::new("message");
    node.set_attr("id", AttrValue::text("zz1"));
    let encoded = encode(&node);
    // header byte: one attribute pair, no content
    assert_eq!(encoded[0], 0x02);
    // the tag "message" is token 19 in the primary table
    assert_eq!(encoded[1], 19);
    // the key "id" is token 8; the value "zz1" is a raw short string
    assert_eq!(encoded[2], 8);
    assert_eq!(encoded[3], 0xFC);
    assert_eq!(encoded[4], 3);
    assert_eq!(&encoded[5..8], b"zz1");
    let back = decode(&encoded).unwrap();
    assert_eq!(back.tag, "message");
    assert!(back.get_attr_str("id").is_some());
}

#[test]
fn identifier_roundtrips_in_both_wire_forms() {
    let mut plain = Node::new("iq");
    plain.set_attr("jid", AttrValue::Jid(JID::new("12025550100", "s.whatsapp.net")));
    let back = decode(&encode(&plain)).unwrap();
    let j = back.get_attr_jid("jid").unwrap();
    assert_eq!(j.user, "12025550100");
    assert_eq!(j.server, "s.whatsapp.net");
    assert_eq!(j.raw_agent, 0);
    assert_eq!(j.device, 0);

    let mut ad = Node::new("iq");
    let mut dev = JID::new("12025550100", "s.whatsapp.net");
    dev.raw_agent = 2;
    dev.device = 7;
    ad.set_attr("jid", AttrValue::Jid(dev));
    let back2 = decode(&encode(&ad)).unwrap();
    let j2 = back2.get_attr_jid("jid").unwrap();
    assert_eq!(j2.user, "12025550100");
    assert_eq!(j2.server, "s.whatsapp.net");
    assert_eq!(j2.raw_agent, 2);
    assert_eq!(j2.device, 7);
}

#[test]
fn integer_and_boolean_attributes_travel_as_text() {
    let mut node = Node::new("iq");
    node.set_attr("count", AttrValue::Int(-42));
    node.set_attr("ok", AttrValue::Bool(true));
    let back = decode(&encode(&node)).unwrap();
    assert_eq!(back.get_attr_str("count"), Some("-42"));
    assert_eq!(back.get_attr_str("ok"), Some("true"));
}

#[test]
fn encodability_check_matches_the_wire_limits() {
    let mut node = Node::new("message");
    node.set_attr("id", AttrValue::text("ok"));
    assert!(is_encodable(&node));

    let mut wide = Node::new("message");
    for i in 0..128 {
        wide.set_attr(&format!("k{}", i), AttrValue::text("v"));
    }
    assert!(!is_encodable(&wide));

    let mut deep = Node::new("iq");
    let mut jid = JID::new("u", "s.whatsapp.net");
    jid.device = 256;
    deep.set_attr("jid", AttrValue::Jid(jid));
    assert!(!is_encodable(&deep));
}

#[test]
fn decode_rejects_unknown_marker() {
    // 0xF5 is no token and no marker in string position
    let data = [0x00, 0xF5];
    let err = decode(&data).unwrap_err();
    assert_eq!(err.0, "unknown token");
}
