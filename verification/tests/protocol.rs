//! Tests of identifiers, number formatting, and the message and
//! info/query builders.

use whatsmeow::jid::JID;
use whatsmeow::servers;
use whatsmeow::message::{build_text_message, build_presence, build_chat_state, build_receipt,
    parse_receipt, generate_message_id};
use whatsmeow::request::{build_iq_get, build_iq_result, is_iq_result, is_iq_error, get_iq_error};
use whatsmeow::node::{Node, AttrValue};
use whatsmeow::numfmt::{u64_to_decimal, i64_to_decimal, u64_to_hex, parse_u64_decimal};

#[test]
fn test_parse_simple_jid() {
    let jid: JID = "1234567890@s.whatsapp.net".parse().unwrap();
    assert_eq!(jid.user, "1234567890");
    assert_eq!(jid.server, servers::DEFAULT_USER);
    assert_eq!(jid.device, 0);
    assert_eq!(jid.raw_agent, 0);
}

#[test]
fn test_parse_device_jid() {
    let jid: JID = "1234567890:2@s.whatsapp.net".parse().unwrap();
    assert_eq!(jid.user, "1234567890");
    assert_eq!(jid.server, servers::DEFAULT_USER);
    assert_eq!(jid.device, 2);
}

#[test]
fn test_parse_ad_jid() {
    let jid: JID = "1234567890.0:1@s.whatsapp.net".parse().unwrap();
    assert_eq!(jid.user, "1234567890");
    assert_eq!(jid.raw_agent, 0);
    assert_eq!(jid.device, 1);
}

#[test]
fn test_jid_to_string() {
    let jid = JID::new("1234567890", servers::DEFAULT_USER);
    assert_eq!(jid.to_display_string(), "1234567890@s.whatsapp.net");

    let mut jid = JID::new("1234567890", servers::DEFAULT_USER);
    jid.device = 2;
    assert_eq!(jid.to_display_string(), "1234567890:2@s.whatsapp.net");
}

#[test]
fn test_group_jid() {
    let jid: JID = "123456789-1234567890@g.us".parse().unwrap();
    assert_eq!(jid.user, "123456789-1234567890");
    assert_eq!(jid.server, servers::GROUP);
}

#[test]
fn jid_parse_rejects_bad_qualifiers() {
    assert!("a.b.c@x".parse::<JID>().is_err());
    assert!("a.999@x".parse::<JID>().is_err());
    assert!("a:99999999@x".parse::<JID>().is_err());
    assert!("a.1:2:3@x".parse::<JID>().is_err());
}

#[test]
fn jid_helpers_work() {
    let jid = JID::new("1313555123", servers::DEFAULT_USER);
    assert_eq!(jid.user_int(), 1313555123);
    assert!(!jid.is_empty());
    assert!(!jid.is_broadcast_list());
    let broadcast = JID::new("anything", servers::BROADCAST);
    assert!(broadcast.is_broadcast_list());
    let bot = JID::new("13135550000", servers::DEFAULT_USER);
    assert!(bot.is_bot());
    assert_eq!(jid.actual_agent(), 0);
    let mut ad = JID::new("u", servers::DEFAULT_USER);
    ad.raw_agent = 3;
    ad.device = 9;
    assert_eq!(ad.ad_string(), "u.3:9@s.whatsapp.net");
    assert_eq!(ad.to_non_ad().device, 0);
}

#[test]
fn decimal_and_hex_formatting_are_exact() {
    assert_eq!(u64_to_decimal(0), "0");
    assert_eq!(u64_to_decimal(18446744073709551615), "18446744073709551615");
    assert_eq!(i64_to_decimal(-9223372036854775808), "-9223372036854775808");
    assert_eq!(i64_to_decimal(42), "42");
    assert_eq!(u64_to_hex(0xDEADBEEF), "DEADBEEF");
    assert_eq!(u64_to_hex(0), "0");
    assert_eq!(parse_u64_decimal("18446744073709551615"), Some(18446744073709551615));
    assert_eq!(parse_u64_decimal("18446744073709551616"), None);
    assert_eq!(parse_u64_decimal(""), None);
    assert_eq!(parse_u64_decimal("12a"), None);
}

#[test]
fn test_generate_message_id() {
    let id1 = generate_message_id();
    let id2 = generate_message_id();

    assert!(!id1.is_empty());
    assert_ne!(id1, id2);
}

#[test]
fn test_build_text_message() {
    let to = JID::new("123456789", "s.whatsapp.net");
    let node = build_text_message(&to, "Hello, World!", None);

    assert_eq!(node.tag, "message");
    assert_eq!(node.get_attr_str("type"), Some("text"));
    assert!(node.get_attr_str("id").is_some());
}

#[test]
fn test_build_presence() {
    let available = build_presence(true);
    assert_eq!(available.tag, "presence");
    assert_eq!(available.get_attr_str("type"), Some("available"));

    let unavailable = build_presence(false);
    assert_eq!(unavailable.get_attr_str("type"), Some("unavailable"));
}

#[test]
fn test_build_chat_state() {
    let to = JID::new("123456789", "s.whatsapp.net");
    let composing = build_chat_state(&to, true);

    assert_eq!(composing.tag, "chatstate");
    let children = composing.get_children().unwrap();
    assert_eq!(children[0].tag, "composing");
}

#[test]
fn empty_receipt_leaves_content_absent() {
    let to = JID::new("123", "s.whatsapp.net");
    let receipt = build_receipt(&to, &[], "read");
    assert_eq!(receipt.tag, "receipt");
    assert!(receipt.get_children().is_none());
    assert!(receipt.get_bytes().is_none());
}

#[test]
fn receipt_roundtrip_through_parse() {
    let to = JID::new("123", "s.whatsapp.net");
    let ids = vec!["A1".to_string(), "B2".to_string()];
    let mut receipt = build_receipt(&to, &ids, "read");
    receipt.set_attr("from", AttrValue::text("123@s.whatsapp.net"));
    let (from, got_ids, ty) = parse_receipt(&receipt).unwrap();
    assert_eq!(from.user, "123");
    assert_eq!(got_ids, ids);
    assert_eq!(ty, "read");
    assert!(parse_receipt(&Node::new("message")).is_none());
}

#[test]
fn test_build_iq_get() {
    let node = build_iq_get("123", "w:profile:picture", Some("user@server"));

    assert_eq!(node.tag, "iq");
    assert_eq!(node.get_attr_str("type"), Some("get"));
    assert_eq!(node.get_attr_str("xmlns"), Some("w:profile:picture"));
}

#[test]
fn test_is_iq_result() {
    let mut result = Node::new("iq");
    result.set_attr("type", AttrValue::text("result"));
    assert!(is_iq_result(&result));

    let mut error = Node::new("iq");
    error.set_attr("type", AttrValue::text("error"));
    assert!(!is_iq_result(&error));
    assert!(is_iq_error(&error));
}

#[test]
fn iq_error_text_is_extracted() {
    let mut error = Node::new("iq");
    error.set_attr("type", AttrValue::text("error"));
    let mut detail = Node::new("error");
    detail.set_attr("text", AttrValue::text("not-authorized"));
    error.add_child(detail);
    assert_eq!(get_iq_error(&error), Some("not-authorized".to_string()));

    let ok = build_iq_result("1", None);
    assert_eq!(get_iq_error(&ok), None);
}
