//! Builders for the common message nodes, and receipt parsing. These are
//! thin producers and consumers of the tree type.

use vstd::prelude::*;

verus! {

use vstd::string::StrSliceExecFns;
use crate::node::{Node, AttrValue, AttrV, ContentV, NodeV, spec_set_attr, spec_get_attr,
    spec_with_tag, spec_children_of};
use crate::jid::{JID, spec_jid_string};
use crate::numfmt::{u64_to_hex, spec_hex};

/// Relies on rand's `random`; nothing is promised of the number drawn.
#[verifier::external_body]
fn random_u64() -> (r: u64)
{
    rand::random::<u64>()
}

/// A fresh message id: the upper-case hexadecimal form of a random number.
pub fn generate_message_id() -> (r: String)
    ensures
        r@.len() >= 1,
        exists|n: u64| r@ == spec_hex(n as nat),
{
    let n = random_u64();
    let r = u64_to_hex(n);
    proof {
        crate::numfmt::lemma_hex_bytes_ascii(n as nat);
        assert(r@.len() == spec_hex_len(n as nat));
        assert(r@ == spec_hex(n as nat));
    }
    r
}

/// The length of a hexadecimal form.
pub open spec fn spec_hex_len(n: nat) -> nat {
    spec_hex(n).len()
}

/// The attribute list of a text message node.
pub open spec fn spec_text_message_attrs(id: Seq<char>, to: Seq<char>) -> Seq<(Seq<char>, AttrV)> {
    seq![("id"@, AttrV::Text(id)), ("type"@, AttrV::Text("text"@)), ("to"@, AttrV::Text(to))]
}

/// A text message: tag `message`, id/type/to attributes, and one `body`
/// child carrying the text as bytes. A missing id is drawn at random.
pub fn build_text_message(to: &JID, text: &str, message_id: Option<&str>) -> (r: Node)
    ensures
        r@.tag == "message"@,
        (message_id matches Some(m) ==> r@.attrs == spec_text_message_attrs(
            m@,
            spec_jid_string(to@),
        )),
        (message_id is None ==> (exists|id: Seq<char>|
            r@.attrs == spec_text_message_attrs(id, spec_jid_string(to@)))),
        r@.content == ContentV::Children(
            seq![
                NodeV {
                    tag: "body"@,
                    attrs: Seq::<(Seq<char>, AttrV)>::empty(),
                    content: ContentV::Bytes(vstd::utf8::encode_utf8(text@)),
                },
            ],
        ),
{
    let id: String = match message_id {
        Some(m) => m.to_owned(),
        None => generate_message_id(),
    };
    let ghost idv = id@;
    let mut node = Node::new("message");
    node.set_attr("id", AttrValue::Text(id));
    node.set_attr("type", AttrValue::text("text"));
    let to_str = to.to_display_string();
    node.set_attr("to", AttrValue::Text(to_str));
    let mut body = Node::new("body");
    body.set_bytes(text.as_bytes_vec());
    node.add_child(body);
    proof {
        reveal_strlit("id");
        reveal_strlit("type");
        reveal_strlit("to");
        reveal_with_fuel(crate::node::attr_idx, 5);
        assert("id"@.len() == 2 && "type"@.len() == 4 && "to"@.len() == 2);
        assert("id"@[0] == 'i' && "to"@[0] == 't');
        assert("id"@ != "type"@ && "id"@ != "to"@ && "type"@ != "to"@);
        assert(node@.attrs =~= spec_text_message_attrs(idv, spec_jid_string(to@)));
    }
    node
}

/// A presence node: tag `presence` and one `type` attribute that reads
/// `available` or `unavailable`.
pub fn build_presence(available: bool) -> (r: Node)
    ensures
        r@.tag == "presence"@,
        r@.attrs == seq![
            (
                "type"@,
                AttrV::Text(
                    if available {
                        "available"@
                    } else {
                        "unavailable"@
                    },
                ),
            ),
        ],
        r@.content is Absent,
{
    let mut node = Node::new("presence");
    if available {
        node.set_attr("type", AttrValue::text("available"));
    } else {
        node.set_attr("type", AttrValue::text("unavailable"));
    }
    proof {
        assert(node@.attrs =~= seq![
            (
                "type"@,
                AttrV::Text(
                    if available {
                        "available"@
                    } else {
                        "unavailable"@
                    },
                ),
            ),
        ]);
    }
    node
}

/// A typing-state node: tag `chatstate`, a `to` attribute, and one child
/// whose tag reads `composing` or `paused`.
pub fn build_chat_state(to: &JID, composing: bool) -> (r: Node)
    ensures
        r@.tag == "chatstate"@,
        r@.attrs == seq![("to"@, AttrV::Text(spec_jid_string(to@)))],
        r@.content == ContentV::Children(
            seq![
                NodeV {
                    tag: if composing {
                        "composing"@
                    } else {
                        "paused"@
                    },
                    attrs: Seq::<(Seq<char>, AttrV)>::empty(),
                    content: ContentV::Absent,
                },
            ],
        ),
{
    let mut node = Node::new("chatstate");
    let to_str = to.to_display_string();
    node.set_attr("to", AttrValue::Text(to_str));
    let state = if composing {
        Node::new("composing")
    } else {
        Node::new("paused")
    };
    node.add_child(state);
    proof {
        assert(node@.attrs =~= seq![("to"@, AttrV::Text(spec_jid_string(to@)))]);
    }
    node
}

/// A receipt node: tag `receipt`, to/type attributes, and one `item`
/// child per acknowledged message id; with no ids the content stays
/// absent.
pub fn build_receipt(to: &JID, message_ids: &[String], receipt_type: &str) -> (r: Node)
    ensures
        r@.tag == "receipt"@,
        r@.attrs == seq![
            ("to"@, AttrV::Text(spec_jid_string(to@))),
            ("type"@, AttrV::Text(receipt_type@)),
        ],
        message_ids@.len() == 0 ==> r@.content is Absent,
        message_ids@.len() > 0 ==> ({
            let cs = spec_children_of(r@);
            &&& r@.content == ContentV::Children(cs)
            &&& cs.len() == message_ids@.len()
            &&& forall|i: int|
                0 <= i < cs.len() ==> (#[trigger] cs[i]) == (NodeV {
                    tag: "item"@,
                    attrs: seq![("id"@, AttrV::Text(message_ids@[i]@))],
                    content: ContentV::Absent,
                })
        }),
{
    let mut node = Node::new("receipt");
    let to_str = to.to_display_string();
    node.set_attr("to", AttrValue::Text(to_str));
    node.set_attr("type", AttrValue::text(receipt_type));
    proof {
        reveal_strlit("to");
        reveal_strlit("type");
        reveal_with_fuel(crate::node::attr_idx, 5);
        assert("to"@.len() == 2 && "type"@.len() == 4);
        assert("to"@ != "type"@);
        assert(node@.attrs =~= seq![
            ("to"@, AttrV::Text(spec_jid_string(to@))),
            ("type"@, AttrV::Text(receipt_type@)),
        ]);
    }
    let n = message_ids.len();
    if n == 0 {
        return node;
    }
    let mut children: Vec<Node> = Vec::new();
    let mut i: usize = 0;
    while i < n
        invariant
            n == message_ids@.len(),
            0 <= i <= n,
            crate::node::nodes_view(children@).len() == i,
            forall|j: int|
                0 <= j < i ==> (#[trigger] crate::node::nodes_view(children@)[j]) == (NodeV {
                    tag: "item"@,
                    attrs: seq![("id"@, AttrV::Text(message_ids@[j]@))],
                    content: ContentV::Absent,
                }),
        decreases n - i,
    {
        let mut item = Node::new("item");
        item.set_attr("id", AttrValue::Text(message_ids[i].clone()));
        proof {
            assert(item@.attrs =~= seq![("id"@, AttrV::Text(message_ids@[i as int]@))]);
        }
        let ghost before = children@;
        children.push(item);
        proof {
            assert(children@.drop_last() =~= before);
            crate::node::lemma_nodes_view(children@);
        }
        i = i + 1;
    }
    node.set_children(children);
    node
}

/// A read receipt: a receipt node whose type reads `read`.
pub fn build_read_receipt(to: &JID, message_ids: &[String]) -> (r: Node)
    ensures
        r@.tag == "receipt"@,
        r@.attrs == seq![
            ("to"@, AttrV::Text(spec_jid_string(to@))),
            ("type"@, AttrV::Text("read"@)),
        ],
{
    build_receipt(to, message_ids, "read")
}

/// The id texts of the given nodes, in order; nodes whose `id` attribute
/// is missing or not text contribute nothing.
pub open spec fn spec_item_ids(items: Seq<NodeV>) -> Seq<Seq<char>>
    decreases items.len(),
{
    if items.len() == 0 {
        Seq::<Seq<char>>::empty()
    } else {
        spec_item_ids(items.drop_last()) + (match spec_get_attr(items.last().attrs, "id"@) {
            Some(AttrV::Text(t)) => seq![t],
            _ => Seq::<Seq<char>>::empty(),
        })
    }
}

/// The type a receipt carries: its `type` attribute when that is text,
/// `delivery` otherwise.
pub open spec fn spec_receipt_type(attrs: Seq<(Seq<char>, AttrV)>) -> Seq<char> {
    match spec_get_attr(attrs, "type"@) {
        Some(AttrV::Text(t)) => t,
        _ => "delivery"@,
    }
}

/// The sender, acknowledged ids and type a receipt node carries: the
/// `from` attribute parsed as an identifier, the `id` texts of the `item`
/// children in order, and the `type` attribute, `delivery` when absent.
/// Nothing comes back when the tag is wrong or the sender is missing or
/// unparsable.
pub fn parse_receipt(node: &Node) -> (r: Option<(JID, Vec<String>, String)>)
    ensures
        match r {
            None => node@.tag != "receipt"@ || !(spec_get_attr(node@.attrs, "from"@) matches Some(
                AttrV::Text(f),
            ) && crate::jid::spec_parse_jid(f) is Ok),
            Some((from, ids, ty)) => {
                &&& node@.tag == "receipt"@
                &&& spec_get_attr(node@.attrs, "from"@) matches Some(AttrV::Text(f))
                    && crate::jid::spec_parse_jid(f) == Ok::<crate::jid::JidV,
                    crate::jid::JidParseErr>(from@)
                &&& ids@.map_values(|s: String| s@) == spec_item_ids(
                    spec_with_tag(spec_children_of(node@), "item"@),
                )
                &&& ty@ == spec_receipt_type(node@.attrs)
            },
        },
{
    if !crate::bytes_util::str_eq(node.tag.as_str(), "receipt") {
        return None;
    }
    let from_str = match node.get_attr_str("from") {
        Some(s) => s,
        None => {
            return None;
        },
    };
    let from = match crate::jid::parse_jid(from_str) {
        Ok(j) => j,
        Err(_) => {
            return None;
        },
    };
    let receipt_type: String = match node.get_attr_str("type") {
        Some(t) => t.to_owned(),
        None => "delivery".to_owned(),
    };
    let mut message_ids: Vec<String> = Vec::new();
    let items = node.get_children_by_tag("item");
    let ghost iv = spec_with_tag(spec_children_of(node@), "item"@);
    let n = items.len();
    let mut i: usize = 0;
    proof {
        assert(iv.take(0) =~= Seq::<NodeV>::empty());
        assert(message_ids@.map_values(|s: String| s@) =~= spec_item_ids(iv.take(0)));
    }
    while i < n
        invariant
            n == items@.len(),
            0 <= i <= n,
            items@.map_values(|x: &Node| x@) == iv,
            iv.len() == n,
            message_ids@.map_values(|s: String| s@) == spec_item_ids(iv.take(i as int)),
        decreases n - i,
    {
        proof {
            assert(items@.map_values(|x: &Node| x@)[i as int] == iv[i as int]);
            assert(items@[i as int]@ == iv[i as int]);
            assert(iv.take(i as int + 1).drop_last() =~= iv.take(i as int));
            assert(iv.take(i as int + 1).last() == iv[i as int]);
        }
        let ghost before = message_ids@;
        match items[i].get_attr_str("id") {
            Some(id) => {
                message_ids.push(id.to_owned());
                proof {
                    assert(message_ids@.drop_last() =~= before);
                    assert(message_ids@.map_values(|s: String| s@) =~= spec_item_ids(
                        iv.take(i as int + 1),
                    ));
                }
            },
            None => {
                proof {
                    assert(message_ids@.map_values(|s: String| s@) =~= spec_item_ids(
                        iv.take(i as int + 1),
                    ));
                }
            },
        }
        i = i + 1;
    }
    proof {
        assert(iv.take(n as int) =~= iv);
    }
    Some((from, message_ids, receipt_type))
}

} // verus!
