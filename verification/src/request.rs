//! Builders and readers for info/query nodes.

use vstd::prelude::*;

verus! {

use crate::node::{Node, AttrValue, AttrV, ContentV, spec_get_attr, spec_first_with_tag,
    spec_children_of};

/// The attribute list of an info/query node: id, type, namespace, and the
/// target when one is given.
pub open spec fn spec_iq_attrs(
    id: Seq<char>,
    ty: Seq<char>,
    xmlns: Option<Seq<char>>,
    to: Option<Seq<char>>,
) -> Seq<(Seq<char>, AttrV)> {
    let base = seq![("id"@, AttrV::Text(id)), ("type"@, AttrV::Text(ty))];
    let with_ns = match xmlns {
        Some(ns) => base.push(("xmlns"@, AttrV::Text(ns))),
        None => base,
    };
    match to {
        Some(t) => with_ns.push(("to"@, AttrV::Text(t))),
        None => with_ns,
    }
}

/// An info/query request of the given type.
fn build_iq(id: &str, ty: &str, xmlns: Option<&str>, to: Option<&str>) -> (r: Node)
    ensures
        r@.tag == "iq"@,
        r@.attrs == spec_iq_attrs(
            id@,
            ty@,
            match xmlns {
                Some(ns) => Some(ns@),
                None => None,
            },
            match to {
                Some(t) => Some(t@),
                None => None,
            },
        ),
        r@.content is Absent,
{
    let mut node = Node::new("iq");
    node.set_attr("id", AttrValue::text(id));
    node.set_attr("type", AttrValue::text(ty));
    match xmlns {
        Some(ns) => {
            node.set_attr("xmlns", AttrValue::text(ns));
        },
        None => {},
    }
    match to {
        Some(t) => {
            node.set_attr("to", AttrValue::text(t));
        },
        None => {},
    }
    proof {
        reveal_strlit("id");
        reveal_strlit("type");
        reveal_strlit("xmlns");
        reveal_strlit("to");
        reveal_with_fuel(crate::node::attr_idx, 6);
        assert("id"@.len() == 2 && "type"@.len() == 4 && "xmlns"@.len() == 5 && "to"@.len() == 2);
        assert("id"@[0] == 'i' && "to"@[0] == 't');
        assert(node@.attrs =~= spec_iq_attrs(
            id@,
            ty@,
            match xmlns {
                Some(ns) => Some(ns@),
                None => None,
            },
            match to {
                Some(t) => Some(t@),
                None => None,
            },
        ));
    }
    node
}

/// A get request.
pub fn build_iq_get(id: &str, xmlns: &str, to: Option<&str>) -> (r: Node)
    ensures
        r@.tag == "iq"@,
        r@.attrs == spec_iq_attrs(
            id@,
            "get"@,
            Some(xmlns@),
            match to {
                Some(t) => Some(t@),
                None => None,
            },
        ),
        r@.content is Absent,
{
    build_iq(id, "get", Some(xmlns), to)
}

/// A set request.
pub fn build_iq_set(id: &str, xmlns: &str, to: Option<&str>) -> (r: Node)
    ensures
        r@.tag == "iq"@,
        r@.attrs == spec_iq_attrs(
            id@,
            "set"@,
            Some(xmlns@),
            match to {
                Some(t) => Some(t@),
                None => None,
            },
        ),
        r@.content is Absent,
{
    build_iq(id, "set", Some(xmlns), to)
}

/// A result response.
pub fn build_iq_result(id: &str, to: Option<&str>) -> (r: Node)
    ensures
        r@.tag == "iq"@,
        r@.attrs == spec_iq_attrs(
            id@,
            "result"@,
            None,
            match to {
                Some(t) => Some(t@),
                None => None,
            },
        ),
        r@.content is Absent,
{
    build_iq(id, "result", None, to)
}

/// True when the node is an info/query result.
pub fn is_iq_result(node: &Node) -> (r: bool)
    ensures
        r == (node@.tag == "iq"@ && spec_get_attr(node@.attrs, "type"@) == Some(
            AttrV::Text("result"@),
        )),
{
    if !crate::bytes_util::str_eq(node.tag.as_str(), "iq") {
        return false;
    }
    match node.get_attr_str("type") {
        Some(t) => crate::bytes_util::str_eq(t, "result"),
        None => false,
    }
}

/// True when the node is an info/query error.
pub fn is_iq_error(node: &Node) -> (r: bool)
    ensures
        r == (node@.tag == "iq"@ && spec_get_attr(node@.attrs, "type"@) == Some(
            AttrV::Text("error"@),
        )),
{
    if !crate::bytes_util::str_eq(node.tag.as_str(), "iq") {
        return false;
    }
    match node.get_attr_str("type") {
        Some(t) => crate::bytes_util::str_eq(t, "error"),
        None => false,
    }
}

/// The message of an info/query error: the `text` attribute of its first
/// `error` child when that is text, else that child's tag; nothing when
/// the node is no error or has no `error` child.
pub fn get_iq_error(node: &Node) -> (r: Option<String>)
    ensures
        !(node@.tag == "iq"@ && spec_get_attr(node@.attrs, "type"@) == Some(
            AttrV::Text("error"@),
        )) ==> r is None,
        spec_first_with_tag(spec_children_of(node@), "error"@) is None ==> r is None,
        spec_first_with_tag(spec_children_of(node@), "error"@) matches Some(e) ==> ((node@.tag
            == "iq"@ && spec_get_attr(node@.attrs, "type"@) == Some(AttrV::Text("error"@))) ==> (
        r matches Some(t) && t@ == match spec_get_attr(e.attrs, "text"@) {
            Some(AttrV::Text(x)) => x,
            _ => e.tag,
        })),
{
    if !is_iq_error(node) {
        return None;
    }
    let err = match node.get_child_by_tag("error") {
        Some(e) => e,
        None => {
            return None;
        },
    };
    match err.get_attr_str("text") {
        Some(t) => Some(t.to_owned()),
        None => Some(err.tag.clone()),
    }
}

} // verus!
