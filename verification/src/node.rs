//! The labeled-tree value of the binary protocol: a tag, an attribute
//! list with unique keys, and content that is absent, a child list, or a
//! byte blob — exactly one of the three.

use vstd::prelude::*;

verus! {

use crate::jid::{JID, JidV};

/// An attribute value as the specifications see it.
pub enum AttrV {
    Absent,
    Text(Seq<char>),
    Bytes(Seq<u8>),
    Int(i64),
    Bool(bool),
    Jid(JidV),
}

/// A value an attribute can carry. Integers and booleans travel as their
/// textual form on the wire; only text, bytes and identifiers have wire
/// tags of their own.
#[derive(Debug, Clone)]
pub enum AttrValue {
    Absent,
    Text(String),
    Bytes(Vec<u8>),
    Int(i64),
    Bool(bool),
    Jid(JID),
}

impl View for AttrValue {
    type V = AttrV;

    open spec fn view(&self) -> AttrV {
        match self {
            AttrValue::Absent => AttrV::Absent,
            AttrValue::Text(s) => AttrV::Text(s@),
            AttrValue::Bytes(b) => AttrV::Bytes(b@),
            AttrValue::Int(n) => AttrV::Int(*n),
            AttrValue::Bool(b) => AttrV::Bool(*b),
            AttrValue::Jid(j) => AttrV::Jid(j@),
        }
    }
}

impl AttrValue {
    /// A text value from a string slice.
    pub fn text(s: &str) -> (r: AttrValue)
        ensures
            r@ == AttrV::Text(s@),
    {
        AttrValue::Text(s.to_owned())
    }

    /// The text inside, if this is a text value.
    pub fn as_str(&self) -> (r: Option<&str>)
        ensures
            match self@ {
                AttrV::Text(t) => r matches Some(s) && s@ == t,
                _ => r is None,
            },
    {
        match self {
            AttrValue::Text(s) => Some(s.as_str()),
            _ => None,
        }
    }

    /// The integer inside, if this is an integer value.
    pub fn as_int(&self) -> (r: Option<i64>)
        ensures
            match self@ {
                AttrV::Int(n) => r == Some(n),
                _ => r is None,
            },
    {
        match self {
            AttrValue::Int(n) => Some(*n),
            _ => None,
        }
    }

    /// The identifier inside, if this is an identifier value.
    pub fn as_jid(&self) -> (r: Option<&JID>)
        ensures
            match self@ {
                AttrV::Jid(j) => r matches Some(x) && x@ == j,
                _ => r is None,
            },
    {
        match self {
            AttrValue::Jid(j) => Some(j),
            _ => None,
        }
    }
}

/// The attribute list of a node: key/value pairs with unique keys.
pub type Attrs = Vec<(String, AttrValue)>;

/// Node content as the specifications see it.
pub enum ContentV {
    Absent,
    Children(Seq<NodeV>),
    Bytes(Seq<u8>),
}

/// A node value as the specifications see it.
pub struct NodeV {
    pub tag: Seq<char>,
    pub attrs: Seq<(Seq<char>, AttrV)>,
    pub content: ContentV,
}

/// What a node contains: nothing, an ordered list of child nodes, or raw
/// bytes — never more than one of these.
#[derive(Debug)]
pub enum NodeContent {
    Absent,
    Children(Vec<Node>),
    Bytes(Vec<u8>),
}

/// A node of the binary tree: tag, attributes and content.
#[derive(Debug)]
pub struct Node {
    /// The tag name of the element.
    pub tag: String,
    /// The attributes of the element, keys unique.
    pub attrs: Attrs,
    /// What the element contains.
    pub content: NodeContent,
}

/// The view of an attribute list.
pub open spec fn attrs_view(a: Seq<(String, AttrValue)>) -> Seq<(Seq<char>, AttrV)> {
    a.map_values(|p: (String, AttrValue)| (p.0@, p.1@))
}

/// The view of a node, tag and attributes and content together.
pub open spec fn node_view(n: Node) -> NodeV
    decreases n,
{
    NodeV {
        tag: n.tag@,
        attrs: attrs_view(n.attrs@),
        content: match n.content {
            NodeContent::Absent => ContentV::Absent,
            NodeContent::Bytes(b) => ContentV::Bytes(b@),
            NodeContent::Children(cs) => ContentV::Children(nodes_view(cs@)),
        },
    }
}

/// The views of a sequence of nodes.
pub open spec fn nodes_view(s: Seq<Node>) -> Seq<NodeV>
    decreases s,
{
    if s.len() == 0 {
        Seq::<NodeV>::empty()
    } else {
        nodes_view(s.drop_last()).push(node_view(s.last()))
    }
}

/// Each element of `nodes_view` is the view of the node at that place.
pub proof fn lemma_nodes_view(s: Seq<Node>)
    ensures
        nodes_view(s).len() == s.len(),
        forall|i: int| 0 <= i < s.len() ==> nodes_view(s)[i] == node_view(s[i]),
    decreases s.len(),
{
    if s.len() > 0 {
        lemma_nodes_view(s.drop_last());
    }
}

impl View for Node {
    type V = NodeV;

    open spec fn view(&self) -> NodeV {
        node_view(*self)
    }
}


/// The children of a node value; empty unless the content is a child list.
pub open spec fn spec_children_of(n: NodeV) -> Seq<NodeV> {
    match n.content {
        ContentV::Children(cs) => cs,
        _ => Seq::<NodeV>::empty(),
    }
}

/// The child values whose tag is `tag`, in order.
pub open spec fn spec_with_tag(cs: Seq<NodeV>, tag: Seq<char>) -> Seq<NodeV>
    decreases cs.len(),
{
    if cs.len() == 0 {
        Seq::<NodeV>::empty()
    } else {
        spec_with_tag(cs.drop_last(), tag) + (if cs.last().tag == tag {
            seq![cs.last()]
        } else {
            Seq::<NodeV>::empty()
        })
    }
}

/// The first child value whose tag is `tag`.
pub open spec fn spec_first_with_tag(cs: Seq<NodeV>, tag: Seq<char>) -> Option<NodeV>
    decreases cs.len(),
{
    if cs.len() == 0 {
        None
    } else if cs[0].tag == tag {
        Some(cs[0])
    } else {
        spec_first_with_tag(cs.drop_first(), tag)
    }
}

/// A found first position determines `spec_first_with_tag`.
pub proof fn lemma_first_with_tag_found(cs: Seq<NodeV>, tag: Seq<char>, i: int)
    requires
        0 <= i < cs.len(),
        cs[i].tag == tag,
        forall|j: int| 0 <= j < i ==> cs[j].tag != tag,
    ensures
        spec_first_with_tag(cs, tag) == Some(cs[i]),
    decreases cs.len(),
{
    if i > 0 {
        let d = cs.drop_first();
        assert forall|j: int| 0 <= j < i - 1 implies d[j].tag != tag by {
            assert(d[j] == cs[j + 1]);
        }
        lemma_first_with_tag_found(d, tag, i - 1);
    }
}

/// No occurrence means `spec_first_with_tag` finds nothing.
pub proof fn lemma_first_with_tag_none(cs: Seq<NodeV>, tag: Seq<char>)
    requires
        forall|j: int| 0 <= j < cs.len() ==> cs[j].tag != tag,
    ensures
        spec_first_with_tag(cs, tag) is None,
    decreases cs.len(),
{
    if cs.len() > 0 {
        let d = cs.drop_first();
        assert forall|j: int| 0 <= j < d.len() implies d[j].tag != tag by {
            assert(d[j] == cs[j + 1]);
        }
        lemma_first_with_tag_none(d, tag);
    }
}

/// The node reached by following the first child of each tag in turn.
pub open spec fn spec_walk_tags(n: NodeV, tags: Seq<Seq<char>>, i: int) -> Option<NodeV>
    decreases tags.len() - i,
{
    if i < 0 || i >= tags.len() {
        Some(n)
    } else {
        match spec_first_with_tag(spec_children_of(n), tags[i]) {
            Some(c) => spec_walk_tags(c, tags, i + 1),
            None => None,
        }
    }
}

/// The position of the first pair keyed `k`, or the length when none is.
pub open spec fn attr_idx(a: Seq<(Seq<char>, AttrV)>, k: Seq<char>) -> int
    decreases a.len(),
{
    if a.len() == 0 {
        0
    } else if a[0].0 == k {
        0
    } else {
        1 + attr_idx(a.drop_first(), k)
    }
}

/// The value stored under `k`, if any.
pub open spec fn spec_get_attr(a: Seq<(Seq<char>, AttrV)>, k: Seq<char>) -> Option<AttrV> {
    if attr_idx(a, k) < a.len() {
        Some(a[attr_idx(a, k)].1)
    } else {
        None
    }
}

/// The attribute list after storing `v` under `k`: the first pair keyed
/// `k` is replaced, or a new pair is appended.
pub open spec fn spec_set_attr(
    a: Seq<(Seq<char>, AttrV)>,
    k: Seq<char>,
    v: AttrV,
) -> Seq<(Seq<char>, AttrV)> {
    if attr_idx(a, k) < a.len() {
        a.update(attr_idx(a, k), (k, v))
    } else {
        a.push((k, v))
    }
}

/// What `attr_idx` returns: the first pair with the key, or the length.
pub proof fn lemma_attr_idx(a: Seq<(Seq<char>, AttrV)>, k: Seq<char>)
    ensures
        0 <= attr_idx(a, k) <= a.len(),
        attr_idx(a, k) < a.len() ==> a[attr_idx(a, k)].0 == k && (forall|j: int|
            0 <= j < attr_idx(a, k) ==> a[j].0 != k),
        attr_idx(a, k) == a.len() ==> forall|j: int| 0 <= j < a.len() ==> a[j].0 != k,
    decreases a.len(),
{
    if a.len() > 0 && a[0].0 != k {
        let d = a.drop_first();
        lemma_attr_idx(d, k);
        let i = attr_idx(a, k);
        assert(i == 1 + attr_idx(d, k));
        if attr_idx(d, k) < d.len() {
            assert(a[i] == d[i - 1]);
            assert forall|j: int| 0 <= j < i implies a[j].0 != k by {
                if j > 0 {
                    assert(a[j] == d[j - 1]);
                }
            }
        } else {
            assert forall|j: int| 0 <= j < a.len() implies a[j].0 != k by {
                if j > 0 {
                    assert(a[j] == d[j - 1]);
                }
            }
        }
    }
}

/// A found first index determines `attr_idx`.
pub proof fn lemma_attr_idx_found(a: Seq<(Seq<char>, AttrV)>, k: Seq<char>, i: int)
    requires
        0 <= i < a.len(),
        a[i].0 == k,
        forall|j: int| 0 <= j < i ==> a[j].0 != k,
    ensures
        attr_idx(a, k) == i,
    decreases a.len(),
{
    if i > 0 {
        let d = a.drop_first();
        assert forall|j: int| 0 <= j < i - 1 implies d[j].0 != k by {
            assert(d[j] == a[j + 1]);
        }
        lemma_attr_idx_found(d, k, i - 1);
    }
}

impl Node {
    /// A node with the given tag, no attributes and no content.
    pub fn new(tag: &str) -> (r: Node)
        ensures
            r@ == (NodeV {
                tag: tag@,
                attrs: Seq::<(Seq<char>, AttrV)>::empty(),
                content: ContentV::Absent,
            }),
    {
        let r = Node { tag: tag.to_owned(), attrs: Vec::new(), content: NodeContent::Absent };
        proof {
            assert(attrs_view(r.attrs@) =~= Seq::<(Seq<char>, AttrV)>::empty());
        }
        r
    }

    /// A node with the given tag and attributes and no content.
    pub fn with_attrs(tag: &str, attrs: Attrs) -> (r: Node)
        ensures
            r@ == (NodeV { tag: tag@, attrs: attrs_view(attrs@), content: ContentV::Absent }),
    {
        Node { tag: tag.to_owned(), attrs, content: NodeContent::Absent }
    }

    /// Stores `value` under `key`, replacing the value of an existing key
    /// and keeping keys unique.
    pub fn set_attr(&mut self, key: &str, value: AttrValue)
        ensures
            final(self)@ == (NodeV {
                tag: old(self)@.tag,
                attrs: spec_set_attr(old(self)@.attrs, key@, value@),
                content: old(self)@.content,
            }),
    {
        let ghost a = attrs_view(self.attrs@);
        let n = self.attrs.len();
        let mut i: usize = 0;
        while i < n
            invariant
                self == old(self),
                n == self.attrs.len(),
                0 <= i <= n,
                a == attrs_view(self.attrs@),
                forall|j: int| 0 <= j < i ==> a[j].0 != key@,
            decreases n - i,
        {
            proof {
                assert(a[i as int] == (self.attrs@[i as int].0@, self.attrs@[i as int].1@));
            }
            if crate::bytes_util::str_eq(self.attrs[i].0.as_str(), key) {
                proof {
                    lemma_attr_idx_found(a, key@, i as int);
                }
                self.attrs[i] = (key.to_owned(), value);
                proof {
                    assert(attrs_view(self.attrs@) =~= spec_set_attr(a, key@, value@));
                }
                return ;
            }
            i = i + 1;
        }
        proof {
            lemma_attr_idx(a, key@);
            if attr_idx(a, key@) < a.len() {
                assert(a[attr_idx(a, key@)].0 == key@);
                assert(false);
            }
        }
        self.attrs.push((key.to_owned(), value));
        proof {
            assert(attrs_view(self.attrs@) =~= spec_set_attr(a, key@, value@));
        }
    }

    /// The value stored under `key`, if any.
    pub fn get_attr(&self, key: &str) -> (r: Option<&AttrValue>)
        ensures
            match r {
                Some(v) => spec_get_attr(self@.attrs, key@) == Some(v@),
                None => spec_get_attr(self@.attrs, key@) is None,
            },
    {
        let ghost a = attrs_view(self.attrs@);
        let n = self.attrs.len();
        let mut i: usize = 0;
        while i < n
            invariant
                n == self.attrs.len(),
                0 <= i <= n,
                a == attrs_view(self.attrs@),
                forall|j: int| 0 <= j < i ==> a[j].0 != key@,
            decreases n - i,
        {
            proof {
                assert(a[i as int] == (self.attrs@[i as int].0@, self.attrs@[i as int].1@));
            }
            if crate::bytes_util::str_eq(self.attrs[i].0.as_str(), key) {
                proof {
                    lemma_attr_idx_found(a, key@, i as int);
                }
                return Some(&self.attrs[i].1);
            }
            i = i + 1;
        }
        proof {
            lemma_attr_idx(a, key@);
            if attr_idx(a, key@) < a.len() {
                assert(a[attr_idx(a, key@)].0 == key@);
                assert(false);
            }
        }
        None
    }

    /// The text stored under `key`, if the key holds a text value.
    pub fn get_attr_str(&self, key: &str) -> (r: Option<&str>)
        ensures
            match spec_get_attr(self@.attrs, key@) {
                Some(AttrV::Text(t)) => r matches Some(s) && s@ == t,
                _ => r is None,
            },
    {
        match self.get_attr(key) {
            Some(v) => v.as_str(),
            None => None,
        }
    }

    /// The integer stored under `key`, if the key holds an integer value.
    pub fn get_attr_int(&self, key: &str) -> (r: Option<i64>)
        ensures
            match spec_get_attr(self@.attrs, key@) {
                Some(AttrV::Int(n)) => r == Some(n),
                _ => r is None,
            },
    {
        match self.get_attr(key) {
            Some(v) => v.as_int(),
            None => None,
        }
    }

    /// The identifier stored under `key`, if the key holds one.
    pub fn get_attr_jid(&self, key: &str) -> (r: Option<&JID>)
        ensures
            match spec_get_attr(self@.attrs, key@) {
                Some(AttrV::Jid(j)) => r matches Some(x) && x@ == j,
                _ => r is None,
            },
    {
        match self.get_attr(key) {
            Some(v) => v.as_jid(),
            None => None,
        }
    }

    /// Makes `children` the content.
    pub fn set_children(&mut self, children: Vec<Node>)
        ensures
            final(self)@ == (NodeV {
                tag: old(self)@.tag,
                attrs: old(self)@.attrs,
                content: ContentV::Children(nodes_view(children@)),
            }),
    {
        self.content = NodeContent::Children(children);
    }

    /// Appends a child, turning other content into a one-child list.
    pub fn add_child(&mut self, child: Node)
        ensures
            final(self)@ == (NodeV {
                tag: old(self)@.tag,
                attrs: old(self)@.attrs,
                content: match old(self)@.content {
                    ContentV::Children(cs) => ContentV::Children(cs.push(child@)),
                    _ => ContentV::Children(seq![child@]),
                },
            }),
    {
        let ghost cv = child@;
        match &mut self.content {
            NodeContent::Children(children) => {
                let ghost before = children@;
                children.push(child);
                proof {
                    assert(children@.drop_last() =~= before);
                    assert(nodes_view(children@) =~= nodes_view(before).push(cv));
                }
            },
            _ => {
                let mut children: Vec<Node> = Vec::new();
                children.push(child);
                proof {
                    reveal_with_fuel(nodes_view, 2);
                    assert(children@.drop_last() =~= Seq::<Node>::empty());
                    assert(nodes_view(children@) =~= seq![cv]);
                }
                self.content = NodeContent::Children(children);
            },
        }
    }

    /// Makes raw bytes the content.
    pub fn set_bytes(&mut self, bytes: Vec<u8>)
        ensures
            final(self)@ == (NodeV {
                tag: old(self)@.tag,
                attrs: old(self)@.attrs,
                content: ContentV::Bytes(bytes@),
            }),
    {
        self.content = NodeContent::Bytes(bytes);
    }

    /// The children, if the content is a child list.
    pub fn get_children(&self) -> (r: Option<&[Node]>)
        ensures
            match self@.content {
                ContentV::Children(cs) => r matches Some(s) && nodes_view(s@) == cs,
                _ => r is None,
            },
    {
        match &self.content {
            NodeContent::Children(children) => Some(children.as_slice()),
            _ => None,
        }
    }

    /// The children whose tag is `tag`, in order; empty when the content
    /// is not a child list.
    pub fn get_children_by_tag(&self, tag: &str) -> (r: Vec<&Node>)
        ensures
            r@.map_values(|n: &Node| n@) == spec_with_tag(spec_children_of(self@), tag@),
    {
        let mut r: Vec<&Node> = Vec::new();
        match &self.content {
            NodeContent::Children(children) => {
                proof {
                    lemma_nodes_view(children@);
                }
                let ghost cs = nodes_view(children@);
                let n = children.len();
                let mut i: usize = 0;
                proof {
                    assert(cs.take(0) =~= Seq::<NodeV>::empty());
                    assert(r@.map_values(|n: &Node| n@) =~= spec_with_tag(cs.take(0), tag@));
                }
                while i < n
                    invariant
                        n == children.len(),
                        0 <= i <= n,
                        cs == nodes_view(children@),
                        cs.len() == n,
                        forall|j: int| 0 <= j < n ==> cs[j] == node_view(children@[j]),
                        r@.map_values(|n: &Node| n@) == spec_with_tag(cs.take(i as int), tag@),
                    decreases n - i,
                {
                    let ghost before = r@;
                    if crate::bytes_util::str_eq(children[i].tag.as_str(), tag) {
                        r.push(&children[i]);
                    }
                    proof {
                        assert(cs.take(i as int + 1).drop_last() =~= cs.take(i as int));
                        assert(cs.take(i as int + 1).last() == cs[i as int]);
                        assert(r@.map_values(|n: &Node| n@) =~= spec_with_tag(
                            cs.take(i as int + 1),
                            tag@,
                        ));
                    }
                    i = i + 1;
                }
                proof {
                    assert(cs.take(n as int) =~= cs);
                }
            },
            _ => {
                proof {
                    assert(r@.map_values(|n: &Node| n@) =~= spec_with_tag(
                        spec_children_of(self@),
                        tag@,
                    ));
                }
            },
        }
        r
    }

    /// The first child whose tag is `tag`.
    pub fn get_child_by_tag(&self, tag: &str) -> (r: Option<&Node>)
        ensures
            match r {
                Some(c) => spec_first_with_tag(spec_children_of(self@), tag@) == Some(c@),
                None => spec_first_with_tag(spec_children_of(self@), tag@) is None,
            },
    {
        match &self.content {
            NodeContent::Children(children) => {
                proof {
                    lemma_nodes_view(children@);
                }
                let ghost cs = nodes_view(children@);
                let n = children.len();
                let mut i: usize = 0;
                while i < n
                    invariant
                        n == children.len(),
                        0 <= i <= n,
                        cs == nodes_view(children@),
                        spec_children_of(self@) == cs,
                        cs.len() == n,
                        forall|j: int| 0 <= j < n ==> cs[j] == node_view(children@[j]),
                        forall|j: int| 0 <= j < i ==> cs[j].tag != tag@,
                    decreases n - i,
                {
                    if crate::bytes_util::str_eq(children[i].tag.as_str(), tag) {
                        proof {
                            assert(cs[i as int] == node_view(children@[i as int]));
                            assert(cs[i as int].tag == tag@);
                            lemma_first_with_tag_found(cs, tag@, i as int);
                            assert(spec_children_of(self@) == cs);
                        }
                        return Some(&children[i]);
                    }
                    i = i + 1;
                }
                proof {
                    lemma_first_with_tag_none(cs, tag@);
                }
                None
            },
            _ => None,
        }
    }

    /// The node reached by walking nested tags, first match at each step.
    pub fn get_optional_child_by_tag(&self, tags: &[&str]) -> (r: Option<&Node>)
        ensures
            match r {
                Some(c) => spec_walk_tags(self@, tags@.map_values(|t: &str| t@), 0) == Some(c@),
                None => spec_walk_tags(self@, tags@.map_values(|t: &str| t@), 0) is None,
            },
    {
        let ghost tv = tags@.map_values(|t: &str| t@);
        let mut current: &Node = self;
        let n = tags.len();
        let mut i: usize = 0;
        while i < n
            invariant
                n == tags@.len(),
                tv == tags@.map_values(|t: &str| t@),
                0 <= i <= n,
                spec_walk_tags(self@, tv, 0) == spec_walk_tags(current@, tv, i as int),
            decreases n - i,
        {
            match current.get_child_by_tag(tags[i]) {
                Some(c) => {
                    current = c;
                },
                None => {
                    return None;
                },
            }
            i = i + 1;
        }
        Some(current)
    }

    /// The byte content, if the content is raw bytes.
    pub fn get_bytes(&self) -> (r: Option<&[u8]>)
        ensures
            match self@.content {
                ContentV::Bytes(b) => r matches Some(s) && s@ == b,
                _ => r is None,
            },
    {
        match &self.content {
            NodeContent::Bytes(bytes) => Some(bytes.as_slice()),
            _ => None,
        }
    }
}

impl Default for Node {
    /// An empty node: empty tag, no attributes, no content.
    fn default() -> (r: Node)
        ensures
            r@ == (NodeV {
                tag: Seq::<char>::empty(),
                attrs: Seq::<(Seq<char>, AttrV)>::empty(),
                content: ContentV::Absent,
            }),
    {
        proof {
            reveal_strlit("");
            assert(""@ =~= Seq::<char>::empty());
        }
        Node::new("")
    }
}

impl Default for NodeContent {
    /// Content is absent by default.
    fn default() -> (r: NodeContent)
        ensures
            r is Absent,
    {
        NodeContent::Absent
    }
}

} // verus!
