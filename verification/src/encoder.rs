//! The binary encoder: turns a tree value into the exact byte sequence of
//! the wire format. One header byte packs the attribute count and a
//! content flag; strings go out as dictionary tokens when the primary
//! table knows them and as length-prefixed UTF-8 otherwise; lengths use
//! three size classes (one, two or three bytes, big-endian).

use vstd::prelude::*;

verus! {

use vstd::string::StrSliceExecFns;
use vstd::string::StringSliceAdditionalSpecFns;
use vstd::utf8::encode_utf8;
use crate::node::{Node, NodeV, NodeContent, ContentV, AttrValue, AttrV, attrs_view, nodes_view,
    lemma_nodes_view};
use crate::jid::JidV;
use crate::tokens::spec_token_index;
use crate::numfmt::{spec_signed_decimal, spec_decimal_bytes, lemma_decimal_bytes_ascii,
    lemma_ascii_bytes_utf8};

/// Marker for an empty string, and for an absent attribute value.
pub const MARK_EMPTY: u8 = 0x00;

/// Marker for a child list with a one-byte count.
pub const MARK_LIST_SMALL: u8 = 0xF8;

/// Marker for a child list with a two-byte count.
pub const MARK_LIST_LARGE: u8 = 0xF9;

/// Marker for an identifier in the plain user/server form.
pub const MARK_JID_PAIR: u8 = 0xF9;

/// Marker for an identifier in the agent/device form.
pub const MARK_JID_AD: u8 = 0xFA;

/// Marker for a short string or byte run: one length byte.
pub const MARK_SHORT: u8 = 0xFC;

/// Marker for a medium string or byte run: two length bytes.
pub const MARK_MEDIUM: u8 = 0xFD;

/// Marker for a long string or byte run: three length bytes.
pub const MARK_LONG: u8 = 0xFE;

/// Marker for a byte-blob attribute value or byte content.
pub const MARK_BYTES: u8 = 0xFF;

/// Two big-endian bytes of `n`.
pub open spec fn be_bytes2(n: nat) -> Seq<u8> {
    seq![((n / 256) % 256) as u8, (n % 256) as u8]
}

/// Three big-endian bytes of `n`.
pub open spec fn be_bytes3(n: nat) -> Seq<u8> {
    seq![((n / 65536) % 256) as u8, ((n / 256) % 256) as u8, (n % 256) as u8]
}

/// A byte run prefixed by its length in the fitting size class.
pub open spec fn spec_len_prefixed(b: Seq<u8>) -> Seq<u8> {
    if b.len() < 256 {
        seq![MARK_SHORT, b.len() as u8] + b
    } else if b.len() < 65536 {
        seq![MARK_MEDIUM] + be_bytes2(b.len()) + b
    } else {
        seq![MARK_LONG] + be_bytes3(b.len()) + b
    }
}

/// The wire form of a string: the empty marker, a primary-table token
/// byte, or length-prefixed UTF-8.
pub open spec fn spec_encode_str(s: Seq<char>) -> Seq<u8> {
    if s.len() == 0 {
        seq![MARK_EMPTY]
    } else {
        match spec_token_index(s) {
            Some(tok) => seq![tok],
            None => spec_len_prefixed(encode_utf8(s)),
        }
    }
}

/// The wire form of an identifier: the agent/device form when either
/// qualifier is set, else the plain pair form.
pub open spec fn spec_encode_jid(j: JidV) -> Seq<u8> {
    if j.raw_agent > 0 || j.device > 0 {
        seq![MARK_JID_AD, j.raw_agent, (j.device % 256) as u8] + spec_encode_str(j.user)
    } else {
        seq![MARK_JID_PAIR] + spec_encode_str(j.user) + spec_encode_str(j.server)
    }
}

/// The textual form of a boolean.
pub open spec fn spec_bool_chars(b: bool) -> Seq<char> {
    if b {
        "true"@
    } else {
        "false"@
    }
}

/// The wire form of an attribute value. Integers and booleans go out as
/// the string form of their text; bytes carry a bytes marker and length.
pub open spec fn spec_encode_attr_value(v: AttrV) -> Seq<u8> {
    match v {
        AttrV::Absent => seq![MARK_EMPTY],
        AttrV::Text(s) => spec_encode_str(s),
        AttrV::Bytes(b) => seq![MARK_BYTES] + spec_len_prefixed(b),
        AttrV::Int(n) => spec_encode_str(spec_signed_decimal(n as int)),
        AttrV::Bool(b) => spec_encode_str(spec_bool_chars(b)),
        AttrV::Jid(j) => spec_encode_jid(j),
    }
}

/// The wire form of an attribute list: key then value, in order.
pub open spec fn spec_encode_attrs(a: Seq<(Seq<char>, AttrV)>) -> Seq<u8>
    decreases a.len(),
{
    if a.len() == 0 {
        Seq::<u8>::empty()
    } else {
        spec_encode_attrs(a.drop_last()) + spec_encode_str(a.last().0) + spec_encode_attr_value(
            a.last().1,
        )
    }
}

/// The count header of a child list.
pub open spec fn spec_list_header(n: nat) -> Seq<u8> {
    if n < 256 {
        seq![MARK_LIST_SMALL, n as u8]
    } else {
        seq![MARK_LIST_LARGE] + be_bytes2(n)
    }
}

/// The wire form of a whole node: header byte, tag, attribute pairs, and
/// the content if any.
pub open spec fn spec_encode_node(v: NodeV) -> Seq<u8>
    decreases v, 0int,
{
    let has_content: nat = if v.content is Absent {
        0
    } else {
        1
    };
    let header: u8 = ((v.attrs.len() * 2 + has_content) % 256) as u8;
    seq![header] + spec_encode_str(v.tag) + spec_encode_attrs(v.attrs) + match v.content {
        ContentV::Absent => Seq::<u8>::empty(),
        ContentV::Children(cs) => spec_list_header(cs.len()) + spec_encode_nodes(cs),
        ContentV::Bytes(b) => seq![MARK_BYTES] + spec_len_prefixed(b),
    }
}

/// The wire forms of a sequence of nodes, one after the other.
pub open spec fn spec_encode_nodes(cs: Seq<NodeV>) -> Seq<u8>
    decreases cs, 1int,
{
    if cs.len() == 0 {
        Seq::<u8>::empty()
    } else {
        spec_encode_nodes(cs.drop_last()) + spec_encode_node(cs.last())
    }
}

/// A string the wire can carry: its UTF-8 form fits the long size class.
pub open spec fn wf_str(s: Seq<char>) -> bool {
    encode_utf8(s).len() < 0x1000000
}

/// An attribute value the wire can carry.
pub open spec fn wf_attr_value(v: AttrV) -> bool {
    match v {
        AttrV::Absent => true,
        AttrV::Text(s) => wf_str(s),
        AttrV::Bytes(b) => b.len() < 0x1000000,
        AttrV::Int(_) => true,
        AttrV::Bool(_) => true,
        AttrV::Jid(j) => wf_str(j.user) && wf_str(j.server) && j.device < 256,
    }
}

/// A node the wire can carry: at most 127 attribute pairs, strings and
/// byte runs inside the size classes, child lists of at most 65535, and
/// every child well formed in turn.
pub open spec fn wf_node(v: NodeV) -> bool
    decreases v, 0int,
{
    &&& v.attrs.len() <= 127
    &&& wf_str(v.tag)
    &&& (forall|i: int|
        0 <= i < v.attrs.len() ==> wf_str(#[trigger] v.attrs[i].0) && wf_attr_value(v.attrs[i].1))
    &&& match v.content {
        ContentV::Absent => true,
        ContentV::Children(cs) => cs.len() < 65536 && wf_nodes(cs),
        ContentV::Bytes(b) => b.len() < 0x1000000,
    }
}

/// Every node of the sequence is well formed.
pub open spec fn wf_nodes(cs: Seq<NodeV>) -> bool
    decreases cs, 1int,
{
    forall|i: int| 0 <= i < cs.len() ==> wf_node(#[trigger] cs[i])
}

/// The binary encoder: accumulates the wire bytes of one node.
pub struct Encoder {
    data: Vec<u8>,
}

impl View for Encoder {
    type V = Seq<u8>;

    /// The bytes written so far.
    closed spec fn view(&self) -> Seq<u8> {
        self.data@
    }
}

impl Encoder {
    /// A fresh encoder with no output yet.
    pub fn new() -> (r: Encoder)
        ensures
            r@ == Seq::<u8>::empty(),
    {
        Encoder { data: Vec::new() }
    }

    /// Appends one byte.
    fn write_byte(&mut self, b: u8)
        ensures
            final(self)@ == old(self)@ + seq![b],
    {
        self.data.push(b);
        proof {
            assert(self.data@ =~= old(self).data@ + seq![b]);
        }
    }

    /// Appends a run of bytes.
    fn write_bytes(&mut self, bytes: &[u8])
        ensures
            final(self)@ == old(self)@ + bytes@,
    {
        self.data.extend_from_slice(bytes);
    }

    /// Appends a byte run prefixed by its size-classed length.
    fn write_len_prefixed(&mut self, bytes: &[u8])
        requires
            bytes@.len() < 0x1000000,
        ensures
            final(self)@ == old(self)@ + spec_len_prefixed(bytes@),
    {
        let n = bytes.len();
        if n < 256 {
            self.write_byte(MARK_SHORT);
            self.write_byte(n as u8);
        } else if n < 65536 {
            self.write_byte(MARK_MEDIUM);
            self.write_byte(((n / 256) % 256) as u8);
            self.write_byte((n % 256) as u8);
        } else {
            self.write_byte(MARK_LONG);
            self.write_byte(((n / 65536) % 256) as u8);
            self.write_byte(((n / 256) % 256) as u8);
            self.write_byte((n % 256) as u8);
        }
        self.write_bytes(bytes);
        proof {
            assert(self.data@ =~= old(self).data@ + spec_len_prefixed(bytes@));
        }
    }

    /// Appends the wire form of a string: token byte if the primary table
    /// knows it, length-prefixed UTF-8 otherwise.
    fn write_string(&mut self, s: &str)
        requires
            wf_str(s@),
        ensures
            final(self)@ == old(self)@ + spec_encode_str(s@),
    {
        if s.unicode_len() == 0 {
            self.write_byte(MARK_EMPTY);
            return ;
        }
        match crate::tokens::get_token_index(s) {
            Some(tok) => {
                self.write_byte(tok);
            },
            None => {
                self.write_len_prefixed(s.as_bytes());
                proof {
                    assert(self.data@ =~= old(self).data@ + spec_encode_str(s@));
                }
            },
        }
    }

    /// Appends the wire form of an identifier.
    fn write_jid(&mut self, jid: &crate::jid::JID)
        requires
            wf_attr_value(AttrV::Jid(jid@)),
        ensures
            final(self)@ == old(self)@ + spec_encode_jid(jid@),
    {
        if jid.raw_agent > 0 || jid.device > 0 {
            self.write_byte(MARK_JID_AD);
            self.write_byte(jid.raw_agent);
            self.write_byte((jid.device % 256) as u8);
            self.write_string(jid.user.as_str());
            proof {
                assert(self.data@ =~= old(self).data@ + spec_encode_jid(jid@));
            }
        } else {
            self.write_byte(MARK_JID_PAIR);
            self.write_string(jid.user.as_str());
            self.write_string(jid.server.as_str());
            proof {
                assert(self.data@ =~= old(self).data@ + spec_encode_jid(jid@));
            }
        }
    }

    /// Appends the wire form of an attribute value.
    fn write_attr_value(&mut self, value: &AttrValue)
        requires
            wf_attr_value(value@),
        ensures
            final(self)@ == old(self)@ + spec_encode_attr_value(value@),
    {
        match value {
            AttrValue::Absent => {
                self.write_byte(MARK_EMPTY);
            },
            AttrValue::Text(s) => {
                self.write_string(s.as_str());
            },
            AttrValue::Bytes(b) => {
                self.write_byte(MARK_BYTES);
                self.write_len_prefixed(b.as_slice());
                proof {
                    assert(self.data@ =~= old(self).data@ + spec_encode_attr_value(value@));
                }
            },
            AttrValue::Int(n) => {
                let s = crate::numfmt::i64_to_decimal(*n);
                proof {
                    lemma_signed_decimal_wf(*n as int);
                }
                self.write_string(s.as_str());
            },
            AttrValue::Bool(b) => {
                if *b {
                    proof {
                        lemma_bool_chars_wf();
                    }
                    self.write_string("true");
                } else {
                    proof {
                        lemma_bool_chars_wf();
                    }
                    self.write_string("false");
                }
            },
            AttrValue::Jid(j) => {
                self.write_jid(j);
            },
        }
    }

    /// Appends the wire form of a whole node.
    #[verifier::rlimit(100)]
    fn write_node(&mut self, node: &Node)
        requires
            wf_node(node@),
        ensures
            final(self)@ == old(self)@ + spec_encode_node(node@),
        decreases *node,
    {
        proof {
            assert(attrs_view(node.attrs@).len() == node.attrs@.len());
        }
        let num_attrs = node.attrs.len();
        let has_content: u8 = match &node.content {
            NodeContent::Absent => 0,
            _ => 1,
        };
        let header: u8 = (num_attrs as u8) * 2 + has_content;
        self.write_byte(header);
        self.write_string(node.tag.as_str());
        let ghost avs = node@.attrs;
        let ghost base = old(self).data@ + seq![header] + spec_encode_str(node@.tag);
        proof {
            assert(spec_encode_attrs(avs.take(0)) =~= Seq::<u8>::empty());
            assert(self.data@ =~= base + spec_encode_attrs(avs.take(0)));
        }
        let n = num_attrs;
        let mut i: usize = 0;
        while i < n
            invariant
                wf_node(node@),
                n == node.attrs.len(),
                0 <= i <= n,
                avs == node@.attrs,
                avs.len() == n,
                self.data@ == base + spec_encode_attrs(avs.take(i as int)),
            decreases n - i,
        {
            proof {
                assert(avs == attrs_view(node.attrs@));
                assert(avs[i as int] == (node.attrs@[i as int].0@, node.attrs@[i as int].1@));
                assert(wf_str(avs[i as int].0) && wf_attr_value(avs[i as int].1));
            }
            self.write_string(node.attrs[i].0.as_str());
            self.write_attr_value(&node.attrs[i].1);
            proof {
                assert(avs.take(i as int + 1).drop_last() =~= avs.take(i as int));
                assert(avs.take(i as int + 1).last() == avs[i as int]);
                assert(self.data@ =~= base + spec_encode_attrs(avs.take(i as int + 1)));
            }
            i = i + 1;
        }
        proof {
            assert(avs.take(n as int) =~= avs);
        }
        match &node.content {
            NodeContent::Absent => {
                proof {
                    assert(self.data@ =~= old(self).data@ + spec_encode_node(node@));
                }
            },
            NodeContent::Children(children) => {
                proof {
                    lemma_nodes_view(children@);
                }
                let ghost cvs = nodes_view(children@);
                let cnt = children.len();
                if cnt < 256 {
                    self.write_byte(MARK_LIST_SMALL);
                    self.write_byte(cnt as u8);
                } else {
                    self.write_byte(MARK_LIST_LARGE);
                    self.write_byte(((cnt / 256) % 256) as u8);
                    self.write_byte((cnt % 256) as u8);
                }
                let ghost base2 = base + spec_encode_attrs(avs) + spec_list_header(cvs.len());
                proof {
                    assert(spec_encode_nodes(cvs.take(0)) =~= Seq::<u8>::empty());
                    assert(self.data@ =~= base2 + spec_encode_nodes(cvs.take(0)));
                }
                let mut j: usize = 0;
                while j < cnt
                    invariant
                        wf_node(node@),
                        node.content == NodeContent::Children(*children),
                        node@.content == ContentV::Children(cvs),
                        cnt == children.len(),
                        0 <= j <= cnt,
                        cvs == nodes_view(children@),
                        cvs.len() == cnt,
                        forall|k: int| 0 <= k < cnt ==> cvs[k] == crate::node::node_view(
                            children@[k],
                        ),
                        self.data@ == base2 + spec_encode_nodes(cvs.take(j as int)),
                    decreases cnt - j,
                {
                    proof {
                        assert(wf_nodes(cvs));
                        assert(wf_node(cvs[j as int]));
                        assert(decreases_to!(node.content => *children));
                        assert(decreases_to!(*node => children@[j as int]));
                    }
                    self.write_node(&children[j]);
                    proof {
                        assert(cvs.take(j as int + 1).drop_last() =~= cvs.take(j as int));
                        assert(cvs.take(j as int + 1).last() == cvs[j as int]);
                        assert(self.data@ =~= base2 + spec_encode_nodes(cvs.take(j as int + 1)));
                    }
                    j = j + 1;
                }
                proof {
                    assert(cvs.take(cnt as int) =~= cvs);
                    assert(self.data@ =~= old(self).data@ + spec_encode_node(node@));
                }
            },
            NodeContent::Bytes(bytes) => {
                self.write_byte(MARK_BYTES);
                self.write_len_prefixed(bytes.as_slice());
                proof {
                    assert(self.data@ =~= old(self).data@ + spec_encode_node(node@));
                }
            },
        }
    }

    /// Encodes a node into its exact wire bytes.
    pub fn encode(node: &Node) -> (r: Vec<u8>)
        requires
            wf_node(node@),
        ensures
            r@ == spec_encode_node(node@),
    {
        let mut encoder = Encoder::new();
        encoder.write_node(node);
        encoder.data
    }
}

impl Default for Encoder {
    /// A fresh encoder.
    fn default() -> (r: Encoder)
        ensures
            r@ == Seq::<u8>::empty(),
    {
        Encoder::new()
    }
}

/// Encodes a node into its exact wire bytes.
pub fn encode(node: &Node) -> (r: Vec<u8>)
    requires
        wf_node(node@),
    ensures
        r@ == spec_encode_node(node@),
{
    Encoder::encode(node)
}

/// The textual form of an `i64` fits the wire's size classes.
pub proof fn lemma_signed_decimal_wf(n: int)
    requires
        i64::MIN <= n <= i64::MAX,
    ensures
        wf_str(spec_signed_decimal(n)),
{
    crate::numfmt::lemma_signed_decimal_short(n);
}

/// The boolean words fit the wire's size classes.
pub proof fn lemma_bool_chars_wf()
    ensures
        wf_str("true"@),
        wf_str("false"@),
{
    reveal_strlit("true");
    reveal_strlit("false");
    assert(vstd::utf8::is_ascii_chars("true"@)) by {
        assert forall|i: int| 0 <= i < "true"@.len() implies '\0' <= #[trigger] "true"@[i]
            <= '\u{7f}' by {
            if i == 0 {
                assert("true"@[0] == 't');
            } else if i == 1 {
                assert("true"@[1] == 'r');
            } else if i == 2 {
                assert("true"@[2] == 'u');
            } else {
                assert("true"@[3] == 'e');
            }
        }
    }
    assert(vstd::utf8::is_ascii_chars("false"@)) by {
        assert forall|i: int| 0 <= i < "false"@.len() implies '\0' <= #[trigger] "false"@[i]
            <= '\u{7f}' by {
            if i == 0 {
                assert("false"@[0] == 'f');
            } else if i == 1 {
                assert("false"@[1] == 'a');
            } else if i == 2 {
                assert("false"@[2] == 'l');
            } else if i == 3 {
                assert("false"@[3] == 's');
            } else {
                assert("false"@[4] == 'e');
            }
        }
    }
    vstd::utf8::is_ascii_chars_encode_utf8("true"@);
    vstd::utf8::is_ascii_chars_encode_utf8("false"@);
}

/// A well-formed node has well-formed attribute keys and values.
proof fn lemma_wf_node_attr(v: NodeV, i: int)
    requires
        wf_node(v),
        0 <= i < v.attrs.len(),
    ensures
        wf_str(v.attrs[i].0),
        wf_attr_value(v.attrs[i].1),
{
    assert(wf_str(v.attrs[i].0));
}

/// Whether the wire can carry this attribute value, checked at run time.
fn check_attr_value(value: &AttrValue) -> (r: bool)
    ensures
        r == wf_attr_value(value@),
{
    match value {
        AttrValue::Absent => true,
        AttrValue::Text(s) => s.as_str().as_bytes().len() < 0x1000000,
        AttrValue::Bytes(b) => b.len() < 0x1000000,
        AttrValue::Int(_) => true,
        AttrValue::Bool(_) => true,
        AttrValue::Jid(j) => j.user.as_str().as_bytes().len() < 0x1000000
            && j.server.as_str().as_bytes().len() < 0x1000000 && j.device < 256,
    }
}

/// Whether the wire can carry this node: the well-formedness `encode`
/// requires, checked at run time so that callers outside the proofs can
/// establish it.
#[verifier::rlimit(100)]
pub fn is_encodable(node: &Node) -> (r: bool)
    ensures
        r == wf_node(node@),
    decreases *node, 0int,
{
    if node.attrs.len() > 127 {
        proof {
            assert(node@.attrs.len() == node.attrs@.len());
        }
        return false;
    }
    if node.tag.as_str().as_bytes().len() >= 0x1000000 {
        return false;
    }
    let ghost avs = node@.attrs;
    proof {
        assert(avs.len() == node.attrs@.len());
    }
    let n = node.attrs.len();
    let mut i: usize = 0;
    while i < n
        invariant
            n == node.attrs.len(),
            0 <= i <= n,
            avs == node@.attrs,
            avs.len() == n,
            forall|j: int| 0 <= j < i ==> wf_str(#[trigger] avs[j].0),
            forall|j: int| 0 <= j < i ==> wf_attr_value(#[trigger] avs[j].1),
        decreases n - i,
    {
        proof {
            assert(avs == attrs_view(node.attrs@));
            assert(avs[i as int] == (node.attrs@[i as int].0@, node.attrs@[i as int].1@));
        }
        if node.attrs[i].0.as_str().as_bytes().len() >= 0x1000000 {
            proof {
                assert(!wf_str(avs[i as int].0));
                if wf_node(node@) {
                    lemma_wf_node_attr(node@, i as int);
                    assert(false);
                }
            }
            return false;
        }
        if !check_attr_value(&node.attrs[i].1) {
            proof {
                assert(!wf_attr_value(avs[i as int].1));
                if wf_node(node@) {
                    lemma_wf_node_attr(node@, i as int);
                    assert(false);
                }
            }
            return false;
        }
        proof {
            assert(wf_str(avs[i as int].0));
            assert(wf_attr_value(avs[i as int].1));
        }
        i = i + 1;
    }
    proof {
        assert forall|k: int|
            0 <= k < node@.attrs.len() implies wf_str(#[trigger] node@.attrs[k].0)
            && wf_attr_value(node@.attrs[k].1) by {
            assert(wf_str(avs[k].0));
            assert(wf_attr_value(avs[k].1));
        }
    }
    match &node.content {
        NodeContent::Absent => {
            proof {
                assert(wf_node(node@));
            }
            true
        },
        NodeContent::Bytes(bytes) => {
            if bytes.len() < 0x1000000 {
                proof {
                    assert(node@.content == ContentV::Bytes(bytes@));
                    assert(wf_node(node@));
                }
                true
            } else {
                proof {
                    assert(node@.content == ContentV::Bytes(bytes@));
                    assert(!wf_node(node@));
                }
                false
            }
        },
        NodeContent::Children(children) => {
            proof {
                lemma_nodes_view(children@);
            }
            let ghost cvs = nodes_view(children@);
            if children.len() >= 65536 {
                proof {
                    assert(node@.content == ContentV::Children(cvs));
                    assert(cvs.len() == children@.len());
                    assert(!wf_node(node@));
                }
                return false;
            }
            let cnt = children.len();
            let mut j: usize = 0;
            while j < cnt
                invariant
                    node.content == NodeContent::Children(*children),
                    node@.content == ContentV::Children(cvs),
                    cnt == children.len(),
                    0 <= j <= cnt,
                    cvs == nodes_view(children@),
                    cvs.len() == cnt,
                    forall|k: int| 0 <= k < cnt ==> cvs[k] == crate::node::node_view(
                        children@[k],
                    ),
                    forall|k: int| 0 <= k < j ==> wf_node(#[trigger] cvs[k]),
                decreases cnt - j,
            {
                proof {
                    assert(decreases_to!(node.content => *children));
                    assert(decreases_to!(*node => children@[j as int]));
                }
                if !is_encodable(&children[j]) {
                    proof {
                        assert(!wf_node(cvs[j as int]));
                        assert(!wf_nodes(cvs));
                        assert(!wf_node(node@));
                    }
                    return false;
                }
                j = j + 1;
            }
            proof {
                assert(wf_nodes(cvs));
                assert(wf_node(node@));
            }
            true
        },
    }
}

} // verus!
