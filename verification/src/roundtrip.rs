//! The laws that tie the encoder and the decoder together: decoding an
//! encoding yields the original value, and an encoding followed by any
//! trailing byte is rejected.

use vstd::prelude::*;

verus! {

use vstd::utf8::{encode_utf8, encode_utf8_valid_utf8, encode_utf8_decode_utf8};
use crate::node::{NodeV, ContentV, AttrV};
use crate::jid::JidV;
use crate::encoder::{spec_encode_str, spec_encode_attr_value, spec_encode_jid, spec_encode_attrs,
    spec_encode_nodes, spec_encode_node, spec_len_prefixed, spec_list_header, wf_str,
    wf_attr_value, wf_node, wf_nodes, MARK_EMPTY, MARK_LIST_SMALL, MARK_LIST_LARGE, MARK_JID_PAIR,
    MARK_JID_AD, MARK_SHORT, MARK_MEDIUM, MARK_LONG, MARK_BYTES};
use crate::decoder::{spec_parse_string, spec_parse_blob, spec_parse_len, spec_parse_attr_value,
    spec_parse_attrs, spec_parse_attrs_inner, spec_parse_node, spec_parse_node_inner,
    spec_parse_content, spec_parse_children, spec_decode, ParseErr};
use crate::tokens::{spec_token_index, lemma_token_round_trip};

/// An attribute value in wire-exact form: one that decoding maps back to
/// itself. Integers and booleans travel as text and come back as text, and
/// an empty text value is indistinguishable from an absent one, so neither
/// is wire-exact; an identifier must match what its wire form implies.
pub open spec fn rt_attr_value(v: AttrV) -> bool {
    match v {
        AttrV::Absent => true,
        AttrV::Text(s) => s.len() > 0,
        AttrV::Bytes(_) => true,
        AttrV::Int(_) => false,
        AttrV::Bool(_) => false,
        AttrV::Jid(j) => rt_jid(j),
    }
}

/// An identifier in wire-exact form. The agent/device wire form carries
/// only agent, device and user, so the rest of the value must be exactly
/// what decoding reconstructs from those; the plain form carries user and
/// server, so the integrator must be zero.
pub open spec fn rt_jid(j: JidV) -> bool {
    if j.raw_agent > 0 || j.device > 0 {
        j == crate::jid::spec_jid_ad(j.user, j.raw_agent, (j.device % 256) as u8)
    } else {
        j.integrator == 0
    }
}

/// A node in wire-exact form: every attribute value and every child is.
pub open spec fn rt_node(v: NodeV) -> bool
    decreases v, 0int,
{
    &&& (forall|i: int| 0 <= i < v.attrs.len() ==> rt_attr_value(#[trigger] v.attrs[i].1))
    &&& match v.content {
        ContentV::Children(cs) => rt_nodes(cs),
        _ => true,
    }
}

/// Every node of the sequence is in wire-exact form.
pub open spec fn rt_nodes(cs: Seq<NodeV>) -> bool
    decreases cs, 1int,
{
    forall|i: int| 0 <= i < cs.len() ==> rt_node(#[trigger] cs[i])
}

/// A non-empty character sequence has a non-empty UTF-8 form.
proof fn lemma_encode_utf8_nonempty(s: Seq<char>)
    requires
        s.len() > 0,
    ensures
        encode_utf8(s).len() > 0,
{
    assert(encode_utf8(s) == vstd::utf8::encode_scalar(s[0] as u32) + encode_utf8(s.drop_first()));
    assert(vstd::utf8::encode_scalar(s[0] as u32).len() >= 1);
}

/// The attribute encoding, unfolded from the front.
proof fn lemma_encode_attrs_cons(a: Seq<(Seq<char>, AttrV)>)
    requires
        a.len() > 0,
    ensures
        spec_encode_attrs(a) == spec_encode_str(a[0].0) + spec_encode_attr_value(a[0].1)
            + spec_encode_attrs(a.drop_first()),
    decreases a.len(),
{
    if a.len() == 1 {
        assert(a.drop_last() =~= Seq::<(Seq<char>, AttrV)>::empty());
        assert(a.drop_first() =~= Seq::<(Seq<char>, AttrV)>::empty());
        assert(a.last() == a[0]);
        assert(spec_encode_attrs(a) =~= spec_encode_str(a[0].0) + spec_encode_attr_value(a[0].1)
            + spec_encode_attrs(a.drop_first()));
    } else {
        let dl = a.drop_last();
        lemma_encode_attrs_cons(dl);
        assert(dl[0] == a[0]);
        assert(dl.drop_first() =~= a.drop_first().drop_last());
        assert(a.drop_first().last() == a.last());
        assert(spec_encode_attrs(a) =~= spec_encode_str(a[0].0) + spec_encode_attr_value(a[0].1)
            + spec_encode_attrs(a.drop_first()));
    }
}

/// The child-sequence encoding, unfolded from the front.
proof fn lemma_encode_nodes_cons(cs: Seq<NodeV>)
    requires
        cs.len() > 0,
    ensures
        spec_encode_nodes(cs) == spec_encode_node(cs[0]) + spec_encode_nodes(cs.drop_first()),
    decreases cs.len(),
{
    if cs.len() == 1 {
        assert(cs.drop_last() =~= Seq::<NodeV>::empty());
        assert(cs.drop_first() =~= Seq::<NodeV>::empty());
        assert(cs.last() == cs[0]);
        assert(spec_encode_nodes(cs) =~= spec_encode_node(cs[0]) + spec_encode_nodes(
            cs.drop_first(),
        ));
    } else {
        let dl = cs.drop_last();
        lemma_encode_nodes_cons(dl);
        assert(dl[0] == cs[0]);
        assert(dl.drop_first() =~= cs.drop_first().drop_last());
        assert(cs.drop_first().last() == cs.last());
        assert(spec_encode_nodes(cs) =~= spec_encode_node(cs[0]) + spec_encode_nodes(
            cs.drop_first(),
        ));
    }
}

/// One byte of a region known equal to `enc`.
proof fn lemma_eq_at(data: Seq<u8>, i: int, enc: Seq<u8>, k: int)
    requires
        0 <= i,
        i + enc.len() <= data.len(),
        data.subrange(i, i + enc.len() as int) == enc,
        0 <= k < enc.len(),
    ensures
        data[i + k] == enc[k],
{
    assert(data.subrange(i, i + enc.len() as int)[k] == enc[k]);
}

/// A slice of a region known equal to `enc`.
proof fn lemma_eq_slice(data: Seq<u8>, i: int, enc: Seq<u8>, a: int, b: int)
    requires
        0 <= i,
        i + enc.len() <= data.len(),
        data.subrange(i, i + enc.len() as int) == enc,
        0 <= a <= b <= enc.len(),
    ensures
        data.subrange(i + a, i + b) == enc.subrange(a, b),
{
    assert forall|k: int| 0 <= k < b - a implies data.subrange(i + a, i + b)[k] == enc.subrange(
        a,
        b,
    )[k] by {
        assert(data.subrange(i, i + enc.len() as int)[a + k] == enc[a + k]);
    }
    assert(data.subrange(i + a, i + b) =~= enc.subrange(a, b));
}

/// Parsing a string back from its own encoding yields the string and
/// consumes exactly the encoding.
proof fn lemma_parse_encode_str(s: Seq<char>, data: Seq<u8>, i: int)
    requires
        wf_str(s),
        0 <= i,
        i + spec_encode_str(s).len() <= data.len(),
        data.subrange(i, i + spec_encode_str(s).len() as int) == spec_encode_str(s),
    ensures
        spec_parse_string(data, i) == Ok::<_, ParseErr>((s, spec_encode_str(s).len() as nat)),
{
    let enc = spec_encode_str(s);
    if s.len() == 0 {
        lemma_eq_at(data, i, enc, 0);
        assert(data[i] == 0);
        assert(s =~= Seq::<char>::empty());
        assert(spec_parse_string(data, i) == Ok::<_, ParseErr>((s, 1nat)));
    } else {
        match spec_token_index(s) {
            Some(tok) => {
                lemma_token_round_trip(s);
                lemma_eq_at(data, i, enc, 0);
                assert(data[i] == tok);
                assert(1 <= tok < 236);
                assert(crate::tokens::single_token_seq()[tok as int] == s);
                assert(spec_parse_string(data, i) == Ok::<_, ParseErr>((s, 1nat)));
            },
            None => {
                let b = encode_utf8(s);
                lemma_encode_utf8_nonempty(s);
                encode_utf8_valid_utf8(s);
                encode_utf8_decode_utf8(s);
                if b.len() < 256 {
                    lemma_eq_at(data, i, enc, 0);
                    lemma_eq_at(data, i, enc, 1);
                    assert(data[i] == MARK_SHORT);
                    assert(data[i + 1] as nat == b.len());
                    lemma_eq_slice(data, i, enc, 2, enc.len() as int);
                    assert(enc.subrange(2, enc.len() as int) =~= b);
                    assert(spec_parse_blob(data, i) == Ok::<_, ParseErr>((b, (2 + b.len()) as nat)));
                    assert(enc.len() == 2 + b.len());
                    assert(spec_parse_string(data, i) == Ok::<_, ParseErr>((
                        s,
                        (2 + b.len()) as nat,
                    )));
                } else if b.len() < 65536 {
                    lemma_eq_at(data, i, enc, 0);
                    lemma_eq_at(data, i, enc, 1);
                    lemma_eq_at(data, i, enc, 2);
                    assert(data[i] == MARK_MEDIUM);
                    assert(data[i + 1] as nat == (b.len() / 256) % 256);
                    assert(data[i + 2] as nat == b.len() % 256);
                    assert((b.len() / 256) % 256 * 256 + b.len() % 256 == b.len()) by (nonlinear_arith)
                        requires
                            256 <= b.len() < 65536,
                    ;
                    lemma_eq_slice(data, i, enc, 3, enc.len() as int);
                    assert(enc.subrange(3, enc.len() as int) =~= b);
                    assert(spec_parse_blob(data, i) == Ok::<_, ParseErr>((b, (3 + b.len()) as nat)));
                    assert(enc.len() == 3 + b.len());
                    assert(spec_parse_string(data, i) == Ok::<_, ParseErr>((
                        s,
                        (3 + b.len()) as nat,
                    )));
                } else {
                    lemma_eq_at(data, i, enc, 0);
                    lemma_eq_at(data, i, enc, 1);
                    lemma_eq_at(data, i, enc, 2);
                    lemma_eq_at(data, i, enc, 3);
                    assert(data[i] == MARK_LONG);
                    assert(data[i + 1] as nat == (b.len() / 65536) % 256);
                    assert(data[i + 2] as nat == (b.len() / 256) % 256);
                    assert(data[i + 3] as nat == b.len() % 256);
                    assert((b.len() / 65536) % 256 * 65536 + (b.len() / 256) % 256 * 256 + b.len()
                        % 256 == b.len()) by (nonlinear_arith)
                        requires
                            65536 <= b.len() < 0x1000000,
                    ;
                    lemma_eq_slice(data, i, enc, 4, enc.len() as int);
                    assert(enc.subrange(4, enc.len() as int) =~= b);
                    assert(spec_parse_blob(data, i) == Ok::<_, ParseErr>((b, (4 + b.len()) as nat)));
                    assert(enc.len() == 4 + b.len());
                    assert(spec_parse_string(data, i) == Ok::<_, ParseErr>((
                        s,
                        (4 + b.len()) as nat,
                    )));
                }
            },
        }
    }
}

/// Parsing a byte run back from its length-prefixed form yields the run.
proof fn lemma_parse_encode_blob(b: Seq<u8>, data: Seq<u8>, i: int)
    requires
        b.len() < 0x1000000,
        0 <= i,
        i + spec_len_prefixed(b).len() <= data.len(),
        data.subrange(i, i + spec_len_prefixed(b).len() as int) == spec_len_prefixed(b),
    ensures
        spec_parse_blob(data, i) == Ok::<_, ParseErr>((b, spec_len_prefixed(b).len() as nat)),
{
    let enc = spec_len_prefixed(b);
    if b.len() < 256 {
        lemma_eq_at(data, i, enc, 0);
        lemma_eq_at(data, i, enc, 1);
        assert(data[i] == MARK_SHORT);
        assert(data[i + 1] as nat == b.len());
        lemma_eq_slice(data, i, enc, 2, enc.len() as int);
        assert(enc.subrange(2, enc.len() as int) =~= b);
    } else if b.len() < 65536 {
        lemma_eq_at(data, i, enc, 0);
        lemma_eq_at(data, i, enc, 1);
        lemma_eq_at(data, i, enc, 2);
        assert(data[i] == MARK_MEDIUM);
        assert((b.len() / 256) % 256 * 256 + b.len() % 256 == b.len()) by (nonlinear_arith)
            requires
                256 <= b.len() < 65536,
        ;
        lemma_eq_slice(data, i, enc, 3, enc.len() as int);
        assert(enc.subrange(3, enc.len() as int) =~= b);
    } else {
        lemma_eq_at(data, i, enc, 0);
        lemma_eq_at(data, i, enc, 1);
        lemma_eq_at(data, i, enc, 2);
        lemma_eq_at(data, i, enc, 3);
        assert(data[i] == MARK_LONG);
        assert((b.len() / 65536) % 256 * 65536 + (b.len() / 256) % 256 * 256 + b.len() % 256
            == b.len()) by (nonlinear_arith)
            requires
                65536 <= b.len() < 0x1000000,
        ;
        lemma_eq_slice(data, i, enc, 4, enc.len() as int);
        assert(enc.subrange(4, enc.len() as int) =~= b);
    }
}

/// The first byte of a non-empty string's encoding is a token byte or a
/// size-class marker, never a value marker.
proof fn lemma_encode_str_first_byte(s: Seq<char>)
    requires
        s.len() > 0,
    ensures
        spec_encode_str(s).len() > 0,
        spec_encode_str(s)[0] != 0,
        spec_encode_str(s)[0] < 236 || spec_encode_str(s)[0] == MARK_SHORT || spec_encode_str(
            s,
        )[0] == MARK_MEDIUM || spec_encode_str(s)[0] == MARK_LONG,
{
    match spec_token_index(s) {
        Some(tok) => {
            lemma_token_round_trip(s);
        },
        None => {
        },
    }
}

/// Parsing an attribute value back from its encoding yields the value.
#[verifier::rlimit(100)]
proof fn lemma_parse_encode_attr_value(v: AttrV, data: Seq<u8>, i: int)
    requires
        wf_attr_value(v),
        rt_attr_value(v),
        0 <= i,
        i + spec_encode_attr_value(v).len() <= data.len(),
        data.subrange(i, i + spec_encode_attr_value(v).len() as int) == spec_encode_attr_value(v),
    ensures
        spec_parse_attr_value(data, i) == Ok::<_, ParseErr>(
            (v, spec_encode_attr_value(v).len() as nat),
        ),
{
    let enc = spec_encode_attr_value(v);
    match v {
        AttrV::Absent => {
            lemma_eq_at(data, i, enc, 0);
        },
        AttrV::Text(t) => {
            lemma_encode_str_first_byte(t);
            lemma_eq_at(data, i, enc, 0);
            lemma_parse_encode_str(t, data, i);
        },
        AttrV::Bytes(b) => {
            lemma_eq_at(data, i, enc, 0);
            assert(data[i] == MARK_BYTES);
            lemma_eq_slice(data, i, enc, 1, enc.len() as int);
            assert(enc.subrange(1, enc.len() as int) =~= spec_len_prefixed(b));
            lemma_parse_encode_blob(b, data, i + 1);
        },
        AttrV::Int(_) => {
            assert(false);
        },
        AttrV::Bool(_) => {
            assert(false);
        },
        AttrV::Jid(j) => {
            if j.raw_agent > 0 || j.device > 0 {
                let us = spec_encode_str(j.user);
                lemma_eq_at(data, i, enc, 0);
                lemma_eq_at(data, i, enc, 1);
                lemma_eq_at(data, i, enc, 2);
                assert(data[i] == MARK_JID_AD);
                assert(data[i + 1] == j.raw_agent);
                assert(data[i + 2] == (j.device % 256) as u8);
                lemma_eq_slice(data, i, enc, 3, enc.len() as int);
                assert(enc.subrange(3, enc.len() as int) =~= us);
                lemma_parse_encode_str(j.user, data, i + 3);
                assert(spec_parse_attr_value(data, i) == Ok::<_, ParseErr>((
                    AttrV::Jid(crate::jid::spec_jid_ad(j.user, j.raw_agent, (j.device % 256) as u8)),
                    (3 + us.len()) as nat,
                )));
            } else {
                let us = spec_encode_str(j.user);
                let ss = spec_encode_str(j.server);
                lemma_eq_at(data, i, enc, 0);
                assert(data[i] == MARK_JID_PAIR);
                lemma_eq_slice(data, i, enc, 1, 1 + us.len() as int);
                assert(enc.subrange(1, 1 + us.len() as int) =~= us);
                lemma_parse_encode_str(j.user, data, i + 1);
                lemma_eq_slice(data, i, enc, 1 + us.len() as int, enc.len() as int);
                assert(enc.subrange(1 + us.len() as int, enc.len() as int) =~= ss);
                lemma_parse_encode_str(j.server, data, i + 1 + us.len() as int);
                assert(crate::jid::spec_jid_plain(j.user, j.server) == j);
                assert(spec_parse_attr_value(data, i) == Ok::<_, ParseErr>((
                    AttrV::Jid(j),
                    (1 + us.len() + ss.len()) as nat,
                )));
            }
        },
    }
}

/// Parsing an attribute list back from its encoding yields the list.
#[verifier::spinoff_prover]
#[verifier::rlimit(100)]
proof fn lemma_parse_encode_attrs(a: Seq<(Seq<char>, AttrV)>, data: Seq<u8>, i: int)
    requires
        forall|k: int| 0 <= k < a.len() ==> wf_str(#[trigger] a[k].0) && wf_attr_value(a[k].1),
        forall|k: int| 0 <= k < a.len() ==> rt_attr_value(#[trigger] a[k].1),
        0 <= i,
        i + spec_encode_attrs(a).len() <= data.len(),
        data.subrange(i, i + spec_encode_attrs(a).len() as int) == spec_encode_attrs(a),
    ensures
        spec_parse_attrs(data, i, a.len()) == Ok::<_, ParseErr>(
            (a, spec_encode_attrs(a).len() as nat),
        ),
    decreases a.len(),
{
    let enc = spec_encode_attrs(a);
    if a.len() == 0 {
        assert(a =~= Seq::<(Seq<char>, AttrV)>::empty());
        assert(spec_parse_attrs_inner(data, i, 0nat) == Ok::<_, ParseErr>((
            Seq::<(Seq<char>, AttrV)>::empty(),
            0nat,
        )));
    } else {
        lemma_encode_attrs_cons(a);
        let ks = spec_encode_str(a[0].0);
        let vs = spec_encode_attr_value(a[0].1);
        let rest = spec_encode_attrs(a.drop_first());
        assert(enc == ks + vs + rest);
        lemma_eq_slice(data, i, enc, 0, ks.len() as int);
        assert(enc.subrange(0, ks.len() as int) =~= ks);
        assert(data.subrange(i, i + ks.len() as int) =~= enc.subrange(0, ks.len() as int));
        lemma_parse_encode_str(a[0].0, data, i);
        lemma_eq_slice(data, i, enc, ks.len() as int, ks.len() + vs.len() as int);
        assert(enc.subrange(ks.len() as int, ks.len() + vs.len() as int) =~= vs);
        lemma_parse_encode_attr_value(a[0].1, data, i + ks.len() as int);
        lemma_eq_slice(data, i, enc, ks.len() + vs.len() as int, enc.len() as int);
        assert(enc.subrange(ks.len() + vs.len() as int, enc.len() as int) =~= rest);
        assert forall|k: int| 0 <= k < a.drop_first().len() implies wf_str(
            #[trigger] a.drop_first()[k].0,
        ) && wf_attr_value(a.drop_first()[k].1) && rt_attr_value(a.drop_first()[k].1) by {
            assert(a.drop_first()[k] == a[k + 1]);
        }
        lemma_parse_encode_attrs(a.drop_first(), data, i + ks.len() + vs.len() as int);
        assert(seq![(a[0].0, a[0].1)] + a.drop_first() =~= a);
        assert(spec_parse_attrs_inner(data, i, a.len()) == Ok::<_, ParseErr>((
            a,
            enc.len() as nat,
        )));
    }
}

/// The header, tag and attribute pairs of an encoded node parse back to
/// the node's own tag and attributes.
#[verifier::spinoff_prover]
#[verifier::rlimit(100)]
proof fn lemma_parse_encode_node_prefix(v: NodeV, data: Seq<u8>, i: int)
    requires
        wf_node(v),
        rt_node(v),
        0 <= i,
        i + spec_encode_node(v).len() <= data.len(),
        data.subrange(i, i + spec_encode_node(v).len() as int) == spec_encode_node(v),
    ensures
        ({
            let f: nat = if v.content is Absent {
                0
            } else {
                1
            };
            let ts = spec_encode_str(v.tag);
            let asq = spec_encode_attrs(v.attrs);
            &&& data[i] as nat == v.attrs.len() * 2 + f
            &&& (data[i] / 2) as nat == v.attrs.len()
            &&& (data[i] % 2 == 1) == (f == 1)
            &&& spec_parse_string(data, i + 1) == Ok::<_, ParseErr>((v.tag, ts.len() as nat))
            &&& spec_parse_attrs(data, i + 1 + ts.len() as int, v.attrs.len()) == Ok::<
                _,
                ParseErr,
            >((v.attrs, asq.len() as nat))
        }),
{
    let enc = spec_encode_node(v);
    let f: nat = if v.content is Absent {
        0
    } else {
        1
    };
    let header: u8 = ((v.attrs.len() * 2 + f) % 256) as u8;
    let ts = spec_encode_str(v.tag);
    let asq = spec_encode_attrs(v.attrs);
    lemma_eq_at(data, i, enc, 0);
    assert(data[i] == header);
    assert(v.attrs.len() * 2 + f < 256);
    assert(header as nat == v.attrs.len() * 2 + f);
    lemma_eq_slice(data, i, enc, 1, 1 + ts.len() as int);
    assert(enc.subrange(1, 1 + ts.len() as int) =~= ts);
    lemma_parse_encode_str(v.tag, data, i + 1);
    lemma_eq_slice(data, i, enc, 1 + ts.len() as int, 1 + ts.len() + asq.len() as int);
    assert(enc.subrange(1 + ts.len() as int, 1 + ts.len() + asq.len() as int) =~= asq);
    lemma_parse_encode_attrs(v.attrs, data, i + 1 + ts.len() as int);
}

/// Parsing a node back from its encoding yields the node and consumes
/// exactly the encoding.
#[verifier::spinoff_prover]
#[verifier::rlimit(100)]
pub proof fn lemma_parse_encode_node(v: NodeV, data: Seq<u8>, i: int)
    requires
        wf_node(v),
        rt_node(v),
        0 <= i,
        i + spec_encode_node(v).len() <= data.len(),
        data.subrange(i, i + spec_encode_node(v).len() as int) == spec_encode_node(v),
    ensures
        spec_parse_node(data, i) == Ok::<_, ParseErr>((v, spec_encode_node(v).len() as nat)),
    decreases v, 1int,
{
    let enc = spec_encode_node(v);
    let ts = spec_encode_str(v.tag);
    let asq = spec_encode_attrs(v.attrs);
    lemma_parse_encode_node_prefix(v, data, i);
    let k = i + 1 + ts.len() + asq.len() as int;
    match v.content {
        ContentV::Absent => {
            assert(spec_parse_node_inner(data, i) == Ok::<_, ParseErr>((
                NodeV { tag: v.tag, attrs: v.attrs, content: ContentV::Absent },
                enc.len() as nat,
            )));
            assert(NodeV { tag: v.tag, attrs: v.attrs, content: ContentV::Absent } == v);
        },
        ContentV::Children(cs) => {
            lemma_parse_encode_node_children(v, cs, data, i);
            assert(spec_parse_node_inner(data, i) == Ok::<_, ParseErr>((v, enc.len() as nat)));
        },
        ContentV::Bytes(b) => {
            lemma_parse_encode_node_bytes(v, b, data, i);
            assert(spec_parse_node_inner(data, i) == Ok::<_, ParseErr>((v, enc.len() as nat)));
        },
    }
}

/// The byte-content case of `lemma_parse_encode_node`.
#[verifier::spinoff_prover]
#[verifier::rlimit(100)]
proof fn lemma_parse_encode_node_bytes(v: NodeV, b: Seq<u8>, data: Seq<u8>, i: int)
    requires
        wf_node(v),
        v.content == ContentV::Bytes(b),
        0 <= i,
        i + spec_encode_node(v).len() <= data.len(),
        data.subrange(i, i + spec_encode_node(v).len() as int) == spec_encode_node(v),
    ensures
        ({
            let ts = spec_encode_str(v.tag);
            let asq = spec_encode_attrs(v.attrs);
            let k = i + 1 + ts.len() + asq.len() as int;
            spec_parse_content(data, k) == Ok::<_, ParseErr>(
                (ContentV::Bytes(b), (1 + spec_len_prefixed(b).len()) as nat),
            )
        }),
{
    let enc = spec_encode_node(v);
    let ts = spec_encode_str(v.tag);
    let asq = spec_encode_attrs(v.attrs);
    let k = i + 1 + ts.len() + asq.len() as int;
    let bsq = spec_len_prefixed(b);
    assert(enc == seq![((v.attrs.len() * 2 + 1) % 256) as u8] + ts + asq + (seq![MARK_BYTES]
        + bsq));
    lemma_eq_slice(data, i, enc, k - i, enc.len() as int);
    assert(enc.subrange(k - i, enc.len() as int) =~= seq![MARK_BYTES] + bsq);
    let sub = seq![MARK_BYTES] + bsq;
    assert(data.subrange(k, i + enc.len() as int) == sub);
    lemma_eq_at(data, k, sub, 0);
    assert(data[k] == MARK_BYTES);
    lemma_eq_slice(data, k, sub, 1, sub.len() as int);
    assert(sub.subrange(1, sub.len() as int) =~= bsq);
    lemma_parse_encode_blob(b, data, k + 1);
    assert(spec_parse_content(data, k) == Ok::<_, ParseErr>((
        ContentV::Bytes(b),
        (1 + bsq.len()) as nat,
    )));
}

/// The child-list case of `lemma_parse_encode_node`.
#[verifier::spinoff_prover]
#[verifier::rlimit(100)]
proof fn lemma_parse_encode_node_children(v: NodeV, cs: Seq<NodeV>, data: Seq<u8>, i: int)
    requires
        wf_node(v),
        rt_node(v),
        v.content == ContentV::Children(cs),
        0 <= i,
        i + spec_encode_node(v).len() <= data.len(),
        data.subrange(i, i + spec_encode_node(v).len() as int) == spec_encode_node(v),
    ensures
        ({
            let ts = spec_encode_str(v.tag);
            let asq = spec_encode_attrs(v.attrs);
            let k = i + 1 + ts.len() + asq.len() as int;
            spec_parse_content(data, k) == Ok::<_, ParseErr>(
                (
                    ContentV::Children(cs),
                    (spec_list_header(cs.len()).len() + spec_encode_nodes(cs).len()) as nat,
                ),
            )
        }),
    decreases v, 0int,
{
    let enc = spec_encode_node(v);
    let ts = spec_encode_str(v.tag);
    let asq = spec_encode_attrs(v.attrs);
    let k = i + 1 + ts.len() + asq.len() as int;
    let lh = spec_list_header(cs.len());
    let csq = spec_encode_nodes(cs);
    assert(enc == seq![((v.attrs.len() * 2 + 1) % 256) as u8] + ts + asq + (lh + csq));
    lemma_eq_slice(data, i, enc, k - i, enc.len() as int);
    assert(enc.subrange(k - i, enc.len() as int) =~= lh + csq);
    let sub = lh + csq;
    assert(data.subrange(k, i + enc.len() as int) == sub);
    lemma_eq_at(data, k, sub, 0);
    assert(decreases_to!(v => cs));
    if cs.len() < 256 {
        assert(data[k] == MARK_LIST_SMALL);
        lemma_eq_at(data, k, sub, 1);
        assert(data[k + 1] as nat == cs.len());
        lemma_eq_slice(data, k, sub, 2, sub.len() as int);
        assert(sub.subrange(2, sub.len() as int) =~= csq);
        lemma_parse_encode_children(cs, data, k + 2);
        assert(spec_parse_content(data, k) == Ok::<_, ParseErr>((
            ContentV::Children(cs),
            (2 + csq.len()) as nat,
        )));
    } else {
        assert(data[k] == MARK_LIST_LARGE);
        lemma_eq_at(data, k, sub, 1);
        lemma_eq_at(data, k, sub, 2);
        assert(data[k + 1] as nat == (cs.len() / 256) % 256);
        assert(data[k + 2] as nat == cs.len() % 256);
        assert((cs.len() / 256) % 256 * 256 + cs.len() % 256 == cs.len()) by (nonlinear_arith)
            requires
                256 <= cs.len() < 65536,
        ;
        lemma_eq_slice(data, k, sub, 3, sub.len() as int);
        assert(sub.subrange(3, sub.len() as int) =~= csq);
        lemma_parse_encode_children(cs, data, k + 3);
        assert(spec_parse_content(data, k) == Ok::<_, ParseErr>((
            ContentV::Children(cs),
            (3 + csq.len()) as nat,
        )));
    }
}

/// Parsing a child sequence back from its encoding yields the sequence.
#[verifier::spinoff_prover]
#[verifier::rlimit(100)]
proof fn lemma_parse_encode_children(cs: Seq<NodeV>, data: Seq<u8>, i: int)
    requires
        wf_nodes(cs),
        rt_nodes(cs),
        0 <= i,
        i + spec_encode_nodes(cs).len() <= data.len(),
        data.subrange(i, i + spec_encode_nodes(cs).len() as int) == spec_encode_nodes(cs),
    ensures
        spec_parse_children(data, i, cs.len()) == Ok::<_, ParseErr>(
            (cs, spec_encode_nodes(cs).len() as nat),
        ),
    decreases cs, 1int,
{
    let enc = spec_encode_nodes(cs);
    if cs.len() == 0 {
        assert(cs =~= Seq::<NodeV>::empty());
    } else {
        lemma_encode_nodes_cons(cs);
        let hs = spec_encode_node(cs[0]);
        let rest = spec_encode_nodes(cs.drop_first());
        assert(enc == hs + rest);
        lemma_eq_slice(data, i, enc, 0, hs.len() as int);
        assert(enc.subrange(0, hs.len() as int) =~= hs);
        assert(data.subrange(i, i + hs.len() as int) =~= hs);
        assert(wf_node(cs[0]) && rt_node(cs[0]));
        lemma_parse_encode_node(cs[0], data, i);
        lemma_eq_slice(data, i, enc, hs.len() as int, enc.len() as int);
        assert(enc.subrange(hs.len() as int, enc.len() as int) =~= rest);
        assert forall|k: int| 0 <= k < cs.drop_first().len() implies wf_node(
            #[trigger] cs.drop_first()[k],
        ) && rt_node(cs.drop_first()[k]) by {
            assert(cs.drop_first()[k] == cs[k + 1]);
        }
        lemma_parse_encode_children(cs.drop_first(), data, i + hs.len() as int);
        assert(seq![cs[0]] + cs.drop_first() =~= cs);
    }
}

/// Round trip: decoding the encoding of any well-formed, wire-exact tree
/// value yields the value back, with nothing left over.
pub proof fn lemma_round_trip(v: NodeV)
    requires
        wf_node(v),
        rt_node(v),
    ensures
        spec_decode(spec_encode_node(v)) == Ok::<NodeV, ParseErr>(v),
{
    let e = spec_encode_node(v);
    assert(e.subrange(0, e.len() as int) =~= e);
    lemma_parse_encode_node(v, e, 0);
}

/// Any byte after a complete encoding makes decoding fail with the
/// leftover-bytes error.
pub proof fn lemma_rejects_trailing(v: NodeV, extra: u8)
    requires
        wf_node(v),
        rt_node(v),
    ensures
        spec_decode(spec_encode_node(v).push(extra)) == Err::<NodeV, _>(ParseErr::Trailing),
{
    let e = spec_encode_node(v);
    let d = e.push(extra);
    assert(d.subrange(0, e.len() as int) =~= e);
    lemma_parse_encode_node(v, d, 0);
}

/// Decoding the empty input fails for want of data.
pub proof fn lemma_decode_empty()
    ensures
        spec_decode(Seq::<u8>::empty()) == Err::<NodeV, _>(ParseErr::Eof),
{
}

} // verus!
