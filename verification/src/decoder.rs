//! The binary decoder: reconstructs a tree value from wire bytes,
//! rejecting truncated input, unknown tokens, invalid UTF-8, markers with
//! no defined meaning, and leftover bytes after the top-level value.
//! Decoding is a pure function of the input and never reads past it.

use vstd::prelude::*;

verus! {

use vstd::utf8::{decode_utf8, valid_utf8};
use crate::node::{NodeV, ContentV, AttrV};
use crate::tokens::{single_token_seq, spec_double_token};
use crate::jid::spec_jid_ad;
use crate::encoder::{MARK_EMPTY, MARK_LIST_SMALL, MARK_LIST_LARGE, MARK_JID_PAIR, MARK_JID_AD,
    MARK_SHORT, MARK_MEDIUM, MARK_LONG, MARK_BYTES};

/// Why decoding failed.
pub enum ParseErr {
    /// The input ended inside a field.
    Eof,
    /// A token index that no dictionary entry answers.
    UnknownToken,
    /// A decoded string was not valid UTF-8.
    BadUtf8,
    /// A marker byte with no defined meaning in its position.
    BadTag,
    /// Bytes were left after a complete top-level value.
    Trailing,
}

/// The message each failure carries.
pub open spec fn decode_err_message(k: ParseErr) -> Seq<char> {
    match k {
        ParseErr::Eof => "unexpected end of data"@,
        ParseErr::UnknownToken => "unknown token"@,
        ParseErr::BadUtf8 => "invalid utf8"@,
        ParseErr::BadTag => "invalid tag"@,
        ParseErr::Trailing => "leftover bytes after decoding"@,
    }
}

/// Reads a size-classed length at `i`: a short, medium or long marker and
/// that many big-endian length bytes. Yields the length and bytes consumed.
pub open spec fn spec_parse_len(data: Seq<u8>, i: int) -> Result<(nat, nat), ParseErr> {
    if i < 0 || i >= data.len() {
        Err(ParseErr::Eof)
    } else if data[i] == MARK_SHORT {
        if i + 2 <= data.len() {
            Ok((data[i + 1] as nat, 2))
        } else {
            Err(ParseErr::Eof)
        }
    } else if data[i] == MARK_MEDIUM {
        if i + 3 <= data.len() {
            Ok(((data[i + 1] as nat) * 256 + data[i + 2] as nat, 3))
        } else {
            Err(ParseErr::Eof)
        }
    } else if data[i] == MARK_LONG {
        if i + 4 <= data.len() {
            Ok(((data[i + 1] as nat) * 65536 + (data[i + 2] as nat) * 256 + data[i + 3] as nat, 4))
        } else {
            Err(ParseErr::Eof)
        }
    } else {
        Err(ParseErr::BadTag)
    }
}

/// Reads a size-classed length and then that many raw bytes.
pub open spec fn spec_parse_blob(data: Seq<u8>, i: int) -> Result<(Seq<u8>, nat), ParseErr> {
    match spec_parse_len(data, i) {
        Ok((l, n)) => if i + n + l <= data.len() {
            Ok((data.subrange(i + n, i + n + l as int), n + l))
        } else {
            Err(ParseErr::Eof)
        },
        Err(e) => Err(e),
    }
}

/// Reads a string at `i`: the empty marker, a primary token byte, a
/// secondary-dictionary pair, or length-prefixed UTF-8.
pub open spec fn spec_parse_string(data: Seq<u8>, i: int) -> Result<(Seq<char>, nat), ParseErr> {
    if i < 0 || i >= data.len() {
        Err(ParseErr::Eof)
    } else {
        let tag = data[i];
        if tag == MARK_EMPTY {
            Ok((Seq::<char>::empty(), 1))
        } else if tag < 236 {
            Ok((single_token_seq()[tag as int], 1))
        } else if 236 <= tag && tag <= 239 {
            if i + 2 <= data.len() {
                match spec_double_token(tag as int - 236, data[i + 1] as int) {
                    Some(s) => Ok((s, 2)),
                    None => Err(ParseErr::UnknownToken),
                }
            } else {
                Err(ParseErr::Eof)
            }
        } else if tag == MARK_SHORT || tag == MARK_MEDIUM || tag == MARK_LONG {
            match spec_parse_blob(data, i) {
                Ok((b, n)) => if valid_utf8(b) {
                    Ok((decode_utf8(b), n))
                } else {
                    Err(ParseErr::BadUtf8)
                },
                Err(e) => Err(e),
            }
        } else {
            Err(ParseErr::UnknownToken)
        }
    }
}

/// Reads an attribute value at `i`: absent, an identifier in either wire
/// form, a byte blob, or a string.
pub open spec fn spec_parse_attr_value(data: Seq<u8>, i: int) -> Result<(AttrV, nat), ParseErr> {
    if i < 0 || i >= data.len() {
        Err(ParseErr::Eof)
    } else {
        let tag = data[i];
        if tag == MARK_EMPTY {
            Ok((AttrV::Absent, 1))
        } else if tag == MARK_JID_PAIR {
            match spec_parse_string(data, i + 1) {
                Ok((user, n1)) => match spec_parse_string(data, i + 1 + n1) {
                    Ok((server, n2)) => Ok(
                        (AttrV::Jid(crate::jid::spec_jid_plain(user, server)), 1 + n1 + n2),
                    ),
                    Err(e) => Err(e),
                },
                Err(e) => Err(e),
            }
        } else if tag == MARK_JID_AD {
            if i + 3 <= data.len() {
                match spec_parse_string(data, i + 3) {
                    Ok((user, n)) => Ok(
                        (AttrV::Jid(spec_jid_ad(user, data[i + 1], data[i + 2])), 3 + n),
                    ),
                    Err(e) => Err(e),
                }
            } else {
                Err(ParseErr::Eof)
            }
        } else if tag == MARK_BYTES {
            match spec_parse_blob(data, i + 1) {
                Ok((b, n)) => Ok((AttrV::Bytes(b), 1 + n)),
                Err(e) => Err(e),
            }
        } else {
            match spec_parse_string(data, i) {
                Ok((s, n)) => Ok((AttrV::Text(s), n)),
                Err(e) => Err(e),
            }
        }
    }
}

/// Reads `count` key/value pairs; consumption is bounded by the input.
pub open spec fn spec_parse_attrs(data: Seq<u8>, i: int, count: nat) -> Result<
    (Seq<(Seq<char>, AttrV)>, nat),
    ParseErr,
>
    decreases count, 1int,
{
    match spec_parse_attrs_inner(data, i, count) {
        Ok((a, n)) => if i + n <= data.len() {
            Ok((a, n))
        } else {
            Err(ParseErr::Eof)
        },
        Err(e) => Err(e),
    }
}

/// Reads `count` key/value pairs, one string key and one value each.
pub open spec fn spec_parse_attrs_inner(data: Seq<u8>, i: int, count: nat) -> Result<
    (Seq<(Seq<char>, AttrV)>, nat),
    ParseErr,
>
    decreases count, 0int,
{
    if count == 0 {
        Ok((Seq::<(Seq<char>, AttrV)>::empty(), 0))
    } else {
        match spec_parse_string(data, i) {
            Ok((k, kn)) => match spec_parse_attr_value(data, i + kn) {
                Ok((v, vn)) => match spec_parse_attrs(data, i + kn + vn, (count - 1) as nat) {
                    Ok((rest, rn)) => Ok((seq![(k, v)] + rest, kn + vn + rn)),
                    Err(e) => Err(e),
                },
                Err(e) => Err(e),
            },
            Err(e) => Err(e),
        }
    }
}

/// Reads a whole node at `i`; consumption is bounded by the input.
pub open spec fn spec_parse_node(data: Seq<u8>, i: int) -> Result<(NodeV, nat), ParseErr>
    decreases data.len() - i, 1int, 0int,
{
    match spec_parse_node_inner(data, i) {
        Ok((v, n)) => if i + n <= data.len() {
            Ok((v, n))
        } else {
            Err(ParseErr::Eof)
        },
        Err(e) => Err(e),
    }
}

/// Reads a whole node: header byte, tag string, attribute pairs, and the
/// content when the header's flag is set.
pub open spec fn spec_parse_node_inner(data: Seq<u8>, i: int) -> Result<(NodeV, nat), ParseErr>
    decreases data.len() - i, 0int, 0int,
{
    if i < 0 || i >= data.len() {
        Err(ParseErr::Eof)
    } else {
        let header = data[i];
        let nattrs = (header / 2) as nat;
        let has_content = header % 2 == 1;
        match spec_parse_string(data, i + 1) {
            Ok((tag, tn)) => match spec_parse_attrs(data, i + 1 + tn, nattrs) {
                Ok((attrs, an)) => if has_content {
                    match spec_parse_content(data, i + 1 + tn + an) {
                        Ok((content, cn)) => Ok(
                            (NodeV { tag, attrs, content }, 1 + tn + an + cn),
                        ),
                        Err(e) => Err(e),
                    }
                } else {
                    Ok((NodeV { tag, attrs, content: ContentV::Absent }, 1 + tn + an))
                },
                Err(e) => Err(e),
            },
            Err(e) => Err(e),
        }
    }
}

/// Reads node content at `k`: a child list with its count, a byte blob,
/// or a literal string taken as bytes.
pub open spec fn spec_parse_content(data: Seq<u8>, k: int) -> Result<(ContentV, nat), ParseErr>
    decreases data.len() - k, 2int, 0int,
{
    if k < 0 || k >= data.len() {
        Err(ParseErr::Eof)
    } else {
        let marker = data[k];
        if marker == MARK_LIST_SMALL {
            if k + 2 <= data.len() {
                let cnt = data[k + 1] as nat;
                match spec_parse_children(data, k + 2, cnt) {
                    Ok((cs, n)) => Ok((ContentV::Children(cs), 2 + n)),
                    Err(e) => Err(e),
                }
            } else {
                Err(ParseErr::Eof)
            }
        } else if marker == MARK_LIST_LARGE {
            if k + 3 <= data.len() {
                let cnt = (data[k + 1] as nat) * 256 + data[k + 2] as nat;
                match spec_parse_children(data, k + 3, cnt) {
                    Ok((cs, n)) => Ok((ContentV::Children(cs), 3 + n)),
                    Err(e) => Err(e),
                }
            } else {
                Err(ParseErr::Eof)
            }
        } else if marker == MARK_BYTES {
            match spec_parse_blob(data, k + 1) {
                Ok((b, n)) => Ok((ContentV::Bytes(b), 1 + n)),
                Err(e) => Err(e),
            }
        } else {
            match spec_parse_string(data, k) {
                Ok((s, n)) => Ok((ContentV::Bytes(vstd::utf8::encode_utf8(s)), n)),
                Err(e) => Err(e),
            }
        }
    }
}

/// Reads `count` nodes one after the other.
pub open spec fn spec_parse_children(data: Seq<u8>, i: int, count: nat) -> Result<
    (Seq<NodeV>, nat),
    ParseErr,
>
    decreases data.len() - i, 3int, count,
{
    if count == 0 {
        Ok((Seq::<NodeV>::empty(), 0))
    } else if i < 0 || i > data.len() {
        Err(ParseErr::Eof)
    } else {
        match spec_parse_node(data, i) {
            Ok((v, n)) => {
                // a successful node parse never runs past the input, so
                // the bound below only serves the termination measure
                let j: int = if i + n <= data.len() {
                    i + n
                } else {
                    i
                };
                match spec_parse_children(data, j, (count - 1) as nat) {
                    Ok((rest, rn)) => Ok((seq![v] + rest, n + rn)),
                    Err(e) => Err(e),
                }
            },
            Err(e) => Err(e),
        }
    }
}

/// What decoding a complete input yields: one node that consumes every
/// byte; anything left over is an error of its own.
pub open spec fn spec_decode(data: Seq<u8>) -> Result<NodeV, ParseErr> {
    match spec_parse_node(data, 0) {
        Ok((v, n)) => if n == data.len() {
            Ok(v)
        } else {
            Err(ParseErr::Trailing)
        },
        Err(e) => Err(e),
    }
}

} // verus!

verus! {

use vstd::slice::slice_to_vec;
use crate::node::{Node, NodeContent, AttrValue, attrs_view, nodes_view, lemma_nodes_view};
use crate::jid::JID;

/// Why decoding failed, with its message.
#[derive(Debug, Clone)]
pub struct DecodeError(pub String);

/// The binary decoder: a borrowed input and a cursor that only moves
/// forward and never passes the end.
pub struct Decoder<'a> {
    data: &'a [u8],
    index: usize,
}

impl<'a> Decoder<'a> {
    /// The input being decoded.
    pub closed spec fn input(&self) -> Seq<u8> {
        self.data@
    }

    /// How many bytes the cursor has passed.
    pub closed spec fn cursor(&self) -> nat {
        self.index as nat
    }

    /// A decoder at the start of `data`.
    pub fn new(data: &'a [u8]) -> (r: Decoder<'a>)
        ensures
            r.input() == data@,
            r.cursor() == 0,
    {
        Decoder { data, index: 0 }
    }

    /// Reads one size-classed length.
    fn read_len(&mut self) -> (r: Result<usize, DecodeError>)
        requires
            old(self).index <= old(self).data@.len(),
        ensures
            final(self).data == old(self).data,
            final(self).index <= final(self).data@.len(),
            match spec_parse_len(old(self).data@, old(self).index as int) {
                Ok((l, n)) => r matches Ok(x) && x as nat == l && final(self).index == old(
                    self,
                ).index + n,
                Err(k) => (r matches Err(e) && e.0@ == decode_err_message(k)),
            },
    {
        if self.index >= self.data.len() {
            return Err(DecodeError("unexpected end of data".to_owned()));
        }
        let m = self.data[self.index];
        if m == MARK_SHORT {
            if 2 <= self.data.len() - self.index {
                let l = self.data[self.index + 1] as usize;
                self.index = self.index + 2;
                Ok(l)
            } else {
                Err(DecodeError("unexpected end of data".to_owned()))
            }
        } else if m == MARK_MEDIUM {
            if 3 <= self.data.len() - self.index {
                let l = (self.data[self.index + 1] as usize) * 256 + (self.data[self.index
                    + 2] as usize);
                self.index = self.index + 3;
                Ok(l)
            } else {
                Err(DecodeError("unexpected end of data".to_owned()))
            }
        } else if m == MARK_LONG {
            if 4 <= self.data.len() - self.index {
                let l = (self.data[self.index + 1] as usize) * 65536 + (self.data[self.index
                    + 2] as usize) * 256 + (self.data[self.index + 3] as usize);
                self.index = self.index + 4;
                Ok(l)
            } else {
                Err(DecodeError("unexpected end of data".to_owned()))
            }
        } else {
            Err(DecodeError("invalid tag".to_owned()))
        }
    }

    /// Reads a size-classed length and then that many raw bytes.
    fn read_blob(&mut self) -> (r: Result<Vec<u8>, DecodeError>)
        requires
            old(self).index <= old(self).data@.len(),
        ensures
            final(self).data == old(self).data,
            final(self).index <= final(self).data@.len(),
            match spec_parse_blob(old(self).data@, old(self).index as int) {
                Ok((b, n)) => r matches Ok(x) && x@ == b && final(self).index == old(self).index
                    + n,
                Err(k) => (r matches Err(e) && e.0@ == decode_err_message(k)),
            },
    {
        let l = match self.read_len() {
            Ok(l) => l,
            Err(e) => {
                return Err(e);
            },
        };
        if l <= self.data.len() - self.index {
            let bytes = slice_to_vec(&self.data[self.index..self.index + l]);
            self.index = self.index + l;
            Ok(bytes)
        } else {
            Err(DecodeError("unexpected end of data".to_owned()))
        }
    }

    /// Reads one string in any of its wire forms.
    fn read_string(&mut self) -> (r: Result<String, DecodeError>)
        requires
            old(self).index <= old(self).data@.len(),
        ensures
            final(self).data == old(self).data,
            final(self).index <= final(self).data@.len(),
            match spec_parse_string(old(self).data@, old(self).index as int) {
                Ok((s, n)) => r matches Ok(x) && x@ == s && final(self).index == old(self).index
                    + n,
                Err(k) => (r matches Err(e) && e.0@ == decode_err_message(k)),
            },
    {
        if self.index >= self.data.len() {
            return Err(DecodeError("unexpected end of data".to_owned()));
        }
        let tag = self.data[self.index];
        if tag == MARK_EMPTY {
            self.index = self.index + 1;
            proof {
                reveal_strlit("");
                assert(""@ =~= Seq::<char>::empty());
            }
            Ok("".to_owned())
        } else if tag < 236 {
            let s = crate::tokens::get_token(tag);
            self.index = self.index + 1;
            match s {
                Some(t) => Ok(t.to_owned()),
                None => {
                    proof {
                        assert(false);
                    }
                    Err(DecodeError("unknown token".to_owned()))
                },
            }
        } else if tag <= 239 {
            if 2 <= self.data.len() - self.index {
                let idx = self.data[self.index + 1];
                match crate::tokens::get_double_token(tag - 236, idx) {
                    Some(t) => {
                        self.index = self.index + 2;
                        Ok(t.to_owned())
                    },
                    None => Err(DecodeError("unknown token".to_owned())),
                }
            } else {
                Err(DecodeError("unexpected end of data".to_owned()))
            }
        } else if tag == MARK_SHORT || tag == MARK_MEDIUM || tag == MARK_LONG {
            let bytes = match self.read_blob() {
                Ok(b) => b,
                Err(e) => {
                    return Err(e);
                },
            };
            match crate::bytes_util::bytes_to_string(bytes.as_slice()) {
                Some(s) => Ok(s),
                None => Err(DecodeError("invalid utf8".to_owned())),
            }
        } else {
            Err(DecodeError("unknown token".to_owned()))
        }
    }

    /// Reads one attribute value in any of its wire forms.
    #[verifier::rlimit(100)]
    fn read_attr_value(&mut self) -> (r: Result<AttrValue, DecodeError>)
        requires
            old(self).index <= old(self).data@.len(),
        ensures
            final(self).data == old(self).data,
            final(self).index <= final(self).data@.len(),
            match spec_parse_attr_value(old(self).data@, old(self).index as int) {
                Ok((v, n)) => r matches Ok(x) && x@ == v && final(self).index == old(self).index
                    + n,
                Err(k) => (r matches Err(e) && e.0@ == decode_err_message(k)),
            },
    {
        if self.index >= self.data.len() {
            return Err(DecodeError("unexpected end of data".to_owned()));
        }
        let tag = self.data[self.index];
        if tag == MARK_EMPTY {
            self.index = self.index + 1;
            Ok(AttrValue::Absent)
        } else if tag == MARK_JID_PAIR {
            self.index = self.index + 1;
            let user = match self.read_string() {
                Ok(u) => u,
                Err(e) => {
                    return Err(e);
                },
            };
            let server = match self.read_string() {
                Ok(s) => s,
                Err(e) => {
                    return Err(e);
                },
            };
            Ok(AttrValue::Jid(JID::new(user.as_str(), server.as_str())))
        } else if tag == MARK_JID_AD {
            if 3 <= self.data.len() - self.index {
                let agent = self.data[self.index + 1];
                let device = self.data[self.index + 2];
                self.index = self.index + 3;
                let user = match self.read_string() {
                    Ok(u) => u,
                    Err(e) => {
                        return Err(e);
                    },
                };
                Ok(AttrValue::Jid(JID::new_ad(user.as_str(), agent, device)))
            } else {
                Err(DecodeError("unexpected end of data".to_owned()))
            }
        } else if tag == MARK_BYTES {
            self.index = self.index + 1;
            match self.read_blob() {
                Ok(b) => Ok(AttrValue::Bytes(b)),
                Err(e) => Err(e),
            }
        } else {
            match self.read_string() {
                Ok(s) => Ok(AttrValue::Text(s)),
                Err(e) => Err(e),
            }
        }
    }

    /// Reads `count` attribute pairs, key then value each.
    #[verifier::rlimit(100)]
    fn read_attrs(&mut self, count: usize) -> (r: Result<Vec<(String, AttrValue)>, DecodeError>)
        requires
            old(self).index <= old(self).data@.len(),
        ensures
            final(self).data == old(self).data,
            final(self).index <= final(self).data@.len(),
            match spec_parse_attrs(old(self).data@, old(self).index as int, count as nat) {
                Ok((a, n)) => r matches Ok(v) && attrs_view(v@) == a && final(self).index == old(
                    self,
                ).index + n,
                Err(k) => (r matches Err(e) && e.0@ == decode_err_message(k)),
            },
    {
        let ghost data = old(self).data@;
        let ghost ia = old(self).index as int;
        let mut attrs: Vec<(String, AttrValue)> = Vec::new();
        let mut done: usize = 0;
        proof {
            assert(attrs_view(attrs@) =~= Seq::<(Seq<char>, crate::node::AttrV)>::empty());
            match spec_parse_attrs(data, ia, count as nat) {
                Ok((rest, rn)) => {
                    assert(attrs_view(attrs@) + rest =~= rest);
                },
                Err(e) => {},
            }
        }
        while done < count
            invariant
                self.data == old(self).data,
                self.data@ == data,
                data == old(self).data@,
                ia == old(self).index as int,
                ia <= self.index,
                self.index <= data.len(),
                0 <= done <= count,
                match spec_parse_attrs(data, self.index as int, (count - done) as nat) {
                    Ok((rest, rn)) => spec_parse_attrs(data, ia, count as nat) == Ok::<
                        _,
                        ParseErr,
                    >((attrs_view(attrs@) + rest, ((self.index as int - ia) + rn) as nat)),
                    Err(e) => spec_parse_attrs(data, ia, count as nat) == Err::<
                        (Seq<(Seq<char>, crate::node::AttrV)>, nat),
                        _,
                    >(e),
                },
            decreases count - done,
        {
            let ghost cur = self.index as int;
            let ghost c = (count - done) as nat;
            let key = match self.read_string() {
                Ok(k) => k,
                Err(e) => {
                    proof {
                        assert(spec_parse_attrs_inner(data, cur, c) is Err);
                    }
                    return Err(e);
                },
            };
            let value = match self.read_attr_value() {
                Ok(v) => v,
                Err(e) => {
                    proof {
                        assert(spec_parse_attrs_inner(data, cur, c) is Err);
                    }
                    return Err(e);
                },
            };
            let ghost before = attrs@;
            attrs.push((key, value));
            proof {
                assert(attrs_view(attrs@) =~= attrs_view(before).push((key@, value@)));
                let c1 = (c - 1) as nat;
                let cur1 = self.index as int;
                match spec_parse_attrs(data, cur1, c1) {
                    Ok((rest, rn)) => {
                        assert(cur1 + rn <= data.len());
                        assert(spec_parse_attrs_inner(data, cur, c) == Ok::<_, ParseErr>((
                            seq![(key@, value@)] + rest,
                            ((cur1 - cur) + rn) as nat,
                        )));
                        assert(spec_parse_attrs(data, cur, c) == Ok::<_, ParseErr>((
                            seq![(key@, value@)] + rest,
                            ((cur1 - cur) + rn) as nat,
                        )));
                        assert(attrs_view(before) + (seq![(key@, value@)] + rest) =~= attrs_view(
                            attrs@,
                        ) + rest);
                    },
                    Err(e) => {
                        assert(spec_parse_attrs(data, cur, c) == Err::<
                            (Seq<(Seq<char>, crate::node::AttrV)>, nat),
                            _,
                        >(e));
                    },
                }
            }
            done = done + 1;
        }
        proof {
            assert(spec_parse_attrs_inner(data, self.index as int, 0nat) == Ok::<_, ParseErr>((
                Seq::<(Seq<char>, crate::node::AttrV)>::empty(),
                0nat,
            )));
            assert(attrs_view(attrs@) + Seq::<(Seq<char>, crate::node::AttrV)>::empty()
                =~= attrs_view(attrs@));
        }
        Ok(attrs)
    }

    /// Reads `count` nodes one after the other.
    #[verifier::rlimit(100)]
    fn read_children(&mut self, count: usize) -> (r: Result<Vec<Node>, DecodeError>)
        requires
            old(self).index <= old(self).data@.len(),
        ensures
            final(self).data == old(self).data,
            final(self).index <= final(self).data@.len(),
            match spec_parse_children(old(self).data@, old(self).index as int, count as nat) {
                Ok((cs, n)) => r matches Ok(v) && nodes_view(v@) == cs && final(self).index == old(
                    self,
                ).index + n,
                Err(k) => (r matches Err(e) && e.0@ == decode_err_message(k)),
            },
        decreases old(self).data@.len() - old(self).index, 1int,
    {
        let ghost data = old(self).data@;
        let ghost il = old(self).index as int;
        let mut children: Vec<Node> = Vec::new();
        let mut done: usize = 0;
        proof {
            assert(nodes_view(children@) =~= Seq::<crate::node::NodeV>::empty());
            match spec_parse_children(data, il, count as nat) {
                Ok((rest, rn)) => {
                    assert(nodes_view(children@) + rest =~= rest);
                },
                Err(e) => {},
            }
        }
        while done < count
            invariant
                self.data == old(self).data,
                self.data@ == data,
                data == old(self).data@,
                il == old(self).index as int,
                il <= self.index,
                self.index <= data.len(),
                0 <= done <= count,
                match spec_parse_children(data, self.index as int, (count - done) as nat) {
                    Ok((rest, rn)) => spec_parse_children(data, il, count as nat) == Ok::<
                        _,
                        ParseErr,
                    >((nodes_view(children@) + rest, ((self.index as int - il) + rn) as nat)),
                    Err(e) => spec_parse_children(data, il, count as nat) == Err::<
                        (Seq<crate::node::NodeV>, nat),
                        _,
                    >(e),
                },
            decreases count - done,
        {
            let ghost cur = self.index as int;
            let ghost c = (count - done) as nat;
            let child = match self.read_node() {
                Ok(ch) => ch,
                Err(e) => {
                    return Err(e);
                },
            };
            let ghost before = children@;
            let ghost cv = child@;
            children.push(child);
            proof {
                assert(children@.drop_last() =~= before);
                assert(nodes_view(children@) =~= nodes_view(before).push(cv));
                let c1 = (c - 1) as nat;
                let cur1 = self.index as int;
                match spec_parse_children(data, cur1, c1) {
                    Ok((rest, rn)) => {
                        assert(spec_parse_children(data, cur, c) == Ok::<_, ParseErr>((
                            seq![cv] + rest,
                            ((cur1 - cur) + rn) as nat,
                        )));
                        assert(nodes_view(before) + (seq![cv] + rest) =~= nodes_view(children@)
                            + rest);
                    },
                    Err(e) => {
                        assert(spec_parse_children(data, cur, c) == Err::<
                            (Seq<crate::node::NodeV>, nat),
                            _,
                        >(e));
                    },
                }
            }
            done = done + 1;
        }
        proof {
            assert(spec_parse_children(data, self.index as int, 0nat) == Ok::<_, ParseErr>((
                Seq::<crate::node::NodeV>::empty(),
                0nat,
            )));
            assert(nodes_view(children@) + Seq::<crate::node::NodeV>::empty() =~= nodes_view(
                children@,
            ));
        }
        Ok(children)
    }

    /// Reads one whole node: header, tag, attribute pairs, content.
    #[verifier::rlimit(100)]
    fn read_node(&mut self) -> (r: Result<Node, DecodeError>)
        requires
            old(self).index <= old(self).data@.len(),
        ensures
            final(self).data == old(self).data,
            final(self).index <= final(self).data@.len(),
            match spec_parse_node(old(self).data@, old(self).index as int) {
                Ok((v, n)) => r matches Ok(x) && x@ == v && final(self).index == old(self).index
                    + n,
                Err(k) => (r matches Err(e) && e.0@ == decode_err_message(k)),
            },
        decreases old(self).data@.len() - old(self).index, 0int,
    {
        let ghost data = self.data@;
        let ghost i0 = self.index as int;
        if self.index >= self.data.len() {
            return Err(DecodeError("unexpected end of data".to_owned()));
        }
        let header = self.data[self.index];
        self.index = self.index + 1;
        let nattrs: usize = (header / 2) as usize;
        let has_content = header % 2 == 1;
        let tag = match self.read_string() {
            Ok(t) => t,
            Err(e) => {
                return Err(e);
            },
        };
        let attrs = match self.read_attrs(nattrs) {
            Ok(a) => a,
            Err(e) => {
                return Err(e);
            },
        };
        if !has_content {
            let node = Node { tag, attrs, content: NodeContent::Absent };
            proof {
                assert(spec_parse_node_inner(data, i0) == Ok::<_, ParseErr>((
                    node@,
                    (self.index as int - i0) as nat,
                )));
            }
            return Ok(node);
        }
        let ghost ic = self.index as int;
        if self.index >= self.data.len() {
            return Err(DecodeError("unexpected end of data".to_owned()));
        }
        let marker = self.data[self.index];
        let content: NodeContent = if marker == MARK_LIST_SMALL || marker == MARK_LIST_LARGE {
            let cnt: usize;
            if marker == MARK_LIST_SMALL {
                if 2 <= self.data.len() - self.index {
                    cnt = self.data[self.index + 1] as usize;
                    self.index = self.index + 2;
                } else {
                    return Err(DecodeError("unexpected end of data".to_owned()));
                }
            } else {
                if 3 <= self.data.len() - self.index {
                    cnt = (self.data[self.index + 1] as usize) * 256 + (self.data[self.index
                        + 2] as usize);
                    self.index = self.index + 3;
                } else {
                    return Err(DecodeError("unexpected end of data".to_owned()));
                }
            }
            let children = match self.read_children(cnt) {
                Ok(cs) => cs,
                Err(e) => {
                    return Err(e);
                },
            };
            proof {
                assert(spec_parse_content(data, ic) == Ok::<_, ParseErr>((
                    crate::node::ContentV::Children(nodes_view(children@)),
                    (self.index as int - ic) as nat,
                )));
            }
            NodeContent::Children(children)
        } else if marker == MARK_BYTES {
            self.index = self.index + 1;
            match self.read_blob() {
                Ok(b) => NodeContent::Bytes(b),
                Err(e) => {
                    return Err(e);
                },
            }
        } else {
            match self.read_string() {
                Ok(s) => {
                    let bytes = s.as_str().as_bytes_vec();
                    NodeContent::Bytes(bytes)
                },
                Err(e) => {
                    return Err(e);
                },
            }
        };
        let node = Node { tag, attrs, content };
        proof {
            assert(spec_parse_node_inner(data, i0) == Ok::<_, ParseErr>((
                node@,
                (self.index as int - i0) as nat,
            )));
        }
        Ok(node)
    }

    /// Decodes a complete input into one node, rejecting leftover bytes.
    pub fn decode(data: &[u8]) -> (r: Result<Node, DecodeError>)
        ensures
            match spec_decode(data@) {
                Ok(v) => r matches Ok(node) && node@ == v,
                Err(k) => (r matches Err(e) && e.0@ == decode_err_message(k)),
            },
    {
        let mut decoder = Decoder::new(data);
        let node = match decoder.read_node() {
            Ok(n) => n,
            Err(e) => {
                return Err(e);
            },
        };
        if decoder.index != decoder.data.len() {
            return Err(DecodeError("leftover bytes after decoding".to_owned()));
        }
        Ok(node)
    }
}

/// Decodes a complete input into one node, rejecting leftover bytes.
pub fn decode(data: &[u8]) -> (r: Result<Node, DecodeError>)
    ensures
        match spec_decode(data@) {
            Ok(v) => r matches Ok(node) && node@ == v,
            Err(k) => (r matches Err(e) && e.0@ == decode_err_message(k)),
        },
{
    Decoder::decode(data)
}

} // verus!
