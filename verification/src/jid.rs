//! The structured addressing value of the protocol: a local user part,
//! optional agent/device qualifiers, and a domain. Two textual layouts
//! exist (`user@server`, `user.agent:device@server`) and two wire forms
//! (plain and agent/device), all handled here.

use vstd::prelude::*;

verus! {

use vstd::string::StrSliceExecFns;
use crate::numfmt::{spec_decimal, is_digit_seq, spec_udec_value, u64_to_decimal, parse_u8_decimal,
    parse_u16_decimal};

/// An identifier value as the specifications see it.
pub struct JidV {
    pub user: Seq<char>,
    pub raw_agent: u8,
    pub device: u16,
    pub integrator: u16,
    pub server: Seq<char>,
}

/// An identifier: a user (local part), optional agent and device
/// qualifiers, an integrator id, and a server (domain).
#[derive(Debug, Clone, PartialEq, Eq, Hash)]
pub struct JID {
    pub user: String,
    pub raw_agent: u8,
    pub device: u16,
    pub integrator: u16,
    pub server: String,
}

impl View for JID {
    type V = JidV;

    open spec fn view(&self) -> JidV {
        JidV {
            user: self.user@,
            raw_agent: self.raw_agent,
            device: self.device,
            integrator: self.integrator,
            server: self.server@,
        }
    }
}

/// A plain identifier value: user and server only.
pub open spec fn spec_jid_plain(user: Seq<char>, server: Seq<char>) -> JidV {
    JidV { user, raw_agent: 0, device: 0, integrator: 0, server }
}

/// The value `new_ad` builds: reserved agent numbers select a domain and
/// clear the stored agent; all others keep the agent on the default domain.
pub open spec fn spec_jid_ad(user: Seq<char>, agent: u8, device: u8) -> JidV {
    let (server, raw_agent): (Seq<char>, u8) = if agent == 1 {
        ("lid"@, 0u8)
    } else if agent == 128 {
        ("hosted"@, 0u8)
    } else if agent == 129 {
        ("hosted.lid"@, 0u8)
    } else {
        ("s.whatsapp.net"@, agent)
    };
    JidV { user, raw_agent, device: device as u16, integrator: 0, server }
}

/// The agent number implied by the server, falling back to the stored agent.
pub open spec fn spec_actual_agent(j: JidV) -> u8 {
    if j.server == "s.whatsapp.net"@ {
        0
    } else if j.server == "lid"@ {
        1
    } else if j.server == "hosted"@ {
        128
    } else if j.server == "hosted.lid"@ {
        129
    } else {
        j.raw_agent
    }
}

/// The textual layout of an identifier: qualifiers appear only when set.
pub open spec fn spec_jid_string(j: JidV) -> Seq<char> {
    if j.raw_agent > 0 {
        j.user + seq!['.'] + spec_decimal(j.raw_agent as nat) + seq![':'] + spec_decimal(
            j.device as nat,
        ) + seq!['@'] + j.server
    } else if j.device > 0 {
        j.user + seq![':'] + spec_decimal(j.device as nat) + seq!['@'] + j.server
    } else if j.user.len() > 0 {
        j.user + seq!['@'] + j.server
    } else {
        j.server
    }
}

/// The fully qualified textual layout, qualifiers always present.
pub open spec fn spec_jid_ad_string(j: JidV) -> Seq<char> {
    j.user + seq!['.'] + spec_decimal(j.raw_agent as nat) + seq![':'] + spec_decimal(
        j.device as nat,
    ) + seq!['@'] + j.server
}

/// True when the identifier names a bot: either the bot domain, or a
/// device-less default-domain user with a recognized numeric prefix.
pub open spec fn spec_is_bot(j: JidV) -> bool {
    ||| j.server == "bot"@
    ||| (j.server == "s.whatsapp.net"@ && j.device == 0 && ((j.user.len() == 11 && j.user.take(7)
        == "1313555"@) || (j.user.len() == 11 && j.user.take(9) == "131655500"@)))
}

impl JID {
    /// A plain identifier from user and server.
    pub fn new(user: &str, server: &str) -> (r: JID)
        ensures
            r@ == spec_jid_plain(user@, server@),
    {
        JID {
            user: user.to_owned(),
            raw_agent: 0,
            device: 0,
            integrator: 0,
            server: server.to_owned(),
        }
    }

    /// An identifier with agent and device qualifiers; reserved agent
    /// numbers select their domain instead of being stored.
    pub fn new_ad(user: &str, agent: u8, device: u8) -> (r: JID)
        ensures
            r@ == spec_jid_ad(user@, agent, device),
    {
        let (server, raw_agent): (&str, u8) = if agent == 1 {
            ("lid", 0)
        } else if agent == 128 {
            ("hosted", 0)
        } else if agent == 129 {
            ("hosted.lid", 0)
        } else {
            ("s.whatsapp.net", agent)
        };
        JID {
            user: user.to_owned(),
            raw_agent,
            device: device as u16,
            integrator: 0,
            server: server.to_owned(),
        }
    }

    /// The agent number implied by the server, else the stored agent.
    pub fn actual_agent(&self) -> (r: u8)
        ensures
            r == spec_actual_agent(self@),
    {
        if crate::bytes_util::str_eq(self.server.as_str(), "s.whatsapp.net") {
            0
        } else if crate::bytes_util::str_eq(self.server.as_str(), "lid") {
            1
        } else if crate::bytes_util::str_eq(self.server.as_str(), "hosted") {
            128
        } else if crate::bytes_util::str_eq(self.server.as_str(), "hosted.lid") {
            129
        } else {
            self.raw_agent
        }
    }

    /// The user part read as a number; zero when it is not a plain decimal.
    pub fn user_int(&self) -> (r: u64)
        ensures
            if self@.user.len() > 0 && is_digit_seq(self@.user) && spec_udec_value(self@.user)
                <= u64::MAX {
                r as nat == spec_udec_value(self@.user)
            } else {
                r == 0
            },
    {
        match crate::numfmt::parse_u64_decimal(self.user.as_str()) {
            Some(v) => v,
            None => 0,
        }
    }

    /// The same identifier without agent and device qualifiers.
    pub fn to_non_ad(&self) -> (r: JID)
        ensures
            r@ == (JidV {
                user: self@.user,
                raw_agent: 0,
                device: 0,
                integrator: self@.integrator,
                server: self@.server,
            }),
    {
        JID {
            user: self.user.clone(),
            raw_agent: 0,
            device: 0,
            integrator: self.integrator,
            server: self.server.clone(),
        }
    }

    /// True for a broadcast list, which excludes the status broadcast.
    pub fn is_broadcast_list(&self) -> (r: bool)
        ensures
            r == (self@.server == "broadcast"@ && self@.user != "status"@),
    {
        crate::bytes_util::str_eq(self.server.as_str(), "broadcast")
            && !crate::bytes_util::str_eq(self.user.as_str(), "status")
    }

    /// True when the identifier names a bot.
    pub fn is_bot(&self) -> (r: bool)
        ensures
            r == spec_is_bot(self@),
    {
        if crate::bytes_util::str_eq(self.server.as_str(), "bot") {
            return true;
        }
        if crate::bytes_util::str_eq(self.server.as_str(), "s.whatsapp.net") && self.device == 0 {
            let n = self.user.as_str().unicode_len();
            if n == 11 {
                let head7 = self.user.as_str().substring_char(0, 7);
                if crate::bytes_util::str_eq(head7, "1313555") {
                    proof {
                        assert(self@.user.take(7) =~= head7@);
                    }
                    return true;
                }
                let head9 = self.user.as_str().substring_char(0, 9);
                if crate::bytes_util::str_eq(head9, "131655500") {
                    proof {
                        assert(self@.user.take(9) =~= head9@);
                    }
                    return true;
                }
                proof {
                    assert(self@.user.take(7) =~= head7@);
                    assert(self@.user.take(9) =~= head9@);
                }
            }
        }
        false
    }

    /// True when no server is set.
    pub fn is_empty(&self) -> (r: bool)
        ensures
            r == (self@.server.len() == 0),
    {
        self.server.as_str().unicode_len() == 0
    }

    /// The fully qualified textual layout, qualifiers always present.
    pub fn ad_string(&self) -> (r: String)
        ensures
            r@ == spec_jid_ad_string(self@),
    {
        let mut out: String = self.user.clone();
        out.append(".");
        let agent_s = u64_to_decimal(self.raw_agent as u64);
        out.append(agent_s.as_str());
        out.append(":");
        let device_s = u64_to_decimal(self.device as u64);
        out.append(device_s.as_str());
        out.append("@");
        out.append(self.server.as_str());
        proof {
            reveal_strlit(".");
            reveal_strlit(":");
            reveal_strlit("@");
            assert("."@ =~= seq!['.']);
            assert(":"@ =~= seq![':']);
            assert("@"@ =~= seq!['@']);
            assert(out@ =~= spec_jid_ad_string(self@));
        }
        out
    }

    /// The user part of the signal address: the user, qualified by the
    /// actual agent when one is set.
    pub fn signal_address_user(&self) -> (r: String)
        ensures
            r@ == if spec_actual_agent(self@) != 0 {
                self@.user + seq!['_'] + spec_decimal(spec_actual_agent(self@) as nat)
            } else {
                self@.user
            },
    {
        let agent = self.actual_agent();
        if agent != 0 {
            let mut out: String = self.user.clone();
            out.append("_");
            let agent_s = u64_to_decimal(agent as u64);
            out.append(agent_s.as_str());
            proof {
                reveal_strlit("_");
                assert("_"@ =~= seq!['_']);
                assert(out@ =~= self@.user + seq!['_'] + spec_decimal(
                    spec_actual_agent(self@) as nat));
            }
            out
        } else {
            self.user.clone()
        }
    }

    /// The textual layout of the identifier; qualifiers appear only when
    /// they are set.
    pub fn to_display_string(&self) -> (r: String)
        ensures
            r@ == spec_jid_string(self@),
    {
        if self.raw_agent > 0 {
            self.ad_string()
        } else if self.device > 0 {
            let mut out: String = self.user.clone();
            out.append(":");
            let device_s = u64_to_decimal(self.device as u64);
            out.append(device_s.as_str());
            out.append("@");
            out.append(self.server.as_str());
            proof {
                reveal_strlit(":");
                reveal_strlit("@");
                assert(":"@ =~= seq![':']);
                assert("@"@ =~= seq!['@']);
                assert(out@ =~= spec_jid_string(self@));
            }
            out
        } else if self.user.as_str().unicode_len() > 0 {
            let mut out: String = self.user.clone();
            out.append("@");
            out.append(self.server.as_str());
            proof {
                reveal_strlit(":");
                reveal_strlit("@");
                assert(":"@ =~= seq![':']);
                assert("@"@ =~= seq!['@']);
                assert(out@ =~= spec_jid_string(self@));
            }
            out
        } else {
            self.server.clone()
        }
    }
}

impl Default for JID {
    /// The empty identifier: all parts empty or zero.
    fn default() -> (r: JID)
        ensures
            r@ == spec_jid_plain(Seq::<char>::empty(), Seq::<char>::empty()),
    {
        proof {
            reveal_strlit("");
            assert(""@ =~= Seq::<char>::empty());
        }
        JID::new("", "")
    }
}

} // verus!

verus! {

/// How often `c` occurs in `s`.
pub open spec fn count_char(s: Seq<char>, c: char) -> nat
    decreases s.len(),
{
    if s.len() == 0 {
        0
    } else {
        (if s[0] == c {
            1nat
        } else {
            0nat
        }) + count_char(s.drop_first(), c)
    }
}

/// The position of the first occurrence of `c` in `s`, or `s.len()`.
pub open spec fn idx_of(s: Seq<char>, c: char) -> int
    decreases s.len(),
{
    if s.len() == 0 {
        0
    } else if s[0] == c {
        0
    } else {
        1 + idx_of(s.drop_first(), c)
    }
}

/// What `idx_of` returns: the first occurrence when there is one, the
/// length when there is none.
pub proof fn lemma_idx_of(s: Seq<char>, c: char)
    ensures
        0 <= idx_of(s, c) <= s.len(),
        idx_of(s, c) < s.len() ==> s[idx_of(s, c)] == c && (forall|j: int|
            0 <= j < idx_of(s, c) ==> s[j] != c),
        idx_of(s, c) == s.len() ==> forall|j: int| 0 <= j < s.len() ==> s[j] != c,
    decreases s.len(),
{
    if s.len() > 0 && s[0] != c {
        let d = s.drop_first();
        lemma_idx_of(d, c);
        let k = idx_of(s, c);
        assert(k == 1 + idx_of(d, c));
        if idx_of(d, c) < d.len() {
            assert(s[k] == d[k - 1]);
            assert forall|j: int| 0 <= j < k implies s[j] != c by {
                if j > 0 {
                    assert(s[j] == d[j - 1]);
                }
            }
        } else {
            assert forall|j: int| 0 <= j < s.len() implies s[j] != c by {
                if j > 0 {
                    assert(s[j] == d[j - 1]);
                }
            }
        }
    }
}

/// The first occurrence determines `idx_of`.
pub proof fn lemma_idx_of_found(s: Seq<char>, c: char, i: int)
    requires
        0 <= i < s.len(),
        s[i] == c,
        forall|j: int| 0 <= j < i ==> s[j] != c,
    ensures
        idx_of(s, c) == i,
    decreases s.len(),
{
    if i > 0 {
        lemma_idx_of_found(s.drop_first(), c, i - 1);
    }
}

/// Appending one character changes the count by one exactly when it is `c`.
pub proof fn lemma_count_char_snoc(s: Seq<char>, x: char, c: char)
    ensures
        count_char(s.push(x), c) == count_char(s, c) + (if x == c {
            1nat
        } else {
            0nat
        }),
    decreases s.len(),
{
    reveal_with_fuel(count_char, 2);
    if s.len() == 0 {
        assert(s.push(x)[0] == x);
        assert(s.push(x).drop_first() =~= Seq::<char>::empty());
    } else {
        assert(s.push(x)[0] == s[0]);
        assert(s.push(x).drop_first() =~= s.drop_first().push(x));
        lemma_count_char_snoc(s.drop_first(), x, c);
        assert(count_char(s.push(x), c) == (if s[0] == c {
            1nat
        } else {
            0nat
        }) + count_char(s.drop_first().push(x), c));
        assert(count_char(s, c) == (if s[0] == c {
            1nat
        } else {
            0nat
        }) + count_char(s.drop_first(), c));
    }
}

/// A zero count means no occurrence.
pub proof fn lemma_count_char_zero(s: Seq<char>, c: char)
    ensures
        (count_char(s, c) == 0) <==> (forall|j: int| 0 <= j < s.len() ==> s[j] != c),
    decreases s.len(),
{
    if s.len() > 0 {
        lemma_count_char_zero(s.drop_first(), c);
        if s[0] != c && count_char(s.drop_first(), c) == 0 {
            assert forall|j: int| 0 <= j < s.len() implies s[j] != c by {
                if j > 0 {
                    assert(s.drop_first()[j - 1] != c);
                }
            }
        }
        if forall|j: int| 0 <= j < s.len() ==> s[j] != c {
            assert forall|j: int| 0 <= j < s.drop_first().len() implies s.drop_first()[j] != c by {
                assert(s[j + 1] != c);
            }
        }
    }
}

/// Counts the occurrences of `c` in `s`.
pub fn char_count(s: &str, c: char) -> (r: usize)
    ensures
        r as nat == count_char(s@, c),
{
    let n = s.unicode_len();
    let mut cnt: usize = 0;
    let mut i: usize = 0;
    proof {
        assert(s@.take(0) =~= Seq::<char>::empty());
    }
    while i < n
        invariant
            n == s@.len(),
            0 <= i <= n,
            cnt <= i,
            cnt as nat == count_char(s@.take(i as int), c),
        decreases n - i,
    {
        let x = s.get_char(i);
        proof {
            lemma_count_char_snoc(s@.take(i as int), x, c);
            assert(s@.take(i as int + 1) =~= s@.take(i as int).push(x));
        }
        if x == c {
            cnt = cnt + 1;
        }
        i = i + 1;
    }
    proof {
        assert(s@.take(n as int) =~= s@);
    }
    cnt
}

/// The position of the first occurrence of `c` in `s`, or the length of `s`.
pub fn char_find(s: &str, c: char) -> (r: usize)
    ensures
        r as int == idx_of(s@, c),
        r <= s@.len(),
{
    let n = s.unicode_len();
    let mut i: usize = 0;
    while i < n
        invariant
            n == s@.len(),
            0 <= i <= n,
            forall|j: int| 0 <= j < i ==> s@[j] != c,
        decreases n - i,
    {
        if s.get_char(i) == c {
            proof {
                lemma_idx_of_found(s@, c, i as int);
            }
            return i;
        }
        i = i + 1;
    }
    proof {
        lemma_idx_of(s@, c);
        if idx_of(s@, c) < s@.len() {
            assert(s@[idx_of(s@, c)] == c);
            assert(false);
        }
    }
    n
}

/// Why parsing an identifier failed.
pub enum JidParseErr {
    Dots,
    Colons,
    Agent,
    Device,
}

/// The message that reports each parse failure.
pub open spec fn jid_err_message(e: JidParseErr) -> Seq<char> {
    match e {
        JidParseErr::Dots => "unexpected number of dots in JID"@,
        JidParseErr::Colons => "unexpected number of colons in JID"@,
        JidParseErr::Agent => "failed to parse agent from JID"@,
        JidParseErr::Device => "failed to parse device from JID"@,
    }
}

/// What parsing a textual identifier yields. Without an at sign the whole
/// text is the server. Otherwise the part before the first at sign may
/// carry `.agent` and `:device` qualifiers, each a decimal in range, and
/// the server runs to the next at sign if any.
pub open spec fn spec_parse_jid(s: Seq<char>) -> Result<JidV, JidParseErr> {
    if count_char(s, '@') == 0 {
        Ok(spec_jid_plain(Seq::<char>::empty(), s))
    } else {
        let u = s.take(idx_of(s, '@'));
        let rest = s.skip(idx_of(s, '@') + 1);
        let srv = rest.take(idx_of(rest, '@'));
        if count_char(u, '.') > 0 {
            if count_char(u, '.') != 1 {
                Err(JidParseErr::Dots)
            } else {
                let user = u.take(idx_of(u, '.'));
                let ad = u.skip(idx_of(u, '.') + 1);
                if count_char(ad, ':') >= 2 {
                    Err(JidParseErr::Colons)
                } else {
                    let agent_s = ad.take(idx_of(ad, ':'));
                    if !(agent_s.len() > 0 && is_digit_seq(agent_s) && spec_udec_value(agent_s)
                        <= u8::MAX) {
                        Err(JidParseErr::Agent)
                    } else if count_char(ad, ':') == 1 {
                        let dev_s = ad.skip(idx_of(ad, ':') + 1);
                        if !(dev_s.len() > 0 && is_digit_seq(dev_s) && spec_udec_value(dev_s)
                            <= u16::MAX) {
                            Err(JidParseErr::Device)
                        } else {
                            Ok(JidV {
                                user,
                                raw_agent: spec_udec_value(agent_s) as u8,
                                device: spec_udec_value(dev_s) as u16,
                                integrator: 0,
                                server: srv,
                            })
                        }
                    } else {
                        Ok(JidV {
                            user,
                            raw_agent: spec_udec_value(agent_s) as u8,
                            device: 0,
                            integrator: 0,
                            server: srv,
                        })
                    }
                }
            }
        } else if count_char(u, ':') > 0 {
            if count_char(u, ':') != 1 {
                Err(JidParseErr::Colons)
            } else {
                let user = u.take(idx_of(u, ':'));
                let dev_s = u.skip(idx_of(u, ':') + 1);
                if !(dev_s.len() > 0 && is_digit_seq(dev_s) && spec_udec_value(dev_s) <= u16::MAX) {
                    Err(JidParseErr::Device)
                } else {
                    Ok(JidV {
                        user,
                        raw_agent: 0,
                        device: spec_udec_value(dev_s) as u16,
                        integrator: 0,
                        server: srv,
                    })
                }
            }
        } else {
            Ok(JidV { user: u, raw_agent: 0, device: 0, integrator: 0, server: srv })
        }
    }
}

/// Why parsing an identifier failed, with its message.
#[derive(Debug, Clone, PartialEq)]
pub struct ParseJIDError(pub String);

/// Parses a textual identifier; see `spec_parse_jid` for what succeeds.
pub fn parse_jid(s: &str) -> (r: Result<JID, ParseJIDError>)
    ensures
        match r {
            Ok(j) => spec_parse_jid(s@) == Ok::<JidV, JidParseErr>(j@),
            Err(e) => spec_parse_jid(s@) matches Err(k) && e.0@ == jid_err_message(k),
        },
{
    let n = s.unicode_len();
    let at_count = char_count(s, '@');
    if at_count == 0 {
        proof {
            reveal_strlit("");
            assert(""@ =~= Seq::<char>::empty());
        }
        return Ok(JID::new("", s));
    }
    let at = char_find(s, '@');
    proof {
        lemma_idx_of(s@, '@');
        lemma_count_char_zero(s@, '@');
    }
    let u: &str = s.substring_char(0, at);
    let rest: &str = s.substring_char(at + 1, n);
    proof {
        assert(u@ =~= s@.take(at as int));
        assert(rest@ =~= s@.skip(at as int + 1));
    }
    let srv_end = char_find(rest, '@');
    let srv: &str = rest.substring_char(0, srv_end);
    proof {
        assert(srv@ =~= rest@.take(idx_of(rest@, '@')));
    }
    let un = u.unicode_len();
    let dot_count = char_count(u, '.');
    if dot_count > 0 {
        if dot_count != 1 {
            return Err(ParseJIDError("unexpected number of dots in JID".to_owned()));
        }
        let dot = char_find(u, '.');
        proof {
            lemma_idx_of(u@, '.');
            lemma_count_char_zero(u@, '.');
        }
        let user: &str = u.substring_char(0, dot);
        let ad: &str = u.substring_char(dot + 1, un);
        proof {
            assert(user@ =~= u@.take(idx_of(u@, '.')));
            assert(ad@ =~= u@.skip(idx_of(u@, '.') + 1));
        }
        let colon_count = char_count(ad, ':');
        if colon_count >= 2 {
            return Err(ParseJIDError("unexpected number of colons in JID".to_owned()));
        }
        let colon = char_find(ad, ':');
        proof {
            lemma_idx_of(ad@, ':');
            lemma_count_char_zero(ad@, ':');
        }
        let adn = ad.unicode_len();
        let agent_str: &str = ad.substring_char(0, colon);
        proof {
            assert(agent_str@ =~= ad@.take(idx_of(ad@, ':')));
        }
        let raw_agent = match parse_u8_decimal(agent_str) {
            Some(a) => a,
            None => {
                return Err(ParseJIDError("failed to parse agent from JID".to_owned()));
            },
        };
        if colon_count == 1 {
            let dev_str: &str = ad.substring_char(colon + 1, adn);
            proof {
                assert(dev_str@ =~= ad@.skip(idx_of(ad@, ':') + 1));
            }
            let device = match parse_u16_decimal(dev_str) {
                Some(d) => d,
                None => {
                    return Err(ParseJIDError("failed to parse device from JID".to_owned()));
                },
            };
            Ok(JID {
                user: user.to_owned(),
                raw_agent,
                device,
                integrator: 0,
                server: srv.to_owned(),
            })
        } else {
            Ok(JID {
                user: user.to_owned(),
                raw_agent,
                device: 0,
                integrator: 0,
                server: srv.to_owned(),
            })
        }
    } else {
        let colon_count = char_count(u, ':');
        if colon_count > 0 {
            if colon_count != 1 {
                return Err(ParseJIDError("unexpected number of colons in JID".to_owned()));
            }
            let colon = char_find(u, ':');
            proof {
                lemma_idx_of(u@, ':');
                lemma_count_char_zero(u@, ':');
            }
            let user: &str = u.substring_char(0, colon);
            let dev_str: &str = u.substring_char(colon + 1, un);
            proof {
                assert(user@ =~= u@.take(idx_of(u@, ':')));
                assert(dev_str@ =~= u@.skip(idx_of(u@, ':') + 1));
            }
            let device = match parse_u16_decimal(dev_str) {
                Some(d) => d,
                None => {
                    return Err(ParseJIDError("failed to parse device from JID".to_owned()));
                },
            };
            Ok(JID {
                user: user.to_owned(),
                raw_agent: 0,
                device,
                integrator: 0,
                server: srv.to_owned(),
            })
        } else {
            Ok(JID {
                user: u.to_owned(),
                raw_agent: 0,
                device: 0,
                integrator: 0,
                server: srv.to_owned(),
            })
        }
    }
}

impl core::str::FromStr for JID {
    type Err = ParseJIDError;

    fn from_str(s: &str) -> Result<JID, ParseJIDError> {
        parse_jid(s)
    }
}

} // verus!
