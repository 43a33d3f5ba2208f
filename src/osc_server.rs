//! The connection registry, outbound routing and the reading of inbound
//! arguments.

use vstd::prelude::*;
use crate::numeral::{
    canonical_float, chars_of, decimal_text, float_text, i16_of_text, int_text, parse_i16,
    write_decimal, write_int,
};

verus! {

/// A network endpoint of the peer.
#[derive(Clone, Debug)]
pub struct VRChatOscAddresss {
    pub host: String,
    pub port: u16,
}

/// The kind of value an OSC argument carried, as read back from its text.
#[derive(Clone, Copy, Debug, PartialEq, Eq, Structural)]
pub enum ValueType {
    Float,
    Int,
    Bool,
    Unknown,
}

/// One argument of an outbound message.
#[derive(Clone, Copy, Debug, PartialEq, Eq, Structural)]
pub enum OscValue {
    Int(i32),
    Bool(bool),
    /// A real number in millionths; it goes on the wire as a float.
    Micros(i64),
}

/// An outbound message: an address and its arguments.
#[derive(Clone, Debug)]
pub struct OscMessage {
    pub addr: String,
    pub args: Vec<OscValue>,
}

/// How the connection to the peer is run; chosen once at start-up.
#[derive(Clone, Copy, Debug, PartialEq, Eq, Structural)]
pub enum TransportMode {
    /// A datagram socket of our own; sends go to the recorded peer address.
    DirectSocket,
    /// A discovery-based session that finds the peer and carries the traffic.
    ManagedSession,
}

/// A service that discovery reports.
#[derive(Clone, Copy, Debug, PartialEq, Eq, Structural)]
pub enum ServiceKind {
    /// The peer's control (OSC) endpoint.
    Osc,
    /// The peer's metadata (OSCQuery) endpoint.
    OscQuery,
}

/// Where an outbound message goes.
#[derive(Clone, Debug)]
pub enum SendTarget {
    /// Through the managed session, to every service whose name matches.
    Session { pattern: String },
    /// Over the socket, to `host:port`.
    Socket { address: String },
}

/// The connection registry: the local port once bound, and the peer's
/// endpoint once known, read afresh by every send.
pub struct OscServer {
    pub mode: TransportMode,
    pub osc_port: Option<u16>,
    pub osc_query: Option<VRChatOscAddresss>,
}

/// The address and the printed argument list (`[Int(3)]`) of the message a
/// datagram holds; `None` where it holds no single message.
pub uninterp spec fn osc_message_of(bytes: Seq<u8>) -> Option<(Seq<char>, Seq<char>)>;

/// Longest datagram taken from the socket, in bytes: rosc's `MTU`, the
/// size of the receive buffer. Decoding recurses once per nested bundle or
/// argument array, so the length also bounds how deep that goes.
pub const DATAGRAM_LIMIT: usize = 1536;

/// Relies on `rosc::decoder::decode_udp`, and on the `Debug` text of rosc's
/// argument list: a datagram that decodes to a message gives its address and
/// its arguments as printed; a bundle, or bytes that do not decode, give
/// `None`. Decoding and printing recurse without a depth limit of their own;
/// the bound on the length keeps the nesting shallow.
#[verifier::external_body]
pub(crate) fn decode_datagram(bytes: &[u8]) -> (r: Option<(String, String)>)
    requires
        bytes@.len() <= DATAGRAM_LIMIT,
    ensures
        r matches Some((a, t)) ==> osc_message_of(bytes@) == Some((a@, t@)),
        r is None ==> osc_message_of(bytes@) is None,
{
    match rosc::decoder::decode_udp(bytes) {
        Ok((_, rosc::OscPacket::Message(m))) => Some((m.addr, format!("{:?}", m.args))),
        Ok((_, rosc::OscPacket::Bundle(_))) => None,
        Err(_) => None,
    }
}

pub open spec fn starts_with(s: Seq<char>, p: Seq<char>) -> bool {
    p.len() <= s.len() && s.take(p.len() as int) == p
}

/// `http://host:port`
pub open spec fn base_url_text(host: Seq<char>, port: u16) -> Seq<char> {
    seq!['h', 't', 't', 'p', ':', '/', '/'] + host + seq![':'] + decimal_text(port as nat)
}

/// `host:port`
pub open spec fn address_text(host: Seq<char>, port: u16) -> Seq<char> {
    host + seq![':'] + decimal_text(port as nat)
}

pub open spec fn float_word() -> Seq<char> {
    seq!['F', 'l', 'o', 'a', 't']
}

pub open spec fn int_word() -> Seq<char> {
    seq!['I', 'n', 't']
}

pub open spec fn bool_word() -> Seq<char> {
    seq!['B', 'o', 'o', 'l']
}

pub open spec fn true_word() -> Seq<char> {
    seq!['t', 'r', 'u', 'e']
}

pub open spec fn false_word() -> Seq<char> {
    seq!['f', 'a', 'l', 's', 'e']
}

/// The text of `[Kind(value)]`, the way an argument list of one element is
/// printed, read back into its kind and the value in its shortest notation.
/// A list of another shape is `Unknown` and kept whole.
pub open spec fn converted(input: Seq<char>) -> Option<(ValueType, Seq<char>)> {
    let n = input.len();
    if !(n >= 2 && input[0] == '[' && input[n - 1] == ']') {
        None
    } else {
        let t = input.subrange(1, n - 1);
        if starts_with(t, float_word()) {
            if t.len() >= 7 && t[5] == '(' && t[t.len() - 1] == ')' {
                match float_text(t.subrange(6, t.len() - 1)) {
                    Some(v) => Some((ValueType::Float, v)),
                    None => None,
                }
            } else {
                None
            }
        } else if starts_with(t, int_word()) {
            if t.len() >= 5 && t[3] == '(' && t[t.len() - 1] == ')' {
                match i16_of_text(t.subrange(4, t.len() - 1)) {
                    Some(v) => Some((ValueType::Int, int_text(v as int))),
                    None => None,
                }
            } else {
                None
            }
        } else if starts_with(t, bool_word()) {
            if t.len() >= 6 && t[4] == '(' && t[t.len() - 1] == ')' {
                let v = t.subrange(5, t.len() - 1);
                if v == true_word() || v == false_word() {
                    Some((ValueType::Bool, v))
                } else {
                    None
                }
            } else {
                None
            }
        } else {
            Some((ValueType::Unknown, input))
        }
    }
}

/// Whether `v[from..to]` spells `p`.
fn range_is(v: &Vec<char>, from: usize, to: usize, p: &Vec<char>) -> (r: bool)
    requires
        from <= to <= v@.len(),
    ensures
        r == (v@.subrange(from as int, to as int) == p@),
{
    if to - from != p.len() {
        return false;
    }
    let mut i: usize = 0;
    while i < p.len()
        invariant
            from <= to <= v@.len(),
            to - from == p@.len(),
            i <= p@.len(),
            v@.subrange(from as int, from + i) == p@.take(i as int),
        decreases p@.len() - i,
    {
        if v[from + i] != p[i] {
            assert(v@.subrange(from as int, to as int)[i as int] != p@[i as int]);
            return false;
        }
        assert(v@.subrange(from as int, from + i + 1) =~= p@.take(i + 1));
        i = i + 1;
    }
    assert(p@.take(p@.len() as int) =~= p@);
    true
}

fn word(s: &str) -> (r: Vec<char>)
    ensures
        r@ == s@,
{
    chars_of(s)
}

impl OscServer {
    pub fn new(mode: TransportMode) -> (r: OscServer)
        ensures
            r.mode == mode,
            r.osc_port is None,
            r.osc_query is None,
    {
        OscServer { mode, osc_port: None, osc_query: None }
    }

    /// The local port that the socket was bound to, once known.
    pub fn get_osc_port(&self) -> (r: Option<u16>)
        ensures
            r == self.osc_port,
    {
        self.osc_port
    }

    pub fn set_osc_port(&mut self, port: u16)
        ensures
            final(self).osc_port == Some(port),
            final(self).mode == old(self).mode,
            final(self).osc_query == old(self).osc_query,
    {
        self.osc_port = Some(port);
    }

    /// Records the peer's endpoint.
    pub fn set_vrc_address(&mut self, host: String, port: u16)
        ensures
            final(self).osc_query matches Some(a) && a.host@ == host@ && a.port == port,
            final(self).mode == old(self).mode,
            final(self).osc_port == old(self).osc_port,
    {
        self.osc_query = Some(VRChatOscAddresss { host, port });
    }

    /// Reacts to a service that discovery found: a metadata endpoint is
    /// recorded, a control endpoint changes nothing.
    pub fn record_service(&mut self, kind: ServiceKind, host: String, port: u16)
        ensures
            kind == ServiceKind::OscQuery ==> (final(self).osc_query matches Some(a) && a.host@
                == host@ && a.port == port),
            kind == ServiceKind::Osc ==> final(self).osc_query == old(self).osc_query,
            final(self).mode == old(self).mode,
            final(self).osc_port == old(self).osc_port,
    {
        match kind {
            ServiceKind::OscQuery => self.set_vrc_address(host, port),
            ServiceKind::Osc => {},
        }
    }

    /// The metadata base URL, `http://host:port`, once the endpoint is known.
    pub fn get_osc_query(&self) -> (r: Option<String>)
        ensures
            self.osc_query is None ==> r is None,
            self.osc_query matches Some(a) ==> (r matches Some(u) && u@ == base_url_text(
                a.host@,
                a.port,
            )),
    {
        match &self.osc_query {
            None => None,
            Some(a) => {
                let mut u = String::from_str("http://");
                proof {
                    reveal_strlit("http://");
                }
                u.append(a.host.as_str());
                u.append(":");
                proof {
                    reveal_strlit(":");
                }
                write_decimal(&mut u, a.port as u64);
                assert(u@ =~= base_url_text(a.host@, a.port));
                Some(u)
            },
        }
    }

    /// Where an outbound message goes: the managed session addresses every
    /// client service; the socket sends to the recorded endpoint, or to the
    /// default `127.0.0.1:9000` while none is recorded.
    pub fn send_target(&self) -> (r: SendTarget)
        ensures
            self.mode == TransportMode::ManagedSession ==> (r matches SendTarget::Session {
                pattern,
            } && pattern@ == "VRChat-Client-*"@),
            self.mode == TransportMode::DirectSocket ==> (r matches SendTarget::Socket { address }
                && address@ == match self.osc_query {
                Some(a) => address_text(a.host@, a.port),
                None => "127.0.0.1:9000"@,
            }),
    {
        match self.mode {
            TransportMode::ManagedSession => SendTarget::Session {
                pattern: String::from_str("VRChat-Client-*"),
            },
            TransportMode::DirectSocket => match &self.osc_query {
                Some(a) => {
                    let mut t = a.host.clone();
                    t.append(":");
                    proof {
                        reveal_strlit(":");
                    }
                    write_decimal(&mut t, a.port as u64);
                    assert(t@ =~= address_text(a.host@, a.port));
                    SendTarget::Socket { address: t }
                },
                None => SendTarget::Socket { address: String::from_str("127.0.0.1:9000") },
            },
        }
    }

    /// Reads the printed argument list of a message (`[Int(3)]`) back into
    /// the kind of its one argument and its value in shortest notation. A
    /// float printed in exponent notation does not read (see `float_text`).
    pub fn auto_convert(input: &str) -> (r: Option<(ValueType, String)>)
        ensures
            r matches Some((k, t)) ==> converted(input@) == Some((k, t@)),
            r is None ==> converted(input@) is None,
    {
        let v = chars_of(input);
        let n = v.len();
        if n < 2 || v[0] != '[' || v[n - 1] != ']' {
            return None;
        }
        let ghost t = input@.subrange(1, n - 1);
        let fw = word("Float");
        let iw = word("Int");
        let bw = word("Bool");
        proof {
            reveal_strlit("Float");
            reveal_strlit("Int");
            reveal_strlit("Bool");
            assert(fw@ =~= float_word());
            assert(iw@ =~= int_word());
            assert(bw@ =~= bool_word());
        }
        if n - 2 >= 5 && range_is(&v, 1, 6, &fw) {
            assert(t.take(5) =~= v@.subrange(1, 6));
            if n - 2 >= 7 && v[6] == '(' && v[n - 2] == ')' {
                let inner = input.substring_char(7, n - 2);
                assert(inner@ =~= t.subrange(6, t.len() - 1));
                return match canonical_float(inner) {
                    Some(x) => Some((ValueType::Float, x)),
                    None => None,
                };
            }
            return None;
        }
        assert(n - 2 >= 5 ==> t.take(5) =~= v@.subrange(1, 6));
        if n - 2 >= 3 && range_is(&v, 1, 4, &iw) {
            assert(t.take(3) =~= v@.subrange(1, 4));
            if n - 2 >= 5 && v[4] == '(' && v[n - 2] == ')' {
                let inner = input.substring_char(5, n - 2);
                assert(inner@ =~= t.subrange(4, t.len() - 1));
                return match parse_i16(inner) {
                    Some(x) => {
                        let mut out = String::new();
                        write_int(&mut out, x as i64);
                        assert(out@ =~= int_text(x as int));
                        Some((ValueType::Int, out))
                    },
                    None => None,
                };
            }
            return None;
        }
        assert(n - 2 >= 3 ==> t.take(3) =~= v@.subrange(1, 4));
        if n - 2 >= 4 && range_is(&v, 1, 5, &bw) {
            assert(t.take(4) =~= v@.subrange(1, 5));
            if n - 2 >= 6 && v[5] == '(' && v[n - 2] == ')' {
                let tw = word("true");
                let fl = word("false");
                proof {
                    reveal_strlit("true");
                    reveal_strlit("false");
                    assert(tw@ =~= true_word());
                    assert(fl@ =~= false_word());
                }
                assert(v@.subrange(6, n - 2) =~= t.subrange(5, t.len() - 1));
                if range_is(&v, 6, n - 2, &tw) || range_is(&v, 6, n - 2, &fl) {
                    let inner = input.substring_char(6, n - 2);
                    return Some((ValueType::Bool, String::from_str(inner)));
                }
                return None;
            }
            return None;
        }
        assert(n - 2 >= 4 ==> t.take(4) =~= v@.subrange(1, 5));
        Some((ValueType::Unknown, String::from_str(input)))
    }
}

} // verus!
