//! The DHCP responder: the frames of the protocol, and the lease that a
//! request is answered with.
//!
//! A frame is the BOOTP header of 236 bytes, the magic cookie, and a list
//! of options, each a code, a length and that many bytes of data. The
//! responder hands out what the inventory holds for the interface that
//! asks: it runs no address pool.

use crate::host::{entities_of, found_of, Entity, EntityView, Kind, Request, RequestView, Response};
use crate::model::{texts_of, Interface, InterfaceView, Network};
use crate::net::{hex_pair, push_hex_pair};
use crate::store::{find_interface, holds_mac, mac_index};
use crate::text::{char_len, chars_of, string_of};
use vstd::prelude::*;

verus! {

/// The code of the option that pads.
pub const OPTION_PAD: u8 = 0;

/// The code of the option that holds the subnet mask.
pub const OPTION_SUBNET_MASK: u8 = 1;

/// The code of the option that holds the routers.
pub const OPTION_ROUTER: u8 = 3;

/// The code of the option that holds the name servers.
pub const OPTION_DOMAIN_SERVER: u8 = 6;

/// The code of the option that holds the lease time, in seconds.
pub const OPTION_ADDRESS_LEASE_TIME: u8 = 51;

/// The code of the option that holds the type of the message.
pub const OPTION_DHCP_MSG_TYPE: u8 = 53;

/// The code of the option that ends the list.
pub const OPTION_END: u8 = 255;

pub const DHCP_DISCOVER: u8 = 1;

pub const DHCP_OFFER: u8 = 2;

pub const DHCP_REQUEST: u8 = 3;

pub const DHCP_ACK: u8 = 5;

/// An IPv4 address.
#[derive(Debug, Clone, Copy, PartialEq, Eq, Structural)]
pub struct Quad {
    pub a: u8,
    pub b: u8,
    pub c: u8,
    pub d: u8,
}

/// One option of a frame.
#[derive(Debug)]
pub struct DhcpOption {
    pub code: u8,
    pub data: Vec<u8>,
}

impl View for DhcpOption {
    type V = (u8, Seq<u8>);

    open spec fn view(&self) -> (u8, Seq<u8>) {
        (self.code, self.data@)
    }
}

/// The options of a list, as contracts see them.
pub open spec fn options_of(s: Seq<DhcpOption>) -> Seq<(u8, Seq<u8>)> {
    Seq::new(s.len(), |i: int| s[i]@)
}

/// A frame. Of the header, the server name and the boot file are not
/// kept: they are read over and written as zeros.
#[derive(Debug)]
pub struct Frame {
    pub op: u8,
    pub htype: u8,
    pub hlen: u8,
    pub hops: u8,
    /// The transaction identifier.
    pub xid: u32,
    pub secs: u16,
    pub flags: u16,
    pub ciaddr: Quad,
    /// The address that the server offers.
    pub yiaddr: Quad,
    pub siaddr: Quad,
    pub giaddr: Quad,
    /// The hardware address of the client, sixteen bytes of which an
    /// Ethernet address fills the first six.
    pub chaddr: Vec<u8>,
    /// The options, without padding and without the end.
    pub options: Vec<DhcpOption>,
}

/// What a [`Frame`] is in contracts.
pub struct FrameView {
    pub op: u8,
    pub htype: u8,
    pub hlen: u8,
    pub hops: u8,
    pub xid: u32,
    pub secs: u16,
    pub flags: u16,
    pub ciaddr: Quad,
    pub yiaddr: Quad,
    pub siaddr: Quad,
    pub giaddr: Quad,
    pub chaddr: Seq<u8>,
    pub options: Seq<(u8, Seq<u8>)>,
}

impl View for Frame {
    type V = FrameView;

    open spec fn view(&self) -> FrameView {
        FrameView {
            op: self.op,
            htype: self.htype,
            hlen: self.hlen,
            hops: self.hops,
            xid: self.xid,
            secs: self.secs,
            flags: self.flags,
            ciaddr: self.ciaddr,
            yiaddr: self.yiaddr,
            siaddr: self.siaddr,
            giaddr: self.giaddr,
            chaddr: self.chaddr@,
            options: options_of(self.options@),
        }
    }
}

/// The four bytes of an address.
pub open spec fn quad_bytes(q: Quad) -> Seq<u8> {
    seq![q.a, q.b, q.c, q.d]
}

/// The four bytes of a number, the most significant first.
pub open spec fn word_bytes(v: u32) -> Seq<u8> {
    seq![
        (v / 16777216) as u8,
        (v / 65536 % 256) as u8,
        (v / 256 % 256) as u8,
        (v % 256) as u8,
    ]
}

/// The two bytes of a number, the most significant first.
pub open spec fn half_bytes(v: u16) -> Seq<u8> {
    seq![(v / 256) as u8, (v % 256) as u8]
}

/// The number that four bytes of `b` from position `i` spell, the most
/// significant first.
pub open spec fn word_at(b: Seq<u8>, i: int) -> u32 {
    (b[i] * 16777216 + b[i + 1] * 65536 + b[i + 2] * 256 + b[i + 3]) as u32
}

/// The number that two bytes of `b` from position `i` spell.
pub open spec fn half_at(b: Seq<u8>, i: int) -> u16 {
    (b[i] * 256 + b[i + 1]) as u16
}

/// The address that four bytes of `b` from position `i` spell.
pub open spec fn quad_at(b: Seq<u8>, i: int) -> Quad {
    Quad { a: b[i], b: b[i + 1], c: b[i + 2], d: b[i + 3] }
}

/// The magic cookie that stands between the header and the options.
pub open spec fn cookie() -> Seq<u8> {
    seq![99u8, 130u8, 83u8, 99u8]
}

/// `n` zero bytes.
pub open spec fn zeros(n: nat) -> Seq<u8> {
    Seq::new(n, |i: int| 0u8)
}

/// The bytes of one option: its code, the length of its data, its data.
pub open spec fn option_bytes(o: (u8, Seq<u8>)) -> Seq<u8> {
    seq![o.0, o.1.len() as u8] + o.1
}

/// The bytes of a list of options, one after the other.
pub open spec fn options_bytes(os: Seq<(u8, Seq<u8>)>) -> Seq<u8>
    decreases os.len(),
{
    if os.len() == 0 {
        Seq::empty()
    } else {
        option_bytes(os.first()) + options_bytes(os.drop_first())
    }
}

/// The header of a frame and the magic cookie: 240 bytes.
pub open spec fn header_bytes(f: FrameView) -> Seq<u8> {
    seq![f.op, f.htype, f.hlen, f.hops] + word_bytes(f.xid) + half_bytes(f.secs) + half_bytes(
        f.flags,
    ) + quad_bytes(f.ciaddr) + quad_bytes(f.yiaddr) + quad_bytes(f.siaddr) + quad_bytes(f.giaddr)
        + f.chaddr + zeros(192) + cookie()
}

/// The bytes of a frame: the header, the cookie, the options and the end.
pub open spec fn encoded(f: FrameView) -> Seq<u8> {
    header_bytes(f) + options_bytes(f.options) + seq![255u8]
}

/// Whether a frame can be written: its hardware address has sixteen bytes,
/// and each option has a code that neither pads nor ends and at most 255
/// bytes of data.
pub open spec fn well_formed(f: FrameView) -> bool {
    f.chaddr.len() == 16 && options_fit(f.options)
}

/// The options that the bytes of `b` from position `i` on spell, or `None`
/// when an option is cut short. Padding is skipped, and the list ends at the
/// end option or at the end of `b`.
pub open spec fn options_from(b: Seq<u8>, i: int) -> Option<Seq<(u8, Seq<u8>)>>
    decreases b.len() - i,
{
    if i < 0 {
        None
    } else if i >= b.len() {
        Some(Seq::empty())
    } else if b[i] == 255 {
        Some(Seq::empty())
    } else if b[i] == 0 {
        options_from(b, i + 1)
    } else if i + 1 >= b.len() {
        None
    } else if i + 2 + b[i + 1] > b.len() {
        None
    } else {
        match options_from(b, i + 2 + b[i + 1]) {
            None => None,
            Some(rest) => Some(seq![(b[i], b.subrange(i + 2, i + 2 + b[i + 1]))] + rest),
        }
    }
}

/// The frame that `b` spells, or `None` when `b` is shorter than a header
/// with its cookie, when the cookie is not there, or when an option is cut
/// short.
pub open spec fn decoded(b: Seq<u8>) -> Option<FrameView> {
    if b.len() < 240 || b.subrange(236, 240) != cookie() {
        None
    } else {
        match options_from(b, 240) {
            None => None,
            Some(options) => Some(
                FrameView {
                    op: b[0],
                    htype: b[1],
                    hlen: b[2],
                    hops: b[3],
                    xid: word_at(b, 4),
                    secs: half_at(b, 8),
                    flags: half_at(b, 10),
                    ciaddr: quad_at(b, 12),
                    yiaddr: quad_at(b, 16),
                    siaddr: quad_at(b, 20),
                    giaddr: quad_at(b, 24),
                    chaddr: b.subrange(28, 44),
                    options,
                },
            ),
        }
    }
}

/// The first position at or after `i` of an option with code `code`, or
/// the length of `os` when there is none.
pub open spec fn option_index(os: Seq<(u8, Seq<u8>)>, code: u8, i: int) -> int
    decreases os.len() - i,
{
    if 0 <= i < os.len() && os[i].0 != code {
        option_index(os, code, i + 1)
    } else {
        i
    }
}

/// The hardware address of the client as text: the first six bytes in
/// lower-case hexadecimal, separated by colons.
pub open spec fn mac_of(chaddr: Seq<u8>) -> Seq<char> {
    hex_pair(chaddr[0]) + ":"@ + hex_pair(chaddr[1]) + ":"@ + hex_pair(chaddr[2]) + ":"@
        + hex_pair(chaddr[3]) + ":"@ + hex_pair(chaddr[4]) + ":"@ + hex_pair(chaddr[5])
}

/// The number that a part of a dotted address spells: one to three decimal
/// digits, without a leading zero but for zero itself, of value at most 255.
pub open spec fn octet_of(part: Seq<char>) -> Option<u8> {
    let digit = |c: char| c as u32 - 48;
    if part.len() == 1 && is_digit(part[0]) {
        Some(digit(part[0]) as u8)
    } else if part.len() == 2 && is_digit(part[0]) && is_digit(part[1]) && part[0] != '0' {
        Some((digit(part[0]) * 10 + digit(part[1])) as u8)
    } else if part.len() == 3 && is_digit(part[0]) && is_digit(part[1]) && is_digit(part[2])
        && part[0] != '0' && digit(part[0]) * 100 + digit(part[1]) * 10 + digit(part[2]) <= 255 {
        Some((digit(part[0]) * 100 + digit(part[1]) * 10 + digit(part[2])) as u8)
    } else {
        None
    }
}

/// Whether `c` is a decimal digit.
pub open spec fn is_digit(c: char) -> bool {
    '0' <= c <= '9'
}

/// The address that `s` spells in dotted form: four numbers of at most
/// 255, separated by dots.
pub open spec fn ipv4_of(s: Seq<char>) -> Option<Quad> {
    let d1 = crate::text::index_of(s, '.', 0);
    let d2 = crate::text::index_of(s, '.', d1 + 1);
    let d3 = crate::text::index_of(s, '.', d2 + 1);
    if d1 < d2 < d3 < s.len() {
        match (
            octet_of(s.subrange(0, d1)),
            octet_of(s.subrange(d1 + 1, d2)),
            octet_of(s.subrange(d2 + 1, d3)),
            octet_of(s.subrange(d3 + 1, s.len() as int)),
        ) {
            (Some(a), Some(b), Some(c), Some(d)) => Some(Quad { a, b, c, d }),
            _ => None,
        }
    } else {
        None
    }
}

/// The type of the message that answers a message of type `asked`: an
/// offer answers a discover, an acknowledgement answers a request, and
/// nothing answers anything else.
pub open spec fn answer_type(asked: u8) -> Option<u8> {
    if asked == 1 {
        Some(2u8)
    } else if asked == 3 {
        Some(5u8)
    } else {
        None
    }
}

/// The option that holds the address that `text` spells, and `None` when
/// `text` spells none.
pub open spec fn address_option(code: u8, text: Seq<char>) -> Option<Seq<(u8, Seq<u8>)>> {
    match ipv4_of(text) {
        Some(q) => Some(seq![(code, quad_bytes(q))]),
        None => None,
    }
}

/// The router option of an answer: none for a network without a router,
/// the router's address for one that has a router, and `None` when the
/// router is no address.
pub open spec fn router_option(router: Seq<char>) -> Option<Seq<(u8, Seq<u8>)>> {
    if router.len() == 0 {
        Some(Seq::empty())
    } else {
        address_option(3, router)
    }
}

/// The name server option of an answer: none for a network without name
/// servers, the address of the first for one that has any, and `None` when
/// the first is no address, the empty text included.
pub open spec fn server_option(dns: Seq<Seq<char>>) -> Option<Seq<(u8, Seq<u8>)>> {
    if dns.len() == 0 {
        Some(Seq::empty())
    } else {
        address_option(6, dns[0])
    }
}

/// The frame that answers the request `req` of an interface with the
/// stored address `ip` on a network with router `router` and name servers
/// `dns`; `None` when the request is not answered.
///
/// The answer echoes the transaction identifier and the hardware address
/// and offers the stored address. Its options are the type, the subnet mask
/// 255.255.255.0, the router if the network has one, the first name server
/// if it has any, and a lease time of 24 hours. A request is not answered
/// when it holds no message type or one that is neither discover nor
/// request, or when the interface's address, the router that the network
/// names or its first name server is no address.
pub open spec fn reply_of(
    req: FrameView,
    ip: Seq<char>,
    router: Seq<char>,
    dns: Seq<Seq<char>>,
) -> Option<FrameView> {
    let at = option_index(req.options, 53, 0);
    if at >= req.options.len() || req.options[at].1.len() == 0 || req.chaddr.len() != 16 {
        None
    } else {
        match (
            ipv4_of(ip),
            answer_type(req.options[at].1[0]),
            router_option(router),
            server_option(dns),
        ) {
            (Some(yiaddr), Some(kind), Some(routers), Some(servers)) => Some(
                FrameView {
                    op: 2,
                    htype: 1,
                    hlen: 6,
                    hops: 0,
                    xid: req.xid,
                    secs: 0,
                    flags: 0,
                    ciaddr: Quad { a: 0, b: 0, c: 0, d: 0 },
                    yiaddr,
                    siaddr: Quad { a: 192, b: 168, c: 1, d: 253 },
                    giaddr: Quad { a: 0, b: 0, c: 0, d: 0 },
                    chaddr: req.chaddr,
                    options: seq![(53u8, seq![kind]), (1u8, seq![255u8, 255u8, 255u8, 0u8])]
                        + routers + servers + seq![(51u8, seq![0u8, 1u8, 81u8, 128u8])],
                },
            ),
            _ => None,
        }
    }
}

fn digit_value(c: char) -> (r: Option<u32>)
    ensures
        match r {
            Some(v) => is_digit(c) && v == c as u32 - 48 && v <= 9,
            None => !is_digit(c),
        },
{
    if '0' <= c && c <= '9' {
        Some(c as u32 - 48)
    } else {
        None
    }
}

fn octet(v: &Vec<char>, from: usize, to: usize) -> (r: Option<u8>)
    requires
        from <= to <= v@.len(),
    ensures
        r == octet_of(v@.subrange(from as int, to as int)),
{
    let n = to - from;
    let ghost part = v@.subrange(from as int, to as int);
    if n == 1 {
        assert(part[0] == v@[from as int]);
        match digit_value(v[from]) {
            Some(a) => Some(a as u8),
            None => None,
        }
    } else if n == 2 {
        assert(part[0] == v@[from as int]);
        assert(part[1] == v@[from + 1]);
        match (digit_value(v[from]), digit_value(v[from + 1])) {
            (Some(a), Some(b)) => {
                if v[from] != '0' {
                    Some((a * 10 + b) as u8)
                } else {
                    None
                }
            },
            _ => None,
        }
    } else if n == 3 {
        assert(part[0] == v@[from as int]);
        assert(part[1] == v@[from + 1]);
        assert(part[2] == v@[from + 2]);
        match (digit_value(v[from]), digit_value(v[from + 1]), digit_value(v[from + 2])) {
            (Some(a), Some(b), Some(c)) => {
                let value = a * 100 + b * 10 + c;
                if v[from] != '0' && value <= 255 {
                    Some(value as u8)
                } else {
                    None
                }
            },
            _ => None,
        }
    } else {
        None
    }
}

/// The address that `s` spells in dotted form.
pub fn parse_ipv4(s: &str) -> (r: Option<Quad>)
    ensures
        r == ipv4_of(s@),
{
    let v = chars_of(s);
    let n = v.len();
    let d1 = crate::text::find_char(&v, '.', 0);
    if d1 >= n {
        return None;
    }
    let d2 = crate::text::find_char(&v, '.', d1 + 1);
    if d2 >= n {
        return None;
    }
    let d3 = crate::text::find_char(&v, '.', d2 + 1);
    if d3 >= n {
        return None;
    }
    match (octet(&v, 0, d1), octet(&v, d1 + 1, d2), octet(&v, d2 + 1, d3), octet(&v, d3 + 1, n)) {
        (Some(a), Some(b), Some(c), Some(d)) => Some(Quad { a, b, c, d }),
        _ => None,
    }
}

fn push_quad(out: &mut Vec<u8>, q: Quad)
    ensures
        final(out)@ == old(out)@ + quad_bytes(q),
{
    out.push(q.a);
    out.push(q.b);
    out.push(q.c);
    out.push(q.d);
    assert(out@ =~= old(out)@ + quad_bytes(q));
}

fn push_bytes(out: &mut Vec<u8>, data: &Vec<u8>)
    ensures
        final(out)@ == old(out)@ + data@,
{
    let mut i: usize = 0;
    while i < data.len()
        invariant
            i <= data@.len(),
            out@ == old(out)@ + data@.subrange(0, i as int),
        decreases data@.len() - i,
    {
        out.push(data[i]);
        assert(out@ =~= old(out)@ + data@.subrange(0, i + 1));
        i += 1;
    }
    assert(data@.subrange(0, data@.len() as int) == data@);
}

fn push_zeros(out: &mut Vec<u8>, n: usize)
    ensures
        final(out)@ == old(out)@ + zeros(n as nat),
{
    let mut i: usize = 0;
    while i < n
        invariant
            i <= n,
            out@ == old(out)@ + zeros(i as nat),
        decreases n - i,
    {
        out.push(0);
        assert(out@ =~= old(out)@ + zeros((i + 1) as nat));
        i += 1;
    }
}

/// The bytes of a list of options grow by the bytes of an option that is
/// added at its end.
pub proof fn lemma_options_bytes_push(os: Seq<(u8, Seq<u8>)>, o: (u8, Seq<u8>))
    ensures
        options_bytes(os.push(o)) == options_bytes(os) + option_bytes(o),
    decreases os.len(),
{
    let longer = os.push(o);
    if os.len() == 0 {
        assert(longer.drop_first() =~= Seq::<(u8, Seq<u8>)>::empty());
        assert(longer.first() == o);
        assert(options_bytes(longer.drop_first()) =~= Seq::<u8>::empty());
        assert(options_bytes(os) =~= Seq::<u8>::empty());
        assert(options_bytes(longer) == option_bytes(o) + options_bytes(longer.drop_first()));
        assert(options_bytes(longer) =~= options_bytes(os) + option_bytes(o));
    } else {
        assert(longer.drop_first() =~= os.drop_first().push(o));
        assert(longer.first() == os.first());
        lemma_options_bytes_push(os.drop_first(), o);
        assert(options_bytes(longer) == option_bytes(os.first()) + options_bytes(
            os.drop_first().push(o),
        ));
        assert(options_bytes(longer) =~= options_bytes(os) + option_bytes(o));
    }
}

impl Frame {
    /// Whether the frame can be written.
    pub fn is_well_formed(&self) -> (r: bool)
        ensures
            r == well_formed(self@),
    {
        if self.chaddr.len() != 16 {
            return false;
        }
        let mut i: usize = 0;
        while i < self.options.len()
            invariant
                i <= self.options@.len(),
                forall|k: int|
                    0 <= k < i ==> {
                        let o = #[trigger] self@.options[k];
                        o.0 != 0 && o.0 != 255 && o.1.len() <= 255
                    },
            decreases self.options@.len() - i,
        {
            let o = &self.options[i];
            if o.code == 0 || o.code == 255 || o.data.len() > 255 {
                assert(self@.options[i as int] == o@);
                return false;
            }
            assert(self@.options[i as int] == o@);
            i += 1;
        }
        true
    }

    /// The bytes of the frame, or `None` when it cannot be written.
    pub fn to_bytes(&self) -> (r: Option<Vec<u8>>)
        ensures
            match r {
                Some(bytes) => well_formed(self@) && bytes@ == encoded(self@),
                None => !well_formed(self@),
            },
    {
        if !self.is_well_formed() {
            return None;
        }
        let mut out: Vec<u8> = Vec::new();
        out.push(self.op);
        out.push(self.htype);
        out.push(self.hlen);
        out.push(self.hops);
        out.push((self.xid / 16777216) as u8);
        out.push((self.xid / 65536 % 256) as u8);
        out.push((self.xid / 256 % 256) as u8);
        out.push((self.xid % 256) as u8);
        out.push((self.secs / 256) as u8);
        out.push((self.secs % 256) as u8);
        out.push((self.flags / 256) as u8);
        out.push((self.flags % 256) as u8);
        push_quad(&mut out, self.ciaddr);
        push_quad(&mut out, self.yiaddr);
        push_quad(&mut out, self.siaddr);
        push_quad(&mut out, self.giaddr);
        push_bytes(&mut out, &self.chaddr);
        push_zeros(&mut out, 192);
        out.push(99);
        out.push(130);
        out.push(83);
        out.push(99);
        assert(out@ =~= header_bytes(self@));
        let mut i: usize = 0;
        assert(self@.options.subrange(0, 0) =~= Seq::<(u8, Seq<u8>)>::empty());
        while i < self.options.len()
            invariant
                i <= self.options@.len(),
                well_formed(self@),
                out@ == header_bytes(self@) + options_bytes(self@.options.subrange(0, i as int)),
            decreases self.options@.len() - i,
        {
            let o = &self.options[i];
            proof {
                assert(self@.options[i as int] == o@);
                lemma_options_bytes_push(self@.options.subrange(0, i as int), o@);
                assert(self@.options.subrange(0, i + 1) =~= self@.options.subrange(0, i as int).push(
                    o@,
                ));
            }
            let ghost before = out@;
            out.push(o.code);
            out.push(o.data.len() as u8);
            push_bytes(&mut out, &o.data);
            assert(out@ =~= before + option_bytes(o@));
            i += 1;
        }
        assert(self@.options.subrange(0, self@.options.len() as int) =~= self@.options);
        out.push(255);
        Some(out)
    }

    /// The frame that `bytes` spell, or `None` when they spell none.
    pub fn parse(bytes: &Vec<u8>) -> (r: Option<Frame>)
        ensures
            match r {
                Some(f) => decoded(bytes@) == Some(f@),
                None => decoded(bytes@) is None,
            },
    {
        let n = bytes.len();
        if n < 240 {
            return None;
        }
        if bytes[236] != 99 || bytes[237] != 130 || bytes[238] != 83 || bytes[239] != 99 {
            assert(bytes@.subrange(236, 240)[0] == bytes@[236]);
            assert(bytes@.subrange(236, 240)[1] == bytes@[237]);
            assert(bytes@.subrange(236, 240)[2] == bytes@[238]);
            assert(bytes@.subrange(236, 240)[3] == bytes@[239]);
            return None;
        }
        assert(bytes@.subrange(236, 240) =~= cookie());
        let mut options: Vec<DhcpOption> = Vec::new();
        let mut i: usize = 240;
        let mut ended = false;
        assert(options_of(options@) =~= Seq::<(u8, Seq<u8>)>::empty());
        while i < n && !ended
            invariant
                240 <= i <= n,
                n == bytes@.len(),
                options_from(bytes@, 240) == (match options_from(
                    bytes@,
                    if ended {
                        n as int
                    } else {
                        i as int
                    },
                ) {
                    None => None,
                    Some(rest) => Some(options_of(options@) + rest),
                }),
            decreases
                    n - i + (if ended {
                        0int
                    } else {
                        1int
                    }),
        {
            let code = bytes[i];
            if code == 255 {
                ended = true;
            } else if code == 0 {
                i += 1;
            } else {
                if i + 1 >= n {
                    return None;
                }
                let len = bytes[i + 1] as usize;
                if len > n - i - 2 {
                    return None;
                }
                let mut data: Vec<u8> = Vec::new();
                let mut k: usize = 0;
                while k < len
                    invariant
                        k <= len,
                        i + 2 + len <= n,
                        n == bytes@.len(),
                        data@ == bytes@.subrange(i + 2, i + 2 + k),
                    decreases len - k,
                {
                    data.push(bytes[i + 2 + k]);
                    assert(data@ =~= bytes@.subrange(i + 2, i + 2 + k + 1));
                    k += 1;
                }
                let ghost before = options_of(options@);
                options.push(DhcpOption { code, data });
                proof {
                    let o = (code, bytes@.subrange(i + 2, i + 2 + len));
                    assert(options_of(options@) =~= before.push(o));
                    match options_from(bytes@, i + 2 + len) {
                        Some(rest) => {
                            assert(before + (seq![o] + rest) =~= before.push(o) + rest);
                        },
                        None => {},
                    }
                }
                i = i + 2 + len;
            }
        }
        proof {
            let rest = Seq::<(u8, Seq<u8>)>::empty();
            assert(options_of(options@) + rest =~= options_of(options@));
        }
        let b = bytes;
        let chaddr = crate::dhcp::copy_bytes(b, 28, 44);
        Some(
            Frame {
                op: b[0],
                htype: b[1],
                hlen: b[2],
                hops: b[3],
                xid: (b[4] as u32) * 16777216 + (b[5] as u32) * 65536 + (b[6] as u32) * 256 + (
                b[7] as u32),
                secs: (b[8] as u16) * 256 + (b[9] as u16),
                flags: (b[10] as u16) * 256 + (b[11] as u16),
                ciaddr: Quad { a: b[12], b: b[13], c: b[14], d: b[15] },
                yiaddr: Quad { a: b[16], b: b[17], c: b[18], d: b[19] },
                siaddr: Quad { a: b[20], b: b[21], c: b[22], d: b[23] },
                giaddr: Quad { a: b[24], b: b[25], c: b[26], d: b[27] },
                chaddr,
                options,
            },
        )
    }

    /// The first option with code `code`, if the frame has one.
    pub fn option(&self, code: u8) -> (r: Option<&DhcpOption>)
        ensures
            match r {
                Some(o) => {
                    let at = option_index(self@.options, code, 0);
                    at < self.options@.len() && *o == self.options@[at]
                },
                None => option_index(self@.options, code, 0) >= self.options@.len(),
            },
    {
        let mut i: usize = 0;
        while i < self.options.len()
            invariant
                i <= self.options@.len(),
                option_index(self@.options, code, 0) == option_index(self@.options, code, i as int),
            decreases self.options@.len() - i,
        {
            assert(self@.options[i as int] == self.options@[i as int]@);
            if self.options[i].code == code {
                return Some(&self.options[i]);
            }
            i += 1;
        }
        None
    }

    /// The hardware address of the client as text.
    pub fn client_mac_string(&self) -> (r: String)
        requires
            self.chaddr@.len() >= 6,
        ensures
            r@ == mac_of(self.chaddr@),
    {
        let mut out: Vec<char> = Vec::new();
        push_hex_pair(&mut out, self.chaddr[0]);
        out.push(':');
        push_hex_pair(&mut out, self.chaddr[1]);
        out.push(':');
        push_hex_pair(&mut out, self.chaddr[2]);
        out.push(':');
        push_hex_pair(&mut out, self.chaddr[3]);
        out.push(':');
        push_hex_pair(&mut out, self.chaddr[4]);
        out.push(':');
        push_hex_pair(&mut out, self.chaddr[5]);
        proof {
            reveal_strlit(":");
            assert(out@ =~= mac_of(self.chaddr@));
        }
        string_of(&out)
    }
}

/// The bytes of `v` from `from` up to `to`.
pub fn copy_bytes(v: &Vec<u8>, from: usize, to: usize) -> (r: Vec<u8>)
    requires
        from <= to <= v@.len(),
    ensures
        r@ == v@.subrange(from as int, to as int),
{
    let mut out: Vec<u8> = Vec::new();
    let mut i: usize = from;
    while i < to
        invariant
            from <= i <= to <= v@.len(),
            out@ == v@.subrange(from as int, i as int),
        decreases to - i,
    {
        out.push(v[i]);
        i += 1;
    }
    out
}

pub proof fn lemma_option_index(os: Seq<(u8, Seq<u8>)>, code: u8, i: int)
    requires
        0 <= i <= os.len(),
    ensures
        i <= option_index(os, code, i) <= os.len(),
        option_index(os, code, i) < os.len() ==> os[option_index(os, code, i)].0 == code,
    decreases os.len() - i,
{
    if i < os.len() && os[i].0 != code {
        lemma_option_index(os, code, i + 1);
    }
}

/// The answer to a request is a frame that can be written.
pub proof fn lemma_reply_well_formed(
    req: FrameView,
    ip: Seq<char>,
    router: Seq<char>,
    dns: Seq<Seq<char>>,
)
    requires
        reply_of(req, ip, router, dns) is Some,
    ensures
        well_formed(reply_of(req, ip, router, dns)->0),
{
    let r = reply_of(req, ip, router, dns)->0;
    let routers = router_option(router)->0;
    let servers = server_option(dns)->0;
    assert(routers.len() <= 1);
    assert(servers.len() <= 1);
    assert forall|i: int| 0 <= i < r.options.len() implies {
        let o = #[trigger] r.options[i];
        o.0 != 0 && o.0 != 255 && o.1.len() <= 255
    } by {
        if i < 2 {
        } else if i < 2 + routers.len() {
            assert(r.options[i] == routers[i - 2]);
        } else if i < 2 + routers.len() + servers.len() {
            assert(r.options[i] == servers[i - 2 - routers.len()]);
        } else {
        }
    }
}

fn one_option(code: u8, data: Vec<u8>) -> (r: DhcpOption)
    ensures
        r@ == (code, data@),
{
    DhcpOption { code, data }
}

fn quad_data(q: Quad) -> (r: Vec<u8>)
    ensures
        r@ == quad_bytes(q),
{
    let mut out: Vec<u8> = Vec::new();
    push_quad(&mut out, q);
    assert(out@ =~= quad_bytes(q));
    out
}

fn push_address(options: &mut Vec<DhcpOption>, code: u8, text: &str) -> (ok: bool)
    ensures
        match address_option(code, text@) {
            Some(added) => ok && options_of(final(options)@) == options_of(old(options)@) + added,
            None => !ok,
        },
{
    let ghost before = options_of(options@);
    match parse_ipv4(text) {
        Some(q) => {
            options.push(one_option(code, quad_data(q)));
            assert(options_of(options@) =~= before + seq![(code, quad_bytes(q))]);
            true
        },
        None => false,
    }
}

/// The frame that answers the request `req` of an interface with the
/// stored address `ip` on a network with router `router` and name servers
/// `dns`, if the request is answered.
pub fn respond(req: &Frame, ip: &str, router: &str, dns: &Vec<String>) -> (r: Option<Frame>)
    ensures
        match r {
            Some(f) => reply_of(req@, ip@, router@, texts_of(dns@)) == Some(f@),
            None => reply_of(req@, ip@, router@, texts_of(dns@)) is None,
        },
{
    let asked = match req.option(OPTION_DHCP_MSG_TYPE) {
        None => {
            return None;
        },
        Some(o) => {
            proof {
                assert(OPTION_DHCP_MSG_TYPE == 53u8);
                let at = option_index(req@.options, 53, 0);
                lemma_option_index(req@.options, 53, 0);
                assert(0 <= at < req.options@.len());
                assert(req@.options[at] == req.options@[at]@);
            }
            if o.data.len() == 0 {
                return None;
            }
            o.data[0]
        },
    };
    if req.chaddr.len() != 16 {
        return None;
    }
    let yiaddr = match parse_ipv4(ip) {
        None => {
            return None;
        },
        Some(q) => q,
    };
    let kind: u8 = if asked == DHCP_DISCOVER {
        DHCP_OFFER
    } else if asked == DHCP_REQUEST {
        DHCP_ACK
    } else {
        return None;
    };
    let mut options: Vec<DhcpOption> = Vec::new();
    let mut kind_data: Vec<u8> = Vec::new();
    kind_data.push(kind);
    assert(kind_data@ =~= seq![kind]);
    options.push(one_option(OPTION_DHCP_MSG_TYPE, kind_data));
    let mask = quad_data(Quad { a: 255, b: 255, c: 255, d: 0 });
    assert(mask@ =~= seq![255u8, 255u8, 255u8, 0u8]);
    options.push(one_option(OPTION_SUBNET_MASK, mask));
    let ghost head = seq![(53u8, seq![kind]), (1u8, seq![255u8, 255u8, 255u8, 0u8])];
    assert(options_of(options@) =~= head);
    if char_len(router) > 0 {
        if !push_address(&mut options, OPTION_ROUTER, router) {
            return None;
        }
    } else {
        assert(head + Seq::<(u8, Seq<u8>)>::empty() =~= head);
    }
    let ghost routers = router_option(router@)->0;
    let ghost with_router = options_of(options@);
    if dns.len() > 0 {
        assert(texts_of(dns@)[0] == dns@[0]@);
        if !push_address(&mut options, OPTION_DOMAIN_SERVER, dns[0].as_str()) {
            return None;
        }
    } else {
        assert(with_router + Seq::<(u8, Seq<u8>)>::empty() =~= with_router);
    }
    let ghost servers = server_option(texts_of(dns@))->0;
    let mut lease: Vec<u8> = Vec::new();
    lease.push(0);
    lease.push(1);
    lease.push(81);
    lease.push(128);
    assert(lease@ =~= seq![0u8, 1u8, 81u8, 128u8]);
    let ghost before = options_of(options@);
    assert(before == head + routers + servers);
    options.push(one_option(OPTION_ADDRESS_LEASE_TIME, lease));
    assert(options_of(options@) =~= before.push((51u8, seq![0u8, 1u8, 81u8, 128u8])));
    assert(options_of(options@) =~= head + routers + servers + seq![
        (51u8, seq![0u8, 1u8, 81u8, 128u8]),
    ]);
    let chaddr = copy_bytes(&req.chaddr, 0, 16);
    assert(chaddr@ =~= req.chaddr@);
    Some(
        Frame {
            op: 2,
            htype: 1,
            hlen: 6,
            hops: 0,
            xid: req.xid,
            secs: 0,
            flags: 0,
            ciaddr: Quad { a: 0, b: 0, c: 0, d: 0 },
            yiaddr,
            siaddr: Quad { a: 192, b: 168, c: 1, d: 253 },
            giaddr: Quad { a: 0, b: 0, c: 0, d: 0 },
            chaddr,
            options,
        },
    )
}

/// The frame that answers the request `req` of the interface `interface` on
/// its network `network`, if the request is answered: an offer of the
/// interface's stored address for a discover, an acknowledgement of it for a
/// request, with the subnet mask 255.255.255.0, the network's router, its
/// first name server and a lease of 24 hours.
pub fn handle(req: &Frame, interface: &Interface, network: &Network) -> (r: Option<Frame>)
    ensures
        match r {
            Some(f) => reply_of(req@, interface@.ip, network@.router, network@.dns) == Some(f@),
            None => reply_of(req@, interface@.ip, network@.router, network@.dns) is None,
        },
{
    respond(req, interface.ip.as_str(), network.router.as_str(), &network.dns)
}

/// Where the answering of a request stands: what it waits for.
#[derive(Debug, Clone, Copy, PartialEq, Eq, Structural)]
pub enum Stage {
    /// For the machines of the inventory.
    Lookup,
    /// For the network of the interface that asks.
    Resolve,
}

/// A request that is being answered.
#[derive(Debug)]
pub struct Exchange {
    pub stage: Stage,
    /// The request.
    pub frame: Frame,
    /// The interface that asks, once it is found.
    pub interface: Interface,
}

/// What an [`Exchange`] is in contracts.
pub struct ExchangeView {
    pub stage: Stage,
    pub frame: FrameView,
    pub interface: InterfaceView,
}

impl View for Exchange {
    type V = ExchangeView;

    open spec fn view(&self) -> ExchangeView {
        ExchangeView { stage: self.stage, frame: self.frame@, interface: self.interface@ }
    }
}

/// What the responder tells the host.
#[derive(Debug)]
pub enum Turn {
    /// Carry out the request and answer with the new state.
    Ask(Exchange, Request),
    /// Send these bytes to the limited broadcast address, port 68.
    Broadcast(Vec<u8>),
    /// Send nothing.
    Drop,
}

/// What a [`Turn`] is in contracts.
pub enum TurnView {
    Ask(ExchangeView, RequestView),
    Broadcast(Seq<u8>),
    Drop,
}

impl View for Turn {
    type V = TurnView;

    open spec fn view(&self) -> TurnView {
        match self {
            Turn::Ask(x, q) => TurnView::Ask(x@, q@),
            Turn::Broadcast(bytes) => TurnView::Broadcast(bytes@),
            Turn::Drop => TurnView::Drop,
        }
    }
}

/// Whether an entity is a machine that holds `mac`.
pub open spec fn holds(e: EntityView, mac: Seq<char>) -> bool {
    e matches EntityView::Vm(v) && holds_mac(v, mac)
}

/// The first position at or after `i` of a machine that holds `mac`, or
/// the length of `es` when none holds it.
pub open spec fn holder_at(es: Seq<EntityView>, mac: Seq<char>, i: int) -> int
    decreases es.len() - i,
{
    if 0 <= i < es.len() && !holds(es[i], mac) {
        holder_at(es, mac, i + 1)
    } else {
        i
    }
}

/// An interface of which nothing is known yet.
pub open spec fn no_interface() -> InterfaceView {
    InterfaceView { network: Seq::empty(), mac: Seq::empty(), ip: Seq::empty() }
}

/// How the responder takes a datagram: what is no frame is dropped; for a
/// frame the machines of the inventory are asked for.
pub open spec fn receiving(bytes: Seq<u8>) -> TurnView {
    match decoded(bytes) {
        None => TurnView::Drop,
        Some(frame) => TurnView::Ask(
            ExchangeView { stage: Stage::Lookup, frame, interface: no_interface() },
            RequestView::List { kind: Kind::Vm, owner: Seq::empty() },
        ),
    }
}

/// How the answering of a request goes on after a response.
///
/// The interface that asks is the first interface with the client's
/// hardware address of the first machine that holds it; a request of an
/// address that no machine holds is dropped. The network of the interface
/// is asked for, and the request is answered from the interface's stored
/// address and the network's router and name servers. Whatever else
/// happens, the request is dropped.
pub open spec fn next(x: ExchangeView, response: Response) -> TurnView {
    match response {
        Response::Entities(list) => {
            let es = entities_of(list@);
            let mac = mac_of(x.frame.chaddr);
            let at = holder_at(es, mac, 0);
            if x.stage == Stage::Lookup && x.frame.chaddr.len() >= 6 && at < es.len() {
                match es[at] {
                    EntityView::Vm(vm) => {
                        let interface = vm.interfaces[mac_index(vm.interfaces, mac, 0)];
                        TurnView::Ask(
                            ExchangeView { stage: Stage::Resolve, interface, ..x },
                            RequestView::Get {
                                kind: Kind::Network,
                                name: interface.network,
                                owner: Seq::empty(),
                            },
                        )
                    },
                    _ => TurnView::Drop,
                }
            } else {
                TurnView::Drop
            }
        },
        Response::Entity(found) => match found_of(found) {
            Some(EntityView::Network(net)) => if x.stage == Stage::Resolve {
                match reply_of(x.frame, x.interface.ip, net.router, net.dns) {
                    Some(reply) => TurnView::Broadcast(encoded(reply)),
                    None => TurnView::Drop,
                }
            } else {
                TurnView::Drop
            },
            _ => TurnView::Drop,
        },
        _ => TurnView::Drop,
    }
}

/// Takes a datagram that arrived on the DHCP port.
pub fn receive(bytes: &Vec<u8>) -> (r: Turn)
    ensures
        r@ == receiving(bytes@),
{
    match Frame::parse(bytes) {
        None => Turn::Drop,
        Some(frame) => Turn::Ask(
            Exchange {
                stage: Stage::Lookup,
                frame,
                interface: Interface {
                    network: String::new(),
                    mac: String::new(),
                    ip: String::new(),
                },
            },
            Request::List { kind: Kind::Vm, owner: String::new() },
        ),
    }
}

fn find_holder(list: &Vec<Entity>, mac: &str) -> (r: Option<(usize, usize)>)
    ensures
        match r {
            Some((at, k)) => {
                &&& at < list@.len()
                &&& at == holder_at(entities_of(list@), mac@, 0)
                &&& list@[at as int] matches Entity::Vm(vm) && k < vm.interfaces@.len() && k
                    == mac_index(vm@.interfaces, mac@, 0)
            },
            None => holder_at(entities_of(list@), mac@, 0) >= list@.len(),
        },
{
    let mut i: usize = 0;
    while i < list.len()
        invariant
            i <= list@.len(),
            holder_at(entities_of(list@), mac@, 0) == holder_at(entities_of(list@), mac@, i as int),
        decreases list@.len() - i,
    {
        assert(entities_of(list@)[i as int] == list@[i as int]@);
        if let Entity::Vm(vm) = &list[i] {
            if let Some(k) = find_interface(vm, mac) {
                return Some((i, k));
            }
        }
        i += 1;
    }
    None
}

/// Goes on with a request after the host's response.
pub fn step(x: Exchange, response: Response) -> (r: Turn)
    ensures
        r@ == next(x@, response),
{
    match response {
        Response::Entities(list) => {
            if x.stage != Stage::Lookup || x.frame.chaddr.len() < 6 {
                return Turn::Drop;
            }
            let mac = x.frame.client_mac_string();
            match find_holder(&list, mac.as_str()) {
                None => Turn::Drop,
                Some((at, k)) => {
                    assert(entities_of(list@)[at as int] == list@[at as int]@);
                    match &list[at] {
                        Entity::Vm(vm) => {
                            let interface = &vm.interfaces[k];
                            assert(vm@.interfaces[k as int] == interface@);
                            let request = Request::Get {
                                kind: Kind::Network,
                                name: interface.network.clone(),
                                owner: String::new(),
                            };
                            let Exchange { stage: _, frame, interface: _ } = x;
                            Turn::Ask(
                                Exchange { stage: Stage::Resolve, frame, interface: interface.copy() },
                                request,
                            )
                        },
                        _ => Turn::Drop,
                    }
                },
            }
        },
        Response::Entity(found) => match found {
            Some(Entity::Network(net)) => {
                if x.stage == Stage::Resolve {
                    match handle(&x.frame, &x.interface, &net) {
                        Some(reply) => {
                            proof {
                                lemma_reply_well_formed(
                                    x@.frame,
                                    x@.interface.ip,
                                    net@.router,
                                    net@.dns,
                                );
                            }
                            match reply.to_bytes() {
                                Some(bytes) => Turn::Broadcast(bytes),
                                None => Turn::Drop,
                            }
                        },
                        None => Turn::Drop,
                    }
                } else {
                    Turn::Drop
                }
            },
            _ => Turn::Drop,
        },
        _ => Turn::Drop,
    }
}

/// Whether every option of a list has a code that neither pads nor ends
/// and at most 255 bytes of data.
pub open spec fn options_fit(os: Seq<(u8, Seq<u8>)>) -> bool {
    forall|i: int|
        0 <= i < os.len() ==> {
            let o = #[trigger] os[i];
            o.0 != 0 && o.0 != 255 && o.1.len() <= 255
        }
}

/// Options that are written after any bytes and ended are read back as
/// they were.
pub proof fn lemma_options_round_trip(before: Seq<u8>, os: Seq<(u8, Seq<u8>)>)
    requires
        options_fit(os),
    ensures
        options_from(before + options_bytes(os) + seq![255u8], before.len() as int) == Some(os),
    decreases os.len(),
{
    let b = before + options_bytes(os) + seq![255u8];
    let i = before.len() as int;
    if os.len() == 0 {
        assert(options_bytes(os) =~= Seq::<u8>::empty());
        assert(b[i] == 255u8);
        assert(os =~= Seq::<(u8, Seq<u8>)>::empty());
    } else {
        let o = os.first();
        let rest = os.drop_first();
        assert(os[0] == o);
        assert(options_fit(rest)) by {
            assert forall|k: int| 0 <= k < rest.len() implies {
                let x = #[trigger] rest[k];
                x.0 != 0 && x.0 != 255 && x.1.len() <= 255
            } by {
                assert(rest[k] == os[k + 1]);
            }
        }
        let longer = before + option_bytes(o);
        assert(b =~= longer + options_bytes(rest) + seq![255u8]);
        lemma_options_round_trip(longer, rest);
        assert(b[i] == o.0);
        assert(b[i + 1] == o.1.len() as u8);
        assert(b.subrange(i + 2, i + 2 + o.1.len()) =~= o.1);
        assert(longer.len() == i + 2 + o.1.len());
        assert(seq![o] + rest =~= os);
    }
}

/// A frame that can be written is read back from its bytes as it was.
pub proof fn law_frame_round_trip(f: FrameView)
    requires
        well_formed(f),
    ensures
        decoded(encoded(f)) == Some(f),
{
    let h = header_bytes(f);
    let b = encoded(f);
    assert(h.len() == 240);
    lemma_options_round_trip(h, f.options);
    assert(b.subrange(236, 240) =~= cookie());
    assert(b.subrange(28, 44) =~= f.chaddr);
    assert(b[0] == f.op && b[1] == f.htype && b[2] == f.hlen && b[3] == f.hops);
    let v = f.xid;
    assert(b[4] == (v / 16777216) as u8);
    assert(b[5] == (v / 65536 % 256) as u8);
    assert(b[6] == (v / 256 % 256) as u8);
    assert(b[7] == (v % 256) as u8);
    assert(word_at(b, 4) == v);
    assert(b[8] == (f.secs / 256) as u8 && b[9] == (f.secs % 256) as u8);
    assert(half_at(b, 8) == f.secs);
    assert(b[10] == (f.flags / 256) as u8 && b[11] == (f.flags % 256) as u8);
    assert(half_at(b, 10) == f.flags);
    assert(quad_at(b, 12) == f.ciaddr);
    assert(quad_at(b, 16) == f.yiaddr);
    assert(quad_at(b, 20) == f.siaddr);
    assert(quad_at(b, 24) == f.giaddr);
}

/// Every answer hands out the interface's stored address as it is, under
/// the transaction identifier and the hardware address of the request. It
/// is an offer for a discover and an acknowledgement for a request. Its
/// subnet mask is 255.255.255.0 whatever the network's address range, its
/// router option holds the network's router where the network names one,
/// and its last option is the lease of 86400 seconds.
pub proof fn law_answer_offers_the_stored_address(
    req: FrameView,
    ip: Seq<char>,
    router: Seq<char>,
    dns: Seq<Seq<char>>,
)
    requires
        reply_of(req, ip, router, dns) is Some,
    ensures
        ({
            let r = reply_of(req, ip, router, dns)->0;
            let asked = req.options[option_index(req.options, 53, 0)].1[0];
            &&& r.op == 2
            &&& r.xid == req.xid
            &&& r.chaddr == req.chaddr
            &&& ipv4_of(ip) == Some(r.yiaddr)
            &&& asked == 1 || asked == 3
            &&& r.options[0] == (53u8, seq![if asked == 1 {
                2u8
            } else {
                5u8
            }])
            &&& r.options[1] == (1u8, seq![255u8, 255u8, 255u8, 0u8])
            &&& router.len() > 0 ==> ipv4_of(router) is Some && r.options[2] == (
                3u8,
                quad_bytes(ipv4_of(router)->0),
            )
            &&& router.len() == 0 ==> option_index(r.options, 3, 0) == r.options.len()
            &&& dns.len() > 0 ==> ipv4_of(dns[0]) is Some
            &&& r.options.last() == (51u8, seq![0u8, 1u8, 81u8, 128u8])
            &&& 86400 == 1 * 65536 + 81 * 256 + 128
        }),
{
    let r = reply_of(req, ip, router, dns)->0;
    let routers = router_option(router)->0;
    let servers = server_option(dns)->0;
    assert(routers.len() <= 1);
    assert(servers.len() <= 1);
    if router.len() == 0 {
        assert(routers.len() == 0);
        let os = r.options;
        assert(os[0].0 == 53 && os[1].0 == 1);
        if servers.len() == 1 {
            assert(os[2] == servers[0]);
            assert(os[3].0 == 51);
            assert(option_index(os, 3, 3) == 4) by {
                assert(option_index(os, 3, 4) == 4);
            }
            assert(option_index(os, 3, 2) == 4);
            assert(option_index(os, 3, 1) == 4);
        } else {
            assert(os[2].0 == 51);
            assert(option_index(os, 3, 2) == 3) by {
                assert(option_index(os, 3, 3) == 3);
            }
            assert(option_index(os, 3, 1) == 3);
        }
    } else {
        assert(r.options[2] == routers[0]);
    }
}

} // verus!
