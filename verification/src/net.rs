//! Device names, MAC addresses and the syntax of addresses.

use crate::text::{chars_of, find_char, index_of, string_of, string_of_range};
use vstd::prelude::*;

verus! {

/// The character of the decimal digit `d`.
pub open spec fn digit_char(d: int) -> char {
    ((48 + d) as u8) as char
}

/// The character of the hexadecimal digit `d`, in lower case.
pub open spec fn hex_char(d: int) -> char {
    if d < 10 {
        ((48 + d) as u8) as char
    } else {
        ((87 + d) as u8) as char
    }
}

/// The decimal digits of `n`, without leading zeros.
pub open spec fn nat_text(n: nat) -> Seq<char>
    decreases n,
{
    if n < 10 {
        seq![digit_char(n as int)]
    } else {
        nat_text(n / 10).push(digit_char((n % 10) as int))
    }
}

/// `n` in decimal, with a minus sign when it is negative.
pub open spec fn int_text(n: int) -> Seq<char> {
    if n < 0 {
        seq!['-'] + nat_text((-n) as nat)
    } else {
        nat_text(n as nat)
    }
}

/// The two hexadecimal digits of a byte, in lower case.
pub open spec fn hex_pair(b: u8) -> Seq<char> {
    seq![hex_char(b as int / 16), hex_char(b as int % 16)]
}

/// At most the first `n` characters of `s`.
pub open spec fn truncated(s: Seq<char>, n: int) -> Seq<char> {
    if s.len() > n {
        s.subrange(0, n)
    } else {
        s
    }
}

/// The name of the bridge device of the network called `name`.
pub open spec fn net_dev_text(name: Seq<char>) -> Seq<char> {
    "net"@ + name
}

/// The name of the TAP device of the interface at `index` of the machine
/// called `vm`: `vm`, the first ten characters of the name, a dot and the
/// index.
pub open spec fn iface_dev_text(vm: Seq<char>, index: int) -> Seq<char> {
    "vm"@ + truncated(vm, 10) + "."@ + int_text(index)
}

/// The locally administered MAC address that ends in the three given bytes.
pub open spec fn mac_text(b0: u8, b1: u8, b2: u8) -> Seq<char> {
    "52:54:01:"@ + hex_pair(b0) + ":"@ + hex_pair(b1) + ":"@ + hex_pair(b2)
}

/// Whether `s` is an address that [`rand_mac`] can produce.
pub open spec fn is_generated_mac(s: Seq<char>) -> bool {
    exists|b0: u8, b1: u8, b2: u8| s == mac_text(b0, b1, b2)
}

/// The expression that an IPv4 address in dotted form must match.
pub open spec fn ip_pattern() -> Seq<char> {
    "^([0-9]{0,3})\\.([0-9]{0,3})\\.([0-9]{0,3})\\.([0-9]{0,3})$"@
}

/// Whether `s` has the shape of a port: one to five decimal digits.
pub open spec fn is_port_text(s: Seq<char>) -> bool {
    &&& 1 <= s.len() <= 5
    &&& forall|i: int| 0 <= i < s.len() ==> '0' <= #[trigger] s[i] <= '9'
}

/// What `regex::Regex::new(pattern)` followed by `is_match(text)` gives:
/// `None` when the pattern does not compile, else whether it matches
/// somewhere in `text`.
pub uninterp spec fn regex_search(pattern: Seq<char>, text: Seq<char>) -> Option<bool>;

/// Whether `s` has the shape of an IPv4 address in dotted form.
pub open spec fn is_ip_text(s: Seq<char>) -> bool {
    regex_search(ip_pattern(), s) == Some(true)
}

/// Whether `s` has the shape of a network address: an IPv4 address in
/// dotted form up to its first `/`, which must be there.
pub open spec fn is_cidr_text(s: Seq<char>) -> bool {
    let slash = index_of(s, '/', 0);
    slash < s.len() && is_ip_text(s.subrange(0, slash))
}

/// Whether `s` has the shape `address:port`, split at its first `:`.
pub open spec fn is_ip_port_text(s: Seq<char>) -> bool {
    let colon = index_of(s, ':', 0);
    &&& colon < s.len()
    &&& is_ip_text(s.subrange(0, colon))
    &&& is_port_text(s.subrange(colon + 1, s.len() as int))
}

/// A generated address has seventeen characters, so it is never empty.
pub proof fn lemma_generated_mac_len(s: Seq<char>)
    requires
        is_generated_mac(s),
    ensures
        s.len() == 17,
{
    reveal_strlit("52:54:01:");
    reveal_strlit(":");
}

/// `regex::Regex::new` on `pattern`, then `Regex::is_match` on `text`: the
/// result is a function of the two texts alone.
#[verifier::external_body]
fn regex_is_match(pattern: &str, text: &str) -> (r: Option<bool>)
    ensures
        r == regex_search(pattern@, text@),
{
    match regex::Regex::new(pattern) {
        Ok(re) => Some(re.is_match(text)),
        Err(_) => None,
    }
}

/// `uuid::Uuid::new_v4` and `Uuid::as_bytes`: the sixteen bytes of a fresh
/// random identifier. Nothing is known of the bytes themselves. The call
/// does not return when the operating system hands out no random bytes.
#[verifier::external_body]
fn random_bytes() -> (r: Vec<u8>)
    ensures
        r@.len() == 16,
{
    uuid::Uuid::new_v4().as_bytes().to_vec()
}

fn digit_of(d: u8) -> (c: char)
    requires
        d < 10,
    ensures
        c == digit_char(d as int),
{
    (48u8 + d) as char
}

fn hex_of(d: u8) -> (c: char)
    requires
        d < 16,
    ensures
        c == hex_char(d as int),
{
    if d < 10 {
        (48u8 + d) as char
    } else {
        (87u8 + d) as char
    }
}

fn push_nat(out: &mut Vec<char>, n: u64)
    ensures
        final(out)@ == old(out)@ + nat_text(n as nat),
    decreases n,
{
    if n >= 10 {
        push_nat(out, n / 10);
    }
    out.push(digit_of((n % 10) as u8));
    assert(out@ =~= old(out)@ + nat_text(n as nat));
}

/// `n` in decimal.
pub fn decimal(n: i32) -> (r: String)
    ensures
        r@ == int_text(n as int),
{
    let mut out: Vec<char> = Vec::new();
    if n < 0 {
        out.push('-');
        let magnitude: u64 = (-(n as i64)) as u64;
        push_nat(&mut out, magnitude);
        assert(out@ =~= int_text(n as int));
    } else {
        push_nat(&mut out, n as u64);
        assert(out@ =~= int_text(n as int));
    }
    string_of(&out)
}

pub(crate) fn push_hex_pair(out: &mut Vec<char>, b: u8)
    ensures
        final(out)@ == old(out)@ + hex_pair(b),
{
    out.push(hex_of(b / 16));
    out.push(hex_of(b % 16));
    assert(out@ =~= old(out)@ + hex_pair(b));
}

/// The name of the bridge device of the network called `name`.
pub fn net_dev(name: &str) -> (r: String)
    ensures
        r@ == net_dev_text(name@),
{
    let mut out = String::from_str("net");
    out.append(name);
    out
}

fn device_name(vm: &str, number: &str) -> (r: String)
    ensures
        r@ == "vm"@ + truncated(vm@, 10) + "."@ + number@,
{
    let chars = chars_of(vm);
    let keep: usize = if chars.len() > 10 {
        10
    } else {
        chars.len()
    };
    let head = string_of_range(&chars, 0, keep);
    assert(head@ == truncated(vm@, 10)) by {
        assert(chars@.subrange(0, chars@.len() as int) == chars@);
    }
    let mut out = String::from_str("vm");
    out.append(head.as_str());
    out.append(".");
    out.append(number);
    out
}

/// The name of the TAP device of the interface at `index` of the machine
/// called `vm`. Two machines whose names share their first ten characters
/// get the same device names.
pub fn iface_dev(vm: &str, index: i32) -> (r: String)
    ensures
        r@ == iface_dev_text(vm@, index as int),
{
    let number = decimal(index);
    device_name(vm, number.as_str())
}

/// The name of the TAP device of the interface at position `index` of the
/// interface list of the machine called `vm`.
pub fn iface_dev_at(vm: &str, index: usize) -> (r: String)
    ensures
        r@ == iface_dev_text(vm@, index as int),
{
    let mut digits: Vec<char> = Vec::new();
    push_nat(&mut digits, index as u64);
    assert(digits@ =~= int_text(index as int));
    let number = string_of(&digits);
    device_name(vm, number.as_str())
}

/// The locally administered MAC address that ends in the three given bytes,
/// in lower-case hexadecimal.
pub fn mac_from_bytes(b0: u8, b1: u8, b2: u8) -> (r: String)
    ensures
        r@ == mac_text(b0, b1, b2),
{
    let mut tail: Vec<char> = Vec::new();
    push_hex_pair(&mut tail, b0);
    tail.push(':');
    push_hex_pair(&mut tail, b1);
    tail.push(':');
    push_hex_pair(&mut tail, b2);
    let tail_text = string_of(&tail);
    let mut out = String::from_str("52:54:01:");
    out.append(tail_text.as_str());
    proof {
        reveal_strlit(":");
        assert(out@ =~= mac_text(b0, b1, b2));
    }
    out
}

/// A MAC address with the fixed prefix `52:54:01` and three random bytes.
/// The caller rejects an address that the inventory already holds.
pub fn rand_mac() -> (r: String)
    ensures
        is_generated_mac(r@),
{
    let bytes = random_bytes();
    mac_from_bytes(bytes[0], bytes[1], bytes[2])
}

/// Whether `ip` has the shape of an IPv4 address in dotted form. Only the
/// shape is tested, not the range of the numbers.
pub fn is_valid_ip(ip: &str) -> (r: bool)
    ensures
        r == is_ip_text(ip@),
{
    let found = regex_is_match(
        "^([0-9]{0,3})\\.([0-9]{0,3})\\.([0-9]{0,3})\\.([0-9]{0,3})$",
        ip,
    );
    match found {
        Some(b) => b,
        None => false,
    }
}

/// Whether `cidr` has the shape of a network address: it holds a `/`, and
/// what stands before the first one has the shape of an IPv4 address.
pub fn is_valid_cidr(cidr: &str) -> (r: bool)
    ensures
        r == is_cidr_text(cidr@),
{
    let chars = chars_of(cidr);
    let slash = find_char(&chars, '/', 0);
    if slash >= chars.len() {
        return false;
    }
    let address = string_of_range(&chars, 0, slash);
    is_valid_ip(address.as_str())
}

fn is_port(chars: &Vec<char>, from: usize) -> (r: bool)
    requires
        from <= chars@.len(),
    ensures
        r == is_port_text(chars@.subrange(from as int, chars@.len() as int)),
{
    let n = chars.len() - from;
    if n < 1 || n > 5 {
        return false;
    }
    let ghost tail = chars@.subrange(from as int, chars@.len() as int);
    let mut i: usize = from;
    while i < chars.len()
        invariant
            from <= i <= chars@.len(),
            tail == chars@.subrange(from as int, chars@.len() as int),
            forall|k: int| 0 <= k < i - from ==> '0' <= #[trigger] tail[k] <= '9',
        decreases chars@.len() - i,
    {
        let c = chars[i];
        if !('0' <= c && c <= '9') {
            assert(tail[i - from] == c);
            return false;
        }
        i += 1;
    }
    true
}

/// Whether `s` has the shape `address:port`: an IPv4 address in dotted
/// form, the first `:` of `s`, and one to five decimal digits.
pub fn is_valid_ip_port(s: &str) -> (r: bool)
    ensures
        r == is_ip_port_text(s@),
{
    let chars = chars_of(s);
    let colon = find_char(&chars, ':', 0);
    if colon >= chars.len() {
        return false;
    }
    let address = string_of_range(&chars, 0, colon);
    if !is_valid_ip(address.as_str()) {
        return false;
    }
    is_port(&chars, colon + 1)
}

} // verus!
