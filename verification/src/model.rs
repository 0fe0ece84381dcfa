//! The inventory's entities: images, virtual machines with their network
//! interfaces, networks and snapshots, and the parameter lists that backend
//! scripts fill.

use vstd::prelude::*;

verus! {

/// A list of key/value pairs as contracts see it.
pub type Pairs = Seq<(Seq<char>, Seq<char>)>;

/// One key/value pair.
#[derive(Debug)]
pub struct Parameter {
    pub key: String,
    pub value: String,
}

impl View for Parameter {
    type V = (Seq<char>, Seq<char>);

    open spec fn view(&self) -> (Seq<char>, Seq<char>) {
        (self.key@, self.value@)
    }
}

/// A parameter list: at most one entry per key, in the order in which the
/// keys were first set.
pub type Parameters = Vec<Parameter>;

/// The pairs of a parameter list.
pub open spec fn pairs_of(ps: Seq<Parameter>) -> Pairs {
    Seq::new(ps.len(), |i: int| ps[i]@)
}

/// The first position at or after `i` whose key is `key`, or the length of
/// `ps` when no entry has that key.
pub open spec fn key_index(ps: Pairs, key: Seq<char>, i: int) -> int
    decreases ps.len() - i,
{
    if 0 <= i < ps.len() && ps[i].0 != key {
        key_index(ps, key, i + 1)
    } else {
        i
    }
}

/// Whether no two entries of `ps` share a key.
pub open spec fn unique_keys(ps: Pairs) -> bool {
    forall|i: int, j: int| 0 <= i < j < ps.len() ==> (#[trigger] ps[i]).0 != (#[trigger] ps[j]).0
}

/// `ps` after `key` is set to `value`: the entry with that key is replaced
/// where it stands, or a new entry is added at the end.
pub open spec fn put(ps: Pairs, key: Seq<char>, value: Seq<char>) -> Pairs {
    let i = key_index(ps, key, 0);
    if i < ps.len() {
        ps.update(i, (key, value))
    } else {
        ps.push((key, value))
    }
}

/// `ps` after each entry of `new` is set in turn; a later entry of `new`
/// wins over an earlier one with the same key.
pub open spec fn put_all(ps: Pairs, new: Pairs) -> Pairs
    decreases new.len(),
{
    if new.len() == 0 {
        ps
    } else {
        put(put_all(ps, new.drop_last()), new.last().0, new.last().1)
    }
}

/// The value that `ps` holds for `key`, if any.
pub open spec fn value_of(ps: Pairs, key: Seq<char>) -> Option<Seq<char>> {
    let i = key_index(ps, key, 0);
    if i < ps.len() {
        Some(ps[i].1)
    } else {
        None
    }
}

pub proof fn lemma_key_index(ps: Pairs, key: Seq<char>, i: int)
    requires
        0 <= i <= ps.len(),
    ensures
        i <= key_index(ps, key, i) <= ps.len(),
        key_index(ps, key, i) < ps.len() ==> ps[key_index(ps, key, i)].0 == key,
        forall|k: int| i <= k < key_index(ps, key, i) ==> (#[trigger] ps[k]).0 != key,
    decreases ps.len() - i,
{
    if i < ps.len() && ps[i].0 != key {
        lemma_key_index(ps, key, i + 1);
    }
}

/// Setting a key keeps the keys unique, makes the list hold the new value
/// for that key, and leaves the value of every other key as it was.
pub proof fn lemma_put(ps: Pairs, key: Seq<char>, value: Seq<char>)
    requires
        unique_keys(ps),
    ensures
        unique_keys(put(ps, key, value)),
        value_of(put(ps, key, value), key) == Some(value),
        forall|other: Seq<char>| other != key ==> value_of(put(ps, key, value), other) == value_of(ps, other),
{
    let after = put(ps, key, value);
    let i = key_index(ps, key, 0);
    lemma_key_index(ps, key, 0);
    lemma_key_index(after, key, 0);
    assert(unique_keys(after));
    if i < ps.len() {
        assert(after[i].0 == key);
    } else {
        assert(after[ps.len() as int].0 == key);
    }
    assert forall|other: Seq<char>| other != key implies value_of(after, other) == value_of(
        ps,
        other,
    ) by {
        lemma_key_index(ps, other, 0);
        lemma_key_index(after, other, 0);
        let a = key_index(ps, other, 0);
        let b = key_index(after, other, 0);
        if a < ps.len() {
            assert(after[a] == ps[a]);
            if b < a {
                assert(after[b].0 == other);
                assert(ps[b].0 == after[b].0);
            }
        } else {
            if b < after.len() {
                assert(after[b].0 == other);
                if b < ps.len() {
                    assert(ps[b].0 == other);
                }
            }
        }
    }
}

/// Setting every entry of a list with unique keys keeps the keys unique.
pub proof fn lemma_put_all_unique(ps: Pairs, new: Pairs)
    requires
        unique_keys(ps),
    ensures
        unique_keys(put_all(ps, new)),
    decreases new.len(),
{
    if new.len() > 0 {
        lemma_put_all_unique(ps, new.drop_last());
        lemma_put(put_all(ps, new.drop_last()), new.last().0, new.last().1);
    }
}

/// A fresh copy of a parameter.
pub fn copy_parameter(p: &Parameter) -> (r: Parameter)
    ensures
        r@ == p@,
{
    Parameter { key: p.key.clone(), value: p.value.clone() }
}

/// A fresh copy of a parameter list.
pub fn copy_parameters(ps: &Vec<Parameter>) -> (r: Vec<Parameter>)
    ensures
        pairs_of(r@) == pairs_of(ps@),
{
    let mut out: Vec<Parameter> = Vec::new();
    let mut i: usize = 0;
    while i < ps.len()
        invariant
            i <= ps@.len(),
            out@.len() == i,
            forall|k: int| 0 <= k < i ==> out@[k]@ == ps@[k]@,
        decreases ps@.len() - i,
    {
        out.push(copy_parameter(&ps[i]));
        i += 1;
    }
    assert(pairs_of(out@) =~= pairs_of(ps@));
    out
}

/// The position of the entry of `ps` whose key is `key`, if there is one.
pub fn find_parameter(ps: &Vec<Parameter>, key: &str) -> (r: Option<usize>)
    ensures
        match r {
            Some(i) => i == key_index(pairs_of(ps@), key@, 0) && i < ps@.len(),
            None => key_index(pairs_of(ps@), key@, 0) == ps@.len(),
        },
{
    let wanted = String::from_str(key);
    let mut i: usize = 0;
    while i < ps.len()
        invariant
            i <= ps@.len(),
            wanted@ == key@,
            key_index(pairs_of(ps@), key@, 0) == key_index(pairs_of(ps@), key@, i as int),
        decreases ps@.len() - i,
    {
        if ps[i].key == wanted {
            return Some(i);
        }
        i += 1;
    }
    None
}

/// Sets `key` to `value` in `ps`. A list with one entry per key stays
/// one.
pub fn set_parameter(ps: &mut Vec<Parameter>, key: String, value: String)
    ensures
        pairs_of(final(ps)@) == put(pairs_of(old(ps)@), key@, value@),
        unique_keys(pairs_of(old(ps)@)) ==> unique_keys(pairs_of(final(ps)@)),
{
    proof {
        if unique_keys(pairs_of(ps@)) {
            lemma_put(pairs_of(ps@), key@, value@);
        }
    }
    let found = find_parameter(ps, key.as_str());
    match found {
        Some(i) => {
            ps[i] = Parameter { key, value };
            assert(pairs_of(ps@) =~= put(pairs_of(old(ps)@), key@, value@));
        },
        None => {
            ps.push(Parameter { key, value });
            assert(pairs_of(ps@) =~= put(pairs_of(old(ps)@), key@, value@));
        },
    }
}

/// Sets every entry of `new` in `ps`, in order. A list with one entry per
/// key stays one.
pub fn merge_parameters(ps: &mut Vec<Parameter>, new: &Vec<Parameter>)
    ensures
        pairs_of(final(ps)@) == put_all(pairs_of(old(ps)@), pairs_of(new@)),
        unique_keys(pairs_of(old(ps)@)) ==> unique_keys(pairs_of(final(ps)@)),
{
    proof {
        if unique_keys(pairs_of(ps@)) {
            lemma_put_all_unique(pairs_of(ps@), pairs_of(new@));
        }
    }
    let mut i: usize = 0;
    assert(pairs_of(new@).subrange(0, 0).len() == 0);
    while i < new.len()
        invariant
            i <= new@.len(),
            pairs_of(ps@) == put_all(pairs_of(old(ps)@), pairs_of(new@).subrange(0, i as int)),
        decreases new@.len() - i,
    {
        proof {
            let next = pairs_of(new@).subrange(0, i + 1);
            assert(next.drop_last() == pairs_of(new@).subrange(0, i as int));
            assert(next.last() == new@[i as int]@);
        }
        set_parameter(ps, new[i].key.clone(), new[i].value.clone());
        i += 1;
    }
    assert(pairs_of(new@).subrange(0, new@.len() as int) == pairs_of(new@));
}

/// The node that owns an entity whose document names none.
pub fn default_i32() -> (n: i32)
    ensures
        n == 0,
{
    0
}

/// A disk template that virtual machines are made from.
#[derive(Debug)]
pub struct Image {
    /// The name, unique within a node.
    pub name: String,
    /// The name of the configured backend.
    pub backend: String,
    /// The node that owns the image.
    pub node: i32,
    /// The path of the disk template.
    pub file: String,
    /// What the backend scripts reported.
    pub parameters: Vec<Parameter>,
}

/// What an [`Image`] is in contracts.
pub struct ImageView {
    pub name: Seq<char>,
    pub backend: Seq<char>,
    pub node: int,
    pub file: Seq<char>,
    pub parameters: Pairs,
}

impl View for Image {
    type V = ImageView;

    open spec fn view(&self) -> ImageView {
        ImageView {
            name: self.name@,
            backend: self.backend@,
            node: self.node as int,
            file: self.file@,
            parameters: pairs_of(self.parameters@),
        }
    }
}

impl Image {
    /// A fresh copy of the image.
    pub fn copy(&self) -> (r: Image)
        ensures
            r@ == self@,
    {
        Image {
            name: self.name.clone(),
            backend: self.backend.clone(),
            node: self.node,
            file: self.file.clone(),
            parameters: copy_parameters(&self.parameters),
        }
    }
}

/// One network interface of a virtual machine.
#[derive(Debug)]
pub struct Interface {
    /// The name of the network that the interface is attached to.
    pub network: String,
    /// The MAC address; empty in a request that leaves the choice open.
    pub mac: String,
    /// The IP address that the DHCP responder hands out.
    pub ip: String,
}

/// What an [`Interface`] is in contracts.
pub struct InterfaceView {
    pub network: Seq<char>,
    pub mac: Seq<char>,
    pub ip: Seq<char>,
}

impl View for Interface {
    type V = InterfaceView;

    open spec fn view(&self) -> InterfaceView {
        InterfaceView { network: self.network@, mac: self.mac@, ip: self.ip@ }
    }
}

impl Interface {
    /// A fresh copy of the interface.
    pub fn copy(&self) -> (r: Interface)
        ensures
            r@ == self@,
    {
        Interface { network: self.network.clone(), mac: self.mac.clone(), ip: self.ip.clone() }
    }
}

/// The interfaces of a list, as contracts see them.
pub open spec fn interfaces_of(s: Seq<Interface>) -> Seq<InterfaceView> {
    Seq::new(s.len(), |i: int| s[i]@)
}

/// A fresh copy of an interface list.
pub fn copy_interfaces(list: &Vec<Interface>) -> (r: Vec<Interface>)
    ensures
        interfaces_of(r@) == interfaces_of(list@),
{
    let mut out: Vec<Interface> = Vec::new();
    let mut i: usize = 0;
    while i < list.len()
        invariant
            i <= list@.len(),
            out@.len() == i,
            forall|k: int| 0 <= k < i ==> out@[k]@ == list@[k]@,
        decreases list@.len() - i,
    {
        out.push(list[i].copy());
        i += 1;
    }
    assert(interfaces_of(out@) =~= interfaces_of(list@));
    out
}

/// A virtual machine.
#[derive(Debug)]
pub struct VM {
    /// The name, unique within a node, of at most 11 characters.
    pub name: String,
    /// The node that owns the machine.
    pub node: i32,
    /// The name of the configured backend.
    pub backend: String,
    /// The name of the image that the machine is based on; empty for none.
    pub image: String,
    /// The network interfaces; the position of one is its device index.
    pub interfaces: Vec<Interface>,
    /// What the backend scripts reported.
    pub parameters: Vec<Parameter>,
}

/// What a [`VM`] is in contracts.
pub struct VmView {
    pub name: Seq<char>,
    pub node: int,
    pub backend: Seq<char>,
    pub image: Seq<char>,
    pub interfaces: Seq<InterfaceView>,
    pub parameters: Pairs,
}

impl View for VM {
    type V = VmView;

    open spec fn view(&self) -> VmView {
        VmView {
            name: self.name@,
            node: self.node as int,
            backend: self.backend@,
            image: self.image@,
            interfaces: interfaces_of(self.interfaces@),
            parameters: pairs_of(self.parameters@),
        }
    }
}

impl VM {
    /// A fresh copy of the machine.
    pub fn copy(&self) -> (r: VM)
        ensures
            r@ == self@,
    {
        VM {
            name: self.name.clone(),
            node: self.node,
            backend: self.backend.clone(),
            image: self.image.clone(),
            interfaces: copy_interfaces(&self.interfaces),
            parameters: copy_parameters(&self.parameters),
        }
    }
}

/// The machines of a list, as contracts see them.
pub open spec fn vms_of(s: Seq<VM>) -> Seq<VmView> {
    Seq::new(s.len(), |i: int| s[i]@)
}

/// A list of strings, as contracts see it.
pub open spec fn texts_of(s: Seq<String>) -> Seq<Seq<char>> {
    Seq::new(s.len(), |i: int| s[i]@)
}

/// A fresh copy of a list of strings.
pub fn copy_texts(list: &Vec<String>) -> (r: Vec<String>)
    ensures
        texts_of(r@) == texts_of(list@),
{
    let mut out: Vec<String> = Vec::new();
    let mut i: usize = 0;
    while i < list.len()
        invariant
            i <= list@.len(),
            out@.len() == i,
            forall|k: int| 0 <= k < i ==> out@[k]@ == list@[k]@,
        decreases list@.len() - i,
    {
        out.push(list[i].clone());
        i += 1;
    }
    assert(texts_of(out@) =~= texts_of(list@));
    out
}

/// A virtual network: one bridge device that interfaces attach to.
#[derive(Debug)]
pub struct Network {
    /// The name, unique within a node.
    pub name: String,
    /// The node that owns the network.
    pub node: i32,
    /// The address range, as `address/length`; may be empty.
    pub cidr: String,
    /// The name of the bridge device; empty for the name derived from `name`.
    pub bridge: String,
    /// The address of the router; may be empty.
    pub router: String,
    /// The addresses of the name servers, in order of preference.
    pub dns: Vec<String>,
    /// A physical interface to attach to the bridge at creation; may be empty.
    pub interface: String,
}

/// What a [`Network`] is in contracts.
pub struct NetworkView {
    pub name: Seq<char>,
    pub node: int,
    pub cidr: Seq<char>,
    pub bridge: Seq<char>,
    pub router: Seq<char>,
    pub dns: Seq<Seq<char>>,
    pub interface: Seq<char>,
}

impl View for Network {
    type V = NetworkView;

    open spec fn view(&self) -> NetworkView {
        NetworkView {
            name: self.name@,
            node: self.node as int,
            cidr: self.cidr@,
            bridge: self.bridge@,
            router: self.router@,
            dns: texts_of(self.dns@),
            interface: self.interface@,
        }
    }
}

impl Network {
    /// A fresh copy of the network.
    pub fn copy(&self) -> (r: Network)
        ensures
            r@ == self@,
    {
        Network {
            name: self.name.clone(),
            node: self.node,
            cidr: self.cidr.clone(),
            bridge: self.bridge.clone(),
            router: self.router.clone(),
            dns: copy_texts(&self.dns),
            interface: self.interface.clone(),
        }
    }
}

/// The networks of a list, as contracts see them.
pub open spec fn networks_of(s: Seq<Network>) -> Seq<NetworkView> {
    Seq::new(s.len(), |i: int| s[i]@)
}

/// The record that a backend snapshot of a machine exists.
#[derive(Debug)]
pub struct Snapshot {
    /// The name of the snapshot, unique for its machine.
    pub name: String,
    /// The name of the machine.
    pub vm: String,
    /// The node that owns the snapshot.
    pub node: i32,
}

/// What a [`Snapshot`] is in contracts.
pub struct SnapshotView {
    pub name: Seq<char>,
    pub vm: Seq<char>,
    pub node: int,
}

impl View for Snapshot {
    type V = SnapshotView;

    open spec fn view(&self) -> SnapshotView {
        SnapshotView { name: self.name@, vm: self.vm@, node: self.node as int }
    }
}

impl Snapshot {
    /// A fresh copy of the snapshot.
    pub fn copy(&self) -> (r: Snapshot)
        ensures
            r@ == self@,
    {
        Snapshot { name: self.name.clone(), vm: self.vm.clone(), node: self.node }
    }
}

} // verus!
