//! The network provisioner: bridges and TAP devices, made and removed with
//! the `ip` tool.
//!
//! Each operation is a short exchange. The library says which command to
//! run; the host runs it and reports what came of it; the library says what
//! to run next, or how the operation ended.

use crate::error::{Error, ErrorKind};
use crate::handler::vm::bridge_of;
use crate::model::{networks_of, texts_of, vms_of, Network, NetworkView, VmView, VM};
use crate::net::iface_dev_text;
use crate::script::Output;
use crate::text::{chars_of, contains_text, find_text, lemma_contains_is_found};
use vstd::prelude::*;

verus! {

/// A command for the host to run: a program and its arguments.
#[derive(Debug)]
pub struct Invocation {
    pub program: String,
    pub arguments: Vec<String>,
}

impl Invocation {
    /// The program followed by its arguments.
    pub open spec fn line(&self) -> Seq<Seq<char>> {
        seq![self.program@] + texts_of(self.arguments@)
    }
}

/// What the provisioner can be asked to do.
#[derive(Debug)]
pub enum DeviceOp {
    /// Make the bridge and bring it up; a bridge that exists is kept.
    BridgeCreate { name: String },
    /// Attach an interface to a bridge.
    BridgeAttach { interface: String, bridge: String },
    /// Remove the bridge.
    BridgeDelete { name: String },
    /// Make the TAP device; one that exists is kept.
    TapCreate { name: String },
    /// Remove the TAP device.
    TapDelete { name: String },
}

/// What a [`DeviceOp`] is in contracts.
pub enum DeviceOpView {
    BridgeCreate { name: Seq<char> },
    BridgeAttach { interface: Seq<char>, bridge: Seq<char> },
    BridgeDelete { name: Seq<char> },
    TapCreate { name: Seq<char> },
    TapDelete { name: Seq<char> },
}

impl View for DeviceOp {
    type V = DeviceOpView;

    open spec fn view(&self) -> DeviceOpView {
        match self {
            DeviceOp::BridgeCreate { name } => DeviceOpView::BridgeCreate { name: name@ },
            DeviceOp::BridgeAttach { interface, bridge } => DeviceOpView::BridgeAttach {
                interface: interface@,
                bridge: bridge@,
            },
            DeviceOp::BridgeDelete { name } => DeviceOpView::BridgeDelete { name: name@ },
            DeviceOp::TapCreate { name } => DeviceOpView::TapCreate { name: name@ },
            DeviceOp::TapDelete { name } => DeviceOpView::TapDelete { name: name@ },
        }
    }
}

/// Where an operation stands: the command whose outcome it waits for.
#[derive(Debug)]
pub enum Device {
    /// Asked whether the bridge exists.
    BridgeProbe { name: String },
    /// Asked for the bridge to be made.
    BridgeAdd { name: String },
    /// Asked for the bridge to be brought up.
    BridgeRaise { name: String },
    /// Asked which TAP devices of that name exist.
    TapProbe { name: String },
    /// Asked for the TAP device to be made.
    TapAdd { name: String },
    /// Asked for the interface to be attached to the bridge.
    Attach { interface: String, bridge: String },
    /// Asked for the bridge to be removed.
    BridgeRemove { name: String },
    /// Asked for the TAP device to be removed.
    TapRemove { name: String },
}

/// What a [`Device`] is in contracts.
pub enum DeviceView {
    BridgeProbe { name: Seq<char> },
    BridgeAdd { name: Seq<char> },
    BridgeRaise { name: Seq<char> },
    TapProbe { name: Seq<char> },
    TapAdd { name: Seq<char> },
    Attach { interface: Seq<char>, bridge: Seq<char> },
    BridgeRemove { name: Seq<char> },
    TapRemove { name: Seq<char> },
}

impl View for Device {
    type V = DeviceView;

    open spec fn view(&self) -> DeviceView {
        match self {
            Device::BridgeProbe { name } => DeviceView::BridgeProbe { name: name@ },
            Device::BridgeAdd { name } => DeviceView::BridgeAdd { name: name@ },
            Device::BridgeRaise { name } => DeviceView::BridgeRaise { name: name@ },
            Device::TapProbe { name } => DeviceView::TapProbe { name: name@ },
            Device::TapAdd { name } => DeviceView::TapAdd { name: name@ },
            Device::Attach { interface, bridge } => DeviceView::Attach {
                interface: interface@,
                bridge: bridge@,
            },
            Device::BridgeRemove { name } => DeviceView::BridgeRemove { name: name@ },
            Device::TapRemove { name } => DeviceView::TapRemove { name: name@ },
        }
    }
}

/// How an operation goes on after an outcome.
pub enum Verdict {
    /// Another command is to be run.
    Continue(DeviceView),
    /// The operation is done.
    Finished,
    /// The operation failed.
    Failed(ErrorKind, Seq<char>),
}

/// The state in which an operation starts.
pub open spec fn first_state(op: DeviceOpView) -> DeviceView {
    match op {
        DeviceOpView::BridgeCreate { name } => DeviceView::BridgeProbe { name },
        DeviceOpView::BridgeAttach { interface, bridge } => DeviceView::Attach {
            interface,
            bridge,
        },
        DeviceOpView::BridgeDelete { name } => DeviceView::BridgeRemove { name },
        DeviceOpView::TapCreate { name } => DeviceView::TapProbe { name },
        DeviceOpView::TapDelete { name } => DeviceView::TapRemove { name },
    }
}

/// The command whose outcome a state waits for.
pub open spec fn command_line(d: DeviceView) -> Seq<Seq<char>> {
    match d {
        DeviceView::BridgeProbe { name } => seq!["ip"@, "link"@, "show"@, name],
        DeviceView::BridgeAdd { name } => seq!["ip"@, "link"@, "add"@, name, "type"@, "bridge"@],
        DeviceView::BridgeRaise { name } => seq!["ip"@, "link"@, "set"@, "up"@, "dev"@, name],
        DeviceView::TapProbe { name } => seq!["ip"@, "tuntap"@, "show"@, name],
        DeviceView::TapAdd { name } => seq!["ip"@, "tuntap"@, "add"@, name, "mode"@, "tap"@],
        DeviceView::Attach { interface, bridge } => seq![
            "ip"@,
            "link"@,
            "set"@,
            "master"@,
            bridge,
            "dev"@,
            interface,
        ],
        DeviceView::BridgeRemove { name } => seq!["ip"@, "link"@, "del"@, name],
        DeviceView::TapRemove { name } => seq!["ip"@, "tuntap"@, "del"@, name, "mode"@, "tap"@],
    }
}

/// How the message of a failure in a state begins.
pub open spec fn failure_prefix(d: DeviceView) -> Seq<char> {
    match d {
        DeviceView::BridgeProbe { name } => "Failed to create bridge: "@,
        DeviceView::BridgeAdd { name } => "Failed to create bridge: "@,
        DeviceView::BridgeRaise { name } => "Failed to set up bridge: "@,
        DeviceView::TapProbe { name } => "Failed to create TAP: "@,
        DeviceView::TapAdd { name } => "Failed to create TAP: "@,
        DeviceView::Attach { interface, bridge } => "Failed to add '"@ + interface + "' to '"@
            + bridge + "' bridge: "@,
        DeviceView::BridgeRemove { name } => "Failed to delete bridge: "@,
        DeviceView::TapRemove { name } => "Failed to delete TAP: "@,
    }
}

/// The failure of a command in a state: the state's prefix and what the
/// command wrote to its standard error.
pub open spec fn failure_of(d: DeviceView, output: Output) -> Verdict {
    match output.stderr {
        Some(reason) => Verdict::Failed(ErrorKind::NetworkDevice, failure_prefix(d) + reason@),
        None => Verdict::Failed(
            ErrorKind::NetworkDevice,
            "Failed to read 'ip' output as a string"@,
        ),
    }
}

/// How an operation in state `d` goes on after the host reports `outcome`:
/// what the command gave, or why it could not be run.
pub open spec fn verdict(d: DeviceView, outcome: Result<Output, Error>) -> Verdict {
    match outcome {
        Err(e) => Verdict::Failed(e.kind, e.message@),
        Ok(output) => match d {
            DeviceView::BridgeProbe { name } => if output.success {
                Verdict::Continue(DeviceView::BridgeRaise { name })
            } else {
                Verdict::Continue(DeviceView::BridgeAdd { name })
            },
            DeviceView::BridgeAdd { name } => if output.success {
                Verdict::Continue(DeviceView::BridgeRaise { name })
            } else {
                failure_of(d, output)
            },
            DeviceView::TapProbe { name } => match output.stdout {
                None => Verdict::Failed(
                    ErrorKind::NetworkDevice,
                    "Failed to read stdout as a string"@,
                ),
                Some(listing) => if output.success && contains_text(listing@, name) {
                    Verdict::Finished
                } else {
                    Verdict::Continue(DeviceView::TapAdd { name })
                },
            },
            _ => if output.success {
                Verdict::Finished
            } else {
                failure_of(d, output)
            },
        },
    }
}

/// What the library tells the host after an outcome.
#[derive(Debug)]
pub enum Progress {
    /// Run this command and report its outcome with the new state.
    Run(Device, Invocation),
    /// The operation has ended.
    Finished(Result<(), Error>),
}

fn push_text(v: &mut Vec<String>, s: &str)
    ensures
        texts_of(final(v)@) == texts_of(old(v)@).push(s@),
{
    let ghost before = texts_of(v@);
    v.push(String::from_str(s));
    assert(texts_of(v@) =~= before.push(s@));
}

fn ip(arguments: Vec<String>) -> (r: Invocation)
    ensures
        r.line() == seq!["ip"@] + texts_of(arguments@),
{
    Invocation { program: String::from_str("ip"), arguments }
}

/// The command whose outcome `d` waits for.
pub fn invocation(d: &Device) -> (r: Invocation)
    ensures
        r.line() == command_line(d@),
{
    let mut a: Vec<String> = Vec::new();
    assert(texts_of(a@) =~= Seq::<Seq<char>>::empty());
    match d {
        Device::BridgeProbe { name } => {
            push_text(&mut a, "link");
            push_text(&mut a, "show");
            push_text(&mut a, name.as_str());
        },
        Device::BridgeAdd { name } => {
            push_text(&mut a, "link");
            push_text(&mut a, "add");
            push_text(&mut a, name.as_str());
            push_text(&mut a, "type");
            push_text(&mut a, "bridge");
        },
        Device::BridgeRaise { name } => {
            push_text(&mut a, "link");
            push_text(&mut a, "set");
            push_text(&mut a, "up");
            push_text(&mut a, "dev");
            push_text(&mut a, name.as_str());
        },
        Device::TapProbe { name } => {
            push_text(&mut a, "tuntap");
            push_text(&mut a, "show");
            push_text(&mut a, name.as_str());
        },
        Device::TapAdd { name } => {
            push_text(&mut a, "tuntap");
            push_text(&mut a, "add");
            push_text(&mut a, name.as_str());
            push_text(&mut a, "mode");
            push_text(&mut a, "tap");
        },
        Device::Attach { interface, bridge } => {
            push_text(&mut a, "link");
            push_text(&mut a, "set");
            push_text(&mut a, "master");
            push_text(&mut a, bridge.as_str());
            push_text(&mut a, "dev");
            push_text(&mut a, interface.as_str());
        },
        Device::BridgeRemove { name } => {
            push_text(&mut a, "link");
            push_text(&mut a, "del");
            push_text(&mut a, name.as_str());
        },
        Device::TapRemove { name } => {
            push_text(&mut a, "tuntap");
            push_text(&mut a, "del");
            push_text(&mut a, name.as_str());
            push_text(&mut a, "mode");
            push_text(&mut a, "tap");
        },
    }
    let r = ip(a);
    assert(r.line() =~= command_line(d@));
    r
}

/// Starts an operation: the state to keep and the first command to run.
pub fn start(op: DeviceOp) -> (r: (Device, Invocation))
    ensures
        r.0@ == first_state(op@),
        r.1.line() == command_line(r.0@),
{
    let d = match op {
        DeviceOp::BridgeCreate { name } => Device::BridgeProbe { name },
        DeviceOp::BridgeAttach { interface, bridge } => Device::Attach { interface, bridge },
        DeviceOp::BridgeDelete { name } => Device::BridgeRemove { name },
        DeviceOp::TapCreate { name } => Device::TapProbe { name },
        DeviceOp::TapDelete { name } => Device::TapRemove { name },
    };
    let inv = invocation(&d);
    (d, inv)
}

/// Starts the making of the bridge called `name`, which is then brought
/// up; a bridge that exists is kept.
pub fn bridge_create(name: &str) -> (r: (Device, Invocation))
    ensures
        r.0@ == (DeviceView::BridgeProbe { name: name@ }),
        r.1.line() == command_line(r.0@),
{
    start(DeviceOp::BridgeCreate { name: String::from_str(name) })
}

/// Starts the attaching of the interface `iface` to the bridge `bridge`.
pub fn bridge_addif(iface: &str, bridge: &str) -> (r: (Device, Invocation))
    ensures
        r.0@ == (DeviceView::Attach { interface: iface@, bridge: bridge@ }),
        r.1.line() == command_line(r.0@),
{
    start(
        DeviceOp::BridgeAttach {
            interface: String::from_str(iface),
            bridge: String::from_str(bridge),
        },
    )
}

/// Starts the removal of the bridge called `name`.
pub fn bridge_delete(name: &str) -> (r: (Device, Invocation))
    ensures
        r.0@ == (DeviceView::BridgeRemove { name: name@ }),
        r.1.line() == command_line(r.0@),
{
    start(DeviceOp::BridgeDelete { name: String::from_str(name) })
}

/// Starts the making of the TAP device called `name`; a device that exists
/// is kept.
pub fn tap_create(name: &str) -> (r: (Device, Invocation))
    ensures
        r.0@ == (DeviceView::TapProbe { name: name@ }),
        r.1.line() == command_line(r.0@),
{
    start(DeviceOp::TapCreate { name: String::from_str(name) })
}

/// Starts the removal of the TAP device called `name`.
pub fn tap_delete(name: &str) -> (r: (Device, Invocation))
    ensures
        r.0@ == (DeviceView::TapRemove { name: name@ }),
        r.1.line() == command_line(r.0@),
{
    start(DeviceOp::TapDelete { name: String::from_str(name) })
}

fn prefix_of(d: &Device) -> (r: String)
    ensures
        r@ == failure_prefix(d@),
{
    match d {
        Device::BridgeProbe { name } => String::from_str("Failed to create bridge: "),
        Device::BridgeAdd { name } => String::from_str("Failed to create bridge: "),
        Device::BridgeRaise { name } => String::from_str("Failed to set up bridge: "),
        Device::TapProbe { name } => String::from_str("Failed to create TAP: "),
        Device::TapAdd { name } => String::from_str("Failed to create TAP: "),
        Device::Attach { interface, bridge } => {
            let mut s = String::from_str("Failed to add '");
            s.append(interface.as_str());
            s.append("' to '");
            s.append(bridge.as_str());
            s.append("' bridge: ");
            s
        },
        Device::BridgeRemove { name } => String::from_str("Failed to delete bridge: "),
        Device::TapRemove { name } => String::from_str("Failed to delete TAP: "),
    }
}

fn failure(d: &Device, output: &Output) -> (e: Error)
    ensures
        failure_of(d@, *output) == Verdict::Failed(e.kind, e.message@),
{
    match &output.stderr {
        Some(reason) => {
            let prefix = prefix_of(d);
            Error::with_detail(ErrorKind::NetworkDevice, prefix.as_str(), reason.as_str())
        },
        None => Error::new(ErrorKind::NetworkDevice, "Failed to read 'ip' output as a string"),
    }
}

fn run(d: Device) -> (r: Progress)
    ensures
        r matches Progress::Run(next, inv) && next@ == d@ && inv.line() == command_line(d@),
{
    let inv = invocation(&d);
    Progress::Run(d, inv)
}

/// Whether `name` stands somewhere in `listing`.
pub fn lists(listing: &str, name: &str) -> (r: bool)
    ensures
        r == contains_text(listing@, name@),
{
    let hay = chars_of(listing);
    let pat = chars_of(name);
    if pat.len() == 0 {
        assert(crate::text::occurs_at(hay@, pat@, 0)) by {
            assert(hay@.subrange(0, 0) =~= pat@);
        }
        return true;
    }
    let at = find_text(&hay, &pat, 0);
    proof {
        lemma_contains_is_found(hay@, pat@);
    }
    at < hay.len()
}

/// Goes on with an operation after the host reported the outcome of the
/// command that the state waited for.
pub fn step(d: Device, outcome: Result<Output, Error>) -> (r: Progress)
    ensures
        match r {
            Progress::Run(next, inv) => verdict(d@, outcome) == Verdict::Continue(next@)
                && inv.line() == command_line(next@),
            Progress::Finished(Ok(_)) => verdict(d@, outcome) == Verdict::Finished,
            Progress::Finished(Err(e)) => verdict(d@, outcome) == Verdict::Failed(
                e.kind,
                e.message@,
            ),
        },
{
    let output = match outcome {
        Err(e) => {
            return Progress::Finished(Err(e));
        },
        Ok(output) => output,
    };
    match d {
        Device::BridgeProbe { name } => {
            if output.success {
                run(Device::BridgeRaise { name })
            } else {
                run(Device::BridgeAdd { name })
            }
        },
        Device::BridgeAdd { name } => {
            if output.success {
                run(Device::BridgeRaise { name })
            } else {
                Progress::Finished(Err(failure(&Device::BridgeAdd { name }, &output)))
            }
        },
        Device::TapProbe { name } => {
            match &output.stdout {
                None => Progress::Finished(
                    Err(Error::new(ErrorKind::NetworkDevice, "Failed to read stdout as a string")),
                ),
                Some(listing) => {
                    if output.success && lists(listing.as_str(), name.as_str()) {
                        Progress::Finished(Ok(()))
                    } else {
                        run(Device::TapAdd { name })
                    }
                },
            }
        },
        other => {
            if output.success {
                Progress::Finished(Ok(()))
            } else {
                Progress::Finished(Err(failure(&other, &output)))
            }
        },
    }
}

/// The operations of a list, as contracts see them.
pub open spec fn ops_of(s: Seq<DeviceOp>) -> Seq<DeviceOpView> {
    Seq::new(s.len(), |i: int| s[i]@)
}

/// The making of the bridge of each network, in order.
pub open spec fn bridges_plan(nets: Seq<NetworkView>) -> Seq<DeviceOpView> {
    Seq::new(nets.len(), |i: int| DeviceOpView::BridgeCreate { name: bridge_of(nets[i]) })
}

/// The making of the TAP device of each interface of a machine, in order.
pub open spec fn taps_of(vm: VmView) -> Seq<DeviceOpView> {
    Seq::new(
        vm.interfaces.len(),
        |i: int| DeviceOpView::TapCreate { name: iface_dev_text(vm.name, i) },
    )
}

/// The making of the TAP devices of each machine, in order.
pub open spec fn taps_plan(vms: Seq<VmView>) -> Seq<DeviceOpView>
    decreases vms.len(),
{
    if vms.len() == 0 {
        Seq::empty()
    } else {
        taps_plan(vms.drop_last()) + taps_of(vms.last())
    }
}

/// What brings the devices of a node back after a restart: the bridge of
/// each network of the inventory, then the TAP device of each interface of
/// each machine. Devices that exist are kept, so the plan can be carried
/// out at any time; the host stops at the first operation that fails.
pub fn setup(networks: &Vec<Network>, vms: &Vec<VM>) -> (r: Vec<DeviceOp>)
    ensures
        ops_of(r@) == bridges_plan(networks_of(networks@)) + taps_plan(vms_of(vms@)),
{
    let mut out: Vec<DeviceOp> = Vec::new();
    let mut n: usize = 0;
    while n < networks.len()
        invariant
            n <= networks@.len(),
            out@.len() == n,
            forall|k: int|
                0 <= k < n ==> out@[k]@ == (DeviceOpView::BridgeCreate {
                    name: bridge_of(networks@[k]@),
                }),
        decreases networks@.len() - n,
    {
        let net = &networks[n];
        let name = if crate::text::char_len(net.bridge.as_str()) == 0 {
            crate::net::net_dev(net.name.as_str())
        } else {
            net.bridge.clone()
        };
        out.push(DeviceOp::BridgeCreate { name });
        n += 1;
    }
    let ghost bridges = bridges_plan(networks_of(networks@));
    assert(ops_of(out@) =~= bridges);
    let mut v: usize = 0;
    assert(vms_of(vms@).subrange(0, 0) =~= Seq::<VmView>::empty());
    assert(bridges + Seq::<DeviceOpView>::empty() =~= bridges);
    while v < vms.len()
        invariant
            v <= vms@.len(),
            ops_of(out@) == bridges + taps_plan(vms_of(vms@).subrange(0, v as int)),
        decreases vms@.len() - v,
    {
        let vm = &vms[v];
        let ghost before = ops_of(out@);
        let mut i: usize = 0;
        assert(taps_of(vm@).subrange(0, 0) =~= Seq::<DeviceOpView>::empty());
        assert(before + Seq::<DeviceOpView>::empty() =~= before);
        while i < vm.interfaces.len()
            invariant
                i <= vm.interfaces@.len(),
                ops_of(out@) == before + taps_of(vm@).subrange(0, i as int),
            decreases vm.interfaces@.len() - i,
        {
            let name = crate::net::iface_dev_at(vm.name.as_str(), i);
            let ghost so_far = ops_of(out@);
            out.push(DeviceOp::TapCreate { name });
            assert(ops_of(out@) =~= so_far.push(
                DeviceOpView::TapCreate { name: iface_dev_text(vm@.name, i as int) },
            ));
            assert(taps_of(vm@).subrange(0, i + 1) =~= taps_of(vm@).subrange(0, i as int).push(
                DeviceOpView::TapCreate { name: iface_dev_text(vm@.name, i as int) },
            ));
            assert(ops_of(out@) =~= before + taps_of(vm@).subrange(0, i + 1));
            i += 1;
        }
        proof {
            assert(taps_of(vm@).subrange(0, vm@.interfaces.len() as int) =~= taps_of(vm@));
            let upto = vms_of(vms@).subrange(0, v + 1);
            assert(upto.drop_last() =~= vms_of(vms@).subrange(0, v as int));
            assert(upto.last() == vm@);
            assert(ops_of(out@) =~= bridges + taps_plan(upto));
        }
        v += 1;
    }
    assert(vms_of(vms@).subrange(0, vms@.len() as int) =~= vms_of(vms@));
    out
}

/// Making a TAP device that exists makes nothing: when the tool lists the
/// name among the TAP devices, the operation ends well at once.
pub proof fn law_existing_tap_is_kept(name: Seq<char>, output: Output)
    requires
        output.success,
        output.stdout matches Some(listing) && contains_text(listing@, name),
    ensures
        verdict(DeviceView::TapProbe { name }, Ok(output)) == Verdict::Finished,
{
}

/// Making a bridge that exists makes nothing: when the tool shows a link of
/// that name, the bridge is only brought up.
pub proof fn law_existing_bridge_is_kept(name: Seq<char>, output: Output)
    requires
        output.success,
    ensures
        verdict(DeviceView::BridgeProbe { name }, Ok(output)) == Verdict::Continue(
            DeviceView::BridgeRaise { name },
        ),
        command_line(DeviceView::BridgeRaise { name }) == seq![
            "ip"@,
            "link"@,
            "set"@,
            "up"@,
            "dev"@,
            name,
        ],
{
}

} // verus!
