//! The lifecycle of a network: create, update, delete and get.

use crate::error::{Error, ErrorKind};
use crate::handler::vm::bridge_of;
use crate::handler::{done, fail, pass, reject, unexpected, Step, StepView};
use crate::host::{
    found_of, Entity, EntityView, Kind, Reply, ReplyView, Request, RequestView, Response,
};
use crate::model::{texts_of, Network, NetworkView};
use crate::net::{is_cidr_text, is_ip_text, is_valid_cidr, is_valid_ip, net_dev};
use crate::provision::{DeviceOp, DeviceOpView};
use crate::text::char_len;
use vstd::prelude::*;

verus! {

/// What an operation on a network is to achieve.
#[derive(Debug, Clone, Copy, PartialEq, Eq, Structural)]
pub enum Goal {
    Create,
    Update,
    Delete,
    Get,
}

/// Where an operation on a network stands: what it waits for.
#[derive(Debug, Clone, Copy, PartialEq, Eq, Structural)]
pub enum Stage {
    /// For the network to be written to the store.
    Persist,
    /// For the bridge device to be made.
    Bridge,
    /// For the physical interface to be attached to the bridge.
    Uplink,
    /// For the network that the operation is about.
    Fetch,
    /// For the network to be removed from the store.
    Remove,
    /// For the bridge device to be removed.
    Unbridge,
}

/// An operation on a network that is under way.
#[derive(Debug)]
pub struct Task {
    pub stage: Stage,
    pub goal: Goal,
    /// The network; before it is fetched, only its name counts.
    pub network: Network,
}

/// What a [`Task`] is in contracts.
pub struct TaskView {
    pub stage: Stage,
    pub goal: Goal,
    pub network: NetworkView,
}

impl View for Task {
    type V = TaskView;

    open spec fn view(&self) -> TaskView {
        TaskView { stage: self.stage, goal: self.goal, network: self.network@ }
    }
}

/// Whether every name server of a list has the shape of an IPv4 address.
pub open spec fn servers_valid(dns: Seq<Seq<char>>) -> bool {
    forall|i: int| 0 <= i < dns.len() ==> is_ip_text(#[trigger] dns[i])
}

/// Why a request to create or update a network is refused at once, if it
/// is: the name is empty, or the address range, the router or a name server
/// is given and has not the shape it must have.
pub open spec fn refusal(net: NetworkView) -> Option<Seq<char>> {
    if net.name.len() == 0 {
        Some("A 'name' is required"@)
    } else if net.cidr.len() > 0 && !is_cidr_text(net.cidr) {
        Some("Invalid CIDR network address"@)
    } else if net.router.len() > 0 && !is_ip_text(net.router) {
        Some("Invalid router IP address"@)
    } else if !servers_valid(net.dns) {
        Some("Invalid router IP address"@)
    } else {
        None
    }
}

/// The network as it is stored: stamped with the node, and with the
/// derived bridge name where it names none.
pub open spec fn settled(node: int, net: NetworkView) -> NetworkView {
    NetworkView { node, bridge: bridge_of(net), ..net }
}

/// How the creation (`goal` is `Create`) or the update of a network
/// starts: a refused request fails at once; else the network is written to
/// the store.
pub open spec fn opening(node: int, goal: Goal, net: NetworkView) -> StepView<TaskView> {
    let network = settled(node, net);
    match refusal(net) {
        Some(message) => StepView::Failed(ErrorKind::Validation, message),
        None => StepView::Ask(
            TaskView { stage: Stage::Persist, goal, network },
            if goal == Goal::Create {
                RequestView::Create(EntityView::Network(network))
            } else {
                RequestView::Update(EntityView::Network(network))
            },
        ),
    }
}

/// How an operation on the network called `name` starts: by fetching it.
pub open spec fn fetching(goal: Goal, name: Seq<char>) -> StepView<TaskView> {
    StepView::Ask(
        TaskView {
            stage: Stage::Fetch,
            goal,
            network: NetworkView {
                name,
                node: 0,
                cidr: Seq::empty(),
                bridge: Seq::empty(),
                router: Seq::empty(),
                dns: Seq::empty(),
                interface: Seq::empty(),
            },
        },
        RequestView::Get { kind: Kind::Network, name, owner: Seq::empty() },
    )
}

/// How an operation on a network goes on after a response.
///
/// Creation: once the network is written to the store, its bridge is made,
/// and the physical interface, if the network names one, is attached to it.
/// Update: the operation ends once the network is written. Deletion: the
/// network is fetched and removed from the store, and then its bridge is
/// removed. A failure of the host ends the operation with the host's error.
pub open spec fn next(t: TaskView, response: Response) -> StepView<TaskView> {
    match response {
        Response::Failed(e) => StepView::Failed(e.kind, e.message@),
        Response::Entity(found) => if t.stage == Stage::Fetch {
            match found_of(found) {
                Some(EntityView::Network(network)) => if t.goal == Goal::Delete {
                    StepView::Ask(
                        TaskView { stage: Stage::Remove, network, ..t },
                        RequestView::Delete {
                            kind: Kind::Network,
                            name: t.network.name,
                            owner: Seq::empty(),
                        },
                    )
                } else if t.goal == Goal::Get {
                    StepView::Done(ReplyView::Entity(EntityView::Network(network)))
                } else {
                    unexpected()
                },
                None => StepView::Failed(ErrorKind::NotFound, "Network not found"@),
                _ => unexpected(),
            }
        } else {
            unexpected()
        },
        Response::Done => match t.stage {
            Stage::Persist => if t.goal == Goal::Create {
                StepView::Ask(
                    TaskView { stage: Stage::Bridge, ..t },
                    RequestView::Device(DeviceOpView::BridgeCreate { name: bridge_of(t.network) }),
                )
            } else {
                StepView::Done(ReplyView::Empty)
            },
            Stage::Bridge => if t.network.interface.len() > 0 {
                StepView::Ask(
                    TaskView { stage: Stage::Uplink, ..t },
                    RequestView::Device(
                        DeviceOpView::BridgeAttach {
                            interface: t.network.interface,
                            bridge: bridge_of(t.network),
                        },
                    ),
                )
            } else {
                StepView::Done(ReplyView::Empty)
            },
            Stage::Uplink => StepView::Done(ReplyView::Empty),
            Stage::Remove => StepView::Ask(
                TaskView { stage: Stage::Unbridge, ..t },
                RequestView::Device(DeviceOpView::BridgeDelete { name: bridge_of(t.network) }),
            ),
            Stage::Unbridge => StepView::Done(ReplyView::Empty),
            _ => unexpected(),
        },
        _ => unexpected(),
    }
}

fn ask(t: Task, stage: Stage, request: Request) -> (r: Step<Task>)
    ensures
        r@ == StepView::Ask(TaskView { stage, ..t@ }, request@),
{
    let mut t = t;
    t.stage = stage;
    Step::Ask(t, request)
}

fn bridge_name(net: &Network) -> (r: String)
    ensures
        r@ == bridge_of(net@),
{
    if char_len(net.bridge.as_str()) == 0 {
        net_dev(net.name.as_str())
    } else {
        net.bridge.clone()
    }
}

/// Whether every name server of `dns` has the shape of an IPv4 address.
pub fn check_servers(dns: &Vec<String>) -> (r: bool)
    ensures
        r == servers_valid(texts_of(dns@)),
{
    let mut i: usize = 0;
    while i < dns.len()
        invariant
            i <= dns@.len(),
            forall|k: int| 0 <= k < i ==> is_ip_text(#[trigger] texts_of(dns@)[k]),
        decreases dns@.len() - i,
    {
        if !is_valid_ip(dns[i].as_str()) {
            assert(!is_ip_text(texts_of(dns@)[i as int]));
            return false;
        }
        i += 1;
    }
    true
}

fn refuse(net: &Network) -> (r: Option<Error>)
    ensures
        match r {
            Some(e) => refusal(net@) == Some(e.message@) && e.kind == ErrorKind::Validation,
            None => refusal(net@) is None,
        },
{
    if char_len(net.name.as_str()) == 0 {
        Some(Error::new(ErrorKind::Validation, "A 'name' is required"))
    } else if char_len(net.cidr.as_str()) > 0 && !is_valid_cidr(net.cidr.as_str()) {
        Some(Error::new(ErrorKind::Validation, "Invalid CIDR network address"))
    } else if char_len(net.router.as_str()) > 0 && !is_valid_ip(net.router.as_str()) {
        Some(Error::new(ErrorKind::Validation, "Invalid router IP address"))
    } else if !check_servers(&net.dns) {
        Some(Error::new(ErrorKind::Validation, "Invalid router IP address"))
    } else {
        None
    }
}

fn open(node: i32, goal: Goal, net: Network) -> (r: Step<Task>)
    ensures
        r@ == opening(node as int, goal, net@),
{
    if let Some(e) = refuse(&net) {
        return pass(e);
    }
    let mut network = net;
    network.bridge = bridge_name(&network);
    network.node = node;
    let entity = Entity::Network(network.copy());
    let request = if goal == Goal::Create {
        Request::Create(entity)
    } else {
        Request::Update(entity)
    };
    Step::Ask(Task { stage: Stage::Persist, goal, network }, request)
}

/// Starts the creation of a network on node `node`.
pub fn create(node: i32, net: Network) -> (r: Step<Task>)
    ensures
        r@ == opening(node as int, Goal::Create, net@),
{
    open(node, Goal::Create, net)
}

/// Starts the update of a network on node `node`.
pub fn update(node: i32, net: Network) -> (r: Step<Task>)
    ensures
        r@ == opening(node as int, Goal::Update, net@),
{
    open(node, Goal::Update, net)
}

fn fetch(goal: Goal, name: &str) -> (r: Step<Task>)
    ensures
        r@ == fetching(goal, name@),
{
    let network = Network {
        name: String::from_str(name),
        node: 0,
        cidr: String::new(),
        bridge: String::new(),
        router: String::new(),
        dns: Vec::new(),
        interface: String::new(),
    };
    assert(texts_of(network.dns@) =~= Seq::<Seq<char>>::empty());
    let request = Request::Get {
        kind: Kind::Network,
        name: network.name.clone(),
        owner: String::new(),
    };
    Step::Ask(Task { stage: Stage::Fetch, goal, network }, request)
}

/// Starts the deletion of the network called `name`.
pub fn delete(name: &str) -> (r: Step<Task>)
    ensures
        r@ == fetching(Goal::Delete, name@),
{
    fetch(Goal::Delete, name)
}

/// The request for the networks of the inventory.
pub fn list() -> (r: Request)
    ensures
        r@ == (RequestView::List { kind: Kind::Network, owner: Seq::empty() }),
{
    Request::List { kind: Kind::Network, owner: String::new() }
}

/// Starts the lookup of the network called `name`.
pub fn get(name: &str) -> (r: Step<Task>)
    ensures
        r@ == fetching(Goal::Get, name@),
{
    fetch(Goal::Get, name)
}

fn go_done(t: Task) -> (r: Step<Task>)
    ensures
        r@ == next(t@, Response::Done),
{
    match t.stage {
        Stage::Persist => {
            if t.goal == Goal::Create {
                let name = bridge_name(&t.network);
                ask(t, Stage::Bridge, Request::Device(DeviceOp::BridgeCreate { name }))
            } else {
                done()
            }
        },
        Stage::Bridge => {
            if char_len(t.network.interface.as_str()) > 0 {
                let bridge = bridge_name(&t.network);
                let interface = t.network.interface.clone();
                ask(t, Stage::Uplink, Request::Device(DeviceOp::BridgeAttach { interface, bridge }))
            } else {
                done()
            }
        },
        Stage::Uplink => done(),
        Stage::Remove => {
            let name = bridge_name(&t.network);
            ask(t, Stage::Unbridge, Request::Device(DeviceOp::BridgeDelete { name }))
        },
        Stage::Unbridge => done(),
        _ => reject(),
    }
}

/// Goes on with an operation on a network after the host's response.
pub fn step(t: Task, response: Response) -> (r: Step<Task>)
    ensures
        r@ == next(t@, response),
{
    match response {
        Response::Failed(e) => pass(e),
        Response::Entity(found) => {
            if t.stage == Stage::Fetch {
                match found {
                    Some(Entity::Network(network)) => {
                        if t.goal == Goal::Delete {
                            let request = Request::Delete {
                                kind: Kind::Network,
                                name: t.network.name.clone(),
                                owner: String::new(),
                            };
                            ask(Task { stage: t.stage, goal: t.goal, network }, Stage::Remove, request)
                        } else if t.goal == Goal::Get {
                            Step::Finished(Ok(Reply::Entity(Entity::Network(network))))
                        } else {
                            reject()
                        }
                    },
                    None => fail(ErrorKind::NotFound, "Network not found"),
                    _ => reject(),
                }
            } else {
                reject()
            }
        },
        Response::Done => go_done(t),
        _ => reject(),
    }
}

} // verus!
