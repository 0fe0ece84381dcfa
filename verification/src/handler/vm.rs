//! The lifecycle of a virtual machine: create, update, delete, start, stop,
//! status and get.

use crate::backend::{Subject, SubjectView, Verb};
use crate::config::Config;
use crate::error::{Error, ErrorKind, ErrorView};
use crate::handler::{done, fail, pass, reject, unexpected, Step, StepView};
use crate::host::{
    coerce, coerced_all, entities_of, found_of, Entity, EntityView, Kind, Reply, ReplyView, Request,
    RequestView, Response,
};
use crate::model::{
    interfaces_of, pairs_of, texts_of, Interface, InterfaceView, NetworkView, Network, VmView, VM,
};
use crate::net::{iface_dev_at, iface_dev_text, is_generated_mac, net_dev, net_dev_text, rand_mac};
use crate::provision::{DeviceOp, DeviceOpView};
use crate::store::{find_interface, holds_mac};
use crate::text::char_len;
use vstd::prelude::*;

verus! {

/// What an operation on a machine is to achieve.
#[derive(Debug, Clone, Copy, PartialEq, Eq, Structural)]
pub enum Goal {
    Create,
    Update,
    Delete,
    Start,
    Stop,
    Status,
    Get,
}

/// Where an operation on a machine stands: what it waits for.
#[derive(Debug, Clone, Copy, PartialEq, Eq, Structural)]
pub enum Stage {
    /// For the image that the machine names.
    Image,
    /// For the machine of the same name, which must not exist.
    Name,
    /// For the network of the interface at `index`.
    Network,
    /// For the TAP device of the interface at `index` to be made.
    Tap,
    /// For that TAP device to be attached to its bridge.
    Attach,
    /// For the machines of the inventory, to look for the MAC addresses.
    Macs,
    /// For the machine to be written to the store.
    Persist,
    /// For the backend to create the machine.
    Backend,
    /// For the record of a machine that the backend refused to be removed.
    Rollback,
    /// For the machine that the operation is about.
    Fetch,
    /// For the machine to be removed from the store.
    Remove,
    /// For the backend to delete the machine.
    Teardown,
    /// For the TAP device of the interface at `index` to be removed.
    Untap,
    /// For the backend to start or stop the machine or tell its status.
    Verb,
}

/// An operation on a machine that is under way.
#[derive(Debug)]
pub struct Task {
    pub stage: Stage,
    pub goal: Goal,
    /// The machine; before it is fetched, only its name counts.
    pub vm: VM,
    /// The interface that is being provisioned or torn down.
    pub index: usize,
    /// The bridges of the interfaces whose networks are resolved, in order.
    pub bridges: Vec<String>,
    /// The error to end with once the rollback is done.
    pub error: Option<Error>,
}

/// What a [`Task`] is in contracts.
pub struct TaskView {
    pub stage: Stage,
    pub goal: Goal,
    pub vm: VmView,
    pub index: int,
    pub bridges: Seq<Seq<char>>,
    pub error: Option<ErrorView>,
}

impl View for Task {
    type V = TaskView;

    open spec fn view(&self) -> TaskView {
        TaskView {
            stage: self.stage,
            goal: self.goal,
            vm: self.vm@,
            index: self.index as int,
            bridges: texts_of(self.bridges@),
            error: match self.error {
                Some(e) => Some(e@),
                None => None,
            },
        }
    }
}

/// The request that a machine makes of the store for itself.
pub open spec fn by_name(name: Seq<char>) -> RequestView {
    RequestView::Get { kind: Kind::Vm, name, owner: Seq::empty() }
}

/// The name of the bridge device of a network: its `bridge` field, or the
/// name derived from the network's name when the field is empty.
pub open spec fn bridge_of(net: NetworkView) -> Seq<char> {
    if net.bridge.len() == 0 {
        net_dev_text(net.name)
    } else {
        net.bridge
    }
}

/// Why a request to create or update a machine is refused at once, if it
/// is: the name is empty or longer than eleven characters, or the backend is
/// empty.
pub open spec fn refusal(vm: VmView) -> Option<Seq<char>> {
    if vm.name.len() == 0 {
        Some("A 'name' is required"@)
    } else if vm.name.len() > 11 {
        Some("The 'name' must be less than 11 characters long"@)
    } else if vm.backend.len() == 0 {
        Some("A 'backend' is required"@)
    } else {
        None
    }
}

/// Whether `filled` is `asked` with every empty MAC address replaced by a
/// generated one.
pub open spec fn is_filled(asked: VmView, filled: VmView) -> bool {
    &&& filled == VmView { interfaces: filled.interfaces, ..asked }
    &&& filled.interfaces.len() == asked.interfaces.len()
    &&& forall|i: int|
        0 <= i < asked.interfaces.len() ==> {
            let a = #[trigger] asked.interfaces[i];
            let f = filled.interfaces[i];
            &&& f.network == a.network
            &&& f.ip == a.ip
            &&& if a.mac.len() == 0 {
                is_generated_mac(f.mac)
            } else {
                f.mac == a.mac
            }
        }
}

/// Whether an entity is a machine that holds `mac`.
pub open spec fn entity_holds(e: EntityView, mac: Seq<char>) -> bool {
    e matches EntityView::Vm(v) && holds_mac(v, mac)
}

/// Whether a machine among `es` holds `mac`.
pub open spec fn taken(es: Seq<EntityView>, mac: Seq<char>) -> bool {
    exists|k: int| 0 <= k < es.len() && entity_holds(#[trigger] es[k], mac)
}

/// Whether a machine among `es` holds the MAC address of one of the
/// interfaces of `vm`.
pub open spec fn clashes(vm: VmView, es: Seq<EntityView>) -> bool {
    exists|i: int| 0 <= i < vm.interfaces.len() && taken(es, (#[trigger] vm.interfaces[i]).mac)
}

/// The request that provisions the interface at `i`, or what follows the
/// last interface: for a new machine the look for its MAC addresses, for an
/// update the write to the store.
pub open spec fn provision(t: TaskView, i: int) -> StepView<TaskView> {
    if 0 <= i < t.vm.interfaces.len() {
        StepView::Ask(
            TaskView { stage: Stage::Network, index: i, ..t },
            RequestView::Get {
                kind: Kind::Network,
                name: t.vm.interfaces[i].network,
                owner: Seq::empty(),
            },
        )
    } else if t.goal == Goal::Create {
        StepView::Ask(
            TaskView { stage: Stage::Macs, index: i, ..t },
            RequestView::List { kind: Kind::Vm, owner: Seq::empty() },
        )
    } else {
        StepView::Ask(
            TaskView { stage: Stage::Persist, index: i, ..t },
            RequestView::Update(EntityView::Vm(t.vm)),
        )
    }
}

/// What follows the image: for a new machine the look for a machine of the
/// same name, for an update the first interface.
pub open spec fn after_image(t: TaskView) -> StepView<TaskView> {
    if t.goal == Goal::Create {
        StepView::Ask(TaskView { stage: Stage::Name, ..t }, by_name(t.vm.name))
    } else {
        provision(t, 0)
    }
}

/// How the creation (`goal` is `Create`) or the update of the machine
/// `vm` on node `node` starts. The machine is stamped with the node. A
/// refused request fails at once, before anything is asked of the host.
pub open spec fn opening(node: int, goal: Goal, vm: VmView) -> StepView<TaskView> {
    let vm = VmView { node, ..vm };
    let t = TaskView {
        stage: Stage::Image,
        goal,
        vm,
        index: 0,
        bridges: Seq::empty(),
        error: None,
    };
    match refusal(vm) {
        Some(message) => StepView::Failed(ErrorKind::Validation, message),
        None => if vm.image.len() > 0 {
            StepView::Ask(
                t,
                RequestView::Get { kind: Kind::Image, name: vm.image, owner: Seq::empty() },
            )
        } else {
            after_image(t)
        },
    }
}

/// How an operation on the machine called `name` starts: by fetching it.
pub open spec fn fetching(goal: Goal, name: Seq<char>) -> StepView<TaskView> {
    StepView::Ask(
        TaskView {
            stage: Stage::Fetch,
            goal,
            vm: VmView {
                name,
                node: 0,
                backend: Seq::empty(),
                image: Seq::empty(),
                interfaces: Seq::empty(),
                parameters: Seq::empty(),
            },
            index: 0,
            bridges: Seq::empty(),
            error: None,
        },
        by_name(name),
    )
}

/// The request to the backend adapter for a verb on the machine of `t`.
pub open spec fn backend(t: TaskView, stage: Stage, verb: Verb) -> StepView<TaskView> {
    StepView::Ask(
        TaskView { stage, ..t },
        RequestView::Backend { verb, subject: SubjectView::Vm(t.vm), snapshot: None },
    )
}

/// What follows once the machine is fetched.
pub open spec fn fetched(t: TaskView, vm: VmView) -> StepView<TaskView> {
    let with = TaskView { vm, ..t };
    match t.goal {
        Goal::Delete => StepView::Ask(
            TaskView { stage: Stage::Remove, ..with },
            RequestView::Delete { kind: Kind::Vm, name: t.vm.name, owner: Seq::empty() },
        ),
        Goal::Start => backend(with, Stage::Verb, Verb::VmStart),
        Goal::Stop => backend(with, Stage::Verb, Verb::VmStop),
        Goal::Status => backend(with, Stage::Verb, Verb::VmStatus),
        Goal::Get => StepView::Done(ReplyView::Entity(EntityView::Vm(vm))),
        _ => unexpected(),
    }
}

/// The request that removes the TAP device of the interface at `i`, or the
/// end of the deletion after the last interface.
pub open spec fn untap(t: TaskView, i: int) -> StepView<TaskView> {
    if 0 <= i < t.vm.interfaces.len() {
        StepView::Ask(
            TaskView { stage: Stage::Untap, index: i, ..t },
            RequestView::Device(DeviceOpView::TapDelete { name: iface_dev_text(t.vm.name, i) }),
        )
    } else {
        StepView::Done(ReplyView::Empty)
    }
}

/// The message that says that the network of an interface is not there.
pub open spec fn no_network(name: Seq<char>) -> Seq<char> {
    "Interface: network '"@ + name + "' not found"@
}

/// How an operation goes on after an entity, or none, came from the store.
pub open spec fn on_entity(t: TaskView, found: Option<EntityView>) -> StepView<TaskView> {
    match t.stage {
        Stage::Image => match found {
            Some(EntityView::Image(_)) => after_image(t),
            None => StepView::Failed(ErrorKind::NotFound, "Image not found"@),
            _ => unexpected(),
        },
        Stage::Name => match found {
            Some(EntityView::Vm(_)) => StepView::Failed(
                ErrorKind::Conflict,
                "This VM name is not available"@,
            ),
            None => provision(t, 0),
            _ => unexpected(),
        },
        Stage::Network => if 0 <= t.index < t.vm.interfaces.len() {
            match found {
                Some(EntityView::Network(net)) => StepView::Ask(
                    TaskView { stage: Stage::Tap, bridges: t.bridges.push(bridge_of(net)), ..t },
                    RequestView::Device(
                        DeviceOpView::TapCreate { name: iface_dev_text(t.vm.name, t.index) },
                    ),
                ),
                None => StepView::Failed(
                    ErrorKind::NotFound,
                    no_network(t.vm.interfaces[t.index].network),
                ),
                _ => unexpected(),
            }
        } else {
            unexpected()
        },
        Stage::Fetch => match found {
            Some(EntityView::Vm(vm)) => fetched(t, vm),
            None => StepView::Failed(ErrorKind::NotFound, "VM not found"@),
            _ => unexpected(),
        },
        _ => unexpected(),
    }
}

/// How an operation goes on after the host carried out a request that has
/// no result.
pub open spec fn on_done(t: TaskView) -> StepView<TaskView> {
    match t.stage {
        Stage::Tap => if 0 <= t.index < t.bridges.len() {
            StepView::Ask(
                TaskView { stage: Stage::Attach, ..t },
                RequestView::Device(
                    DeviceOpView::BridgeAttach {
                        interface: iface_dev_text(t.vm.name, t.index),
                        bridge: t.bridges[t.index],
                    },
                ),
            )
        } else {
            unexpected()
        },
        Stage::Attach => if t.index < usize::MAX {
            provision(t, t.index + 1)
        } else {
            unexpected()
        },
        Stage::Persist => if t.goal == Goal::Create {
            backend(t, Stage::Backend, Verb::VmCreate)
        } else {
            StepView::Done(ReplyView::Empty)
        },
        Stage::Remove => backend(t, Stage::Teardown, Verb::VmDelete),
        Stage::Untap => if t.index < usize::MAX {
            untap(t, t.index + 1)
        } else {
            unexpected()
        },
        _ => unexpected(),
    }
}

/// How an operation on a machine goes on after a response.
///
/// A failure of the host ends the operation with the host's error, with
/// one exception: when the backend fails to create a machine that is
/// already written to the store, the record is removed first, and the
/// operation then ends with the backend's error whatever the store answers.
/// No failure takes back a device: the TAP devices that were made before a
/// creation failed stay, and a deletion whose backend fails after the record
/// is removed leaves the machine to the backend.
pub open spec fn next(t: TaskView, response: Response) -> StepView<TaskView> {
    match t.stage {
        Stage::Rollback => match t.error {
            Some(e) => StepView::Failed(e.kind, e.message),
            None => unexpected(),
        },
        Stage::Backend => match response {
            Response::Backend(_) => StepView::Done(ReplyView::Empty),
            Response::Failed(e) => StepView::Ask(
                TaskView { stage: Stage::Rollback, error: Some(e@), ..t },
                RequestView::Delete { kind: Kind::Vm, name: t.vm.name, owner: Seq::empty() },
            ),
            _ => unexpected(),
        },
        _ => match response {
            Response::Failed(e) => StepView::Failed(e.kind, e.message@),
            Response::Entity(found) => on_entity(t, found_of(found)),
            Response::Entities(list) => if t.stage == Stage::Macs {
                if clashes(t.vm, entities_of(list@)) {
                    StepView::Failed(
                        ErrorKind::Conflict,
                        "The specified 'mac' address is not available"@,
                    )
                } else {
                    StepView::Ask(
                        TaskView { stage: Stage::Persist, ..t },
                        RequestView::Create(EntityView::Vm(t.vm)),
                    )
                }
            } else {
                unexpected()
            },
            Response::Done => on_done(t),
            Response::Backend(outcome) => match t.stage {
                Stage::Teardown => untap(t, 0),
                Stage::Verb => if t.goal == Goal::Status {
                    StepView::Done(ReplyView::Status(coerced_all(pairs_of(outcome.report@))))
                } else {
                    StepView::Done(ReplyView::Empty)
                },
                _ => unexpected(),
            },
            _ => unexpected(),
        },
    }
}

fn ask(t: Task, stage: Stage, request: Request) -> (r: Step<Task>)
    ensures
        r@ == StepView::Ask(TaskView { stage, ..t@ }, request@),
{
    let mut t = t;
    t.stage = stage;
    Step::Ask(t, request)
}

fn lookup(kind: Kind, name: &String) -> (r: Request)
    ensures
        r@ == (RequestView::Get { kind, name: name@, owner: Seq::empty() }),
{
    Request::Get { kind, name: name.clone(), owner: String::new() }
}

fn delete_request(name: &String) -> (r: Request)
    ensures
        r@ == (RequestView::Delete { kind: Kind::Vm, name: name@, owner: Seq::empty() }),
{
    Request::Delete { kind: Kind::Vm, name: name.clone(), owner: String::new() }
}

fn ask_backend(t: Task, stage: Stage, verb: Verb) -> (r: Step<Task>)
    ensures
        r@ == backend(t@, stage, verb),
{
    let subject = Subject::Vm(t.vm.copy());
    ask(t, stage, Request::Backend { verb, subject, snapshot: None })
}

fn go_provision(t: Task, i: usize) -> (r: Step<Task>)
    ensures
        r@ == provision(t@, i as int),
{
    let mut t = t;
    t.index = i;
    if i < t.vm.interfaces.len() {
        let request = lookup(Kind::Network, &t.vm.interfaces[i].network);
        ask(t, Stage::Network, request)
    } else if t.goal == Goal::Create {
        ask(t, Stage::Macs, list())
    } else {
        let request = Request::Update(Entity::Vm(t.vm.copy()));
        ask(t, Stage::Persist, request)
    }
}

fn go_after_image(t: Task) -> (r: Step<Task>)
    ensures
        r@ == after_image(t@),
{
    if t.goal == Goal::Create {
        let request = lookup(Kind::Vm, &t.vm.name);
        ask(t, Stage::Name, request)
    } else {
        go_provision(t, 0)
    }
}

fn go_untap(t: Task, i: usize) -> (r: Step<Task>)
    ensures
        r@ == untap(t@, i as int),
{
    let mut t = t;
    if i < t.vm.interfaces.len() {
        t.index = i;
        let name = iface_dev_at(t.vm.name.as_str(), i);
        ask(t, Stage::Untap, Request::Device(DeviceOp::TapDelete { name }))
    } else {
        done()
    }
}

fn bridge_name(net: &Network) -> (r: String)
    ensures
        r@ == bridge_of(net@),
{
    if char_len(net.bridge.as_str()) == 0 {
        net_dev(net.name.as_str())
    } else {
        net.bridge.clone()
    }
}

fn refuse(vm: &VM) -> (r: Option<Error>)
    ensures
        match r {
            Some(e) => refusal(vm@) == Some(e.message@) && e.kind == ErrorKind::Validation,
            None => refusal(vm@) is None,
        },
{
    let n = char_len(vm.name.as_str());
    if n == 0 {
        Some(Error::new(ErrorKind::Validation, "A 'name' is required"))
    } else if n > 11 {
        Some(Error::new(ErrorKind::Validation, "The 'name' must be less than 11 characters long"))
    } else if char_len(vm.backend.as_str()) == 0 {
        Some(Error::new(ErrorKind::Validation, "A 'backend' is required"))
    } else {
        None
    }
}

/// Whether a machine among `list` holds `mac`.
pub fn is_taken(list: &Vec<Entity>, mac: &str) -> (r: bool)
    ensures
        r == taken(entities_of(list@), mac@),
{
    let mut k: usize = 0;
    while k < list.len()
        invariant
            k <= list@.len(),
            forall|j: int| 0 <= j < k ==> !entity_holds(#[trigger] entities_of(list@)[j], mac@),
        decreases list@.len() - k,
    {
        if let Entity::Vm(v) = &list[k] {
            if find_interface(v, mac).is_some() {
                assert(entity_holds(entities_of(list@)[k as int], mac@));
                return true;
            }
        }
        k += 1;
    }
    false
}

/// Whether a machine among `list` holds the MAC address of one of the
/// interfaces of `vm`.
pub fn has_clash(vm: &VM, list: &Vec<Entity>) -> (r: bool)
    ensures
        r == clashes(vm@, entities_of(list@)),
{
    let mut i: usize = 0;
    while i < vm.interfaces.len()
        invariant
            i <= vm.interfaces@.len(),
            forall|j: int|
                0 <= j < i ==> !taken(entities_of(list@), (#[trigger] vm@.interfaces[j]).mac),
        decreases vm.interfaces@.len() - i,
    {
        if is_taken(list, vm.interfaces[i].mac.as_str()) {
            assert(taken(entities_of(list@), vm@.interfaces[i as int].mac));
            return true;
        }
        i += 1;
    }
    false
}

/// `vm` with a generated MAC address in place of every empty one.
pub fn fill_macs(vm: VM) -> (r: VM)
    ensures
        is_filled(vm@, r@),
{
    let VM { name, node, backend, image, interfaces, parameters } = vm;
    let mut filled: Vec<Interface> = Vec::new();
    let mut i: usize = 0;
    while i < interfaces.len()
        invariant
            i <= interfaces@.len(),
            filled@.len() == i,
            forall|k: int|
                0 <= k < i ==> {
                    let a = #[trigger] interfaces@[k];
                    let f = filled@[k];
                    &&& f.network@ == a.network@
                    &&& f.ip@ == a.ip@
                    &&& if a.mac@.len() == 0 {
                        is_generated_mac(f.mac@)
                    } else {
                        f.mac@ == a.mac@
                    }
                },
        decreases interfaces@.len() - i,
    {
        let a = &interfaces[i];
        let mac = if char_len(a.mac.as_str()) == 0 {
            rand_mac()
        } else {
            a.mac.clone()
        };
        filled.push(Interface { network: a.network.clone(), mac, ip: a.ip.clone() });
        i += 1;
    }
    let r = VM { name, node, backend, image, interfaces: filled, parameters };
    proof {
        assert forall|i: int| 0 <= i < vm@.interfaces.len() implies {
            let a = #[trigger] vm@.interfaces[i];
            let f = r@.interfaces[i];
            &&& f.network == a.network
            &&& f.ip == a.ip
            &&& if a.mac.len() == 0 {
                is_generated_mac(f.mac)
            } else {
                f.mac == a.mac
            }
        } by {
            assert(vm@.interfaces[i] == interfaces@[i]@);
        }
        assert(r@ == VmView { interfaces: r@.interfaces, ..vm@ });
    }
    r
}

/// Starts the creation (`goal` is `Create`) or the update of a machine
/// whose MAC addresses are settled.
pub fn open(conf: &Config, goal: Goal, vm: VM) -> (r: Step<Task>)
    ensures
        r@ == opening(conf.global.node as int, goal, vm@),
{
    let mut vm = vm;
    vm.node = conf.global.node;
    if let Some(e) = refuse(&vm) {
        return pass(e);
    }
    let wanted = char_len(vm.image.as_str());
    let t = Task { stage: Stage::Image, goal, vm, index: 0, bridges: Vec::new(), error: None };
    assert(texts_of(t.bridges@) =~= Seq::<Seq<char>>::empty());
    if wanted > 0 {
        let request = lookup(Kind::Image, &t.vm.image);
        ask(t, Stage::Image, request)
    } else {
        go_after_image(t)
    }
}

/// Starts the creation of a machine. Every interface that names no MAC
/// address gets a generated one; then the request is validated, the image
/// and the free name are looked up, the interfaces are provisioned in
/// order, the MAC addresses are looked for in the inventory, the machine is
/// written to the store and the backend creates it.
pub fn create(conf: &Config, vm: VM) -> (r: Step<Task>)
    ensures
        exists|filled: VmView|
            is_filled(vm@, filled) && r@ == opening(conf.global.node as int, Goal::Create, filled),
{
    let filled = fill_macs(vm);
    open(conf, Goal::Create, filled)
}

/// Starts the update of a machine: the validation and the provisioning of
/// a creation, then the write to the store. No backend script is run.
pub fn update(conf: &Config, vm: VM) -> (r: Step<Task>)
    ensures
        exists|filled: VmView|
            is_filled(vm@, filled) && r@ == opening(conf.global.node as int, Goal::Update, filled),
{
    let filled = fill_macs(vm);
    open(conf, Goal::Update, filled)
}

/// Starts an operation on the machine called `name`.
pub fn fetch(goal: Goal, name: &str) -> (r: Step<Task>)
    ensures
        r@ == fetching(goal, name@),
{
    let vm = VM {
        name: String::from_str(name),
        node: 0,
        backend: String::new(),
        image: String::new(),
        interfaces: Vec::new(),
        parameters: Vec::new(),
    };
    let t = Task { stage: Stage::Fetch, goal, vm, index: 0, bridges: Vec::new(), error: None };
    proof {
        assert(texts_of(t.bridges@) =~= Seq::<Seq<char>>::empty());
        assert(interfaces_of(t.vm.interfaces@) =~= Seq::<InterfaceView>::empty());
        assert(pairs_of(t.vm.parameters@) =~= Seq::<(Seq<char>, Seq<char>)>::empty());
    }
    let request = lookup(Kind::Vm, &t.vm.name);
    ask(t, Stage::Fetch, request)
}

/// Starts the deletion of the machine called `name`: it is fetched,
/// removed from the store and deleted by the backend, and the TAP devices
/// of its interfaces are removed in order.
pub fn delete(name: &str) -> (r: Step<Task>)
    ensures
        r@ == fetching(Goal::Delete, name@),
{
    fetch(Goal::Delete, name)
}

/// Starts the start of the machine called `name` by the backend.
pub fn start(name: &str) -> (r: Step<Task>)
    ensures
        r@ == fetching(Goal::Start, name@),
{
    fetch(Goal::Start, name)
}

/// Starts the stop of the machine called `name` by the backend.
pub fn stop(name: &str) -> (r: Step<Task>)
    ensures
        r@ == fetching(Goal::Stop, name@),
{
    fetch(Goal::Stop, name)
}

/// Starts the query of the status of the machine called `name`. The
/// backend's parameters are handed back, coerced; nothing is saved.
pub fn status(name: &str) -> (r: Step<Task>)
    ensures
        r@ == fetching(Goal::Status, name@),
{
    fetch(Goal::Status, name)
}

/// Starts the lookup of the machine called `name`.
pub fn get(name: &str) -> (r: Step<Task>)
    ensures
        r@ == fetching(Goal::Get, name@),
{
    fetch(Goal::Get, name)
}

/// The request for the machines of the inventory.
pub fn list() -> (r: Request)
    ensures
        r@ == (RequestView::List { kind: Kind::Vm, owner: Seq::empty() }),
{
    Request::List { kind: Kind::Vm, owner: String::new() }
}

fn go_fetched(t: Task, vm: VM) -> (r: Step<Task>)
    ensures
        r@ == fetched(t@, vm@),
{
    let Task { stage, goal, vm: asked, index, bridges, error } = t;
    match goal {
        Goal::Delete => {
            let request = delete_request(&asked.name);
            ask(Task { stage, goal, vm, index, bridges, error }, Stage::Remove, request)
        },
        Goal::Start => ask_backend(
            Task { stage, goal, vm, index, bridges, error },
            Stage::Verb,
            Verb::VmStart,
        ),
        Goal::Stop => ask_backend(
            Task { stage, goal, vm, index, bridges, error },
            Stage::Verb,
            Verb::VmStop,
        ),
        Goal::Status => ask_backend(
            Task { stage, goal, vm, index, bridges, error },
            Stage::Verb,
            Verb::VmStatus,
        ),
        Goal::Get => Step::Finished(Ok(Reply::Entity(Entity::Vm(vm)))),
        _ => reject(),
    }
}

fn go_entity(t: Task, found: Option<Entity>) -> (r: Step<Task>)
    ensures
        r@ == on_entity(t@, found_of(found)),
{
    match t.stage {
        Stage::Image => match found {
            Some(Entity::Image(_)) => go_after_image(t),
            None => fail(ErrorKind::NotFound, "Image not found"),
            _ => reject(),
        },
        Stage::Name => match found {
            Some(Entity::Vm(_)) => fail(ErrorKind::Conflict, "This VM name is not available"),
            None => go_provision(t, 0),
            _ => reject(),
        },
        Stage::Network => {
            if t.index < t.vm.interfaces.len() {
                match found {
                    Some(Entity::Network(net)) => {
                        let mut t = t;
                        let ghost before = texts_of(t.bridges@);
                        t.bridges.push(bridge_name(&net));
                        assert(texts_of(t.bridges@) =~= before.push(bridge_of(net@)));
                        let name = iface_dev_at(t.vm.name.as_str(), t.index);
                        ask(t, Stage::Tap, Request::Device(DeviceOp::TapCreate { name }))
                    },
                    None => {
                        let mut message = String::from_str("Interface: network '");
                        message.append(t.vm.interfaces[t.index].network.as_str());
                        message.append("' not found");
                        fail(ErrorKind::NotFound, message.as_str())
                    },
                    _ => reject(),
                }
            } else {
                reject()
            }
        },
        Stage::Fetch => match found {
            Some(Entity::Vm(vm)) => go_fetched(t, vm),
            None => fail(ErrorKind::NotFound, "VM not found"),
            _ => reject(),
        },
        _ => reject(),
    }
}

fn go_done(t: Task) -> (r: Step<Task>)
    ensures
        r@ == on_done(t@),
{
    match t.stage {
        Stage::Tap => {
            if t.index < t.bridges.len() {
                let interface = iface_dev_at(t.vm.name.as_str(), t.index);
                let bridge = t.bridges[t.index].clone();
                ask(t, Stage::Attach, Request::Device(DeviceOp::BridgeAttach { interface, bridge }))
            } else {
                reject()
            }
        },
        Stage::Attach => {
            if t.index < usize::MAX {
                let i = t.index + 1;
                go_provision(t, i)
            } else {
                reject()
            }
        },
        Stage::Persist => {
            if t.goal == Goal::Create {
                ask_backend(t, Stage::Backend, Verb::VmCreate)
            } else {
                done()
            }
        },
        Stage::Remove => ask_backend(t, Stage::Teardown, Verb::VmDelete),
        Stage::Untap => {
            if t.index < usize::MAX {
                let i = t.index + 1;
                go_untap(t, i)
            } else {
                reject()
            }
        },
        _ => reject(),
    }
}

/// Goes on with an operation on a machine after the host's response.
pub fn step(t: Task, response: Response) -> (r: Step<Task>)
    ensures
        r@ == next(t@, response),
{
    match t.stage {
        Stage::Rollback => match t.error {
            Some(e) => pass(e),
            None => reject(),
        },
        Stage::Backend => match response {
            Response::Backend(_) => done(),
            Response::Failed(e) => {
                let request = delete_request(&t.vm.name);
                let mut t = t;
                t.error = Some(e);
                ask(t, Stage::Rollback, request)
            },
            _ => reject(),
        },
        _ => match response {
            Response::Failed(e) => pass(e),
            Response::Entity(found) => go_entity(t, found),
            Response::Entities(list) => {
                if t.stage == Stage::Macs {
                    if has_clash(&t.vm, &list) {
                        fail(ErrorKind::Conflict, "The specified 'mac' address is not available")
                    } else {
                        let request = Request::Create(Entity::Vm(t.vm.copy()));
                        ask(t, Stage::Persist, request)
                    }
                } else {
                    reject()
                }
            },
            Response::Done => go_done(t),
            Response::Backend(outcome) => match t.stage {
                Stage::Teardown => go_untap(t, 0),
                Stage::Verb => {
                    if t.goal == Goal::Status {
                        Step::Finished(Ok(Reply::Status(coerce(&outcome.report))))
                    } else {
                        done()
                    }
                },
                _ => reject(),
            },
            _ => reject(),
        },
    }
}

} // verus!
