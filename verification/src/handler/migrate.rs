//! The migration of a machine to a peer node.
//!
//! A migration is a chain of steps that are each final once done: the peer
//! is asked for its node, the peer creates the machine, the disk is copied
//! to the peer, the machine is deleted here. Nothing is undone when a later
//! step fails: if the deletion fails after the peer has created the machine,
//! the machine is registered on both nodes.

use crate::config::{vm_disk, vm_disk_text, Config};
use crate::error::{Error, ErrorKind};
use crate::handler::vm;
use crate::handler::{fail, pass, reject, unexpected, Step, StepView};
use crate::host::{found_of, Entity, EntityView, Kind, Request, RequestView, Response};
use crate::json::{json_field, json_field_of, JsonField, JsonFieldView};
use crate::model::{interfaces_of, pairs_of, InterfaceView, VmView, VM};
use crate::net::{is_ip_port_text, is_valid_ip_port};
use crate::parser::copy_range;
use crate::remote::{interpret, meaning};
use crate::text::{chars_of, find_char, index_of, string_of};
use vstd::prelude::*;

verus! {

/// Where a migration stands: what it waits for.
#[derive(Debug, Clone, Copy, PartialEq, Eq, Structural)]
pub enum Stage {
    /// For the machine.
    Fetch,
    /// For the peer to tell its node.
    Peer,
    /// For the peer to create the machine.
    Create,
    /// For the disk to be copied to the peer.
    Copy,
    /// For a step of the deletion of the machine here.
    Delete,
}

/// A migration that is under way.
#[derive(Debug)]
pub struct Task {
    pub stage: Stage,
    /// The identifier of this node.
    pub node: i32,
    /// The peer, as `address:port`.
    pub destination: String,
    /// The machine; before it is fetched, only its name counts.
    pub vm: VM,
    /// The deletion of the machine here, once it has begun.
    pub deletion: Option<vm::Task>,
}

/// What a [`Task`] is in contracts.
pub struct TaskView {
    pub stage: Stage,
    pub node: int,
    pub destination: Seq<char>,
    pub vm: VmView,
    pub deletion: Option<vm::TaskView>,
}

impl View for Task {
    type V = TaskView;

    open spec fn view(&self) -> TaskView {
        TaskView {
            stage: self.stage,
            node: self.node as int,
            destination: self.destination@,
            vm: self.vm@,
            deletion: match self.deletion {
                Some(d) => Some(d@),
                None => None,
            },
        }
    }
}

/// The text that a request holds under a key, or the message that says
/// why it holds none.
pub open spec fn wanted(field: JsonFieldView, missing: Seq<char>, invalid: Seq<char>) -> Result<
    Seq<char>,
    Seq<char>,
> {
    match field {
        JsonFieldView::Text(s) => Ok(s),
        JsonFieldView::Invalid => Err("JSON error"@),
        JsonFieldView::Missing => Err(missing),
        _ => Err(invalid),
    }
}

/// How a migration starts, given what the request holds under `name` and
/// under `destination`: it fails when either is no string; else the machine
/// is fetched.
pub open spec fn opening(node: int, name: JsonFieldView, destination: JsonFieldView) -> StepView<
    TaskView,
> {
    match wanted(name, "Missing `name`"@, "Invalid `name`"@) {
        Err(message) => StepView::Failed(ErrorKind::Validation, message),
        Ok(name) => match wanted(
            destination,
            "Missing `destination`"@,
            "Invalid `destination`"@,
        ) {
            Err(message) => StepView::Failed(ErrorKind::Validation, message),
            Ok(destination) => StepView::Ask(
                TaskView {
                    stage: Stage::Fetch,
                    node,
                    destination,
                    vm: VmView {
                        name,
                        node: 0,
                        backend: Seq::empty(),
                        image: Seq::empty(),
                        interfaces: Seq::empty(),
                        parameters: Seq::empty(),
                    },
                    deletion: None,
                },
                vm::by_name(name),
            ),
        },
    }
}

/// How the migration that the request `payload` asks for starts on node
/// `node`.
pub open spec fn opening_for(node: int, payload: Seq<char>) -> StepView<TaskView> {
    opening(node, json_field_of(payload, "name"@), json_field_of(payload, "destination"@))
}

/// The address of a peer: what stands before the first `:` of
/// `address:port`.
pub open spec fn host_of(destination: Seq<char>) -> Seq<char> {
    destination.subrange(0, index_of(destination, ':', 0))
}

/// A step of the deletion, seen as a step of the migration.
pub open spec fn deleting(t: TaskView, s: StepView<vm::TaskView>) -> StepView<TaskView> {
    match s {
        StepView::Ask(d, q) => StepView::Ask(
            TaskView { stage: Stage::Delete, deletion: Some(d), ..t },
            q,
        ),
        StepView::Done(reply) => StepView::Done(reply),
        StepView::Failed(kind, message) => StepView::Failed(kind, message),
    }
}

/// How a migration goes on after the peer told its node, given what the
/// peer's reply means and what it holds under `node`: the migration fails
/// when the reply is an error or holds no integer there, and when the peer's
/// node is this node; else the peer is asked to create the machine, whose
/// node is cleared first.
pub open spec fn after_status(
    t: TaskView,
    said: Result<Option<Seq<char>>, (ErrorKind, Seq<char>)>,
    node: JsonFieldView,
) -> StepView<TaskView> {
    match said {
        Err((kind, message)) => StepView::Failed(kind, message),
        Ok(_) => match node {
            JsonFieldView::Integer(n) => if n == t.node {
                StepView::Failed(
                    ErrorKind::SameNode,
                    "The remote's node ID is the same as the local one"@,
                )
            } else {
                let vm = VmView { node: 0, ..t.vm };
                StepView::Ask(
                    TaskView { stage: Stage::Create, vm, ..t },
                    RequestView::Remote {
                        destination: t.destination,
                        command: "createvm"@,
                        payload: Some(vm),
                    },
                )
            },
            _ => StepView::Failed(ErrorKind::Remote, "Remote: invalid `node`"@),
        },
    }
}

/// How a migration goes on after the peer created the machine, given what
/// the peer's reply means: the migration fails when the reply is an error;
/// else the disk is copied to the same path on the peer.
pub open spec fn after_create(
    t: TaskView,
    said: Result<Option<Seq<char>>, (ErrorKind, Seq<char>)>,
) -> StepView<TaskView> {
    match said {
        Err((kind, message)) => StepView::Failed(kind, message),
        Ok(_) => {
            let disk = vm_disk_text(t.vm.backend, t.vm.name);
            StepView::Ask(
                TaskView { stage: Stage::Copy, ..t },
                RequestView::Transfer { local: disk, host: host_of(t.destination), path: disk },
            )
        },
    }
}

/// How a migration goes on after a response.
///
/// The machine must exist and the destination must have the shape
/// `address:port`. The peer is asked for its status, then asked to create
/// the machine; the disk is copied; and the machine is deleted here as any
/// machine is. A failure of the host, of the peer or of the deletion ends
/// the migration with that error.
pub open spec fn next(t: TaskView, response: Response) -> StepView<TaskView> {
    if t.stage == Stage::Delete {
        match t.deletion {
            Some(d) => deleting(t, vm::next(d, response)),
            None => unexpected(),
        }
    } else {
        match response {
            Response::Failed(e) => StepView::Failed(e.kind, e.message@),
            Response::Entity(found) => if t.stage == Stage::Fetch {
                match found_of(found) {
                    Some(EntityView::Vm(vm)) => if !is_ip_port_text(t.destination) {
                        StepView::Failed(
                            ErrorKind::Validation,
                            "Invalid `destination`, must be ip:port"@,
                        )
                    } else {
                        StepView::Ask(
                            TaskView { stage: Stage::Peer, vm, ..t },
                            RequestView::Remote {
                                destination: t.destination,
                                command: "status"@,
                                payload: None,
                            },
                        )
                    },
                    None => StepView::Failed(ErrorKind::NotFound, "VM not found"@),
                    _ => unexpected(),
                }
            } else {
                unexpected()
            },
            Response::Text(body) => match t.stage {
                Stage::Peer => after_status(t, meaning(body@), json_field_of(body@, "node"@)),
                Stage::Create => after_create(t, meaning(body@)),
                _ => unexpected(),
            },
            Response::Done => if t.stage == Stage::Copy {
                deleting(t, vm::fetching(vm::Goal::Delete, t.vm.name))
            } else {
                unexpected()
            },
            _ => unexpected(),
        }
    }
}

fn ask(t: Task, stage: Stage, request: Request) -> (r: Step<Task>)
    ensures
        r@ == StepView::Ask(TaskView { stage, ..t@ }, request@),
{
    let mut t = t;
    t.stage = stage;
    Step::Ask(t, request)
}

fn want(field: JsonField, missing: &str, invalid: &str) -> (r: Result<String, Error>)
    ensures
        match r {
            Ok(s) => wanted(field@, missing@, invalid@) == Ok::<Seq<char>, Seq<char>>(s@),
            Err(e) => wanted(field@, missing@, invalid@) == Err::<Seq<char>, Seq<char>>(e.message@)
                && e.kind == ErrorKind::Validation,
        },
{
    match field {
        JsonField::Text(s) => Ok(s),
        JsonField::Invalid => Err(Error::new(ErrorKind::Validation, "JSON error")),
        JsonField::Missing => Err(Error::new(ErrorKind::Validation, missing)),
        _ => Err(Error::new(ErrorKind::Validation, invalid)),
    }
}

/// Starts a migration on node `node`, given what the request holds under
/// `name` and under `destination`.
pub fn open(node: i32, name: JsonField, destination: JsonField) -> (r: Step<Task>)
    ensures
        r@ == opening(node as int, name@, destination@),
{
    let name = match want(name, "Missing `name`", "Invalid `name`") {
        Err(e) => {
            return pass(e);
        },
        Ok(name) => name,
    };
    let destination = match want(destination, "Missing `destination`", "Invalid `destination`") {
        Err(e) => {
            return pass(e);
        },
        Ok(destination) => destination,
    };
    let vm = VM {
        name,
        node: 0,
        backend: String::new(),
        image: String::new(),
        interfaces: Vec::new(),
        parameters: Vec::new(),
    };
    proof {
        assert(interfaces_of(vm.interfaces@) =~= Seq::<InterfaceView>::empty());
        assert(pairs_of(vm.parameters@) =~= Seq::<(Seq<char>, Seq<char>)>::empty());
    }
    let request = Request::Get { kind: Kind::Vm, name: vm.name.clone(), owner: String::new() };
    Step::Ask(Task { stage: Stage::Fetch, node, destination, vm, deletion: None }, request)
}

/// Starts the migration that the request `payload` asks for: a JSON object
/// with the name of the machine under `name` and the peer, as
/// `address:port`, under `destination`.
pub fn migrate(conf: &Config, payload: &str) -> (r: Step<Task>)
    ensures
        r@ == opening_for(conf.global.node as int, payload@),
{
    let name = json_field(payload, "name");
    let destination = json_field(payload, "destination");
    open(conf.global.node, name, destination)
}

fn go_deleting(t: Task, s: Step<vm::Task>) -> (r: Step<Task>)
    ensures
        r@ == deleting(t@, s@),
{
    match s {
        Step::Ask(d, q) => {
            let mut t = t;
            t.deletion = Some(d);
            ask(t, Stage::Delete, q)
        },
        Step::Finished(result) => Step::Finished(result),
    }
}

/// Goes on with a migration after the peer told its node, given what the
/// peer's reply means and what it holds under `node`.
pub fn go_after_status(t: Task, said: Result<Option<String>, Error>, node: JsonField) -> (r: Step<
    Task,
>)
    ensures
        r@ == after_status(
            t@,
            match said {
                Ok(d) => Ok(crate::remote::document_of(d)),
                Err(e) => Err((e.kind, e.message@)),
            },
            node@,
        ),
{
    match said {
        Err(e) => pass(e),
        Ok(_) => match node {
            JsonField::Integer(n) => {
                if n == t.node as i64 {
                    fail(ErrorKind::SameNode, "The remote's node ID is the same as the local one")
                } else {
                    let mut t = t;
                    t.vm.node = 0;
                    let request = Request::Remote {
                        destination: t.destination.clone(),
                        command: String::from_str("createvm"),
                        payload: Some(t.vm.copy()),
                    };
                    ask(t, Stage::Create, request)
                }
            },
            _ => fail(ErrorKind::Remote, "Remote: invalid `node`"),
        },
    }
}

/// Goes on with a migration after the peer created the machine, given what
/// the peer's reply means.
pub fn go_after_create(t: Task, said: Result<Option<String>, Error>) -> (r: Step<Task>)
    ensures
        r@ == after_create(
            t@,
            match said {
                Ok(d) => Ok(crate::remote::document_of(d)),
                Err(e) => Err((e.kind, e.message@)),
            },
        ),
{
    match said {
        Err(e) => pass(e),
        Ok(_) => {
            let disk = vm_disk(t.vm.backend.as_str(), t.vm.name.as_str());
            let chars = chars_of(t.destination.as_str());
            let colon = find_char(&chars, ':', 0);
            let host = string_of(&copy_range(&chars, 0, colon));
            let request = Request::Transfer { local: disk.clone(), host, path: disk };
            ask(t, Stage::Copy, request)
        },
    }
}

/// Goes on with a migration after the host's response.
pub fn step(t: Task, response: Response) -> (r: Step<Task>)
    ensures
        r@ == next(t@, response),
{
    if t.stage == Stage::Delete {
        let Task { stage, node, destination, vm, deletion } = t;
        match deletion {
            Some(d) => {
                let s = vm::step(d, response);
                go_deleting(Task { stage, node, destination, vm, deletion: None }, s)
            },
            None => reject(),
        }
    } else {
        match response {
            Response::Failed(e) => pass(e),
            Response::Entity(found) => {
                if t.stage == Stage::Fetch {
                    match found {
                        Some(Entity::Vm(vm)) => {
                            if !is_valid_ip_port(t.destination.as_str()) {
                                fail(
                                    ErrorKind::Validation,
                                    "Invalid `destination`, must be ip:port",
                                )
                            } else {
                                let request = Request::Remote {
                                    destination: t.destination.clone(),
                                    command: String::from_str("status"),
                                    payload: None,
                                };
                                let Task { stage, node, destination, vm: _, deletion } = t;
                                ask(
                                    Task { stage, node, destination, vm, deletion },
                                    Stage::Peer,
                                    request,
                                )
                            }
                        },
                        None => fail(ErrorKind::NotFound, "VM not found"),
                        _ => reject(),
                    }
                } else {
                    reject()
                }
            },
            Response::Text(body) => match t.stage {
                Stage::Peer => {
                    let said = interpret(body.as_str());
                    let node = json_field(body.as_str(), "node");
                    go_after_status(t, said, node)
                },
                Stage::Create => {
                    let said = interpret(body.as_str());
                    go_after_create(t, said)
                },
                _ => reject(),
            },
            Response::Done => {
                if t.stage == Stage::Copy {
                    let s = vm::fetch(vm::Goal::Delete, t.vm.name.as_str());
                    go_deleting(t, s)
                } else {
                    reject()
                }
            },
            _ => reject(),
        }
    }
}

} // verus!
