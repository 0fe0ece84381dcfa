//! The lifecycle orchestrator: the commands of the dispatch surface, each
//! carried out as an exchange of requests and responses with the host.

pub mod image;
pub mod laws;
pub mod migrate;
pub mod network;
pub mod snapshot;
pub mod vm;

use crate::config::Config;
use crate::error::{Error, ErrorKind};
use crate::host::{
    entities_of, Kind, Reply, ReplyView, Request, RequestView, Response,
};
use crate::model::{Image, Network, Snapshot, VM};
use crate::text::same_text;
use vstd::prelude::*;

verus! {

/// What an operation tells the host: to carry out a request and answer it
/// with the new state of the operation, or that the operation has ended.
#[derive(Debug)]
pub enum Step<T> {
    Ask(T, Request),
    Finished(Result<Reply, Error>),
}

/// What a [`Step`] is in contracts.
pub enum StepView<V> {
    /// A request, and the state that waits for its answer.
    Ask(V, RequestView),
    /// The operation ended well.
    Done(ReplyView),
    /// The operation failed.
    Failed(ErrorKind, Seq<char>),
}

impl<T: View> View for Step<T> {
    type V = StepView<T::V>;

    open spec fn view(&self) -> StepView<T::V> {
        match self {
            Step::Ask(task, request) => StepView::Ask(task@, request@),
            Step::Finished(Ok(reply)) => StepView::Done(reply@),
            Step::Finished(Err(e)) => StepView::Failed(e.kind, e.message@),
        }
    }
}

/// The end of an operation that was answered with a response of a kind
/// that its state does not wait for.
pub open spec fn unexpected<V>() -> StepView<V> {
    StepView::Failed(ErrorKind::Unexpected, "Unexpected response"@)
}

/// Ends an operation that was answered with a response of a kind that its
/// state does not wait for.
pub fn reject<T: View>() -> (r: Step<T>)
    ensures
        r@ == unexpected::<T::V>(),
{
    Step::Finished(Err(Error::new(ErrorKind::Unexpected, "Unexpected response")))
}

/// Ends an operation with an error of the given class and message.
pub fn fail<T: View>(kind: ErrorKind, message: &str) -> (r: Step<T>)
    ensures
        r@ == StepView::<T::V>::Failed(kind, message@),
{
    Step::Finished(Err(Error::new(kind, message)))
}

/// Ends an operation with the error that the host reported.
pub fn pass<T: View>(e: Error) -> (r: Step<T>)
    ensures
        r@ == StepView::<T::V>::Failed(e.kind, e.message@),
{
    Step::Finished(Err(e))
}

/// Ends an operation well, with nothing to hand back.
pub fn done<T: View>() -> (r: Step<T>)
    ensures
        r@ == StepView::<T::V>::Done(ReplyView::Empty),
{
    Step::Finished(Ok(Reply::Empty))
}

/// The commands of the dispatch surface.
#[derive(Debug, Clone, Copy, PartialEq, Eq, Structural)]
pub enum CommandKind {
    Status,
    CreateImg,
    ListImg,
    GetImg,
    UpdateImg,
    DelImg,
    CreateVm,
    ListVm,
    GetVm,
    UpdateVm,
    DelVm,
    StartVm,
    StopVm,
    StatusVm,
    MigrateVm,
    CreateNet,
    ListNet,
    GetNet,
    UpdateNet,
    DelNet,
    CreateSnap,
    ListSnap,
    RestoreSnap,
    DelSnap,
}

/// The command that a name stands for, if it stands for one.
pub open spec fn command_of(name: Seq<char>) -> Option<CommandKind> {
    if name == "status"@ {
        Some(CommandKind::Status)
    } else if name == "createimg"@ {
        Some(CommandKind::CreateImg)
    } else if name == "listimg"@ {
        Some(CommandKind::ListImg)
    } else if name == "getimg"@ {
        Some(CommandKind::GetImg)
    } else if name == "updateimg"@ {
        Some(CommandKind::UpdateImg)
    } else if name == "delimg"@ {
        Some(CommandKind::DelImg)
    } else if name == "createvm"@ {
        Some(CommandKind::CreateVm)
    } else if name == "listvm"@ {
        Some(CommandKind::ListVm)
    } else if name == "getvm"@ {
        Some(CommandKind::GetVm)
    } else if name == "updatevm"@ {
        Some(CommandKind::UpdateVm)
    } else if name == "delvm"@ {
        Some(CommandKind::DelVm)
    } else if name == "startvm"@ {
        Some(CommandKind::StartVm)
    } else if name == "stopvm"@ {
        Some(CommandKind::StopVm)
    } else if name == "statusvm"@ {
        Some(CommandKind::StatusVm)
    } else if name == "migratevm"@ {
        Some(CommandKind::MigrateVm)
    } else if name == "createnet"@ {
        Some(CommandKind::CreateNet)
    } else if name == "listnet"@ {
        Some(CommandKind::ListNet)
    } else if name == "getnet"@ {
        Some(CommandKind::GetNet)
    } else if name == "updatenet"@ {
        Some(CommandKind::UpdateNet)
    } else if name == "delnet"@ {
        Some(CommandKind::DelNet)
    } else if name == "createsnap"@ {
        Some(CommandKind::CreateSnap)
    } else if name == "listsnap"@ {
        Some(CommandKind::ListSnap)
    } else if name == "restoresnap"@ {
        Some(CommandKind::RestoreSnap)
    } else if name == "delsnap"@ {
        Some(CommandKind::DelSnap)
    } else {
        None
    }
}

/// The command that `name` stands for, if it stands for one.
pub fn lookup(name: &str) -> (r: Option<CommandKind>)
    ensures
        r == command_of(name@),
{
    if same_text(name, "status") {
        Some(CommandKind::Status)
    } else if same_text(name, "createimg") {
        Some(CommandKind::CreateImg)
    } else if same_text(name, "listimg") {
        Some(CommandKind::ListImg)
    } else if same_text(name, "getimg") {
        Some(CommandKind::GetImg)
    } else if same_text(name, "updateimg") {
        Some(CommandKind::UpdateImg)
    } else if same_text(name, "delimg") {
        Some(CommandKind::DelImg)
    } else if same_text(name, "createvm") {
        Some(CommandKind::CreateVm)
    } else if same_text(name, "listvm") {
        Some(CommandKind::ListVm)
    } else if same_text(name, "getvm") {
        Some(CommandKind::GetVm)
    } else if same_text(name, "updatevm") {
        Some(CommandKind::UpdateVm)
    } else if same_text(name, "delvm") {
        Some(CommandKind::DelVm)
    } else if same_text(name, "startvm") {
        Some(CommandKind::StartVm)
    } else if same_text(name, "stopvm") {
        Some(CommandKind::StopVm)
    } else if same_text(name, "statusvm") {
        Some(CommandKind::StatusVm)
    } else if same_text(name, "migratevm") {
        Some(CommandKind::MigrateVm)
    } else if same_text(name, "createnet") {
        Some(CommandKind::CreateNet)
    } else if same_text(name, "listnet") {
        Some(CommandKind::ListNet)
    } else if same_text(name, "getnet") {
        Some(CommandKind::GetNet)
    } else if same_text(name, "updatenet") {
        Some(CommandKind::UpdateNet)
    } else if same_text(name, "delnet") {
        Some(CommandKind::DelNet)
    } else if same_text(name, "createsnap") {
        Some(CommandKind::CreateSnap)
    } else if same_text(name, "listsnap") {
        Some(CommandKind::ListSnap)
    } else if same_text(name, "restoresnap") {
        Some(CommandKind::RestoreSnap)
    } else if same_text(name, "delsnap") {
        Some(CommandKind::DelSnap)
    } else {
        None
    }
}

/// What a command takes as its payload.
#[derive(Debug, Clone, Copy, PartialEq, Eq, Structural)]
pub enum PayloadKind {
    /// Text: a name, a JSON request that the library reads itself, or
    /// nothing.
    Text,
    /// An image, written as JSON.
    Image,
    /// A machine, written as JSON.
    Vm,
    /// A network, written as JSON.
    Network,
    /// A snapshot, written as JSON.
    Snapshot,
}

/// What `kind` takes as its payload.
pub open spec fn payload_of(kind: CommandKind) -> PayloadKind {
    match kind {
        CommandKind::CreateImg | CommandKind::UpdateImg => PayloadKind::Image,
        CommandKind::CreateVm | CommandKind::UpdateVm => PayloadKind::Vm,
        CommandKind::CreateNet | CommandKind::UpdateNet => PayloadKind::Network,
        CommandKind::CreateSnap | CommandKind::RestoreSnap | CommandKind::DelSnap => PayloadKind::Snapshot,
        _ => PayloadKind::Text,
    }
}

/// What `kind` takes as its payload.
pub fn payload_kind(kind: CommandKind) -> (r: PayloadKind)
    ensures
        r == payload_of(kind),
{
    match kind {
        CommandKind::CreateImg | CommandKind::UpdateImg => PayloadKind::Image,
        CommandKind::CreateVm | CommandKind::UpdateVm => PayloadKind::Vm,
        CommandKind::CreateNet | CommandKind::UpdateNet => PayloadKind::Network,
        CommandKind::CreateSnap | CommandKind::RestoreSnap | CommandKind::DelSnap => PayloadKind::Snapshot,
        _ => PayloadKind::Text,
    }
}

/// What the command called `cmd` takes as its payload; text for a name
/// that stands for no command.
pub fn payload_for(cmd: &str) -> (r: PayloadKind)
    ensures
        r == (match command_of(cmd@) {
            Some(kind) => payload_of(kind),
            None => PayloadKind::Text,
        }),
{
    match lookup(cmd) {
        Some(kind) => payload_kind(kind),
        None => PayloadKind::Text,
    }
}

/// The payload of a command, read as its kind asks.
#[derive(Debug)]
pub enum Input {
    Text(String),
    Image(Image),
    Vm(VM),
    Network(Network),
    Snapshot(Snapshot),
}

/// A question that one answer of the host settles.
#[derive(Debug, Clone, Copy, PartialEq, Eq, Structural)]
pub enum Query {
    /// A list of entities.
    Listing,
    /// The description of the host.
    HostStatus,
}

/// A command that is being carried out.
#[derive(Debug)]
pub enum Operation {
    Query(Query),
    Image(image::Task),
    Vm(vm::Task),
    Network(network::Task),
    Snapshot(snapshot::Task),
    Migrate(migrate::Task),
}

/// What an [`Operation`] is in contracts.
pub enum OperationView {
    Query(Query),
    Image(image::TaskView),
    Vm(vm::TaskView),
    Network(network::TaskView),
    Snapshot(snapshot::TaskView),
    Migrate(migrate::TaskView),
}

impl View for Operation {
    type V = OperationView;

    open spec fn view(&self) -> OperationView {
        match self {
            Operation::Query(q) => OperationView::Query(*q),
            Operation::Image(t) => OperationView::Image(t@),
            Operation::Vm(t) => OperationView::Vm(t@),
            Operation::Network(t) => OperationView::Network(t@),
            Operation::Snapshot(t) => OperationView::Snapshot(t@),
            Operation::Migrate(t) => OperationView::Migrate(t@),
        }
    }
}

/// A step of one kind of operation, seen as a step of a command.
pub open spec fn lifted<V>(s: StepView<V>, wrap: spec_fn(V) -> OperationView) -> StepView<
    OperationView,
> {
    match s {
        StepView::Ask(t, q) => StepView::Ask(wrap(t), q),
        StepView::Done(reply) => StepView::Done(reply),
        StepView::Failed(kind, message) => StepView::Failed(kind, message),
    }
}

/// The request for the entities of a kind; snapshots are listed for the
/// machine called `owner`.
pub open spec fn listing(kind: Kind, owner: Seq<char>) -> StepView<OperationView> {
    StepView::Ask(OperationView::Query(Query::Listing), RequestView::List { kind, owner })
}

/// How a query goes on after a response: it ends with what the host
/// handed out, or with the host's error.
pub open spec fn answered(q: Query, response: Response) -> StepView<OperationView> {
    match response {
        Response::Failed(e) => StepView::Failed(e.kind, e.message@),
        Response::Entities(list) => if q == Query::Listing {
            StepView::Done(ReplyView::Entities(entities_of(list@)))
        } else {
            unexpected()
        },
        Response::Text(text) => if q == Query::HostStatus {
            StepView::Done(ReplyView::Text(text@))
        } else {
            unexpected()
        },
        _ => unexpected(),
    }
}

/// Whether `step` is a way in which command `kind` with payload `input`
/// starts on a node with configuration `conf`.
///
/// Each command starts as its operation starts. The creation and the update
/// of a machine start with some generated MAC address in place of each empty
/// one. A payload of another kind than the command takes fails the command.
pub open spec fn begins(conf: Config, kind: CommandKind, input: Input, step: StepView<OperationView>) -> bool {
    let node = conf.global.node as int;
    match (kind, input) {
        (CommandKind::Status, Input::Text(_)) => step == StepView::Ask(
            OperationView::Query(Query::HostStatus),
            RequestView::HostStatus,
        ),
        (CommandKind::ListImg, Input::Text(_)) => step == listing(Kind::Image, Seq::empty()),
        (CommandKind::ListVm, Input::Text(_)) => step == listing(Kind::Vm, Seq::empty()),
        (CommandKind::ListNet, Input::Text(_)) => step == listing(Kind::Network, Seq::empty()),
        (CommandKind::ListSnap, Input::Text(owner)) => step == listing(Kind::Snapshot, owner@),
        (CommandKind::CreateImg, Input::Image(i)) => step == lifted(
            image::opening(conf, image::Goal::Create, i@),
            |t: image::TaskView| OperationView::Image(t),
        ),
        (CommandKind::UpdateImg, Input::Image(i)) => step == lifted(
            image::opening(conf, image::Goal::Update, i@),
            |t: image::TaskView| OperationView::Image(t),
        ),
        (CommandKind::GetImg, Input::Text(name)) => step == lifted(
            image::fetching(image::Goal::Get, name@),
            |t: image::TaskView| OperationView::Image(t),
        ),
        (CommandKind::DelImg, Input::Text(name)) => step == lifted(
            image::fetching(image::Goal::Delete, name@),
            |t: image::TaskView| OperationView::Image(t),
        ),
        (CommandKind::CreateVm, Input::Vm(v)) => exists|filled: crate::model::VmView|
            vm::is_filled(v@, filled) && step == lifted(
                vm::opening(node, vm::Goal::Create, filled),
                |t: vm::TaskView| OperationView::Vm(t),
            ),
        (CommandKind::UpdateVm, Input::Vm(v)) => exists|filled: crate::model::VmView|
            vm::is_filled(v@, filled) && step == lifted(
                vm::opening(node, vm::Goal::Update, filled),
                |t: vm::TaskView| OperationView::Vm(t),
            ),
        (CommandKind::GetVm, Input::Text(name)) => step == lifted(
            vm::fetching(vm::Goal::Get, name@),
            |t: vm::TaskView| OperationView::Vm(t),
        ),
        (CommandKind::DelVm, Input::Text(name)) => step == lifted(
            vm::fetching(vm::Goal::Delete, name@),
            |t: vm::TaskView| OperationView::Vm(t),
        ),
        (CommandKind::StartVm, Input::Text(name)) => step == lifted(
            vm::fetching(vm::Goal::Start, name@),
            |t: vm::TaskView| OperationView::Vm(t),
        ),
        (CommandKind::StopVm, Input::Text(name)) => step == lifted(
            vm::fetching(vm::Goal::Stop, name@),
            |t: vm::TaskView| OperationView::Vm(t),
        ),
        (CommandKind::StatusVm, Input::Text(name)) => step == lifted(
            vm::fetching(vm::Goal::Status, name@),
            |t: vm::TaskView| OperationView::Vm(t),
        ),
        (CommandKind::MigrateVm, Input::Text(payload)) => step == lifted(
            migrate::opening_for(node, payload@),
            |t: migrate::TaskView| OperationView::Migrate(t),
        ),
        (CommandKind::CreateNet, Input::Network(n)) => step == lifted(
            network::opening(node, network::Goal::Create, n@),
            |t: network::TaskView| OperationView::Network(t),
        ),
        (CommandKind::UpdateNet, Input::Network(n)) => step == lifted(
            network::opening(node, network::Goal::Update, n@),
            |t: network::TaskView| OperationView::Network(t),
        ),
        (CommandKind::GetNet, Input::Text(name)) => step == lifted(
            network::fetching(network::Goal::Get, name@),
            |t: network::TaskView| OperationView::Network(t),
        ),
        (CommandKind::DelNet, Input::Text(name)) => step == lifted(
            network::fetching(network::Goal::Delete, name@),
            |t: network::TaskView| OperationView::Network(t),
        ),
        (CommandKind::CreateSnap, Input::Snapshot(s)) => step == lifted(
            snapshot::opening(node, snapshot::Goal::Create, s@),
            |t: snapshot::TaskView| OperationView::Snapshot(t),
        ),
        (CommandKind::RestoreSnap, Input::Snapshot(s)) => step == lifted(
            snapshot::opening(node, snapshot::Goal::Restore, s@),
            |t: snapshot::TaskView| OperationView::Snapshot(t),
        ),
        (CommandKind::DelSnap, Input::Snapshot(s)) => step == lifted(
            snapshot::opening(node, snapshot::Goal::Delete, s@),
            |t: snapshot::TaskView| OperationView::Snapshot(t),
        ),
        _ => step == StepView::<OperationView>::Failed(ErrorKind::Validation, "Invalid payload"@),
    }
}

/// How a command goes on after a response: as its operation goes on.
pub open spec fn advanced(op: OperationView, response: Response) -> StepView<OperationView> {
    match op {
        OperationView::Query(q) => answered(q, response),
        OperationView::Image(t) => lifted(
            image::next(t, response),
            |t: image::TaskView| OperationView::Image(t),
        ),
        OperationView::Vm(t) => lifted(
            vm::next(t, response),
            |t: vm::TaskView| OperationView::Vm(t),
        ),
        OperationView::Network(t) => lifted(
            network::next(t, response),
            |t: network::TaskView| OperationView::Network(t),
        ),
        OperationView::Snapshot(t) => lifted(
            snapshot::next(t, response),
            |t: snapshot::TaskView| OperationView::Snapshot(t),
        ),
        OperationView::Migrate(t) => lifted(
            migrate::next(t, response),
            |t: migrate::TaskView| OperationView::Migrate(t),
        ),
    }
}

fn lift_image(s: Step<image::Task>) -> (r: Step<Operation>)
    ensures
        r@ == lifted(s@, |t: image::TaskView| OperationView::Image(t)),
{
    match s {
        Step::Ask(t, q) => Step::Ask(Operation::Image(t), q),
        Step::Finished(result) => Step::Finished(result),
    }
}

fn lift_vm(s: Step<vm::Task>) -> (r: Step<Operation>)
    ensures
        r@ == lifted(s@, |t: vm::TaskView| OperationView::Vm(t)),
{
    match s {
        Step::Ask(t, q) => Step::Ask(Operation::Vm(t), q),
        Step::Finished(result) => Step::Finished(result),
    }
}

fn lift_network(s: Step<network::Task>) -> (r: Step<Operation>)
    ensures
        r@ == lifted(s@, |t: network::TaskView| OperationView::Network(t)),
{
    match s {
        Step::Ask(t, q) => Step::Ask(Operation::Network(t), q),
        Step::Finished(result) => Step::Finished(result),
    }
}

fn lift_snapshot(s: Step<snapshot::Task>) -> (r: Step<Operation>)
    ensures
        r@ == lifted(s@, |t: snapshot::TaskView| OperationView::Snapshot(t)),
{
    match s {
        Step::Ask(t, q) => Step::Ask(Operation::Snapshot(t), q),
        Step::Finished(result) => Step::Finished(result),
    }
}

fn lift_migrate(s: Step<migrate::Task>) -> (r: Step<Operation>)
    ensures
        r@ == lifted(s@, |t: migrate::TaskView| OperationView::Migrate(t)),
{
    match s {
        Step::Ask(t, q) => Step::Ask(Operation::Migrate(t), q),
        Step::Finished(result) => Step::Finished(result),
    }
}

fn query(request: Request) -> (r: Step<Operation>)
    ensures
        r@ == StepView::Ask(OperationView::Query(Query::Listing), request@),
{
    Step::Ask(Operation::Query(Query::Listing), request)
}

/// Starts command `kind` with payload `input`.
pub fn begin(conf: &Config, kind: CommandKind, input: Input) -> (r: Step<Operation>)
    ensures
        begins(*conf, kind, input, r@),
{
    let node = conf.global.node;
    match (kind, input) {
        (CommandKind::Status, Input::Text(_)) => Step::Ask(
            Operation::Query(Query::HostStatus),
            Request::HostStatus,
        ),
        (CommandKind::ListImg, Input::Text(_)) => query(image::list()),
        (CommandKind::ListVm, Input::Text(_)) => query(vm::list()),
        (CommandKind::ListNet, Input::Text(_)) => query(network::list()),
        (CommandKind::ListSnap, Input::Text(owner)) => query(snapshot::list(owner.as_str())),
        (CommandKind::CreateImg, Input::Image(i)) => lift_image(image::create(conf, i)),
        (CommandKind::UpdateImg, Input::Image(i)) => lift_image(image::update(conf, i)),
        (CommandKind::GetImg, Input::Text(name)) => lift_image(image::get(name.as_str())),
        (CommandKind::DelImg, Input::Text(name)) => lift_image(image::delete(name.as_str())),
        (CommandKind::CreateVm, Input::Vm(v)) => lift_vm(vm::create(conf, v)),
        (CommandKind::UpdateVm, Input::Vm(v)) => lift_vm(vm::update(conf, v)),
        (CommandKind::GetVm, Input::Text(name)) => lift_vm(vm::get(name.as_str())),
        (CommandKind::DelVm, Input::Text(name)) => lift_vm(vm::delete(name.as_str())),
        (CommandKind::StartVm, Input::Text(name)) => lift_vm(vm::start(name.as_str())),
        (CommandKind::StopVm, Input::Text(name)) => lift_vm(vm::stop(name.as_str())),
        (CommandKind::StatusVm, Input::Text(name)) => lift_vm(vm::status(name.as_str())),
        (CommandKind::MigrateVm, Input::Text(payload)) => lift_migrate(
            migrate::migrate(conf, payload.as_str()),
        ),
        (CommandKind::CreateNet, Input::Network(n)) => lift_network(network::create(node, n)),
        (CommandKind::UpdateNet, Input::Network(n)) => lift_network(network::update(node, n)),
        (CommandKind::GetNet, Input::Text(name)) => lift_network(network::get(name.as_str())),
        (CommandKind::DelNet, Input::Text(name)) => lift_network(network::delete(name.as_str())),
        (CommandKind::CreateSnap, Input::Snapshot(s)) => lift_snapshot(snapshot::create(node, s)),
        (CommandKind::RestoreSnap, Input::Snapshot(s)) => lift_snapshot(
            snapshot::restore(node, s),
        ),
        (CommandKind::DelSnap, Input::Snapshot(s)) => lift_snapshot(snapshot::delete(node, s)),
        _ => fail(ErrorKind::Validation, "Invalid payload"),
    }
}

/// Starts the command called `cmd` with payload `input`. A name that
/// stands for no command fails, and nothing is asked of the host.
pub fn handle(conf: &Config, cmd: &str, input: Input) -> (r: Step<Operation>)
    ensures
        match command_of(cmd@) {
            Some(kind) => begins(*conf, kind, input, r@),
            None => r@ == StepView::<OperationView>::Failed(
                ErrorKind::UnknownCommand,
                "Unknown command"@,
            ),
        },
{
    match lookup(cmd) {
        Some(kind) => begin(conf, kind, input),
        None => fail(ErrorKind::UnknownCommand, "Unknown command"),
    }
}

/// Goes on with a command after the host's response.
pub fn advance(op: Operation, response: Response) -> (r: Step<Operation>)
    ensures
        r@ == advanced(op@, response),
{
    match op {
        Operation::Query(q) => match response {
            Response::Failed(e) => pass(e),
            Response::Entities(list) => match q {
                Query::Listing => Step::Finished(Ok(Reply::Entities(list))),
                _ => reject(),
            },
            Response::Text(text) => match q {
                Query::HostStatus => Step::Finished(Ok(Reply::Text(text))),
                _ => reject(),
            },
            _ => reject(),
        },
        Operation::Image(t) => lift_image(image::step(t, response)),
        Operation::Vm(t) => lift_vm(vm::step(t, response)),
        Operation::Network(t) => lift_network(network::step(t, response)),
        Operation::Snapshot(t) => lift_snapshot(snapshot::step(t, response)),
        Operation::Migrate(t) => lift_migrate(migrate::step(t, response)),
    }
}

} // verus!
