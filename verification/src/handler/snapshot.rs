//! The lifecycle of a snapshot: create, restore and delete.

use crate::backend::{Subject, SubjectView, Verb};
use crate::error::ErrorKind;
use crate::handler::{done, fail, pass, reject, unexpected, Step, StepView};
use crate::host::{found_of, Entity, EntityView, Kind, ReplyView, Request, RequestView, Response};
use crate::model::{interfaces_of, pairs_of, InterfaceView, Snapshot, SnapshotView, VmView, VM};
use vstd::prelude::*;

verus! {

/// What an operation on a snapshot is to achieve.
#[derive(Debug, Clone, Copy, PartialEq, Eq, Structural)]
pub enum Goal {
    Create,
    Restore,
    Delete,
}

/// Where an operation on a snapshot stands: what it waits for.
#[derive(Debug, Clone, Copy, PartialEq, Eq, Structural)]
pub enum Stage {
    /// For the machine of the snapshot.
    Owner,
    /// For the record of the snapshot, which a creation wants absent and
    /// the other operations present.
    Existing,
    /// For the record to be written to the store.
    Persist,
    /// For the backend to carry out the verb.
    Backend,
    /// For the record to be removed from the store.
    Remove,
}

/// An operation on a snapshot that is under way.
#[derive(Debug)]
pub struct Task {
    pub stage: Stage,
    pub goal: Goal,
    pub snapshot: Snapshot,
    /// The machine of the snapshot, once it is fetched.
    pub vm: VM,
}

/// What a [`Task`] is in contracts.
pub struct TaskView {
    pub stage: Stage,
    pub goal: Goal,
    pub snapshot: SnapshotView,
    pub vm: VmView,
}

impl View for Task {
    type V = TaskView;

    open spec fn view(&self) -> TaskView {
        TaskView { stage: self.stage, goal: self.goal, snapshot: self.snapshot@, vm: self.vm@ }
    }
}

/// The verb of the backend adapter that achieves a goal.
pub open spec fn verb_of(goal: Goal) -> Verb {
    match goal {
        Goal::Create => Verb::SnapshotCreate,
        Goal::Restore => Verb::SnapshotRestore,
        Goal::Delete => Verb::SnapshotDelete,
    }
}

/// A machine of which nothing is known yet.
pub open spec fn no_vm() -> VmView {
    VmView {
        name: Seq::empty(),
        node: 0,
        backend: Seq::empty(),
        image: Seq::empty(),
        interfaces: Seq::empty(),
        parameters: Seq::empty(),
    }
}

/// How an operation on a snapshot starts: the snapshot is stamped with the
/// node, and its machine is fetched.
pub open spec fn opening(node: int, goal: Goal, snapshot: SnapshotView) -> StepView<TaskView> {
    let snapshot = SnapshotView { node, ..snapshot };
    StepView::Ask(
        TaskView { stage: Stage::Owner, goal, snapshot, vm: no_vm() },
        RequestView::Get { kind: Kind::Vm, name: snapshot.vm, owner: Seq::empty() },
    )
}

/// The request to the backend adapter for the verb of `t`.
pub open spec fn backend(t: TaskView) -> StepView<TaskView> {
    StepView::Ask(
        TaskView { stage: Stage::Backend, ..t },
        RequestView::Backend {
            verb: verb_of(t.goal),
            subject: SubjectView::Vm(t.vm),
            snapshot: Some(t.snapshot.name),
        },
    )
}

/// How an operation on a snapshot goes on after a response.
///
/// The machine must exist. Creation: the machine must have no snapshot of
/// that name; the record is written to the store, and the backend makes the
/// snapshot. Restore: the record must exist; the backend restores the
/// snapshot. Deletion: the record must exist; the backend deletes the
/// snapshot, and the record is removed from the store. A failure of the host
/// ends the operation with the host's error.
pub open spec fn next(t: TaskView, response: Response) -> StepView<TaskView> {
    match response {
        Response::Failed(e) => StepView::Failed(e.kind, e.message@),
        Response::Entity(found) => match t.stage {
            Stage::Owner => match found_of(found) {
                Some(EntityView::Vm(vm)) => StepView::Ask(
                    TaskView { stage: Stage::Existing, vm, ..t },
                    RequestView::Get {
                        kind: Kind::Snapshot,
                        name: t.snapshot.name,
                        owner: t.snapshot.vm,
                    },
                ),
                None => StepView::Failed(ErrorKind::NotFound, "VM not found"@),
                _ => unexpected(),
            },
            Stage::Existing => match found_of(found) {
                Some(EntityView::Snapshot(_)) => if t.goal == Goal::Create {
                    StepView::Failed(ErrorKind::Conflict, "This snapshot name is not available"@)
                } else {
                    backend(t)
                },
                None => if t.goal == Goal::Create {
                    StepView::Ask(
                        TaskView { stage: Stage::Persist, ..t },
                        RequestView::Create(EntityView::Snapshot(t.snapshot)),
                    )
                } else {
                    StepView::Failed(ErrorKind::NotFound, "Snapshot not found"@)
                },
                _ => unexpected(),
            },
            _ => unexpected(),
        },
        Response::Done => match t.stage {
            Stage::Persist => backend(t),
            Stage::Remove => StepView::Done(ReplyView::Empty),
            _ => unexpected(),
        },
        Response::Backend(_) => if t.stage == Stage::Backend {
            if t.goal == Goal::Delete {
                StepView::Ask(
                    TaskView { stage: Stage::Remove, ..t },
                    RequestView::Delete {
                        kind: Kind::Snapshot,
                        name: t.snapshot.name,
                        owner: t.snapshot.vm,
                    },
                )
            } else {
                StepView::Done(ReplyView::Empty)
            }
        } else {
            unexpected()
        },
        _ => unexpected(),
    }
}

fn ask(t: Task, stage: Stage, request: Request) -> (r: Step<Task>)
    ensures
        r@ == StepView::Ask(TaskView { stage, ..t@ }, request@),
{
    let mut t = t;
    t.stage = stage;
    Step::Ask(t, request)
}

/// The verb of the backend adapter that achieves `goal`.
pub fn verb(goal: Goal) -> (r: Verb)
    ensures
        r == verb_of(goal),
{
    match goal {
        Goal::Create => Verb::SnapshotCreate,
        Goal::Restore => Verb::SnapshotRestore,
        Goal::Delete => Verb::SnapshotDelete,
    }
}

fn ask_backend(t: Task) -> (r: Step<Task>)
    ensures
        r@ == backend(t@),
{
    let request = Request::Backend {
        verb: verb(t.goal),
        subject: Subject::Vm(t.vm.copy()),
        snapshot: Some(t.snapshot.name.clone()),
    };
    ask(t, Stage::Backend, request)
}

fn open(node: i32, goal: Goal, snapshot: Snapshot) -> (r: Step<Task>)
    ensures
        r@ == opening(node as int, goal, snapshot@),
{
    let mut snapshot = snapshot;
    snapshot.node = node;
    let vm = VM {
        name: String::new(),
        node: 0,
        backend: String::new(),
        image: String::new(),
        interfaces: Vec::new(),
        parameters: Vec::new(),
    };
    proof {
        assert(interfaces_of(vm.interfaces@) =~= Seq::<InterfaceView>::empty());
        assert(pairs_of(vm.parameters@) =~= Seq::<(Seq<char>, Seq<char>)>::empty());
    }
    let request = Request::Get { kind: Kind::Vm, name: snapshot.vm.clone(), owner: String::new() };
    Step::Ask(Task { stage: Stage::Owner, goal, snapshot, vm }, request)
}

/// Starts the creation of a snapshot on node `node`.
pub fn create(node: i32, snapshot: Snapshot) -> (r: Step<Task>)
    ensures
        r@ == opening(node as int, Goal::Create, snapshot@),
{
    open(node, Goal::Create, snapshot)
}

/// Starts the restore of a snapshot on node `node`.
pub fn restore(node: i32, snapshot: Snapshot) -> (r: Step<Task>)
    ensures
        r@ == opening(node as int, Goal::Restore, snapshot@),
{
    open(node, Goal::Restore, snapshot)
}

/// Starts the deletion of a snapshot on node `node`.
pub fn delete(node: i32, snapshot: Snapshot) -> (r: Step<Task>)
    ensures
        r@ == opening(node as int, Goal::Delete, snapshot@),
{
    open(node, Goal::Delete, snapshot)
}

/// The request for the snapshots of the machine called `vm`.
pub fn list(vm: &str) -> (r: Request)
    ensures
        r@ == (RequestView::List { kind: Kind::Snapshot, owner: vm@ }),
{
    Request::List { kind: Kind::Snapshot, owner: String::from_str(vm) }
}

fn record_request(delete: bool, snapshot: &Snapshot) -> (r: Request)
    ensures
        r@ == (if delete {
            RequestView::Delete { kind: Kind::Snapshot, name: snapshot.name@, owner: snapshot.vm@ }
        } else {
            RequestView::Get { kind: Kind::Snapshot, name: snapshot.name@, owner: snapshot.vm@ }
        }),
{
    if delete {
        Request::Delete {
            kind: Kind::Snapshot,
            name: snapshot.name.clone(),
            owner: snapshot.vm.clone(),
        }
    } else {
        Request::Get { kind: Kind::Snapshot, name: snapshot.name.clone(), owner: snapshot.vm.clone() }
    }
}

fn go_entity(t: Task, found: Option<Entity>) -> (r: Step<Task>)
    ensures
        r@ == next(t@, Response::Entity(found)),
{
    match t.stage {
        Stage::Owner => match found {
            Some(Entity::Vm(vm)) => {
                let request = record_request(false, &t.snapshot);
                let Task { stage, goal, snapshot, vm: _ } = t;
                ask(Task { stage, goal, snapshot, vm }, Stage::Existing, request)
            },
            None => fail(ErrorKind::NotFound, "VM not found"),
            _ => reject(),
        },
        Stage::Existing => match found {
            Some(Entity::Snapshot(_)) => {
                if t.goal == Goal::Create {
                    fail(ErrorKind::Conflict, "This snapshot name is not available")
                } else {
                    ask_backend(t)
                }
            },
            None => {
                if t.goal == Goal::Create {
                    let request = Request::Create(Entity::Snapshot(t.snapshot.copy()));
                    ask(t, Stage::Persist, request)
                } else {
                    fail(ErrorKind::NotFound, "Snapshot not found")
                }
            },
            _ => reject(),
        },
        _ => reject(),
    }
}

/// Goes on with an operation on a snapshot after the host's response.
pub fn step(t: Task, response: Response) -> (r: Step<Task>)
    ensures
        r@ == next(t@, response),
{
    match response {
        Response::Failed(e) => pass(e),
        Response::Entity(found) => go_entity(t, found),
        Response::Done => match t.stage {
            Stage::Persist => ask_backend(t),
            Stage::Remove => done(),
            _ => reject(),
        },
        Response::Backend(_) => {
            if t.stage == Stage::Backend {
                if t.goal == Goal::Delete {
                    let request = record_request(true, &t.snapshot);
                    ask(t, Stage::Remove, request)
                } else {
                    done()
                }
            } else {
                reject()
            }
        },
        _ => reject(),
    }
}

} // verus!
