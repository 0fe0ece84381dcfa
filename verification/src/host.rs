//! What the lifecycle operations ask of their host, and what the host
//! answers.
//!
//! An operation never touches the inventory store, a device, a file, a
//! script or a peer itself. It hands the host a [`Request`], the host
//! carries it out and hands back a [`Response`], and the operation decides
//! what comes next. Store requests are scoped to the node of the
//! configuration.

use crate::backend::{Outcome, Subject, SubjectView, Verb};
use crate::error::Error;
use crate::model::{
    pairs_of, Image, ImageView, Network, NetworkView, Pairs, Parameter, Snapshot, SnapshotView,
    VmView, VM,
};
use crate::provision::{DeviceOp, DeviceOpView};
use crate::text::same_text;
use vstd::prelude::*;

verus! {

/// The kinds of entities that the inventory holds.
#[derive(Debug, Clone, Copy, PartialEq, Eq, Structural)]
pub enum Kind {
    Image,
    Vm,
    Network,
    Snapshot,
}

/// An entity of the inventory.
#[derive(Debug)]
pub enum Entity {
    Image(Image),
    Vm(VM),
    Network(Network),
    Snapshot(Snapshot),
}

/// What an [`Entity`] is in contracts.
pub enum EntityView {
    Image(ImageView),
    Vm(VmView),
    Network(NetworkView),
    Snapshot(SnapshotView),
}

impl View for Entity {
    type V = EntityView;

    open spec fn view(&self) -> EntityView {
        match self {
            Entity::Image(e) => EntityView::Image(e@),
            Entity::Vm(e) => EntityView::Vm(e@),
            Entity::Network(e) => EntityView::Network(e@),
            Entity::Snapshot(e) => EntityView::Snapshot(e@),
        }
    }
}

/// The entities of a list, as contracts see them.
pub open spec fn entities_of(s: Seq<Entity>) -> Seq<EntityView> {
    Seq::new(s.len(), |i: int| s[i]@)
}

/// The entity that a response may hold, as contracts see it.
pub open spec fn found_of(o: Option<Entity>) -> Option<EntityView> {
    match o {
        Some(e) => Some(e@),
        None => None,
    }
}

/// The characters of an optional string.
pub open spec fn name_of(o: Option<String>) -> Option<Seq<char>> {
    match o {
        Some(s) => Some(s@),
        None => None,
    }
}

/// The machine that a request may carry, as contracts see it.
pub open spec fn payload_of(o: Option<VM>) -> Option<VmView> {
    match o {
        Some(v) => Some(v@),
        None => None,
    }
}

/// What an operation asks of the host.
#[derive(Debug)]
pub enum Request {
    /// Get the entity of that kind and name; a snapshot is named together
    /// with its machine, `owner`, which is empty for the other kinds.
    /// Answered by [`Response::Entity`].
    Get { kind: Kind, name: String, owner: String },
    /// List the entities of that kind; snapshots are listed for one
    /// machine, `owner`. Answered by [`Response::Entities`].
    List { kind: Kind, owner: String },
    /// Add the entity to the store. Answered by [`Response::Done`].
    Create(Entity),
    /// Save the entity in place of the one of its name. Answered by
    /// [`Response::Done`].
    Update(Entity),
    /// Remove the entity of that kind and name. Answered by
    /// [`Response::Done`].
    Delete { kind: Kind, name: String, owner: String },
    /// Say whether a file exists at that path. Answered by
    /// [`Response::Exists`].
    FileExists(String),
    /// Copy a file. Answered by [`Response::Done`].
    FileCopy { from: String, to: String },
    /// Carry out an operation of the network provisioner. Answered by
    /// [`Response::Done`].
    Device(DeviceOp),
    /// Carry out a verb of the backend adapter. Answered by
    /// [`Response::Backend`].
    Backend { verb: Verb, subject: Subject, snapshot: Option<String> },
    /// Send a command to the peer at `destination`, with the machine,
    /// written as JSON, as its payload if there is one. Answered by
    /// [`Response::Text`] with the peer's reply.
    Remote { destination: String, command: String, payload: Option<VM> },
    /// Copy the local file at `local` to `path` on `host`. Answered by
    /// [`Response::Done`].
    Transfer { local: String, host: String, path: String },
    /// Describe the host: its node identifier, memory and load, as JSON.
    /// Answered by [`Response::Text`].
    HostStatus,
}

/// What a [`Request`] is in contracts.
pub enum RequestView {
    Get { kind: Kind, name: Seq<char>, owner: Seq<char> },
    List { kind: Kind, owner: Seq<char> },
    Create(EntityView),
    Update(EntityView),
    Delete { kind: Kind, name: Seq<char>, owner: Seq<char> },
    FileExists(Seq<char>),
    FileCopy { from: Seq<char>, to: Seq<char> },
    Device(DeviceOpView),
    Backend { verb: Verb, subject: SubjectView, snapshot: Option<Seq<char>> },
    Remote { destination: Seq<char>, command: Seq<char>, payload: Option<VmView> },
    Transfer { local: Seq<char>, host: Seq<char>, path: Seq<char> },
    HostStatus,
}

impl View for Request {
    type V = RequestView;

    open spec fn view(&self) -> RequestView {
        match self {
            Request::Get { kind, name, owner } => RequestView::Get {
                kind: *kind,
                name: name@,
                owner: owner@,
            },
            Request::List { kind, owner } => RequestView::List { kind: *kind, owner: owner@ },
            Request::Create(e) => RequestView::Create(e@),
            Request::Update(e) => RequestView::Update(e@),
            Request::Delete { kind, name, owner } => RequestView::Delete {
                kind: *kind,
                name: name@,
                owner: owner@,
            },
            Request::FileExists(path) => RequestView::FileExists(path@),
            Request::FileCopy { from, to } => RequestView::FileCopy { from: from@, to: to@ },
            Request::Device(op) => RequestView::Device(op@),
            Request::Backend { verb, subject, snapshot } => RequestView::Backend {
                verb: *verb,
                subject: subject@,
                snapshot: name_of(*snapshot),
            },
            Request::Remote { destination, command, payload } => RequestView::Remote {
                destination: destination@,
                command: command@,
                payload: payload_of(*payload),
            },
            Request::Transfer { local, host, path } => RequestView::Transfer {
                local: local@,
                host: host@,
                path: path@,
            },
            Request::HostStatus => RequestView::HostStatus,
        }
    }
}

/// What the host answers.
#[derive(Debug)]
pub enum Response {
    /// The entity asked for, or `None` when the store holds none.
    Entity(Option<Entity>),
    /// The entities asked for.
    Entities(Vec<Entity>),
    /// Whether the file exists.
    Exists(bool),
    /// The request is carried out.
    Done,
    /// The verb of the backend adapter ended well.
    Backend(Outcome),
    /// The text asked for.
    Text(String),
    /// The request could not be carried out.
    Failed(Error),
}

/// A value that a backend reports of a machine's status.
#[derive(Debug)]
pub enum StatusValue {
    /// The script wrote `true` or `false`.
    Flag(bool),
    /// The script wrote anything else.
    Text(String),
}

/// What a [`StatusValue`] is in contracts.
pub enum StatusValueView {
    Flag(bool),
    Text(Seq<char>),
}

impl View for StatusValue {
    type V = StatusValueView;

    open spec fn view(&self) -> StatusValueView {
        match self {
            StatusValue::Flag(b) => StatusValueView::Flag(*b),
            StatusValue::Text(s) => StatusValueView::Text(s@),
        }
    }
}

/// One entry of a machine's status.
#[derive(Debug)]
pub struct StatusEntry {
    pub key: String,
    pub value: StatusValue,
}

impl View for StatusEntry {
    type V = (Seq<char>, StatusValueView);

    open spec fn view(&self) -> (Seq<char>, StatusValueView) {
        (self.key@, self.value@)
    }
}

/// The entries of a status, as contracts see them.
pub open spec fn status_of(s: Seq<StatusEntry>) -> Seq<(Seq<char>, StatusValueView)> {
    Seq::new(s.len(), |i: int| s[i]@)
}

/// The value that a status shows for what a script wrote: a boolean for
/// `true` and for `false`, the text itself for anything else.
pub open spec fn coerced(value: Seq<char>) -> StatusValueView {
    if value == "true"@ {
        StatusValueView::Flag(true)
    } else if value == "false"@ {
        StatusValueView::Flag(false)
    } else {
        StatusValueView::Text(value)
    }
}

/// The status that a list of parameters gives: entry by entry, the same key
/// with the coerced value.
pub open spec fn coerced_all(ps: Pairs) -> Seq<(Seq<char>, StatusValueView)> {
    Seq::new(ps.len(), |i: int| (ps[i].0, coerced(ps[i].1)))
}

/// The status that a list of parameters gives.
pub fn coerce(ps: &Vec<Parameter>) -> (r: Vec<StatusEntry>)
    ensures
        status_of(r@) == coerced_all(pairs_of(ps@)),
{
    let mut out: Vec<StatusEntry> = Vec::new();
    let mut i: usize = 0;
    while i < ps.len()
        invariant
            i <= ps@.len(),
            out@.len() == i,
            forall|k: int| 0 <= k < i ==> out@[k]@ == (ps@[k].key@, coerced(ps@[k].value@)),
        decreases ps@.len() - i,
    {
        let text = ps[i].value.as_str();
        let value = if same_text(text, "true") {
            StatusValue::Flag(true)
        } else if same_text(text, "false") {
            StatusValue::Flag(false)
        } else {
            StatusValue::Text(ps[i].value.clone())
        };
        out.push(StatusEntry { key: ps[i].key.clone(), value });
        i += 1;
    }
    assert(status_of(out@) =~= coerced_all(pairs_of(ps@)));
    out
}

/// What an operation hands back when it ends well, before it is written as
/// JSON.
#[derive(Debug)]
pub enum Reply {
    /// Nothing.
    Empty,
    /// One entity.
    Entity(Entity),
    /// A list of entities.
    Entities(Vec<Entity>),
    /// The status of a machine.
    Status(Vec<StatusEntry>),
    /// A JSON document as the host produced it.
    Text(String),
}

/// What a [`Reply`] is in contracts.
pub enum ReplyView {
    Empty,
    Entity(EntityView),
    Entities(Seq<EntityView>),
    Status(Seq<(Seq<char>, StatusValueView)>),
    Text(Seq<char>),
}

impl View for Reply {
    type V = ReplyView;

    open spec fn view(&self) -> ReplyView {
        match self {
            Reply::Empty => ReplyView::Empty,
            Reply::Entity(e) => ReplyView::Entity(e@),
            Reply::Entities(list) => ReplyView::Entities(entities_of(list@)),
            Reply::Status(list) => ReplyView::Status(status_of(list@)),
            Reply::Text(s) => ReplyView::Text(s@),
        }
    }
}

} // verus!
