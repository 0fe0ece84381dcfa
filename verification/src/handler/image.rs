//! The lifecycle of an image: create, update, delete and get.

use crate::backend::{Subject, SubjectView, Verb};
use crate::config::{image_path_text, Config};
use crate::error::{Error, ErrorKind};
use crate::handler::{done, fail, pass, reject, unexpected, Step, StepView};
use crate::host::{
    found_of, name_of, Entity, EntityView, Kind, Reply, ReplyView, Request, RequestView, Response,
};
use crate::model::{pairs_of, Image, ImageView};
use crate::text::char_len;
use vstd::prelude::*;

verus! {

/// What an operation on an image is to achieve.
#[derive(Debug, Clone, Copy, PartialEq, Eq, Structural)]
pub enum Goal {
    Create,
    Update,
    Delete,
    Get,
}

/// Where an operation on an image stands: what it waits for.
#[derive(Debug, Clone, Copy, PartialEq, Eq, Structural)]
pub enum Stage {
    /// For the word whether the source file exists.
    Exists,
    /// For the image of the same name, which must not exist.
    Name,
    /// For the source file to be copied into the backend's storage.
    Copy,
    /// For the image to be written to the store.
    Persist,
    /// For the backend to create the image.
    Backend,
    /// For the image that the operation is about.
    Fetch,
    /// For the backend to delete the image.
    Teardown,
    /// For the image to be removed from the store.
    Remove,
}

/// An operation on an image that is under way.
#[derive(Debug)]
pub struct Task {
    pub stage: Stage,
    pub goal: Goal,
    /// The image; before it is fetched, only its name counts.
    pub image: Image,
    /// Where the backend keeps the image; `None` when the backend is not
    /// configured.
    pub path: Option<String>,
}

/// What a [`Task`] is in contracts.
pub struct TaskView {
    pub stage: Stage,
    pub goal: Goal,
    pub image: ImageView,
    pub path: Option<Seq<char>>,
}

impl View for Task {
    type V = TaskView;

    open spec fn view(&self) -> TaskView {
        TaskView {
            stage: self.stage,
            goal: self.goal,
            image: self.image@,
            path: name_of(self.path),
        }
    }
}

/// Why a request to create or update an image is refused at once, if it
/// is: the name, the backend or the file is empty.
pub open spec fn refusal(image: ImageView) -> Option<Seq<char>> {
    if image.name.len() == 0 {
        Some("A 'name' is required"@)
    } else if image.backend.len() == 0 {
        Some("A 'backend' parameter is required"@)
    } else if image.file.len() == 0 {
        Some("A 'file' is required"@)
    } else {
        None
    }
}

/// Where the configured backend of an image keeps it, if the backend is
/// configured.
pub open spec fn storage(conf: Config, image: ImageView) -> Option<Seq<char>> {
    if conf.has_backend(image.backend) {
        Some(image_path_text(conf.backend_named(image.backend).image.path@, image.name))
    } else {
        None
    }
}

/// The request for the image called `name`.
pub open spec fn by_name(name: Seq<char>) -> RequestView {
    RequestView::Get { kind: Kind::Image, name, owner: Seq::empty() }
}

/// How the creation (`goal` is `Create`) or the update of an image starts.
/// The image is stamped with the node of the configuration. A refused
/// request fails at once; else the host is asked whether the file exists.
pub open spec fn opening(conf: Config, goal: Goal, image: ImageView) -> StepView<TaskView> {
    let image = ImageView { node: conf.global.node as int, ..image };
    match refusal(image) {
        Some(message) => StepView::Failed(ErrorKind::Validation, message),
        None => StepView::Ask(
            TaskView { stage: Stage::Exists, goal, image, path: storage(conf, image) },
            RequestView::FileExists(image.file),
        ),
    }
}

/// How an operation on the image called `name` starts: by fetching it.
pub open spec fn fetching(goal: Goal, name: Seq<char>) -> StepView<TaskView> {
    StepView::Ask(
        TaskView {
            stage: Stage::Fetch,
            goal,
            image: ImageView {
                name,
                backend: Seq::empty(),
                node: 0,
                file: Seq::empty(),
                parameters: Seq::empty(),
            },
            path: None,
        },
        by_name(name),
    )
}

/// The request to the backend adapter for a verb on the image of `t`.
pub open spec fn backend(t: TaskView, stage: Stage, verb: Verb) -> StepView<TaskView> {
    StepView::Ask(
        TaskView { stage, ..t },
        RequestView::Backend { verb, subject: SubjectView::Image(t.image), snapshot: None },
    )
}

/// How an operation on an image goes on after a response.
///
/// Creation: the file must exist and the name must be free; the file is
/// copied to where the backend keeps its images, and the image, which from
/// then on names the copy as its file, is written to the store and created
/// by the backend. An image that the backend then refuses stays in the
/// store. Update: the file must exist; the image is written to the store.
/// Deletion: the image is fetched, deleted by the backend and then removed
/// from the store. A failure of the host ends the operation with the host's
/// error.
pub open spec fn next(t: TaskView, response: Response) -> StepView<TaskView> {
    match response {
        Response::Failed(e) => StepView::Failed(e.kind, e.message@),
        Response::Exists(found) => if t.stage == Stage::Exists {
            if !found {
                StepView::Failed(ErrorKind::Validation, t.image.file + ": file not found"@)
            } else if t.goal == Goal::Create {
                StepView::Ask(TaskView { stage: Stage::Name, ..t }, by_name(t.image.name))
            } else {
                StepView::Ask(
                    TaskView { stage: Stage::Persist, ..t },
                    RequestView::Update(EntityView::Image(t.image)),
                )
            }
        } else {
            unexpected()
        },
        Response::Entity(found) => match t.stage {
            Stage::Name => match found_of(found) {
                Some(EntityView::Image(_)) => StepView::Failed(
                    ErrorKind::Conflict,
                    "This image name is not available"@,
                ),
                None => match t.path {
                    None => StepView::Failed(ErrorKind::UnknownBackend, "Unknown backend"@),
                    Some(path) => StepView::Ask(
                        TaskView { stage: Stage::Copy, ..t },
                        RequestView::FileCopy { from: t.image.file, to: path },
                    ),
                },
                _ => unexpected(),
            },
            Stage::Fetch => match found_of(found) {
                Some(EntityView::Image(image)) => if t.goal == Goal::Delete {
                    backend(TaskView { image, ..t }, Stage::Teardown, Verb::ImageDelete)
                } else if t.goal == Goal::Get {
                    StepView::Done(ReplyView::Entity(EntityView::Image(image)))
                } else {
                    unexpected()
                },
                None => StepView::Failed(ErrorKind::NotFound, "Image not found"@),
                _ => unexpected(),
            },
            _ => unexpected(),
        },
        Response::Done => match t.stage {
            Stage::Copy => match t.path {
                Some(path) => {
                    let image = ImageView { file: path, ..t.image };
                    StepView::Ask(
                        TaskView { stage: Stage::Persist, image, ..t },
                        RequestView::Create(EntityView::Image(image)),
                    )
                },
                None => unexpected(),
            },
            Stage::Persist => if t.goal == Goal::Create {
                backend(t, Stage::Backend, Verb::ImageCreate)
            } else {
                StepView::Done(ReplyView::Empty)
            },
            Stage::Remove => StepView::Done(ReplyView::Empty),
            _ => unexpected(),
        },
        Response::Backend(_) => match t.stage {
            Stage::Backend => StepView::Done(ReplyView::Empty),
            Stage::Teardown => StepView::Ask(
                TaskView { stage: Stage::Remove, ..t },
                RequestView::Delete { kind: Kind::Image, name: t.image.name, owner: Seq::empty() },
            ),
            _ => unexpected(),
        },
        _ => unexpected(),
    }
}

fn ask(t: Task, stage: Stage, request: Request) -> (r: Step<Task>)
    ensures
        r@ == StepView::Ask(TaskView { stage, ..t@ }, request@),
{
    let mut t = t;
    t.stage = stage;
    Step::Ask(t, request)
}

fn lookup(name: &String) -> (r: Request)
    ensures
        r@ == by_name(name@),
{
    Request::Get { kind: Kind::Image, name: name.clone(), owner: String::new() }
}

fn ask_backend(t: Task, stage: Stage, verb: Verb) -> (r: Step<Task>)
    ensures
        r@ == backend(t@, stage, verb),
{
    let subject = Subject::Image(t.image.copy());
    ask(t, stage, Request::Backend { verb, subject, snapshot: None })
}

fn refuse(image: &Image) -> (r: Option<Error>)
    ensures
        match r {
            Some(e) => refusal(image@) == Some(e.message@) && e.kind == ErrorKind::Validation,
            None => refusal(image@) is None,
        },
{
    if char_len(image.name.as_str()) == 0 {
        Some(Error::new(ErrorKind::Validation, "A 'name' is required"))
    } else if char_len(image.backend.as_str()) == 0 {
        Some(Error::new(ErrorKind::Validation, "A 'backend' parameter is required"))
    } else if char_len(image.file.as_str()) == 0 {
        Some(Error::new(ErrorKind::Validation, "A 'file' is required"))
    } else {
        None
    }
}

fn open(conf: &Config, goal: Goal, image: Image) -> (r: Step<Task>)
    ensures
        r@ == opening(*conf, goal, image@),
{
    let mut image = image;
    image.node = conf.global.node;
    if let Some(e) = refuse(&image) {
        return pass(e);
    }
    let path = match conf.get_image_path(image.backend.as_str(), image.name.as_str()) {
        Ok(path) => Some(path),
        Err(_) => None,
    };
    let request = Request::FileExists(image.file.clone());
    Step::Ask(Task { stage: Stage::Exists, goal, image, path }, request)
}

/// Starts the creation of an image.
pub fn create(conf: &Config, image: Image) -> (r: Step<Task>)
    ensures
        r@ == opening(*conf, Goal::Create, image@),
{
    open(conf, Goal::Create, image)
}

/// Starts the update of an image.
pub fn update(conf: &Config, image: Image) -> (r: Step<Task>)
    ensures
        r@ == opening(*conf, Goal::Update, image@),
{
    open(conf, Goal::Update, image)
}

fn fetch(goal: Goal, name: &str) -> (r: Step<Task>)
    ensures
        r@ == fetching(goal, name@),
{
    let image = Image {
        name: String::from_str(name),
        backend: String::new(),
        node: 0,
        file: String::new(),
        parameters: Vec::new(),
    };
    assert(pairs_of(image.parameters@) =~= Seq::<(Seq<char>, Seq<char>)>::empty());
    let request = lookup(&image.name);
    Step::Ask(Task { stage: Stage::Fetch, goal, image, path: None }, request)
}

/// Starts the deletion of the image called `name`.
pub fn delete(name: &str) -> (r: Step<Task>)
    ensures
        r@ == fetching(Goal::Delete, name@),
{
    fetch(Goal::Delete, name)
}

/// The request for the images of the inventory.
pub fn list() -> (r: Request)
    ensures
        r@ == (RequestView::List { kind: Kind::Image, owner: Seq::empty() }),
{
    Request::List { kind: Kind::Image, owner: String::new() }
}

/// Starts the lookup of the image called `name`.
pub fn get(name: &str) -> (r: Step<Task>)
    ensures
        r@ == fetching(Goal::Get, name@),
{
    fetch(Goal::Get, name)
}

fn go_entity(t: Task, found: Option<Entity>) -> (r: Step<Task>)
    ensures
        r@ == next(t@, Response::Entity(found)),
{
    match t.stage {
        Stage::Name => match found {
            Some(Entity::Image(_)) => fail(
                ErrorKind::Conflict,
                "This image name is not available",
            ),
            None => match &t.path {
                None => fail(ErrorKind::UnknownBackend, "Unknown backend"),
                Some(path) => {
                    let request = Request::FileCopy { from: t.image.file.clone(), to: path.clone() };
                    ask(t, Stage::Copy, request)
                },
            },
            _ => reject(),
        },
        Stage::Fetch => match found {
            Some(Entity::Image(image)) => {
                if t.goal == Goal::Delete {
                    let Task { stage, goal, image: _, path } = t;
                    ask_backend(Task { stage, goal, image, path }, Stage::Teardown, Verb::ImageDelete)
                } else if t.goal == Goal::Get {
                    Step::Finished(Ok(Reply::Entity(Entity::Image(image))))
                } else {
                    reject()
                }
            },
            None => fail(ErrorKind::NotFound, "Image not found"),
            _ => reject(),
        },
        _ => reject(),
    }
}

fn go_done(t: Task) -> (r: Step<Task>)
    ensures
        r@ == next(t@, Response::Done),
{
    match t.stage {
        Stage::Copy => {
            let Task { stage, goal, image, path } = t;
            match path {
                Some(p) => {
                    let mut image = image;
                    image.file = p.clone();
                    let request = Request::Create(Entity::Image(image.copy()));
                    ask(Task { stage, goal, image, path: Some(p) }, Stage::Persist, request)
                },
                None => reject(),
            }
        },
        Stage::Persist => {
            if t.goal == Goal::Create {
                ask_backend(t, Stage::Backend, Verb::ImageCreate)
            } else {
                done()
            }
        },
        Stage::Remove => done(),
        _ => reject(),
    }
}

/// Goes on with an operation on an image after the host's response.
pub fn step(t: Task, response: Response) -> (r: Step<Task>)
    ensures
        r@ == next(t@, response),
{
    match response {
        Response::Failed(e) => pass(e),
        Response::Exists(found) => {
            if t.stage == Stage::Exists {
                if !found {
                    let mut message = t.image.file.clone();
                    message.append(": file not found");
                    fail(ErrorKind::Validation, message.as_str())
                } else if t.goal == Goal::Create {
                    let request = lookup(&t.image.name);
                    ask(t, Stage::Name, request)
                } else {
                    let request = Request::Update(Entity::Image(t.image.copy()));
                    ask(t, Stage::Persist, request)
                }
            } else {
                reject()
            }
        },
        Response::Entity(found) => go_entity(t, found),
        Response::Done => go_done(t),
        Response::Backend(_) => match t.stage {
            Stage::Backend => done(),
            Stage::Teardown => {
                let request = Request::Delete {
                    kind: Kind::Image,
                    name: t.image.name.clone(),
                    owner: String::new(),
                };
                ask(t, Stage::Remove, request)
            },
            _ => reject(),
        },
        _ => reject(),
    }
}

} // verus!
