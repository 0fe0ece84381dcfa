//! The backend adapter: which script a lifecycle verb runs, what document
//! the script is given, and what becomes of the parameters it reports.
//!
//! A verb is carried out as an exchange with the host. The library asks for
//! the image of a machine, for a script to be run, or for the object to be
//! saved; the host answers; the library says what comes next.

pub mod image;
pub mod vm;

use crate::config::{Backend, Config};
use crate::error::{Error, ErrorKind};
use crate::model::{
    merge_parameters, pairs_of, put_all, unique_keys, Image, ImageView, Pairs, Parameter, VmView, VM,
};
use crate::script::{
    failure_text, interpret, meaning_of, parameters_of_output, Output,
};
use crate::text::{char_len, contains_text, occurs_at, same_text};
use vstd::prelude::*;

verus! {

/// The identifier of the backend called `s`. Only `kvm` is known, in the
/// three spellings `kvm`, `KVM` and `Kvm`.
pub fn from_str(s: &str) -> (r: Result<i32, Error>)
    ensures
        match r {
            Ok(id) => id == 1 && (s@ == "kvm"@ || s@ == "KVM"@ || s@ == "Kvm"@),
            Err(e) => !(s@ == "kvm"@ || s@ == "KVM"@ || s@ == "Kvm"@) && e.kind
                == ErrorKind::UnknownBackend && e.message@ == "Invalid backend"@,
        },
{
    if same_text(s, "kvm") || same_text(s, "KVM") || same_text(s, "Kvm") {
        Ok(1)
    } else {
        Err(Error::new(ErrorKind::UnknownBackend, "Invalid backend"))
    }
}

/// The name of the backend with identifier `i`. Only identifier 1, `kvm`,
/// is known.
pub fn to_string(i: i32) -> (r: Result<String, Error>)
    ensures
        match r {
            Ok(name) => i == 1 && name@ == "kvm"@,
            Err(e) => i != 1 && e.kind == ErrorKind::UnknownBackend && e.message@
                == "Invalid backend"@,
        },
{
    if i == 1 {
        Ok(String::from_str("kvm"))
    } else {
        Err(Error::new(ErrorKind::UnknownBackend, "Invalid backend"))
    }
}

/// A lifecycle verb of an image or of a machine.
#[derive(Debug, Clone, Copy, PartialEq, Eq, Structural)]
pub enum Verb {
    ImageCreate,
    ImageDelete,
    VmCreate,
    VmStart,
    VmStop,
    VmDelete,
    VmStatus,
    SnapshotCreate,
    SnapshotRestore,
    SnapshotDelete,
}

/// What becomes of the parameters that a verb's script reports.
#[derive(Debug, Clone, Copy, PartialEq, Eq, Structural)]
pub enum Mode {
    /// They are merged into the object, which is then saved.
    Merge,
    /// They are handed to the caller; the object stays as it is.
    Report,
    /// They are dropped.
    Discard,
}

impl Verb {
    /// Whether the verb is one of an image.
    pub open spec fn of_image(self) -> bool {
        self == Verb::ImageCreate || self == Verb::ImageDelete
    }

    /// Whether the verb is one of a snapshot.
    pub open spec fn of_snapshot(self) -> bool {
        self == Verb::SnapshotCreate || self == Verb::SnapshotRestore || self
            == Verb::SnapshotDelete
    }

    /// What becomes of the parameters that the verb's script reports.
    pub open spec fn mode(self) -> Mode {
        match self {
            Verb::ImageCreate | Verb::VmCreate | Verb::VmStart | Verb::VmStop => Mode::Merge,
            Verb::VmStatus => Mode::Report,
            _ => Mode::Discard,
        }
    }

    /// The script that `backend` runs for the verb, if it has one.
    pub open spec fn path_in(self, backend: Backend) -> Option<String> {
        match self {
            Verb::ImageCreate => backend.image.create,
            Verb::ImageDelete => backend.image.delete,
            Verb::VmCreate => backend.vm.create,
            Verb::VmStart => backend.vm.start,
            Verb::VmStop => backend.vm.stop,
            Verb::VmDelete => backend.vm.delete,
            Verb::VmStatus => backend.vm.status,
            Verb::SnapshotCreate => backend.vm.snapshot_create,
            Verb::SnapshotRestore => backend.vm.snapshot_restore,
            Verb::SnapshotDelete => backend.vm.snapshot_delete,
        }
    }
}

/// Whether the verb is one of an image.
pub fn is_image_verb(verb: Verb) -> (r: bool)
    ensures
        r == verb.of_image(),
{
    match verb {
        Verb::ImageCreate | Verb::ImageDelete => true,
        _ => false,
    }
}

/// Whether the verb is one of a snapshot.
pub fn is_snapshot_verb(verb: Verb) -> (r: bool)
    ensures
        r == verb.of_snapshot(),
{
    match verb {
        Verb::SnapshotCreate | Verb::SnapshotRestore | Verb::SnapshotDelete => true,
        _ => false,
    }
}

/// What becomes of the parameters that the verb's script reports.
pub fn mode_of(verb: Verb) -> (r: Mode)
    ensures
        r == verb.mode(),
{
    match verb {
        Verb::ImageCreate | Verb::VmCreate | Verb::VmStart | Verb::VmStop => Mode::Merge,
        Verb::VmStatus => Mode::Report,
        _ => Mode::Discard,
    }
}

/// The script that `backend` runs for `verb`, if it has one.
pub fn script_path(backend: &Backend, verb: Verb) -> (r: &Option<String>)
    ensures
        *r == verb.path_in(*backend),
{
    match verb {
        Verb::ImageCreate => &backend.image.create,
        Verb::ImageDelete => &backend.image.delete,
        Verb::VmCreate => &backend.vm.create,
        Verb::VmStart => &backend.vm.start,
        Verb::VmStop => &backend.vm.stop,
        Verb::VmDelete => &backend.vm.delete,
        Verb::VmStatus => &backend.vm.status,
        Verb::SnapshotCreate => &backend.vm.snapshot_create,
        Verb::SnapshotRestore => &backend.vm.snapshot_restore,
        Verb::SnapshotDelete => &backend.vm.snapshot_delete,
    }
}

/// The object that a verb acts on.
#[derive(Debug)]
pub enum Subject {
    Image(Image),
    Vm(VM),
}

/// What a [`Subject`] is in contracts.
pub enum SubjectView {
    Image(ImageView),
    Vm(VmView),
}

impl View for Subject {
    type V = SubjectView;

    open spec fn view(&self) -> SubjectView {
        match self {
            Subject::Image(i) => SubjectView::Image(i@),
            Subject::Vm(v) => SubjectView::Vm(v@),
        }
    }
}

impl SubjectView {
    /// The name of the object's backend.
    pub open spec fn backend(self) -> Seq<char> {
        match self {
            SubjectView::Image(i) => i.backend,
            SubjectView::Vm(v) => v.backend,
        }
    }

    /// The name of the image that the object is based on; empty for none.
    pub open spec fn image(self) -> Seq<char> {
        match self {
            SubjectView::Image(i) => Seq::empty(),
            SubjectView::Vm(v) => v.image,
        }
    }

    /// The parameters of the object.
    pub open spec fn parameters(self) -> Pairs {
        match self {
            SubjectView::Image(i) => i.parameters,
            SubjectView::Vm(v) => v.parameters,
        }
    }

    /// The object with other parameters.
    pub open spec fn with_parameters(self, ps: Pairs) -> SubjectView {
        match self {
            SubjectView::Image(i) => SubjectView::Image(ImageView { parameters: ps, ..i }),
            SubjectView::Vm(v) => SubjectView::Vm(VmView { parameters: ps, ..v }),
        }
    }
}

impl Subject {
    /// A fresh copy of the object.
    pub fn copy(&self) -> (r: Subject)
        ensures
            r@ == self@,
    {
        match self {
            Subject::Image(i) => Subject::Image(i.copy()),
            Subject::Vm(v) => Subject::Vm(v.copy()),
        }
    }
}

/// What a script is given as its one argument, before it is written as
/// JSON: the object; for a machine with an image, the image in full in place
/// of its name; for a snapshot verb, the snapshot's name beside the machine.
#[derive(Debug)]
pub struct Document {
    pub subject: Subject,
    /// The image of the machine, in full.
    pub image: Option<Image>,
    /// The name of the snapshot, for a snapshot verb.
    pub snapshot: Option<String>,
}

/// What a [`Document`] is in contracts.
pub struct DocumentView {
    pub subject: SubjectView,
    pub image: Option<ImageView>,
    pub snapshot: Option<Seq<char>>,
}

impl View for Document {
    type V = DocumentView;

    open spec fn view(&self) -> DocumentView {
        DocumentView {
            subject: self.subject@,
            image: match self.image {
                Some(i) => Some(i@),
                None => None,
            },
            snapshot: match self.snapshot {
                Some(s) => Some(s@),
                None => None,
            },
        }
    }
}

/// What the adapter asks of the host.
#[derive(Debug)]
pub enum Ask {
    /// Get the image of that name from the store.
    ImageGet(String),
    /// Run the script at `path` with the document, written as JSON, as its
    /// one argument.
    Script { path: String, document: Document },
    /// Save the object, whose parameters have changed, in the store.
    Update(Subject),
}

/// What an [`Ask`] is in contracts.
pub enum AskView {
    ImageGet(Seq<char>),
    Script { path: Seq<char>, document: DocumentView },
    Update(SubjectView),
}

impl View for Ask {
    type V = AskView;

    open spec fn view(&self) -> AskView {
        match self {
            Ask::ImageGet(name) => AskView::ImageGet(name@),
            Ask::Script { path, document } => AskView::Script {
                path: path@,
                document: document@,
            },
            Ask::Update(subject) => AskView::Update(subject@),
        }
    }
}

/// What the host answers.
#[derive(Debug)]
pub enum Answer {
    /// The image asked for, or `None` when the store holds none of that name.
    Image(Option<Image>),
    /// The script has ended.
    Output(Output),
    /// The object is saved.
    Done,
    /// The host could not do what was asked.
    Failed(Error),
}

/// Where a verb stands: what it waits for.
#[derive(Debug, Clone, Copy, PartialEq, Eq, Structural)]
pub enum Stage {
    /// For the machine's image.
    Resolving,
    /// For the script to end.
    Running,
    /// For the object to be saved.
    Saving,
}

/// A verb that is being carried out.
#[derive(Debug)]
pub struct Job {
    pub verb: Verb,
    pub subject: Subject,
    /// The name of the snapshot, for a snapshot verb.
    pub snapshot: Option<String>,
    /// The script of the verb.
    pub path: String,
    pub stage: Stage,
}

/// What a [`Job`] is in contracts.
pub struct JobView {
    pub verb: Verb,
    pub subject: SubjectView,
    pub snapshot: Option<Seq<char>>,
    pub path: Seq<char>,
    pub stage: Stage,
}

impl View for Job {
    type V = JobView;

    open spec fn view(&self) -> JobView {
        JobView {
            verb: self.verb,
            subject: self.subject@,
            snapshot: match self.snapshot {
                Some(s) => Some(s@),
                None => None,
            },
            path: self.path@,
            stage: self.stage,
        }
    }
}

/// How a verb ended well: the object, with the script's parameters merged
/// into it where the verb keeps them, and the parameters that the verb
/// reports to its caller.
#[derive(Debug)]
pub struct Outcome {
    pub subject: Subject,
    pub report: Vec<Parameter>,
}

/// What an [`Outcome`] is in contracts.
pub struct OutcomeView {
    pub subject: SubjectView,
    pub report: Pairs,
}

impl View for Outcome {
    type V = OutcomeView;

    open spec fn view(&self) -> OutcomeView {
        OutcomeView { subject: self.subject@, report: pairs_of(self.report@) }
    }
}

/// What the library tells the host.
#[derive(Debug)]
pub enum Turn {
    /// Do this and answer with the new state.
    Ask(Job, Ask),
    /// The verb has ended.
    Finished(Result<Outcome, Error>),
}

/// What a [`Turn`] is in contracts.
pub enum TurnView {
    Ask(JobView, AskView),
    Done(OutcomeView),
    Failed(ErrorKind, Seq<char>),
}

impl View for Turn {
    type V = TurnView;

    open spec fn view(&self) -> TurnView {
        match self {
            Turn::Ask(job, ask) => TurnView::Ask(job@, ask@),
            Turn::Finished(Ok(o)) => TurnView::Done(o@),
            Turn::Finished(Err(e)) => TurnView::Failed(e.kind, e.message@),
        }
    }
}

/// The request to run the script of a job on its object, with `image` in
/// place of the image's name.
pub open spec fn run_script(job: JobView, image: Option<ImageView>) -> TurnView {
    TurnView::Ask(
        JobView { stage: Stage::Running, ..job },
        AskView::Script {
            path: job.path,
            document: DocumentView { subject: job.subject, image, snapshot: job.snapshot },
        },
    )
}

/// How a verb on an object starts: it fails when the object's backend is
/// not configured or when an image verb is given a machine or the reverse,
/// ends at once when the backend has no script for the verb, asks for the
/// image of a machine that has one, and else asks for the script to be run.
pub open spec fn opening(
    conf: Config,
    verb: Verb,
    subject: SubjectView,
    snapshot: Option<Seq<char>>,
) -> TurnView {
    if verb.of_image() != (subject is Image) {
        TurnView::Failed(ErrorKind::Validation, "The verb does not apply to the object"@)
    } else if !conf.has_backend(subject.backend()) {
        TurnView::Failed(ErrorKind::UnknownBackend, "Invalid or unknown backend"@)
    } else {
        match verb.path_in(conf.backend_named(subject.backend())) {
            None => TurnView::Done(OutcomeView { subject, report: Seq::empty() }),
            Some(path) => {
                let job = JobView {
                    verb,
                    subject,
                    snapshot: if verb.of_snapshot() {
                        snapshot
                    } else {
                        None
                    },
                    path: path@,
                    stage: Stage::Resolving,
                };
                if subject.image().len() > 0 {
                    TurnView::Ask(job, AskView::ImageGet(subject.image()))
                } else {
                    run_script(job, None)
                }
            },
        }
    }
}

/// How a verb goes on after an answer.
///
/// While it waits for the image: the script is asked for once the image is
/// there, and the verb fails when the store holds no such image. While it
/// waits for the script: an exit status other than zero and malformed output
/// fail the verb; else the parameters are reported, or merged into the
/// object, which is then saved unless there are none, or dropped, as the
/// verb has it. While it waits for the object to be saved: the verb ends.
/// A failure of the host fails the verb with the host's error, and so does
/// an answer of a kind that the state does not wait for.
pub open spec fn reply(job: JobView, answer: Answer) -> TurnView {
    match answer {
        Answer::Failed(e) => TurnView::Failed(e.kind, e.message@),
        Answer::Image(found) => if job.stage == Stage::Resolving {
            match found {
                Some(image) => run_script(job, Some(image@)),
                None => TurnView::Failed(ErrorKind::NotFound, "Image not found"@),
            }
        } else {
            TurnView::Failed(ErrorKind::Unexpected, "Unexpected response"@)
        },
        Answer::Output(output) => if job.stage == Stage::Running {
            match meaning_of(output) {
                Err((kind, message)) => TurnView::Failed(kind, message),
                Ok(ps) => match job.verb.mode() {
                    Mode::Report => TurnView::Done(
                        OutcomeView { subject: job.subject, report: ps },
                    ),
                    Mode::Discard => TurnView::Done(
                        OutcomeView { subject: job.subject, report: Seq::empty() },
                    ),
                    Mode::Merge => if ps.len() == 0 {
                        TurnView::Done(OutcomeView { subject: job.subject, report: Seq::empty() })
                    } else {
                        let merged = job.subject.with_parameters(
                            put_all(job.subject.parameters(), ps),
                        );
                        TurnView::Ask(
                            JobView { stage: Stage::Saving, subject: merged, ..job },
                            AskView::Update(merged),
                        )
                    },
                },
            }
        } else {
            TurnView::Failed(ErrorKind::Unexpected, "Unexpected response"@)
        },
        Answer::Done => if job.stage == Stage::Saving {
            TurnView::Done(OutcomeView { subject: job.subject, report: Seq::empty() })
        } else {
            TurnView::Failed(ErrorKind::Unexpected, "Unexpected response"@)
        },
    }
}

fn copy_name(o: &Option<String>) -> (r: Option<String>)
    ensures
        r == *o,
{
    match o {
        Some(s) => Some(s.clone()),
        None => None,
    }
}

fn ask_script(job: Job, image: Option<Image>) -> (r: Turn)
    ensures
        r@ == run_script(
            job@,
            match image {
                Some(i) => Some(i@),
                None => None,
            },
        ),
{
    let document = Document {
        subject: job.subject.copy(),
        image,
        snapshot: copy_name(&job.snapshot),
    };
    let path = job.path.clone();
    let next = Job { stage: Stage::Running, ..job };
    Turn::Ask(next, Ask::Script { path, document })
}

fn unexpected() -> (r: Turn)
    ensures
        r@ == TurnView::Failed(ErrorKind::Unexpected, "Unexpected response"@),
{
    Turn::Finished(Err(Error::new(ErrorKind::Unexpected, "Unexpected response")))
}

fn done(subject: Subject, report: Vec<Parameter>) -> (r: Turn)
    ensures
        r@ == TurnView::Done(OutcomeView { subject: subject@, report: pairs_of(report@) }),
{
    Turn::Finished(Ok(Outcome { subject, report }))
}

fn no_parameters() -> (r: Vec<Parameter>)
    ensures
        pairs_of(r@) == Seq::<(Seq<char>, Seq<char>)>::empty(),
{
    let r: Vec<Parameter> = Vec::new();
    assert(pairs_of(r@) =~= Seq::<(Seq<char>, Seq<char>)>::empty());
    r
}

fn image_name_len(subject: &Subject) -> (n: usize)
    ensures
        n == subject@.image().len(),
{
    match subject {
        Subject::Image(_) => 0,
        Subject::Vm(v) => char_len(v.image.as_str()),
    }
}

/// The object with the parameters that a script reported stored in it:
/// each is set in turn, so that a later one wins over an earlier one and
/// over what the object held. An object with one parameter per key stays
/// one.
pub fn params(subject: Subject, ps: &Vec<Parameter>) -> (r: Subject)
    ensures
        r@ == subject@.with_parameters(put_all(subject@.parameters(), pairs_of(ps@))),
        unique_keys(subject@.parameters()) ==> unique_keys(r@.parameters()),
{
    match subject {
        Subject::Image(i) => {
            let mut i = i;
            merge_parameters(&mut i.parameters, ps);
            Subject::Image(i)
        },
        Subject::Vm(v) => {
            let mut v = v;
            merge_parameters(&mut v.parameters, ps);
            Subject::Vm(v)
        },
    }
}

/// Starts a verb on an object. `snapshot` is the snapshot's name; it is
/// used by the snapshot verbs only.
pub fn begin(conf: &Config, verb: Verb, subject: Subject, snapshot: Option<String>) -> (r: Turn)
    ensures
        r@ == opening(
            *conf,
            verb,
            subject@,
            match snapshot {
                Some(s) => Some(s@),
                None => None,
            },
        ),
{
    let on_image = match &subject {
        Subject::Image(_) => true,
        Subject::Vm(_) => false,
    };
    if is_image_verb(verb) != on_image {
        return Turn::Finished(
            Err(Error::new(ErrorKind::Validation, "The verb does not apply to the object")),
        );
    }
    let found = match &subject {
        Subject::Image(i) => conf.get_backend(i.backend.as_str()),
        Subject::Vm(v) => conf.get_backend(v.backend.as_str()),
    };
    let backend = match found {
        None => {
            return Turn::Finished(
                Err(Error::new(ErrorKind::UnknownBackend, "Invalid or unknown backend")),
            );
        },
        Some(b) => b,
    };
    match script_path(backend, verb) {
        None => done(subject, no_parameters()),
        Some(path) => {
            let kept = if is_snapshot_verb(verb) {
                snapshot
            } else {
                None
            };
            let wanted = image_name_len(&subject);
            let image_name = match &subject {
                Subject::Image(_) => String::new(),
                Subject::Vm(v) => v.image.clone(),
            };
            let job = Job {
                verb,
                subject,
                snapshot: kept,
                path: path.clone(),
                stage: Stage::Resolving,
            };
            if wanted > 0 {
                Turn::Ask(job, Ask::ImageGet(image_name))
            } else {
                ask_script(job, None)
            }
        },
    }
}

/// Goes on with a verb after the host's answer.
pub fn step(job: Job, answer: Answer) -> (r: Turn)
    ensures
        r@ == reply(job@, answer),
{
    match answer {
        Answer::Failed(e) => Turn::Finished(Err(e)),
        Answer::Image(found) => {
            if job.stage == Stage::Resolving {
                match found {
                    Some(image) => ask_script(job, Some(image)),
                    None => Turn::Finished(
                        Err(Error::new(ErrorKind::NotFound, "Image not found")),
                    ),
                }
            } else {
                unexpected()
            }
        },
        Answer::Output(output) => {
            if job.stage == Stage::Running {
                match interpret(&output) {
                    Err(e) => Turn::Finished(Err(e)),
                    Ok(ps) => match mode_of(job.verb) {
                        Mode::Report => done(job.subject, ps),
                        Mode::Discard => done(job.subject, no_parameters()),
                        Mode::Merge => {
                            if ps.len() == 0 {
                                done(job.subject, no_parameters())
                            } else {
                                let Job { verb, subject, snapshot, path, stage } = job;
                                let subject = params(subject, &ps);
                                let saved = subject.copy();
                                Turn::Ask(
                                    Job { verb, subject, snapshot, path, stage: Stage::Saving },
                                    Ask::Update(saved),
                                )
                            }
                        },
                    },
                }
            } else {
                unexpected()
            }
        },
        Answer::Done => {
            if job.stage == Stage::Saving {
                done(job.subject, no_parameters())
            } else {
                unexpected()
            }
        },
    }
}

/// A verb whose script ends well and reports no parameter, as one that
/// writes nothing does, ends at once: the object is as it was, and the host
/// is not asked to save it.
pub proof fn law_empty_output_changes_nothing(job: JobView, output: Output)
    requires
        job.stage == Stage::Running,
        output.success,
        output.stdout matches Some(text) && (text@.len() == 0 || parameters_of_output(text@)
            == Some(Seq::<(Seq<char>, Seq<char>)>::empty())),
    ensures
        reply(job, Answer::Output(output)) == TurnView::Done(
            OutcomeView { subject: job.subject, report: Seq::empty() },
        ),
        put_all(job.subject.parameters(), Seq::empty()) == job.subject.parameters(),
{
}

/// A verb whose script ends with a status other than zero fails with an
/// error of the class of failed scripts whose message holds what the script
/// wrote to its standard error; nothing is merged and nothing is saved.
pub proof fn law_failed_script_reports_stderr(job: JobView, output: Output)
    requires
        job.stage == Stage::Running,
        !output.success,
        output.stderr is Some,
    ensures
        reply(job, Answer::Output(output)) == TurnView::Failed(
            ErrorKind::BackendScriptFailed,
            failure_text(output.stderr->0@),
        ),
        contains_text(failure_text(output.stderr->0@), output.stderr->0@),
{
    let reason = output.stderr->0@;
    let whole = failure_text(reason);
    let at = "script: failed: "@.len() as int;
    assert(whole.subrange(at, at + reason.len()) =~= reason);
    assert(occurs_at(whole, reason, at));
}

} // verus!
