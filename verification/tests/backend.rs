use olvm::backend::image;
use olvm::backend::vm;
use olvm::backend::{
    from_str, is_image_verb, is_snapshot_verb, mode_of, params, script_path, step, to_string, Answer,
    Ask, Mode, Stage, Subject, Turn, Verb,
};
use olvm::config::{Backend, BackendImage, BackendVM, Config, Database, Global};
use olvm::error::{Error, ErrorKind};
use olvm::model::{Image, Parameter, VM};
use olvm::script::Output;

fn config() -> Config {
    Config {
        global: Global { node: 1 },
        database: Database { host: "h".to_string(), port: 1 },
        udp: None,
        http: None,
        backend: vec![Backend {
            name: "kvm".to_string(),
            image: BackendImage { path: "/srv".to_string(), create: None, delete: Some("/s/img-del".to_string()) },
            vm: BackendVM {
                create: Some("/s/create".to_string()),
                start: None,
                stop: None,
                delete: None,
                status: Some("/s/status".to_string()),
                snapshot_create: Some("/s/snap".to_string()),
                snapshot_restore: None,
                snapshot_delete: None,
            },
        }],
    }
}

fn machine(image: &str) -> VM {
    VM {
        name: "vm1".to_string(),
        node: 1,
        backend: "kvm".to_string(),
        image: image.to_string(),
        interfaces: Vec::new(),
        parameters: vec![Parameter { key: "k".to_string(), value: "v".to_string() }],
    }
}

fn base() -> Image {
    Image {
        name: "base".to_string(),
        backend: "kvm".to_string(),
        node: 1,
        file: "/srv/base.image".to_string(),
        parameters: Vec::new(),
    }
}

fn ok(stdout: &str) -> Answer {
    Answer::Output(Output { success: true, stdout: Some(stdout.to_string()), stderr: Some(String::new()) })
}

#[test]
fn backend_identifiers() {
    assert_eq!(from_str("kvm").unwrap(), 1);
    assert_eq!(from_str("KVM").unwrap(), 1);
    assert_eq!(from_str("Kvm").unwrap(), 1);
    let e = from_str("kVm").unwrap_err();
    assert_eq!(e.kind, ErrorKind::UnknownBackend);
    assert_eq!(e.message.as_str(), "Invalid backend");
    assert!(from_str("").is_err());
    assert_eq!(to_string(1).unwrap().as_str(), "kvm");
    assert_eq!(to_string(0).unwrap_err().message.as_str(), "Invalid backend");
    assert!(to_string(2).is_err());
}

#[test]
fn verbs_and_modes() {
    assert!(is_image_verb(Verb::ImageCreate));
    assert!(!is_image_verb(Verb::VmCreate));
    assert!(is_snapshot_verb(Verb::SnapshotRestore));
    assert!(!is_snapshot_verb(Verb::VmDelete));
    assert_eq!(mode_of(Verb::VmCreate), Mode::Merge);
    assert_eq!(mode_of(Verb::VmStart), Mode::Merge);
    assert_eq!(mode_of(Verb::ImageCreate), Mode::Merge);
    assert_eq!(mode_of(Verb::VmStatus), Mode::Report);
    assert_eq!(mode_of(Verb::VmDelete), Mode::Discard);
    assert_eq!(mode_of(Verb::SnapshotCreate), Mode::Discard);
}

#[test]
fn a_machine_without_image_goes_straight_to_the_script() {
    match vm::script_create(&config(), machine("")) {
        Turn::Ask(job, Ask::Script { path, document }) => {
            assert_eq!(path.as_str(), "/s/create");
            assert_eq!(job.stage, Stage::Running);
            assert!(document.image.is_none());
            assert!(document.snapshot.is_none());
            assert!(matches!(&document.subject, Subject::Vm(v) if v.name == "vm1"));
        },
        _ => panic!("the script was expected"),
    }
}

#[test]
fn a_machine_with_image_gets_it_resolved_first() {
    let job = match vm::script_create(&config(), machine("base")) {
        Turn::Ask(job, Ask::ImageGet(name)) => {
            assert_eq!(name.as_str(), "base");
            assert_eq!(job.stage, Stage::Resolving);
            job
        },
        _ => panic!("the image was expected"),
    };
    let job = match step(job, Answer::Image(Some(base()))) {
        Turn::Ask(job, Ask::Script { path, document }) => {
            assert_eq!(path.as_str(), "/s/create");
            assert_eq!(document.image.unwrap().file.as_str(), "/srv/base.image");
            job
        },
        _ => panic!("the script was expected"),
    };
    let job = match step(job, ok("disk /d\n")) {
        Turn::Ask(job, Ask::Update(Subject::Vm(v))) => {
            assert_eq!(v.parameters.len(), 2);
            assert_eq!(v.parameters[1].key.as_str(), "disk");
            assert_eq!(job.stage, Stage::Saving);
            job
        },
        _ => panic!("the update was expected"),
    };
    match step(job, Answer::Done) {
        Turn::Finished(Ok(outcome)) => {
            assert!(outcome.report.is_empty());
            assert!(matches!(&outcome.subject, Subject::Vm(v) if v.parameters.len() == 2));
        },
        _ => panic!("the end was expected"),
    }
}

#[test]
fn a_missing_image_fails_the_verb() {
    let job = match vm::script_create(&config(), machine("base")) {
        Turn::Ask(job, _) => job,
        _ => panic!("the image was expected"),
    };
    match step(job, Answer::Image(None)) {
        Turn::Finished(Err(e)) => {
            assert_eq!(e.kind, ErrorKind::NotFound);
            assert_eq!(e.message.as_str(), "Image not found");
        },
        _ => panic!("a failure was expected"),
    }
}

#[test]
fn empty_output_ends_without_an_update() {
    let job = match vm::script_create(&config(), machine("")) {
        Turn::Ask(job, _) => job,
        _ => panic!("the script was expected"),
    };
    match step(job, ok("")) {
        Turn::Finished(Ok(outcome)) => {
            assert!(outcome.report.is_empty());
            match outcome.subject {
                Subject::Vm(v) => {
                    assert_eq!(v.parameters.len(), 1);
                    assert_eq!(v.parameters[0].value.as_str(), "v");
                },
                _ => panic!("a machine was expected"),
            }
        },
        _ => panic!("the end was expected"),
    }
}

#[test]
fn status_reports_and_keeps_the_machine() {
    let job = match vm::script_status(&config(), machine("")) {
        Turn::Ask(job, _) => job,
        _ => panic!("the script was expected"),
    };
    match step(job, ok("running true\n")) {
        Turn::Finished(Ok(outcome)) => {
            assert_eq!(outcome.report.len(), 1);
            assert_eq!(outcome.report[0].key.as_str(), "running");
            assert!(matches!(&outcome.subject, Subject::Vm(v) if v.parameters.len() == 1));
        },
        _ => panic!("the end was expected"),
    }
}

#[test]
fn verbs_without_script_end_at_once() {
    assert!(matches!(vm::script_start(&config(), machine("base")), Turn::Finished(Ok(_))));
    assert!(matches!(vm::script_stop(&config(), machine("")), Turn::Finished(Ok(_))));
    assert!(matches!(vm::script_delete(&config(), machine("")), Turn::Finished(Ok(_))));
    assert!(matches!(vm::script_snapshot_restore(&config(), machine(""), "s"), Turn::Finished(Ok(_))));
    assert!(matches!(vm::script_snapshot_delete(&config(), machine(""), "s"), Turn::Finished(Ok(_))));
    assert!(matches!(image::script_create(&config(), base()), Turn::Finished(Ok(_))));
}

#[test]
fn snapshot_verbs_name_the_snapshot() {
    let job = match vm::script_snapshot_create(&config(), machine(""), "s1") {
        Turn::Ask(job, Ask::Script { path, document }) => {
            assert_eq!(path.as_str(), "/s/snap");
            assert_eq!(document.snapshot, Some("s1".to_string()));
            job
        },
        _ => panic!("the script was expected"),
    };
    // The parameters of a snapshot verb are dropped.
    assert!(matches!(step(job, ok("a 1\n")), Turn::Finished(Ok(o)) if o.report.is_empty()));
}

#[test]
fn image_delete_runs_its_script() {
    let job = match image::script_delete(&config(), base()) {
        Turn::Ask(job, Ask::Script { path, document }) => {
            assert_eq!(path.as_str(), "/s/img-del");
            assert!(matches!(&document.subject, Subject::Image(i) if i.name == "base"));
            job
        },
        _ => panic!("the script was expected"),
    };
    let failed = Answer::Output(Output { success: false, stdout: None, stderr: Some("busy".to_string()) });
    match step(job, failed) {
        Turn::Finished(Err(e)) => {
            assert_eq!(e.kind, ErrorKind::BackendScriptFailed);
            assert_eq!(e.message.as_str(), "script: failed: busy");
        },
        _ => panic!("a failure was expected"),
    }
}

#[test]
fn unknown_backend_and_unexpected_answers() {
    let mut vm1 = machine("");
    vm1.backend = "xen".to_string();
    match vm::script_create(&config(), vm1) {
        Turn::Finished(Err(e)) => {
            assert_eq!(e.kind, ErrorKind::UnknownBackend);
            assert_eq!(e.message.as_str(), "Invalid or unknown backend");
        },
        _ => panic!("a failure was expected"),
    }
    let job = match vm::script_create(&config(), machine("")) {
        Turn::Ask(job, _) => job,
        _ => panic!("the script was expected"),
    };
    match step(job, Answer::Done) {
        Turn::Finished(Err(e)) => assert_eq!(e.kind, ErrorKind::Unexpected),
        _ => panic!("a failure was expected"),
    }
    let job = match vm::script_create(&config(), machine("")) {
        Turn::Ask(job, _) => job,
        _ => panic!("the script was expected"),
    };
    match step(job, Answer::Failed(Error::new(ErrorKind::Store, "down"))) {
        Turn::Finished(Err(e)) => {
            assert_eq!(e.kind, ErrorKind::Store);
            assert_eq!(e.message.as_str(), "down");
        },
        _ => panic!("a failure was expected"),
    }
    match olvm::backend::begin(&config(), Verb::ImageCreate, Subject::Vm(machine("")), None) {
        Turn::Finished(Err(e)) => assert_eq!(e.kind, ErrorKind::Validation),
        _ => panic!("a failure was expected"),
    }
}

#[test]
fn params_stores_what_a_script_reported() {
    let new = vec![
        Parameter { key: "k".to_string(), value: "w".to_string() },
        Parameter { key: "n".to_string(), value: "1".to_string() },
        Parameter { key: "n".to_string(), value: "2".to_string() },
    ];
    match params(Subject::Vm(machine("")), &new) {
        Subject::Vm(v) => {
            assert_eq!(v.parameters.len(), 2);
            assert_eq!(v.parameters[0].value.as_str(), "w");
            assert_eq!(v.parameters[1].value.as_str(), "2");
        },
        _ => panic!("a machine was expected"),
    }
    match params(Subject::Image(base()), &Vec::new()) {
        Subject::Image(i) => assert!(i.parameters.is_empty()),
        _ => panic!("an image was expected"),
    }
}

#[test]
fn script_paths_follow_the_configuration() {
    let conf = config();
    let b = conf.get_backend("kvm").unwrap();
    assert_eq!(script_path(b, Verb::VmCreate), &Some("/s/create".to_string()));
    assert_eq!(script_path(b, Verb::VmStart), &None);
    assert_eq!(script_path(b, Verb::ImageDelete), &Some("/s/img-del".to_string()));
    assert_eq!(script_path(b, Verb::SnapshotCreate), &Some("/s/snap".to_string()));
}
