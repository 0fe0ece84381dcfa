use olvm::backend::{self, Answer, Ask, Subject, Turn};
use olvm::config::{Backend, BackendImage, BackendVM, Config, Database, Global};
use olvm::error::{Error, ErrorKind};
use olvm::handler::{
    advance, handle, lookup, payload_for, payload_kind, CommandKind, Input, PayloadKind, Step,
};
use olvm::host::{Entity, Kind, Reply, Request, Response, StatusValue};
use olvm::model::{Image, Interface, Network, Parameter, Snapshot, VM};
use olvm::provision::DeviceOp;
use olvm::script::Output;

fn text(s: &str) -> String {
    s.to_string()
}

fn config(node: i32) -> Config {
    Config {
        global: Global { node },
        database: Database { host: text("localhost"), port: 27017 },
        udp: None,
        http: None,
        backend: vec![Backend {
            name: text("kvm"),
            image: BackendImage {
                path: text("/srv/images"),
                create: Some(text("/scripts/img-create")),
                delete: None,
            },
            vm: BackendVM {
                create: Some(text("/scripts/vm-create")),
                start: Some(text("/scripts/vm-start")),
                stop: None,
                delete: Some(text("/scripts/vm-delete")),
                status: Some(text("/scripts/vm-status")),
                snapshot_create: Some(text("/scripts/snap-create")),
                snapshot_restore: Some(text("/scripts/snap-restore")),
                snapshot_delete: Some(text("/scripts/snap-delete")),
            },
        }],
    }
}

fn interface(network: &str, mac: &str, ip: &str) -> Interface {
    Interface { network: text(network), mac: text(mac), ip: text(ip) }
}

fn machine(name: &str, image: &str, interfaces: Vec<Interface>) -> VM {
    VM {
        name: text(name),
        node: 0,
        backend: text("kvm"),
        image: text(image),
        interfaces,
        parameters: Vec::new(),
    }
}

fn network(name: &str, bridge: &str) -> Network {
    Network {
        name: text(name),
        node: 1,
        cidr: String::new(),
        bridge: text(bridge),
        router: String::new(),
        dns: Vec::new(),
        interface: String::new(),
    }
}

/// A host that keeps everything in memory.
struct World {
    images: Vec<Image>,
    vms: Vec<VM>,
    networks: Vec<Network>,
    snapshots: Vec<Snapshot>,
    taps: Vec<String>,
    bridges: Vec<String>,
    attached: Vec<(String, String)>,
    files: Vec<String>,
    copies: Vec<(String, String)>,
    /// What each script answers: path, success, stdout, stderr.
    scripts: Vec<(String, bool, String, String)>,
    /// The scripts that ran, with the name of their object, whether an
    /// image came with it, and the snapshot's name.
    ran: Vec<(String, String, bool, Option<String>)>,
    updates: usize,
    peer_node: i64,
    peer_created: Vec<VM>,
    transfers: Vec<(String, String, String)>,
    asked: Vec<String>,
}

impl World {
    fn new() -> World {
        World {
            images: Vec::new(),
            vms: Vec::new(),
            networks: Vec::new(),
            snapshots: Vec::new(),
            taps: Vec::new(),
            bridges: Vec::new(),
            attached: Vec::new(),
            files: Vec::new(),
            copies: Vec::new(),
            scripts: Vec::new(),
            ran: Vec::new(),
            updates: 0,
            peer_node: 2,
            peer_created: Vec::new(),
            transfers: Vec::new(),
            asked: Vec::new(),
        }
    }

    fn output(&self, path: &str) -> Output {
        for (p, success, stdout, stderr) in &self.scripts {
            if p == path {
                return Output {
                    success: *success,
                    stdout: Some(stdout.clone()),
                    stderr: Some(stderr.clone()),
                };
            }
        }
        Output { success: true, stdout: Some(String::new()), stderr: Some(String::new()) }
    }

    fn backend(&mut self, conf: &Config, turn: Turn) -> Response {
        let mut turn = turn;
        loop {
            match turn {
                Turn::Finished(Ok(outcome)) => return Response::Backend(outcome),
                Turn::Finished(Err(e)) => return Response::Failed(e),
                Turn::Ask(job, ask) => {
                    let answer = match ask {
                        Ask::ImageGet(name) => Answer::Image(
                            self.images.iter().find(|i| i.name == name).map(|i| i.copy()),
                        ),
                        Ask::Script { path, document } => {
                            let name = match &document.subject {
                                Subject::Image(i) => i.name.clone(),
                                Subject::Vm(v) => v.name.clone(),
                            };
                            self.ran.push((
                                path.clone(),
                                name,
                                document.image.is_some(),
                                document.snapshot.clone(),
                            ));
                            Answer::Output(self.output(&path))
                        },
                        Ask::Update(subject) => {
                            self.updates += 1;
                            match subject {
                                Subject::Image(i) => {
                                    self.images.retain(|x| x.name != i.name);
                                    self.images.push(i);
                                },
                                Subject::Vm(v) => {
                                    self.vms.retain(|x| x.name != v.name);
                                    self.vms.push(v);
                                },
                            }
                            Answer::Done
                        },
                    };
                    let _ = conf;
                    turn = backend::step(job, answer);
                },
            }
        }
    }

    fn perform(&mut self, conf: &Config, request: Request) -> Response {
        match request {
            Request::Get { kind, name, owner } => {
                self.asked.push(format!("get {:?} {}", kind, name));
                Response::Entity(match kind {
                    Kind::Image => self.images.iter().find(|x| x.name == name).map(
                        |x| Entity::Image(x.copy()),
                    ),
                    Kind::Vm => self.vms.iter().find(|x| x.name == name).map(
                        |x| Entity::Vm(x.copy()),
                    ),
                    Kind::Network => self.networks.iter().find(|x| x.name == name).map(
                        |x| Entity::Network(x.copy()),
                    ),
                    Kind::Snapshot => self.snapshots.iter().find(
                        |x| x.name == name && x.vm == owner,
                    ).map(|x| Entity::Snapshot(x.copy())),
                })
            },
            Request::List { kind, owner } => {
                self.asked.push(format!("list {:?}", kind));
                Response::Entities(match kind {
                    Kind::Image => self.images.iter().map(|x| Entity::Image(x.copy())).collect(),
                    Kind::Vm => self.vms.iter().map(|x| Entity::Vm(x.copy())).collect(),
                    Kind::Network => self.networks.iter().map(
                        |x| Entity::Network(x.copy()),
                    ).collect(),
                    Kind::Snapshot => self.snapshots.iter().filter(|x| x.vm == owner).map(
                        |x| Entity::Snapshot(x.copy()),
                    ).collect(),
                })
            },
            Request::Create(entity) => {
                self.asked.push(text("create"));
                match entity {
                    Entity::Image(x) => self.images.push(x),
                    Entity::Vm(x) => self.vms.push(x),
                    Entity::Network(x) => self.networks.push(x),
                    Entity::Snapshot(x) => self.snapshots.push(x),
                }
                Response::Done
            },
            Request::Update(entity) => {
                self.asked.push(text("update"));
                match entity {
                    Entity::Image(x) => {
                        self.images.retain(|y| y.name != x.name);
                        self.images.push(x);
                    },
                    Entity::Vm(x) => {
                        self.vms.retain(|y| y.name != x.name);
                        self.vms.push(x);
                    },
                    Entity::Network(x) => {
                        self.networks.retain(|y| y.name != x.name);
                        self.networks.push(x);
                    },
                    Entity::Snapshot(x) => {
                        self.snapshots.retain(|y| !(y.name == x.name && y.vm == x.vm));
                        self.snapshots.push(x);
                    },
                }
                Response::Done
            },
            Request::Delete { kind, name, owner } => {
                self.asked.push(format!("delete {:?} {}", kind, name));
                match kind {
                    Kind::Image => self.images.retain(|x| x.name != name),
                    Kind::Vm => self.vms.retain(|x| x.name != name),
                    Kind::Network => self.networks.retain(|x| x.name != name),
                    Kind::Snapshot => self.snapshots.retain(
                        |x| !(x.name == name && x.vm == owner),
                    ),
                }
                Response::Done
            },
            Request::FileExists(path) => {
                self.asked.push(text("exists"));
                Response::Exists(self.files.contains(&path))
            },
            Request::FileCopy { from, to } => {
                self.asked.push(text("copy"));
                self.files.push(to.clone());
                self.copies.push((from, to));
                Response::Done
            },
            Request::Device(op) => {
                self.asked.push(text("device"));
                match op {
                    DeviceOp::BridgeCreate { name } => {
                        if !self.bridges.contains(&name) {
                            self.bridges.push(name);
                        }
                    },
                    DeviceOp::BridgeAttach { interface, bridge } => {
                        if !self.bridges.contains(&bridge) {
                            return Response::Failed(
                                Error::new(ErrorKind::NetworkDevice, "no such bridge"),
                            );
                        }
                        self.attached.push((interface, bridge));
                    },
                    DeviceOp::BridgeDelete { name } => self.bridges.retain(|x| *x != name),
                    DeviceOp::TapCreate { name } => {
                        if !self.taps.contains(&name) {
                            self.taps.push(name);
                        }
                    },
                    DeviceOp::TapDelete { name } => self.taps.retain(|x| *x != name),
                }
                Response::Done
            },
            Request::Backend { verb, subject, snapshot } => {
                self.asked.push(text("backend"));
                let turn = backend::begin(conf, verb, subject, snapshot);
                self.backend(conf, turn)
            },
            Request::Remote { destination: _, command, payload } => {
                self.asked.push(format!("remote {}", command));
                if command == "status" {
                    Response::Text(format!("{{\"node\": {}, \"cpu_usage\": 1.5}}\n", self.peer_node))
                } else {
                    if let Some(vm) = payload {
                        self.peer_created.push(vm);
                    }
                    Response::Text(text("\n"))
                }
            },
            Request::Transfer { local, host, path } => {
                self.asked.push(text("transfer"));
                self.transfers.push((local, host, path));
                Response::Done
            },
            Request::HostStatus => {
                self.asked.push(text("host"));
                Response::Text(text("{\"node\":1}"))
            },
        }
    }

    fn run(&mut self, conf: &Config, cmd: &str, input: Input) -> Result<Reply, Error> {
        let mut step = handle(conf, cmd, input);
        loop {
            match step {
                Step::Finished(result) => return result,
                Step::Ask(operation, request) => {
                    let response = self.perform(conf, request);
                    step = advance(operation, response);
                },
            }
        }
    }
}

fn world_with_networks() -> World {
    let mut w = World::new();
    w.networks.push(network("net1", "netnet1"));
    w.networks.push(network("net2", "br9"));
    w.bridges.push(text("netnet1"));
    w.bridges.push(text("br9"));
    w
}

#[test]
fn create_vm_provisions_every_interface() {
    let conf = config(1);
    let mut w = world_with_networks();
    let vm = machine(
        "vm1",
        "",
        vec![interface("net1", "52:54:01:aa:bb:cc", "10.0.0.5"), interface("net2", "", "10.0.1.5")],
    );
    let reply = w.run(&conf, "createvm", Input::Vm(vm)).unwrap();
    assert!(matches!(reply, Reply::Empty));
    assert_eq!(w.taps, vec![text("vmvm1.0"), text("vmvm1.1")]);
    assert_eq!(
        w.attached,
        vec![(text("vmvm1.0"), text("netnet1")), (text("vmvm1.1"), text("br9"))]
    );
    assert_eq!(w.vms.len(), 1);
    let stored = &w.vms[0];
    assert_eq!(stored.node, 1);
    assert_eq!(stored.interfaces.len(), 2);
    assert_eq!(stored.interfaces[0].mac.as_str(), "52:54:01:aa:bb:cc");
    assert_eq!(stored.interfaces[1].mac.len(), 17);
    assert!(stored.interfaces[1].mac.starts_with("52:54:01:"));
    assert_eq!(w.ran.len(), 1);
    assert_eq!(w.ran[0].0.as_str(), "/scripts/vm-create");
}

#[test]
fn create_vm_without_interfaces_makes_no_device() {
    let conf = config(1);
    let mut w = World::new();
    w.run(&conf, "createvm", Input::Vm(machine("solo", "", Vec::new()))).unwrap();
    assert!(w.taps.is_empty());
    assert!(w.attached.is_empty());
    assert_eq!(w.vms.len(), 1);
}

#[test]
fn create_vm_with_the_same_mac_conflicts() {
    let conf = config(1);
    let mut w = world_with_networks();
    let first = machine("vm1", "", vec![interface("net1", "52:54:01:aa:bb:cc", "10.0.0.5")]);
    w.run(&conf, "createvm", Input::Vm(first)).unwrap();
    let second = machine("vm2", "", vec![interface("net1", "52:54:01:aa:bb:cc", "10.0.0.6")]);
    let e = w.run(&conf, "createvm", Input::Vm(second)).unwrap_err();
    assert_eq!(e.kind, ErrorKind::Conflict);
    assert_eq!(e.message.as_str(), "The specified 'mac' address is not available");
    assert_eq!(w.vms.len(), 1);
    assert_eq!(w.vms[0].name.as_str(), "vm1");
    assert_eq!(w.vms[0].interfaces[0].ip.as_str(), "10.0.0.5");
}

#[test]
fn create_vm_with_a_taken_name_conflicts() {
    let conf = config(1);
    let mut w = world_with_networks();
    w.run(&conf, "createvm", Input::Vm(machine("vm1", "", Vec::new()))).unwrap();
    let e = w.run(&conf, "createvm", Input::Vm(machine("vm1", "", Vec::new()))).unwrap_err();
    assert_eq!(e.kind, ErrorKind::Conflict);
    assert_eq!(e.message.as_str(), "This VM name is not available");
    assert_eq!(w.vms.len(), 1);
}

#[test]
fn create_vm_long_name_is_rejected_before_any_action() {
    let conf = config(1);
    let mut w = world_with_networks();
    let vm = machine("abcdefghijkl", "", vec![interface("net1", "", "")]);
    let e = w.run(&conf, "createvm", Input::Vm(vm)).unwrap_err();
    assert_eq!(e.kind, ErrorKind::Validation);
    assert_eq!(e.message.as_str(), "The 'name' must be less than 11 characters long");
    assert!(w.asked.is_empty());
    assert!(w.taps.is_empty());
    assert!(w.ran.is_empty());
    // Eleven characters are accepted.
    w.run(&conf, "createvm", Input::Vm(machine("abcdefghijk", "", Vec::new()))).unwrap();
}

#[test]
fn create_vm_validates_name_and_backend() {
    let conf = config(1);
    let mut w = World::new();
    let e = w.run(&conf, "createvm", Input::Vm(machine("", "", Vec::new()))).unwrap_err();
    assert_eq!(e.message.as_str(), "A 'name' is required");
    let mut vm = machine("vm1", "", Vec::new());
    vm.backend = String::new();
    let e = w.run(&conf, "createvm", Input::Vm(vm)).unwrap_err();
    assert_eq!(e.message.as_str(), "A 'backend' is required");
    assert_eq!(e.kind, ErrorKind::Validation);
    assert!(w.asked.is_empty());
}

#[test]
fn create_vm_needs_its_image_and_its_networks() {
    let conf = config(1);
    let mut w = world_with_networks();
    let e = w.run(&conf, "createvm", Input::Vm(machine("vm1", "base", Vec::new()))).unwrap_err();
    assert_eq!(e.kind, ErrorKind::NotFound);
    assert_eq!(e.message.as_str(), "Image not found");
    let vm = machine("vm1", "", vec![interface("net1", "", ""), interface("nowhere", "", "")]);
    let e = w.run(&conf, "createvm", Input::Vm(vm)).unwrap_err();
    assert_eq!(e.kind, ErrorKind::NotFound);
    assert_eq!(e.message.as_str(), "Interface: network 'nowhere' not found");
    // The first interface was provisioned before the second failed.
    assert_eq!(w.taps, vec![text("vmvm1.0")]);
    assert!(w.vms.is_empty());
}

#[test]
fn create_vm_hands_the_image_to_the_script() {
    let conf = config(1);
    let mut w = World::new();
    w.images.push(Image {
        name: text("base"),
        backend: text("kvm"),
        node: 1,
        file: text("/srv/images/base.image"),
        parameters: Vec::new(),
    });
    w.run(&conf, "createvm", Input::Vm(machine("vm1", "base", Vec::new()))).unwrap();
    assert_eq!(w.ran.len(), 1);
    assert_eq!(w.ran[0].1.as_str(), "vm1");
    assert!(w.ran[0].2);
}

#[test]
fn delete_then_recreate_gives_the_same_devices() {
    let conf = config(1);
    let mut w = world_with_networks();
    let make = || machine("vm1", "", vec![interface("net1", "", ""), interface("net2", "", "")]);
    w.run(&conf, "createvm", Input::Vm(make())).unwrap();
    let first = w.taps.clone();
    assert_eq!(first, vec![text("vmvm1.0"), text("vmvm1.1")]);
    w.run(&conf, "delvm", Input::Text(text("vm1"))).unwrap();
    assert!(w.taps.is_empty());
    assert!(w.vms.is_empty());
    w.run(&conf, "createvm", Input::Vm(make())).unwrap();
    assert_eq!(w.taps, first);
}

#[test]
fn delete_vm_removes_the_row_before_the_backend_runs() {
    let conf = config(1);
    let mut w = world_with_networks();
    w.run(&conf, "createvm", Input::Vm(machine("vm1", "", vec![interface("net1", "", "")]))).unwrap();
    w.scripts.push((text("/scripts/vm-delete"), false, String::new(), text("busy")));
    let e = w.run(&conf, "delvm", Input::Text(text("vm1"))).unwrap_err();
    assert_eq!(e.kind, ErrorKind::BackendScriptFailed);
    assert!(w.vms.is_empty());
    // The devices are left behind on this path.
    assert_eq!(w.taps, vec![text("vmvm1.0")]);
    let e = w.run(&conf, "delvm", Input::Text(text("vm1"))).unwrap_err();
    assert_eq!(e.kind, ErrorKind::NotFound);
    assert_eq!(e.message.as_str(), "VM not found");
}

#[test]
fn create_vm_script_failure_rolls_the_row_back() {
    let conf = config(1);
    let mut w = world_with_networks();
    w.scripts.push((text("/scripts/vm-create"), false, String::new(), text("disk full")));
    let vm = machine("vm1", "", vec![interface("net1", "", "")]);
    let e = w.run(&conf, "createvm", Input::Vm(vm)).unwrap_err();
    assert_eq!(e.kind, ErrorKind::BackendScriptFailed);
    assert!(e.message.contains("disk full"));
    assert_eq!(e.message.as_str(), "script: failed: disk full");
    assert!(w.vms.is_empty());
    // Known limitation: the devices that were made stay.
    assert_eq!(w.taps, vec![text("vmvm1.0")]);
}

#[test]
fn unknown_command_is_an_error() {
    let conf = config(1);
    let mut w = World::new();
    let e = w.run(&conf, "frobnicate", Input::Text(String::new())).unwrap_err();
    assert_eq!(e.kind, ErrorKind::UnknownCommand);
    assert_eq!(e.message.as_str(), "Unknown command");
    assert!(w.asked.is_empty());
    let e = w.run(&conf, "", Input::Text(String::new())).unwrap_err();
    assert_eq!(e.kind, ErrorKind::UnknownCommand);
    assert!(lookup("CREATEVM").is_none());
    assert_eq!(lookup("delsnap"), Some(CommandKind::DelSnap));
    assert_eq!(lookup("status"), Some(CommandKind::Status));
}

#[test]
fn every_command_of_the_surface_is_known() {
    let names = [
        "status", "createimg", "listimg", "getimg", "updateimg", "delimg", "createvm", "listvm",
        "getvm", "updatevm", "delvm", "startvm", "stopvm", "statusvm", "migratevm", "createnet",
        "listnet", "getnet", "updatenet", "delnet", "createsnap", "listsnap", "restoresnap",
        "delsnap",
    ];
    for name in names {
        assert!(lookup(name).is_some());
    }
    assert_eq!(payload_kind(CommandKind::CreateVm), PayloadKind::Vm);
    assert_eq!(payload_kind(CommandKind::UpdateImg), PayloadKind::Image);
    assert_eq!(payload_kind(CommandKind::CreateNet), PayloadKind::Network);
    assert_eq!(payload_kind(CommandKind::DelSnap), PayloadKind::Snapshot);
    assert_eq!(payload_kind(CommandKind::MigrateVm), PayloadKind::Text);
    assert_eq!(payload_kind(CommandKind::ListSnap), PayloadKind::Text);
}

#[test]
fn a_payload_of_the_wrong_kind_is_refused() {
    let conf = config(1);
    let mut w = World::new();
    let e = w.run(&conf, "createvm", Input::Text(text("vm1"))).unwrap_err();
    assert_eq!(e.kind, ErrorKind::Validation);
    assert_eq!(e.message.as_str(), "Invalid payload");
}

#[test]
fn empty_script_output_writes_nothing() {
    let conf = config(1);
    let mut w = World::new();
    let mut vm = machine("vm1", "", Vec::new());
    vm.parameters.push(Parameter { key: text("disk"), value: text("/a") });
    w.vms.push(vm);
    w.run(&conf, "startvm", Input::Text(text("vm1"))).unwrap();
    assert_eq!(w.ran.len(), 1);
    assert_eq!(w.updates, 0);
    assert_eq!(w.vms[0].parameters.len(), 1);
    assert_eq!(w.vms[0].parameters[0].value.as_str(), "/a");
}

#[test]
fn script_parameters_are_merged_and_saved() {
    let conf = config(1);
    let mut w = World::new();
    let mut vm = machine("vm1", "", Vec::new());
    vm.parameters.push(Parameter { key: text("disk"), value: text("/a") });
    w.vms.push(vm);
    w.scripts.push((
        text("/scripts/vm-start"),
        true,
        text("pid 12\ndisk /b\n\npid 13\r\n"),
        String::new(),
    ));
    w.run(&conf, "startvm", Input::Text(text("vm1"))).unwrap();
    assert_eq!(w.updates, 1);
    let p = &w.vms[0].parameters;
    assert_eq!(p.len(), 2);
    assert_eq!((p[0].key.as_str(), p[0].value.as_str()), ("disk", "/b"));
    assert_eq!((p[1].key.as_str(), p[1].value.as_str()), ("pid", "13"));
}

#[test]
fn a_verb_without_a_script_is_a_no_op() {
    let conf = config(1);
    let mut w = World::new();
    w.vms.push(machine("vm1", "", Vec::new()));
    w.run(&conf, "stopvm", Input::Text(text("vm1"))).unwrap();
    assert!(w.ran.is_empty());
    assert_eq!(w.updates, 0);
}

#[test]
fn an_unknown_backend_fails_the_verb() {
    let conf = config(1);
    let mut w = World::new();
    let mut vm = machine("vm1", "", Vec::new());
    vm.backend = text("xen");
    w.vms.push(vm);
    let e = w.run(&conf, "startvm", Input::Text(text("vm1"))).unwrap_err();
    assert_eq!(e.kind, ErrorKind::UnknownBackend);
    assert_eq!(e.message.as_str(), "Invalid or unknown backend");
}

#[test]
fn malformed_script_output_is_a_protocol_error() {
    let conf = config(1);
    let mut w = World::new();
    w.vms.push(machine("vm1", "", Vec::new()));
    w.scripts.push((text("/scripts/vm-start"), true, text("pid 12\nalone\n"), String::new()));
    let e = w.run(&conf, "startvm", Input::Text(text("vm1"))).unwrap_err();
    assert_eq!(e.kind, ErrorKind::BackendProtocol);
    assert_eq!(w.updates, 0);
}

#[test]
fn status_is_coerced_and_not_saved() {
    let conf = config(1);
    let mut w = World::new();
    w.vms.push(machine("vm1", "", Vec::new()));
    w.scripts.push((
        text("/scripts/vm-status"),
        true,
        text("running true\npaused false\nname vm1\nflag True\n"),
        String::new(),
    ));
    let reply = w.run(&conf, "statusvm", Input::Text(text("vm1"))).unwrap();
    match reply {
        Reply::Status(entries) => {
            assert_eq!(entries.len(), 4);
            assert_eq!(entries[0].key.as_str(), "running");
            assert!(matches!(entries[0].value, StatusValue::Flag(true)));
            assert_eq!(entries[1].key.as_str(), "paused");
            assert!(matches!(entries[1].value, StatusValue::Flag(false)));
            assert!(matches!(&entries[2].value, StatusValue::Text(t) if t == "vm1"));
            assert!(matches!(&entries[3].value, StatusValue::Text(t) if t == "True"));
        },
        _ => panic!("a status was expected"),
    }
    assert_eq!(w.updates, 0);
    assert!(w.vms[0].parameters.is_empty());
}

#[test]
fn get_and_list_hand_out_what_the_store_holds() {
    let conf = config(1);
    let mut w = world_with_networks();
    w.vms.push(machine("vm1", "", Vec::new()));
    w.vms.push(machine("vm2", "", Vec::new()));
    match w.run(&conf, "getvm", Input::Text(text("vm2"))).unwrap() {
        Reply::Entity(Entity::Vm(vm)) => assert_eq!(vm.name.as_str(), "vm2"),
        _ => panic!("a machine was expected"),
    }
    match w.run(&conf, "listvm", Input::Text(String::new())).unwrap() {
        Reply::Entities(list) => assert_eq!(list.len(), 2),
        _ => panic!("a list was expected"),
    }
    match w.run(&conf, "listnet", Input::Text(String::new())).unwrap() {
        Reply::Entities(list) => assert_eq!(list.len(), 2),
        _ => panic!("a list was expected"),
    }
    match w.run(&conf, "getnet", Input::Text(text("net2"))).unwrap() {
        Reply::Entity(Entity::Network(n)) => assert_eq!(n.bridge.as_str(), "br9"),
        _ => panic!("a network was expected"),
    }
    let e = w.run(&conf, "getimg", Input::Text(text("none"))).unwrap_err();
    assert_eq!(e.kind, ErrorKind::NotFound);
    match w.run(&conf, "status", Input::Text(String::new())).unwrap() {
        Reply::Text(t) => assert_eq!(t.as_str(), "{\"node\":1}"),
        _ => panic!("a text was expected"),
    }
}

#[test]
fn update_vm_provisions_again_and_runs_no_script() {
    let conf = config(1);
    let mut w = world_with_networks();
    w.vms.push(machine("vm1", "", Vec::new()));
    let vm = machine("vm1", "", vec![interface("net2", "", "")]);
    w.run(&conf, "updatevm", Input::Vm(vm)).unwrap();
    assert_eq!(w.taps, vec![text("vmvm1.0")]);
    assert_eq!(w.attached, vec![(text("vmvm1.0"), text("br9"))]);
    assert!(w.ran.is_empty());
    assert_eq!(w.vms.len(), 1);
    assert_eq!(w.vms[0].interfaces.len(), 1);
    assert_eq!(w.vms[0].interfaces[0].mac.len(), 17);
}

#[test]
fn image_lifecycle() {
    let conf = config(3);
    let mut w = World::new();
    w.files.push(text("/tmp/base.qcow"));
    let image = Image {
        name: text("base"),
        backend: text("kvm"),
        node: 0,
        file: text("/tmp/base.qcow"),
        parameters: Vec::new(),
    };
    w.scripts.push((text("/scripts/img-create"), true, text("format qcow2\n"), String::new()));
    w.run(&conf, "createimg", Input::Image(image.copy())).unwrap();
    assert_eq!(w.copies, vec![(text("/tmp/base.qcow"), text("/srv/images/base.image"))]);
    assert_eq!(w.images.len(), 1);
    assert_eq!(w.images[0].file.as_str(), "/srv/images/base.image");
    assert_eq!(w.images[0].node, 3);
    assert_eq!(w.images[0].parameters.len(), 1);
    assert_eq!(w.images[0].parameters[0].key.as_str(), "format");

    let e = w.run(&conf, "createimg", Input::Image(image.copy())).unwrap_err();
    assert_eq!(e.kind, ErrorKind::Conflict);
    assert_eq!(e.message.as_str(), "This image name is not available");

    w.run(&conf, "delimg", Input::Text(text("base"))).unwrap();
    assert!(w.images.is_empty());
    let e = w.run(&conf, "delimg", Input::Text(text("base"))).unwrap_err();
    assert_eq!(e.kind, ErrorKind::NotFound);
    assert_eq!(e.message.as_str(), "Image not found");
}

#[test]
fn image_validation() {
    let conf = config(1);
    let mut w = World::new();
    let make = |name: &str, backend: &str, file: &str| Image {
        name: text(name),
        backend: text(backend),
        node: 0,
        file: text(file),
        parameters: Vec::new(),
    };
    let e = w.run(&conf, "createimg", Input::Image(make("", "kvm", "/f"))).unwrap_err();
    assert_eq!(e.message.as_str(), "A 'name' is required");
    let e = w.run(&conf, "createimg", Input::Image(make("a", "", "/f"))).unwrap_err();
    assert_eq!(e.message.as_str(), "A 'backend' parameter is required");
    let e = w.run(&conf, "createimg", Input::Image(make("a", "kvm", ""))).unwrap_err();
    assert_eq!(e.message.as_str(), "A 'file' is required");
    let e = w.run(&conf, "createimg", Input::Image(make("a", "kvm", "/f"))).unwrap_err();
    assert_eq!(e.message.as_str(), "/f: file not found");
    assert_eq!(e.kind, ErrorKind::Validation);
    w.files.push(text("/f"));
    let e = w.run(&conf, "createimg", Input::Image(make("a", "xen", "/f"))).unwrap_err();
    assert_eq!(e.kind, ErrorKind::UnknownBackend);
    assert_eq!(e.message.as_str(), "Unknown backend");
    assert!(w.images.is_empty());
    w.run(&conf, "updateimg", Input::Image(make("a", "kvm", "/f"))).unwrap();
    assert_eq!(w.images.len(), 1);
    assert!(w.ran.is_empty());
}

#[test]
fn image_stays_when_its_backend_fails() {
    let conf = config(1);
    let mut w = World::new();
    w.files.push(text("/f"));
    w.scripts.push((text("/scripts/img-create"), false, String::new(), text("no space")));
    let image = Image {
        name: text("a"),
        backend: text("kvm"),
        node: 0,
        file: text("/f"),
        parameters: Vec::new(),
    };
    let e = w.run(&conf, "createimg", Input::Image(image)).unwrap_err();
    assert_eq!(e.kind, ErrorKind::BackendScriptFailed);
    // Known limitation: the image is not rolled back.
    assert_eq!(w.images.len(), 1);
}

#[test]
fn network_lifecycle() {
    let conf = config(4);
    let mut w = World::new();
    let mut net = network("lan", "");
    net.cidr = text("10.0.0.0/24");
    net.router = text("10.0.0.1");
    net.dns = vec![text("10.0.0.2"), text("8.8.8.8")];
    net.interface = text("eth1");
    w.run(&conf, "createnet", Input::Network(net)).unwrap();
    assert_eq!(w.networks.len(), 1);
    assert_eq!(w.networks[0].bridge.as_str(), "netlan");
    assert_eq!(w.networks[0].node, 4);
    assert_eq!(w.bridges, vec![text("netlan")]);
    assert_eq!(w.attached, vec![(text("eth1"), text("netlan"))]);
    w.run(&conf, "delnet", Input::Text(text("lan"))).unwrap();
    assert!(w.networks.is_empty());
    assert!(w.bridges.is_empty());
    let e = w.run(&conf, "delnet", Input::Text(text("lan"))).unwrap_err();
    assert_eq!(e.kind, ErrorKind::NotFound);
    assert_eq!(e.message.as_str(), "Network not found");
}

#[test]
fn network_validation() {
    let conf = config(1);
    let mut w = World::new();
    let e = w.run(&conf, "createnet", Input::Network(network("", ""))).unwrap_err();
    assert_eq!(e.message.as_str(), "A 'name' is required");
    let mut net = network("lan", "");
    net.cidr = text("10.0.0.0");
    let e = w.run(&conf, "createnet", Input::Network(net)).unwrap_err();
    assert_eq!(e.message.as_str(), "Invalid CIDR network address");
    let mut net = network("lan", "");
    net.router = text("router");
    let e = w.run(&conf, "createnet", Input::Network(net)).unwrap_err();
    assert_eq!(e.message.as_str(), "Invalid router IP address");
    let mut net = network("lan", "");
    net.dns = vec![text("10.0.0.2"), text("dns.example")];
    let e = w.run(&conf, "updatenet", Input::Network(net)).unwrap_err();
    assert_eq!(e.kind, ErrorKind::Validation);
    assert!(w.asked.is_empty());
    let net = network("lan", "br0");
    w.run(&conf, "updatenet", Input::Network(net)).unwrap();
    assert!(w.bridges.is_empty());
    assert_eq!(w.networks[0].bridge.as_str(), "br0");
}

#[test]
fn snapshot_lifecycle() {
    let conf = config(1);
    let mut w = World::new();
    let snap = || Snapshot { name: text("s1"), vm: text("vm1"), node: 0 };
    let e = w.run(&conf, "createsnap", Input::Snapshot(snap())).unwrap_err();
    assert_eq!(e.kind, ErrorKind::NotFound);
    assert_eq!(e.message.as_str(), "VM not found");
    w.vms.push(machine("vm1", "", Vec::new()));
    let e = w.run(&conf, "restoresnap", Input::Snapshot(snap())).unwrap_err();
    assert_eq!(e.message.as_str(), "Snapshot not found");
    w.run(&conf, "createsnap", Input::Snapshot(snap())).unwrap();
    assert_eq!(w.snapshots.len(), 1);
    assert_eq!(w.snapshots[0].node, 1);
    assert_eq!(w.ran.last().unwrap().0.as_str(), "/scripts/snap-create");
    assert_eq!(w.ran.last().unwrap().3, Some(text("s1")));
    let e = w.run(&conf, "createsnap", Input::Snapshot(snap())).unwrap_err();
    assert_eq!(e.kind, ErrorKind::Conflict);
    assert_eq!(e.message.as_str(), "This snapshot name is not available");
    match w.run(&conf, "listsnap", Input::Text(text("vm1"))).unwrap() {
        Reply::Entities(list) => assert_eq!(list.len(), 1),
        _ => panic!("a list was expected"),
    }
    w.run(&conf, "restoresnap", Input::Snapshot(snap())).unwrap();
    assert_eq!(w.ran.last().unwrap().0.as_str(), "/scripts/snap-restore");
    assert_eq!(w.snapshots.len(), 1);
    w.run(&conf, "delsnap", Input::Snapshot(snap())).unwrap();
    assert_eq!(w.ran.last().unwrap().0.as_str(), "/scripts/snap-delete");
    assert!(w.snapshots.is_empty());
}

#[test]
fn migration_moves_the_machine_to_the_peer() {
    let conf = config(1);
    let mut w = world_with_networks();
    w.run(&conf, "createvm", Input::Vm(machine("vm1", "", vec![interface("net1", "", "")]))).unwrap();
    assert_eq!(w.vms[0].node, 1);
    assert_eq!(w.taps.len(), 1);
    let request = text("{\"name\": \"vm1\", \"destination\": \"10.0.0.2:1997\"}");
    w.run(&conf, "migratevm", Input::Text(request)).unwrap();
    assert_eq!(w.peer_created.len(), 1);
    assert_eq!(w.peer_created[0].name.as_str(), "vm1");
    assert_eq!(w.peer_created[0].node, 0);
    assert_eq!(w.peer_created[0].interfaces.len(), 1);
    assert!(w.vms.is_empty());
    assert!(w.taps.is_empty());
    let disk = text("/var/lib/wir/olvm/vms/kvm/vm1/disk.data");
    assert_eq!(w.transfers, vec![(disk.clone(), text("10.0.0.2"), disk)]);
}

#[test]
fn migration_to_the_same_node_is_refused() {
    let conf = config(2);
    let mut w = World::new();
    w.vms.push(machine("vm1", "", Vec::new()));
    let request = text("{\"name\": \"vm1\", \"destination\": \"10.0.0.2:1997\"}");
    let e = w.run(&conf, "migratevm", Input::Text(request)).unwrap_err();
    assert_eq!(e.kind, ErrorKind::SameNode);
    assert_eq!(w.vms.len(), 1);
    assert!(w.peer_created.is_empty());
    assert!(w.transfers.is_empty());
}

#[test]
fn migration_validates_its_request() {
    let conf = config(1);
    let mut w = World::new();
    w.vms.push(machine("vm1", "", Vec::new()));
    let e = w.run(&conf, "migratevm", Input::Text(text("not json"))).unwrap_err();
    assert_eq!(e.message.as_str(), "JSON error");
    let e = w.run(&conf, "migratevm", Input::Text(text("{\"destination\": \"a\"}"))).unwrap_err();
    assert_eq!(e.message.as_str(), "Missing `name`");
    let e = w.run(&conf, "migratevm", Input::Text(text("{\"name\": 3}"))).unwrap_err();
    assert_eq!(e.message.as_str(), "Invalid `name`");
    let e = w.run(&conf, "migratevm", Input::Text(text("{\"name\": \"vm1\"}"))).unwrap_err();
    assert_eq!(e.message.as_str(), "Missing `destination`");
    assert!(w.asked.is_empty());
    let request = text("{\"name\": \"vm9\", \"destination\": \"10.0.0.2:1997\"}");
    let e = w.run(&conf, "migratevm", Input::Text(request)).unwrap_err();
    assert_eq!(e.kind, ErrorKind::NotFound);
    let request = text("{\"name\": \"vm1\", \"destination\": \"peer.example\"}");
    let e = w.run(&conf, "migratevm", Input::Text(request)).unwrap_err();
    assert_eq!(e.kind, ErrorKind::Validation);
    assert_eq!(e.message.as_str(), "Invalid `destination`, must be ip:port");
    assert!(w.peer_created.is_empty());
}

#[test]
fn the_payload_follows_the_command() {
    assert_eq!(payload_for("createvm"), PayloadKind::Vm);
    assert_eq!(payload_for("updateimg"), PayloadKind::Image);
    assert_eq!(payload_for("createnet"), PayloadKind::Network);
    assert_eq!(payload_for("restoresnap"), PayloadKind::Snapshot);
    assert_eq!(payload_for("delvm"), PayloadKind::Text);
    assert_eq!(payload_for("frobnicate"), PayloadKind::Text);
    assert_eq!(payload_for(""), PayloadKind::Text);
}
