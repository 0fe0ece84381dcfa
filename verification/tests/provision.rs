use olvm::error::{Error, ErrorKind};
use olvm::model::{Interface, Network, VM};
use olvm::provision::{
    bridge_addif, bridge_create, bridge_delete, invocation, lists, setup, start, step, tap_create,
    tap_delete, Device, DeviceOp, Invocation, Progress,
};
use olvm::script::Output;

fn line(inv: &Invocation) -> String {
    let mut parts = vec![inv.program.clone()];
    parts.extend(inv.arguments.iter().cloned());
    parts.join(" ")
}

fn exited(success: bool, stdout: &str, stderr: &str) -> Result<Output, Error> {
    Ok(Output { success, stdout: Some(stdout.to_string()), stderr: Some(stderr.to_string()) })
}

fn next(progress: Progress) -> (Device, String) {
    match progress {
        Progress::Run(d, inv) => {
            let l = line(&inv);
            (d, l)
        },
        Progress::Finished(_) => panic!("a command was expected"),
    }
}

fn failure(progress: Progress) -> Error {
    match progress {
        Progress::Finished(Err(e)) => e,
        _ => panic!("a failure was expected"),
    }
}

#[test]
fn bridge_create_makes_a_missing_bridge() {
    let (d, inv) = start(DeviceOp::BridgeCreate { name: "netlan".to_string() });
    assert_eq!(line(&inv), "ip link show netlan");
    let (d, l) = next(step(d, exited(false, "", "does not exist")));
    assert_eq!(l, "ip link add netlan type bridge");
    let (d, l) = next(step(d, exited(true, "", "")));
    assert_eq!(l, "ip link set up dev netlan");
    assert!(matches!(step(d, exited(true, "", "")), Progress::Finished(Ok(()))));
}

#[test]
fn bridge_create_keeps_a_bridge_that_exists() {
    let (d, _) = start(DeviceOp::BridgeCreate { name: "netlan".to_string() });
    let (d, l) = next(step(d, exited(true, "5: netlan", "")));
    assert_eq!(l, "ip link set up dev netlan");
    let e = failure(step(d, exited(false, "", "denied")));
    assert_eq!(e.kind, ErrorKind::NetworkDevice);
    assert_eq!(e.message.as_str(), "Failed to set up bridge: denied");
}

#[test]
fn bridge_create_fails_when_the_bridge_cannot_be_made() {
    let (d, _) = start(DeviceOp::BridgeCreate { name: "netlan".to_string() });
    let (d, _) = next(step(d, exited(false, "", "")));
    let e = failure(step(d, exited(false, "", "denied")));
    assert_eq!(e.message.as_str(), "Failed to create bridge: denied");
    let (d, _) = start(DeviceOp::BridgeCreate { name: "netlan".to_string() });
    let (d, _) = next(step(d, exited(false, "", "")));
    let e = failure(step(d, Ok(Output { success: false, stdout: None, stderr: None })));
    assert_eq!(e.message.as_str(), "Failed to read 'ip' output as a string");
}

#[test]
fn tap_create_is_idempotent() {
    let (d, inv) = start(DeviceOp::TapCreate { name: "vmvm1.0".to_string() });
    assert_eq!(line(&inv), "ip tuntap show vmvm1.0");
    assert!(matches!(step(d, exited(true, "vmvm1.0: tap\n", "")), Progress::Finished(Ok(()))));
    let (d, _) = start(DeviceOp::TapCreate { name: "vmvm1.0".to_string() });
    let (d, l) = next(step(d, exited(true, "vmvm2.0: tap\n", "")));
    assert_eq!(l, "ip tuntap add vmvm1.0 mode tap");
    assert!(matches!(step(d, exited(true, "", "")), Progress::Finished(Ok(()))));
    let (d, _) = start(DeviceOp::TapCreate { name: "vmvm1.0".to_string() });
    let (d, _) = next(step(d, exited(false, "vmvm1.0", "")));
    let e = failure(step(d, exited(false, "", "busy")));
    assert_eq!(e.message.as_str(), "Failed to create TAP: busy");
    let (d, _) = start(DeviceOp::TapCreate { name: "vmvm1.0".to_string() });
    let e = failure(step(d, Ok(Output { success: true, stdout: None, stderr: None })));
    assert_eq!(e.message.as_str(), "Failed to read stdout as a string");
}

#[test]
fn single_command_operations() {
    let (d, inv) = start(
        DeviceOp::BridgeAttach { interface: "vmvm1.0".to_string(), bridge: "netlan".to_string() },
    );
    assert_eq!(line(&inv), "ip link set master netlan dev vmvm1.0");
    let e = failure(step(d, exited(false, "", "gone")));
    assert_eq!(e.message.as_str(), "Failed to add 'vmvm1.0' to 'netlan' bridge: gone");

    let (d, inv) = start(DeviceOp::BridgeDelete { name: "netlan".to_string() });
    assert_eq!(line(&inv), "ip link del netlan");
    let e = failure(step(d, exited(false, "", "gone")));
    assert_eq!(e.message.as_str(), "Failed to delete bridge: gone");

    let (d, inv) = start(DeviceOp::TapDelete { name: "vmvm1.0".to_string() });
    assert_eq!(line(&inv), "ip tuntap del vmvm1.0 mode tap");
    assert_eq!(line(&invocation(&d)), "ip tuntap del vmvm1.0 mode tap");
    let e = failure(step(d, exited(false, "", "gone")));
    assert_eq!(e.message.as_str(), "Failed to delete TAP: gone");

    let (d, _) = start(DeviceOp::TapDelete { name: "vmvm1.0".to_string() });
    assert!(matches!(step(d, exited(true, "", "")), Progress::Finished(Ok(()))));
}

#[test]
fn a_command_that_cannot_be_run_fails_the_operation() {
    let (d, _) = start(DeviceOp::TapDelete { name: "t".to_string() });
    let e = failure(step(d, Err(Error::new(ErrorKind::NetworkDevice, "ip: not found"))));
    assert_eq!(e.message.as_str(), "ip: not found");
}

#[test]
fn lists_finds_a_name() {
    assert!(lists("vmvm1.0: tap", "vmvm1.0"));
    assert!(lists("a vmvm1.0", "vmvm1.0"));
    assert!(!lists("vmvm1.1: tap", "vmvm1.0"));
    assert!(!lists("", "x"));
    assert!(lists("", ""));
}

#[test]
fn setup_plans_every_device() {
    let net = |name: &str, bridge: &str| Network {
        name: name.to_string(),
        node: 1,
        cidr: String::new(),
        bridge: bridge.to_string(),
        router: String::new(),
        dns: Vec::new(),
        interface: String::new(),
    };
    let vm = |name: &str, n: usize| VM {
        name: name.to_string(),
        node: 1,
        backend: "kvm".to_string(),
        image: String::new(),
        interfaces: (0..n).map(|_| Interface {
            network: "a".to_string(),
            mac: String::new(),
            ip: String::new(),
        }).collect(),
        parameters: Vec::new(),
    };
    let plan = setup(&vec![net("a", ""), net("b", "br1")], &vec![vm("x", 2), vm("y", 0), vm("z", 1)]);
    let names: Vec<String> = plan.iter().map(|op| match op {
        DeviceOp::BridgeCreate { name } => format!("bridge {}", name),
        DeviceOp::TapCreate { name } => format!("tap {}", name),
        _ => panic!("only devices are made"),
    }).collect();
    assert_eq!(names, vec!["bridge neta", "bridge br1", "tap vmx.0", "tap vmx.1", "tap vmz.0"]);
    assert!(setup(&Vec::new(), &Vec::new()).is_empty());
}

#[test]
fn named_operations_start_with_their_first_command() {
    assert_eq!(line(&bridge_create("netlan").1), "ip link show netlan");
    assert_eq!(line(&bridge_addif("eth1", "netlan").1), "ip link set master netlan dev eth1");
    assert_eq!(line(&bridge_delete("netlan").1), "ip link del netlan");
    assert_eq!(line(&tap_create("vmvm1.0").1), "ip tuntap show vmvm1.0");
    assert_eq!(line(&tap_delete("vmvm1.0").1), "ip tuntap del vmvm1.0 mode tap");
    let (d, _) = tap_create("vmvm1.0");
    assert!(matches!(d, Device::TapProbe { name } if name == "vmvm1.0"));
}
