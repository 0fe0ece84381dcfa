use olvm::config::{Backend, BackendImage, BackendVM, Config, Database, Global, HTTP, UDP};
use olvm::error::{Error, ErrorKind};
use olvm::host::{coerce, StatusValue};
use olvm::interface::parse_command;
use olvm::json::JsonField;
use olvm::model::{default_i32, Interface, Parameter, VM};
use olvm::remote::{classify, interpret, request};
use olvm::store::{find_interface, get_mac};

fn backend(name: &str, path: &str) -> Backend {
    Backend {
        name: name.to_string(),
        image: BackendImage { path: path.to_string(), create: None, delete: None },
        vm: BackendVM {
            create: None,
            start: None,
            stop: None,
            delete: None,
            status: None,
            snapshot_create: None,
            snapshot_restore: None,
            snapshot_delete: None,
        },
    }
}

fn config() -> Config {
    Config {
        global: Global { node: 7 },
        database: Database { host: "db".to_string(), port: 27017 },
        udp: Some(UDP { addr: "0.0.0.0:1997".to_string() }),
        http: Some(HTTP { addr: "0.0.0.0:8080".to_string() }),
        backend: vec![backend("kvm", "/srv/kvm"), backend("xen", "/srv/xen"), backend("kvm", "/other")],
    }
}

#[test]
fn config_finds_the_first_backend_of_a_name() {
    let conf = config();
    assert_eq!(conf.get_backend("kvm").unwrap().image.path.as_str(), "/srv/kvm");
    assert_eq!(conf.get_backend("xen").unwrap().image.path.as_str(), "/srv/xen");
    assert!(conf.get_backend("vbox").is_none());
    assert!(conf.get_backend("").is_none());
}

#[test]
fn config_paths() {
    let conf = config();
    assert_eq!(conf.get_image_path("xen", "base").unwrap().as_str(), "/srv/xen/base.image");
    let e = conf.get_image_path("vbox", "base").unwrap_err();
    assert_eq!(e.kind, ErrorKind::UnknownBackend);
    assert_eq!(e.message.as_str(), "Unknown backend");
    assert_eq!(
        conf.get_vm_disk("kvm", "vm1").unwrap().as_str(),
        "/var/lib/wir/olvm/vms/kvm/vm1/disk.data"
    );
    assert_eq!(
        conf.get_vm_disk("nobody", "").unwrap().as_str(),
        "/var/lib/wir/olvm/vms/nobody//disk.data"
    );
}

#[test]
fn errors_carry_class_and_message() {
    let e = Error::new(ErrorKind::Conflict, "taken");
    assert_eq!(e.kind, ErrorKind::Conflict);
    assert_eq!(e.description(), "taken");
    assert_eq!(e.to_string().as_str(), "taken");
    let e = Error::with_detail(ErrorKind::Remote, "Remote: ", "down");
    assert_eq!(e.message.as_str(), "Remote: down");
    let c = e.copy();
    assert_eq!(c.kind, ErrorKind::Remote);
    assert_eq!(c.message, e.message);
    assert_eq!(default_i32(), 0);
}

#[test]
fn parse_command_splits_at_the_first_space() {
    let (c, o) = parse_command("createvm {\"name\": \"vm1\"}\r\n".to_string());
    assert_eq!(c.as_str(), "createvm");
    assert_eq!(o.as_str(), "{\"name\": \"vm1\"}");
    let (c, o) = parse_command("  listvm  ".to_string());
    assert_eq!(c.as_str(), "listvm");
    assert_eq!(o.as_str(), "");
    let (c, o) = parse_command("getvm \t vm1  ".to_string());
    assert_eq!(c.as_str(), "getvm");
    assert_eq!(o.as_str(), "vm1");
    let (c, o) = parse_command("get\nvm vm\r1".to_string());
    assert_eq!(c.as_str(), "getvm");
    assert_eq!(o.as_str(), "vm1");
    let (c, o) = parse_command(String::new());
    assert_eq!(c.as_str(), "");
    assert_eq!(o.as_str(), "");
    let (c, o) = parse_command("a\tb c".to_string());
    assert_eq!(c.as_str(), "a\tb");
    assert_eq!(o.as_str(), "c");
}

fn vm(name: &str, macs: &[&str]) -> VM {
    VM {
        name: name.to_string(),
        node: 1,
        backend: "kvm".to_string(),
        image: String::new(),
        interfaces: macs.iter().map(|m| Interface {
            network: "net1".to_string(),
            mac: m.to_string(),
            ip: String::new(),
        }).collect(),
        parameters: Vec::new(),
    }
}

#[test]
fn get_mac_finds_the_first_holder() {
    let vms = vec![
        vm("a", &[]),
        vm("b", &["52:54:01:00:00:01", "52:54:01:00:00:02"]),
        vm("c", &["52:54:01:00:00:03", "52:54:01:00:00:02", "52:54:01:00:00:03"]),
    ];
    assert_eq!(get_mac(&vms, "52:54:01:00:00:02"), Some((1, 1)));
    assert_eq!(get_mac(&vms, "52:54:01:00:00:03"), Some((2, 0)));
    assert_eq!(get_mac(&vms, "52:54:01:00:00:01"), Some((1, 0)));
    assert_eq!(get_mac(&vms, "52:54:01:00:00:04"), None);
    assert_eq!(get_mac(&vms, "52:54:01:00:00:0"), None);
    assert_eq!(get_mac(&Vec::new(), "x"), None);
    assert_eq!(find_interface(&vms[2], "52:54:01:00:00:02"), Some(1));
    assert_eq!(find_interface(&vms[0], "52:54:01:00:00:02"), None);
}

#[test]
fn coerce_turns_true_and_false_into_flags() {
    let ps = vec![
        Parameter { key: "a".to_string(), value: "true".to_string() },
        Parameter { key: "b".to_string(), value: "false".to_string() },
        Parameter { key: "c".to_string(), value: "TRUE".to_string() },
        Parameter { key: "d".to_string(), value: "1".to_string() },
    ];
    let s = coerce(&ps);
    assert_eq!(s.len(), 4);
    assert!(matches!(s[0].value, StatusValue::Flag(true)));
    assert!(matches!(s[1].value, StatusValue::Flag(false)));
    assert!(matches!(&s[2].value, StatusValue::Text(t) if t == "TRUE"));
    assert!(matches!(&s[3].value, StatusValue::Text(t) if t == "1"));
    assert_eq!(s[3].key.as_str(), "d");
    assert!(coerce(&Vec::new()).is_empty());
}

#[test]
fn remote_request_text() {
    assert_eq!(request("status", "").as_str(), "status ");
    assert_eq!(request("createvm", "{\"name\":\"vm1\"}").as_str(), "createvm {\"name\":\"vm1\"}");
}

#[test]
fn remote_replies() {
    assert_eq!(interpret("").unwrap(), None);
    assert_eq!(interpret("\n").unwrap(), None);
    assert_eq!(interpret("{}").unwrap(), None);
    assert_eq!(interpret("{\"node\": 2}\n").unwrap(), Some("{\"node\": 2}\n".to_string()));
    let e = interpret("{\"error\": \"VM not found\"}\n").unwrap_err();
    assert_eq!(e.kind, ErrorKind::Remote);
    assert_eq!(e.message.as_str(), "Remote: VM not found");
    let e = interpret("{\"error\": \"a \\\"quoted\\\" word\"}").unwrap_err();
    assert_eq!(e.message.as_str(), "Remote: a \"quoted\" word");
    // The key may be written with an escape: it is the key that counts.
    let e = interpret("{\"\\u0065rror\": \"down\"}").unwrap_err();
    assert_eq!(e.message.as_str(), "Remote: down");
    let e = interpret("{\"error\": 5}").unwrap_err();
    assert_eq!(e.message.as_str(), "Remote sent invalid error");
    let e = interpret("{\"error\": null}").unwrap_err();
    assert_eq!(e.message.as_str(), "Remote sent invalid error");
    let e = interpret("\"error\" oops").unwrap_err();
    assert_eq!(e.message.as_str(), "JSON error");
    let e = interpret("VM not found").unwrap_err();
    assert_eq!(e.kind, ErrorKind::Remote);
    assert_eq!(e.message.as_str(), "JSON error");
}

#[test]
fn a_reply_that_only_holds_the_word_error_is_a_result() {
    for body in [
        "{\"name\":\"error\"}",
        "[\"error\"]",
        "\"error\"",
        "{\"parameters\": {\"error\": \"none\"}}",
        "[{\"error\": \"nested\"}]",
    ] {
        assert_eq!(interpret(body).unwrap(), Some(body.to_string()));
    }
}

#[test]
fn remote_classification() {
    assert!(classify("abc", JsonField::Missing).unwrap().is_some());
    assert!(classify("ab", JsonField::Invalid).unwrap().is_none());
    assert!(classify("ab", JsonField::Text("m".to_string())).unwrap().is_none());
    assert!(classify("abc", JsonField::Invalid).is_err());
    let e = classify("abc", JsonField::Text("m".to_string())).unwrap_err();
    assert_eq!(e.message.as_str(), "Remote: m");
    let e = classify("abc", JsonField::Integer(3)).unwrap_err();
    assert_eq!(e.message.as_str(), "Remote sent invalid error");
    let e = classify("abc", JsonField::Other).unwrap_err();
    assert_eq!(e.message.as_str(), "Remote sent invalid error");
}
