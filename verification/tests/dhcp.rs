use olvm::dhcp::{
    handle, parse_ipv4, receive, respond, step, DhcpOption, Exchange, Frame, Quad, Stage, Turn,
    DHCP_ACK, DHCP_DISCOVER, DHCP_OFFER, DHCP_REQUEST, OPTION_ADDRESS_LEASE_TIME,
    OPTION_DHCP_MSG_TYPE, OPTION_DOMAIN_SERVER, OPTION_ROUTER, OPTION_SUBNET_MASK,
};
use olvm::error::{Error, ErrorKind};
use olvm::host::{Entity, Kind, Request, Response};
use olvm::model::{Interface, Network, VM};

fn zero() -> Quad {
    Quad { a: 0, b: 0, c: 0, d: 0 }
}

fn request_frame(kind: u8, mac: [u8; 6]) -> Frame {
    let mut chaddr = vec![0u8; 16];
    chaddr[..6].copy_from_slice(&mac);
    Frame {
        op: 1,
        htype: 1,
        hlen: 6,
        hops: 0,
        xid: 0x3903f326,
        secs: 4,
        flags: 0x8000,
        ciaddr: zero(),
        yiaddr: zero(),
        siaddr: zero(),
        giaddr: zero(),
        chaddr,
        options: vec![
            DhcpOption { code: 55, data: vec![1, 3, 6] },
            DhcpOption { code: OPTION_DHCP_MSG_TYPE, data: vec![kind] },
        ],
    }
}

fn machine() -> VM {
    VM {
        name: "vm1".to_string(),
        node: 1,
        backend: "kvm".to_string(),
        image: String::new(),
        interfaces: vec![Interface {
            network: "net1".to_string(),
            mac: "52:54:01:aa:bb:cc".to_string(),
            ip: "10.0.0.5".to_string(),
        }],
        parameters: Vec::new(),
    }
}

fn network(router: &str, dns: &[&str]) -> Network {
    Network {
        name: "net1".to_string(),
        node: 1,
        cidr: "10.0.0.0/24".to_string(),
        bridge: "netnet1".to_string(),
        router: router.to_string(),
        dns: dns.iter().map(|d| d.to_string()).collect(),
        interface: String::new(),
    }
}

fn data_of(frame: &Frame, code: u8) -> Option<Vec<u8>> {
    frame.option(code).map(|o| o.data.clone())
}

const MAC: [u8; 6] = [0x52, 0x54, 0x01, 0xaa, 0xbb, 0xcc];

#[test]
fn discover_is_answered_with_an_offer() {
    let bytes = request_frame(DHCP_DISCOVER, MAC).to_bytes().unwrap();
    let exchange = match receive(&bytes) {
        Turn::Ask(x, Request::List { kind: Kind::Vm, owner }) => {
            assert_eq!(owner.as_str(), "");
            assert_eq!(x.frame.client_mac_string().as_str(), "52:54:01:aa:bb:cc");
            x
        },
        _ => panic!("the machines were expected"),
    };
    let exchange = match step(exchange, Response::Entities(vec![Entity::Vm(machine())])) {
        Turn::Ask(x, Request::Get { kind: Kind::Network, name, owner: _ }) => {
            assert_eq!(name.as_str(), "net1");
            assert_eq!(x.interface.ip.as_str(), "10.0.0.5");
            assert_eq!(x.interface.mac.as_str(), "52:54:01:aa:bb:cc");
            x
        },
        _ => panic!("the network was expected"),
    };
    let found = Response::Entity(Some(Entity::Network(network("10.0.0.1", &[]))));
    let sent = match step(exchange, found) {
        Turn::Broadcast(bytes) => bytes,
        _ => panic!("an answer was expected"),
    };
    let offer = Frame::parse(&sent).unwrap();
    assert_eq!(offer.op, 2);
    assert_eq!(offer.htype, 1);
    assert_eq!(offer.hlen, 6);
    assert_eq!(offer.xid, 0x3903f326);
    assert_eq!(offer.yiaddr, Quad { a: 10, b: 0, c: 0, d: 5 });
    assert_eq!(offer.siaddr, Quad { a: 192, b: 168, c: 1, d: 253 });
    assert_eq!(&offer.chaddr[..6], &MAC);
    assert_eq!(data_of(&offer, OPTION_DHCP_MSG_TYPE), Some(vec![DHCP_OFFER]));
    assert_eq!(data_of(&offer, OPTION_SUBNET_MASK), Some(vec![255, 255, 255, 0]));
    assert_eq!(data_of(&offer, OPTION_ROUTER), Some(vec![10, 0, 0, 1]));
    assert_eq!(data_of(&offer, OPTION_DOMAIN_SERVER), None);
    assert_eq!(data_of(&offer, OPTION_ADDRESS_LEASE_TIME), Some(vec![0, 1, 0x51, 0x80]));
    assert_eq!(u32::from_be_bytes([0, 1, 0x51, 0x80]), 86400);
    assert_eq!(*sent.last().unwrap(), 255);
}

#[test]
fn request_is_answered_with_an_acknowledgement() {
    let req = request_frame(DHCP_REQUEST, MAC);
    let ack = respond(&req, "10.0.0.5", "", &vec!["10.0.0.2".to_string(), "8.8.8.8".to_string()]).unwrap();
    assert_eq!(data_of(&ack, OPTION_DHCP_MSG_TYPE), Some(vec![DHCP_ACK]));
    assert_eq!(data_of(&ack, OPTION_ROUTER), None);
    assert_eq!(data_of(&ack, OPTION_DOMAIN_SERVER), Some(vec![10, 0, 0, 2]));
    let codes: Vec<u8> = ack.options.iter().map(|o| o.code).collect();
    assert_eq!(codes, vec![53, 1, 6, 51]);
    let full = respond(&req, "10.0.0.5", "10.0.0.1", &vec!["10.0.0.2".to_string()]).unwrap();
    let codes: Vec<u8> = full.options.iter().map(|o| o.code).collect();
    assert_eq!(codes, vec![53, 1, 3, 6, 51]);
}

#[test]
fn what_cannot_be_answered_is_dropped() {
    let none: Vec<String> = Vec::new();
    // Another type of message.
    assert!(respond(&request_frame(7, MAC), "10.0.0.5", "", &none).is_none());
    assert!(respond(&request_frame(DHCP_OFFER, MAC), "10.0.0.5", "", &none).is_none());
    // No type at all, or an empty one.
    let mut frame = request_frame(DHCP_DISCOVER, MAC);
    frame.options.pop();
    assert!(respond(&frame, "10.0.0.5", "", &none).is_none());
    frame.options.push(DhcpOption { code: OPTION_DHCP_MSG_TYPE, data: Vec::new() });
    assert!(respond(&frame, "10.0.0.5", "", &none).is_none());
    // Stored addresses that are none.
    let frame = request_frame(DHCP_DISCOVER, MAC);
    assert!(respond(&frame, "", "", &none).is_none());
    assert!(respond(&frame, "10.0.0.256", "", &none).is_none());
    assert!(respond(&frame, "10.0.0.5", "gateway", &none).is_none());
    assert!(respond(&frame, "10.0.0.5", "", &vec!["dns".to_string()]).is_none());
    // A first name server that is the empty text is no address either.
    assert!(respond(&frame, "10.0.0.5", "", &vec![String::new()]).is_none());
    assert!(respond(&frame, "10.0.0.5", "", &vec![String::new(), "8.8.8.8".to_string()]).is_none());
    // Only the first name server is read.
    assert!(respond(&frame, "10.0.0.5", "", &vec!["8.8.8.8".to_string(), "x".to_string()]).is_some());
    assert!(respond(&frame, "10.0.0.5", "", &none).is_some());
}

#[test]
fn an_unknown_mac_is_dropped() {
    let bytes = request_frame(DHCP_DISCOVER, [2, 0, 0, 0, 0, 1]).to_bytes().unwrap();
    let exchange = match receive(&bytes) {
        Turn::Ask(x, _) => x,
        _ => panic!("the machines were expected"),
    };
    assert!(matches!(step(exchange, Response::Entities(vec![Entity::Vm(machine())])), Turn::Drop));
}

#[test]
fn failures_of_the_host_drop_the_request() {
    let bytes = request_frame(DHCP_DISCOVER, MAC).to_bytes().unwrap();
    let exchange = match receive(&bytes) {
        Turn::Ask(x, _) => x,
        _ => panic!("the machines were expected"),
    };
    let failed = Response::Failed(Error::new(ErrorKind::Store, "down"));
    assert!(matches!(step(exchange, failed), Turn::Drop));
    let exchange = Exchange {
        stage: Stage::Resolve,
        frame: request_frame(DHCP_DISCOVER, MAC),
        interface: Interface {
            network: "net1".to_string(),
            mac: "52:54:01:aa:bb:cc".to_string(),
            ip: "10.0.0.5".to_string(),
        },
    };
    assert!(matches!(step(exchange, Response::Entity(None)), Turn::Drop));
}

#[test]
fn malformed_datagrams_are_dropped() {
    assert!(matches!(receive(&Vec::new()), Turn::Drop));
    assert!(matches!(receive(&vec![0u8; 239]), Turn::Drop));
    // No magic cookie.
    assert!(matches!(receive(&vec![0u8; 300]), Turn::Drop));
    let mut bytes = request_frame(DHCP_DISCOVER, MAC).to_bytes().unwrap();
    bytes[236] = 0;
    assert!(Frame::parse(&bytes).is_none());
    // An option that is cut short.
    let mut bytes = request_frame(DHCP_DISCOVER, MAC).to_bytes().unwrap();
    bytes.pop();
    bytes.push(53);
    assert!(Frame::parse(&bytes).is_none());
    bytes.push(4);
    bytes.push(1);
    assert!(Frame::parse(&bytes).is_none());
}

#[test]
fn frames_are_read_back_as_written() {
    let frame = request_frame(DHCP_DISCOVER, MAC);
    let bytes = frame.to_bytes().unwrap();
    assert_eq!(bytes.len(), 240 + 5 + 3 + 1);
    assert_eq!(&bytes[..12], &[1, 1, 6, 0, 0x39, 0x03, 0xf3, 0x26, 0, 4, 0x80, 0]);
    assert_eq!(&bytes[236..240], &[99, 130, 83, 99]);
    let back = Frame::parse(&bytes).unwrap();
    assert_eq!(back.xid, frame.xid);
    assert_eq!(back.secs, 4);
    assert_eq!(back.flags, 0x8000);
    assert_eq!(back.chaddr, frame.chaddr);
    assert_eq!(back.options.len(), 2);
    assert_eq!(back.options[0].code, 55);
    assert_eq!(back.options[0].data, vec![1, 3, 6]);
    assert_eq!(back.to_bytes().unwrap(), bytes);
}

#[test]
fn padding_is_skipped_and_the_end_ends() {
    let mut bytes = request_frame(DHCP_DISCOVER, MAC).to_bytes().unwrap();
    bytes.truncate(240);
    bytes.extend_from_slice(&[0, 0, 53, 1, 3, 0, 255, 1, 4]);
    let frame = Frame::parse(&bytes).unwrap();
    assert_eq!(frame.options.len(), 1);
    assert_eq!(frame.options[0].data, vec![3]);
    // A list may end without an end option.
    bytes.truncate(240);
    bytes.extend_from_slice(&[53, 1, 1]);
    assert_eq!(Frame::parse(&bytes).unwrap().options.len(), 1);
}

#[test]
fn frames_that_cannot_be_written() {
    let mut frame = request_frame(DHCP_DISCOVER, MAC);
    frame.chaddr.pop();
    assert!(!frame.is_well_formed());
    assert!(frame.to_bytes().is_none());
    let mut frame = request_frame(DHCP_DISCOVER, MAC);
    frame.options.push(DhcpOption { code: 255, data: Vec::new() });
    assert!(frame.to_bytes().is_none());
    let mut frame = request_frame(DHCP_DISCOVER, MAC);
    frame.options.push(DhcpOption { code: 12, data: vec![0; 256] });
    assert!(frame.to_bytes().is_none());
    frame.options.pop();
    frame.options.push(DhcpOption { code: 12, data: vec![7; 255] });
    assert!(frame.is_well_formed());
    assert_eq!(Frame::parse(&frame.to_bytes().unwrap()).unwrap().options[2].data.len(), 255);
}

#[test]
fn dotted_addresses() {
    assert_eq!(parse_ipv4("10.0.0.5"), Some(Quad { a: 10, b: 0, c: 0, d: 5 }));
    assert_eq!(parse_ipv4("255.255.255.255"), Some(Quad { a: 255, b: 255, c: 255, d: 255 }));
    assert_eq!(parse_ipv4("0.0.0.0"), Some(zero()));
    assert_eq!(parse_ipv4("192.168.1.253"), Some(Quad { a: 192, b: 168, c: 1, d: 253 }));
    assert_eq!(parse_ipv4("256.0.0.1"), None);
    assert_eq!(parse_ipv4("10.0.0"), None);
    assert_eq!(parse_ipv4("10.0.0.1.2"), None);
    assert_eq!(parse_ipv4("10.0.0."), None);
    assert_eq!(parse_ipv4(".0.0.1"), None);
    assert_eq!(parse_ipv4("01.0.0.1"), None);
    assert_eq!(parse_ipv4("1.0.0.0001"), None);
    assert_eq!(parse_ipv4("a.b.c.d"), None);
    assert_eq!(parse_ipv4(""), None);
    assert_eq!(parse_ipv4(" 10.0.0.1"), None);
}

#[test]
fn handle_answers_from_the_interface_and_its_network() {
    let vm = machine();
    let offer = handle(
        &request_frame(DHCP_DISCOVER, MAC),
        &vm.interfaces[0],
        &network("10.0.0.1", &[]),
    ).unwrap();
    assert_eq!(data_of(&offer, OPTION_DHCP_MSG_TYPE), Some(vec![DHCP_OFFER]));
    assert_eq!(offer.yiaddr, Quad { a: 10, b: 0, c: 0, d: 5 });
    assert_eq!(data_of(&offer, OPTION_ROUTER), Some(vec![10, 0, 0, 1]));
    assert_eq!(data_of(&offer, OPTION_SUBNET_MASK), Some(vec![255, 255, 255, 0]));
    assert_eq!(offer.xid, 0x3903f326);
    let mut other = network("10.0.0.1", &[]);
    other.cidr = "172.16.0.0/12".to_string();
    let again = handle(&request_frame(DHCP_DISCOVER, MAC), &vm.interfaces[0], &other).unwrap();
    assert_eq!(data_of(&again, OPTION_SUBNET_MASK), Some(vec![255, 255, 255, 0]));
    assert!(handle(&request_frame(9, MAC), &vm.interfaces[0], &other).is_none());
    assert!(handle(&request_frame(DHCP_DISCOVER, MAC), &vm.interfaces[0], &network("", &[""])).is_none());
}
