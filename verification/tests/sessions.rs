use std::collections::HashMap;

use tap_helper::address::Ipv4;
use tap_helper::error::{Call, Category, Error};
use tap_helper::outcome::{Outcome, SetupStep};
use tap_helper::privilege::Caller;
use tap_helper::protocol::{Action, Entry, Reply, Request};
use tap_helper::request::IFF_UP;
use tap_helper::session::{Command, Session, Turn};

const EPERM: i32 = 1;
const EBUSY: i32 = 16;
const EEXIST: i32 = 17;
const ENODEV: i32 = 19;

const PRIVILEGED: &str = "Name:\thelper\nCapEff:\t0000000000001000\n";
const UNPRIVILEGED: &str = "Name:\thelper\nCapEff:\t0000000000000000\n";

#[derive(Clone, Debug, PartialEq)]
struct Link {
    bridge: bool,
    persistent: bool,
    flags: i16,
    address: Option<Ipv4>,
    netmask: Option<Ipv4>,
    master: Option<String>,
    index: i32,
    owner: Option<u32>,
    group: Option<u32>,
}

/// A kernel that does what the calls say, and fails where it is told to.
struct Kernel {
    status: Option<String>,
    links: HashMap<String, Link>,
    handles: HashMap<i32, Option<String>>,
    next_fd: i32,
    next_index: i32,
    failing: HashMap<u64, i32>,
    tun_fails: Option<i32>,
    socket_fails: Option<i32>,
    command_fails: bool,
    log: Vec<String>,
}

impl Kernel {
    fn new() -> Kernel {
        Kernel {
            status: Some(PRIVILEGED.to_string()),
            links: HashMap::new(),
            handles: HashMap::new(),
            next_fd: 3,
            next_index: 2,
            failing: HashMap::new(),
            tun_fails: None,
            socket_fails: None,
            command_fails: false,
            log: Vec::new(),
        }
    }

    fn with_bridge(name: &str) -> Kernel {
        let mut kernel = Kernel::new();
        kernel.add_link(name, true);
        kernel
    }

    fn add_link(&mut self, name: &str, bridge: bool) {
        let index = self.next_index;
        self.next_index += 1;
        self.links.insert(
            name.to_string(),
            Link {
                bridge,
                persistent: true,
                flags: 0x1002,
                address: None,
                netmask: None,
                master: None,
                index,
                owner: None,
                group: None,
            },
        );
    }

    fn open(&mut self) -> Reply {
        let fd = self.next_fd;
        self.next_fd += 1;
        self.handles.insert(fd, None);
        Reply::Opened { fd }
    }

    fn bound(&self, fd: i32) -> Option<String> {
        match self.handles.get(&fd) {
            Some(Some(name)) if self.links.contains_key(name) => Some(name.clone()),
            _ => None,
        }
    }

    fn control(&mut self, fd: i32, request: &Request) -> Reply {
        if let Some(errno) = self.failing.get(&request.code()) {
            return Reply::Failed { errno: *errno };
        }
        if !self.handles.contains_key(&fd) {
            return Reply::Failed { errno: 9 };
        }
        match request {
            Request::TunSetIff { name, .. } => {
                let name = name.as_str().to_string();
                if !self.links.contains_key(&name) {
                    self.add_link(&name, false);
                    let link = self.links.get_mut(&name).unwrap();
                    link.persistent = false;
                    link.flags = 0x1002;
                } else if self.links[&name].bridge {
                    return Reply::Failed { errno: 22 };
                }
                self.handles.insert(fd, Some(name));
                Reply::Done
            }
            Request::TunSetOwner { uid } => match self.bound(fd) {
                Some(name) => {
                    self.links.get_mut(&name).unwrap().owner = Some(*uid);
                    Reply::Done
                }
                None => Reply::Failed { errno: 77 },
            },
            Request::TunSetGroup { gid } => match self.bound(fd) {
                Some(name) => {
                    self.links.get_mut(&name).unwrap().group = Some(*gid);
                    Reply::Done
                }
                None => Reply::Failed { errno: 77 },
            },
            Request::TunSetPersist { on } => match self.bound(fd) {
                Some(name) => {
                    self.links.get_mut(&name).unwrap().persistent = *on;
                    Reply::Done
                }
                None => Reply::Failed { errno: 77 },
            },
            Request::BridgeAdd { name } => {
                if self.links.contains_key(name.as_str()) {
                    Reply::Failed { errno: EEXIST }
                } else {
                    self.add_link(name.as_str(), true);
                    self.links.get_mut(name.as_str()).unwrap().flags = 0x1002;
                    Reply::Done
                }
            }
            Request::BridgeAddIf { bridge, index } => {
                if !self.links.contains_key(bridge.as_str()) {
                    return Reply::Failed { errno: ENODEV };
                }
                let mut found = false;
                for link in self.links.values_mut() {
                    if link.index == *index {
                        link.master = Some(bridge.as_str().to_string());
                        found = true;
                    }
                }
                if found {
                    Reply::Done
                } else {
                    Reply::Failed { errno: ENODEV }
                }
            }
            Request::GetFlags { name } => match self.links.get(name.as_str()) {
                Some(link) => Reply::Flags { flags: link.flags },
                None => Reply::Failed { errno: ENODEV },
            },
            Request::SetFlags { name, flags } => match self.links.get_mut(name.as_str()) {
                Some(link) => {
                    link.flags = *flags;
                    Reply::Done
                }
                None => Reply::Failed { errno: ENODEV },
            },
            Request::SetAddress { name, address } => match self.links.get_mut(name.as_str()) {
                Some(link) => {
                    link.address = Some(*address);
                    Reply::Done
                }
                None => Reply::Failed { errno: ENODEV },
            },
            Request::SetNetmask { name, mask } => match self.links.get_mut(name.as_str()) {
                Some(link) => {
                    link.netmask = Some(*mask);
                    Reply::Done
                }
                None => Reply::Failed { errno: ENODEV },
            },
        }
    }

    fn perform(&mut self, action: &Action) -> Reply {
        self.log.push(describe(action));
        match action {
            Action::ReadStatus => match &self.status {
                Some(text) => Reply::Contents { text: text.clone() },
                None => Reply::Unreadable { reason: "No such file or directory (os error 2)".to_string() },
            },
            Action::Probe { name, .. } => Reply::Present { present: self.links.contains_key(name.as_str()) },
            Action::ReadIndex { name } => match self.links.get(name.as_str()) {
                Some(link) => Reply::Contents { text: format!("{}\n", link.index) },
                None => Reply::Unreadable { reason: "No such file or directory (os error 2)".to_string() },
            },
            Action::OpenTun { .. } => match self.tun_fails {
                Some(errno) => Reply::Failed { errno },
                None => self.open(),
            },
            Action::OpenSocket => match self.socket_fails {
                Some(errno) => Reply::Failed { errno },
                None => self.open(),
            },
            Action::Control { fd, request } => self.control(*fd, request),
            Action::Close { fd } => {
                if let Some(name) = self.bound(*fd) {
                    if !self.links[&name].persistent {
                        self.links.remove(&name);
                    }
                }
                match self.handles.remove(fd) {
                    Some(_) => Reply::Done,
                    None => Reply::Failed { errno: 9 },
                }
            }
            Action::LinkDelete { name } => {
                if self.command_fails {
                    Reply::Exited { success: false, stderr: "RTNETLINK answers: Operation not permitted\n".to_string() }
                } else if self.links.remove(name.as_str()).is_some() {
                    Reply::Exited { success: true, stderr: String::new() }
                } else {
                    Reply::Exited { success: false, stderr: "Cannot find device\n".to_string() }
                }
            }
        }
    }
}

fn describe(action: &Action) -> String {
    match action {
        Action::ReadStatus => "status".to_string(),
        Action::Probe { name, entry: Entry::Link } => format!("probe {}", name.as_str()),
        Action::Probe { name, entry: Entry::OperState } => format!("probe {}/operstate", name.as_str()),
        Action::ReadIndex { name } => format!("index {}", name.as_str()),
        Action::OpenTun { cloexec } => format!("tun cloexec={}", cloexec),
        Action::OpenSocket => "socket".to_string(),
        Action::Control { request, .. } => match request {
            Request::TunSetIff { name, flags } => format!("setiff {} {:#x}", name.as_str(), flags),
            Request::TunSetOwner { uid } => format!("setowner {}", uid),
            Request::TunSetGroup { gid } => format!("setgroup {}", gid),
            Request::TunSetPersist { on } => format!("persist {}", on),
            Request::BridgeAdd { name } => format!("addbr {}", name.as_str()),
            Request::BridgeAddIf { bridge, index } => format!("addif {} {}", bridge.as_str(), index),
            Request::GetFlags { name } => format!("getflags {}", name.as_str()),
            Request::SetFlags { name, flags } => format!("setflags {} {:#x}", name.as_str(), flags),
            Request::SetAddress { name, address } => {
                format!("setaddr {} {}.{}.{}.{}", name.as_str(), address.a, address.b, address.c, address.d)
            }
            Request::SetNetmask { name, mask } => {
                format!("setmask {} {}.{}.{}.{}", name.as_str(), mask.a, mask.b, mask.c, mask.d)
            }
        },
        Action::Close { .. } => "close".to_string(),
        Action::LinkDelete { name } => format!("ip link delete {}", name.as_str()),
    }
}

fn caller() -> Caller {
    Caller { uid: 1000, gid: 100 }
}

fn drive(kernel: &mut Kernel, command: Command) -> Outcome {
    let mut turn = Session::start(command, caller());
    for _ in 0..100 {
        match turn {
            Turn::Exit { outcome } => return outcome,
            Turn::Continue { session } => {
                let action = session.action();
                let reply = kernel.perform(&action);
                assert!(session.accepts(&reply));
                turn = session.step(reply);
            }
        }
    }
    panic!("the session did not end");
}

fn create(name: &str, bridge: &str) -> Command {
    Command::Create {
        name: name.to_string(),
        bridge: bridge.to_string(),
        owner_uid: None,
        owner_gid: None,
        format: "json".to_string(),
    }
}

fn create_text(name: &str, bridge: &str) -> Command {
    Command::Create {
        name: name.to_string(),
        bridge: bridge.to_string(),
        owner_uid: Some(7),
        owner_gid: Some(8),
        format: "text".to_string(),
    }
}

fn setup(name: &str, ip: &str) -> Command {
    Command::SetupBridge { name: name.to_string(), ip: ip.to_string() }
}

fn delete(name: &str) -> Command {
    Command::Delete { name: name.to_string() }
}

#[test]
fn create_attaches_and_brings_up() {
    let mut kernel = Kernel::with_bridge("br0");
    let outcome = drive(&mut kernel, create("tap0", "br0"));
    assert_eq!(outcome.exit_code(), 0);
    let printed = outcome.printed();
    assert_eq!(printed.stdout, "{\"success\":true,\"tap_name\":\"tap0\"}");
    assert_eq!(printed.stderr, "");
    assert!(outcome.rollback_note().is_none());
    let tap = &kernel.links["tap0"];
    assert!(tap.persistent);
    assert!(!tap.bridge);
    assert_eq!(tap.master.as_deref(), Some("br0"));
    assert_eq!(tap.flags & IFF_UP, IFF_UP);
    assert_eq!(tap.flags, 0x1003);
    assert_eq!(tap.owner, Some(1000));
    assert_eq!(tap.group, Some(100));
    assert!(kernel.handles.is_empty());
    assert_eq!(
        kernel.log,
        vec![
            "status",
            "probe tap0",
            "tun cloexec=true",
            "setiff tap0 0x5002",
            "setowner 1000",
            "setgroup 100",
            "persist true",
            "close",
            "probe br0",
            "index tap0",
            "socket",
            "addif br0 3",
            "close",
            "socket",
            "getflags tap0",
            "setflags tap0 0x1003",
            "close",
        ]
    );
}

#[test]
fn create_in_text_format_with_owner() {
    let mut kernel = Kernel::with_bridge("br0");
    let outcome = drive(&mut kernel, create_text("tap0", "br0"));
    assert_eq!(outcome.exit_code(), 0);
    assert_eq!(outcome.printed().stdout, "Created TAP device: tap0");
    assert_eq!(kernel.links["tap0"].owner, Some(7));
    assert_eq!(kernel.links["tap0"].group, Some(8));
}

#[test]
fn create_rolls_back_when_bridge_is_missing() {
    let mut kernel = Kernel::new();
    let outcome = drive(&mut kernel, create("tap0", "br-missing"));
    assert_eq!(outcome.exit_code(), 1);
    let printed = outcome.printed();
    assert_eq!(
        printed.stdout,
        "{\"success\":false,\"error\":\"Bridge 'br-missing' does not exist\"}"
    );
    assert_eq!(printed.stderr, "");
    assert!(outcome.rollback_note().is_none());
    assert!(!kernel.links.contains_key("tap0"));
    assert!(kernel.handles.is_empty());
    assert_eq!(
        kernel.log,
        vec![
            "status",
            "probe tap0",
            "tun cloexec=true",
            "setiff tap0 0x5002",
            "setowner 1000",
            "setgroup 100",
            "persist true",
            "close",
            "probe br-missing",
            "probe tap0/operstate",
            "tun cloexec=false",
            "setiff tap0 0x1002",
            "persist false",
            "close",
        ]
    );
    match outcome {
        Outcome::NotCreated { error, json, rollback } => {
            assert!(json);
            assert!(rollback.is_none());
            assert_eq!(error.category(), Category::Precondition);
            assert!(matches!(error, Error::NoBridge { .. }));
        }
        _ => panic!("wrong outcome"),
    }
}

#[test]
fn create_rolls_back_when_attach_fails() {
    let mut kernel = Kernel::with_bridge("br0");
    kernel.failing.insert(0x89a2, EBUSY);
    let outcome = drive(&mut kernel, create_text("tap0", "br0"));
    assert_eq!(outcome.exit_code(), 1);
    let printed = outcome.printed();
    assert_eq!(printed.stdout, "");
    assert_eq!(
        printed.stderr,
        "Error: Failed to add TAP to bridge: EBUSY: Device or resource busy"
    );
    assert!(!kernel.links.contains_key("tap0"));
    assert!(kernel.links.contains_key("br0"));
    assert!(kernel.handles.is_empty());
}

#[test]
fn create_rolls_back_when_bring_up_fails() {
    for code in [0x8913u64, 0x8914u64] {
        let mut kernel = Kernel::with_bridge("br0");
        kernel.failing.insert(code, EPERM);
        let outcome = drive(&mut kernel, create_text("tap0", "br0"));
        assert_eq!(outcome.exit_code(), 1);
        let expected = if code == 0x8913 {
            "Error: Failed to get interface flags: EPERM: Operation not permitted"
        } else {
            "Error: Failed to bring up interface: EPERM: Operation not permitted"
        };
        assert_eq!(outcome.printed().stderr, expected);
        assert!(!kernel.links.contains_key("tap0"));
        assert!(kernel.handles.is_empty());
    }
}

#[test]
fn rollback_falls_back_to_the_command() {
    let mut kernel = Kernel::with_bridge("br0");
    kernel.failing.insert(0x89a2, EBUSY);
    kernel.failing.insert(0x400454cb, EPERM);
    // persistence cannot be set, so the tap is never finished
    let outcome = drive(&mut kernel, create_text("tap0", "br0"));
    assert_eq!(
        outcome.printed().stderr,
        "Error: Failed to set TAP persistence: EPERM: Operation not permitted"
    );
    assert!(!kernel.links.contains_key("tap0"));
    assert!(kernel.handles.is_empty());
}

#[test]
fn rollback_failure_is_kept_apart() {
    let mut kernel = Kernel::new();
    let mut turn = Session::start(create("tap0", "br-missing"), caller());
    let mut closed_tun = false;
    let outcome = loop {
        match turn {
            Turn::Exit { outcome } => break outcome,
            Turn::Continue { session } => {
                let action = session.action();
                // once the tap is made, the control device can no longer be
                // opened and the command fails too
                let reply = match &action {
                    Action::OpenTun { cloexec: false } => {
                        closed_tun = true;
                        Reply::Failed { errno: EPERM }
                    }
                    Action::LinkDelete { .. } => {
                        kernel.command_fails = true;
                        kernel.perform(&action)
                    }
                    _ => kernel.perform(&action),
                };
                turn = session.step(reply);
            }
        }
    };
    assert!(closed_tun);
    assert_eq!(outcome.exit_code(), 1);
    assert_eq!(
        outcome.printed().stdout,
        "{\"success\":false,\"error\":\"Bridge 'br-missing' does not exist\"}"
    );
    assert_eq!(
        outcome.rollback_note().unwrap(),
        "Failed to delete interface: RTNETLINK answers: Operation not permitted\n"
    );
    assert!(kernel.links.contains_key("tap0"));
    assert!(kernel.handles.is_empty());
}

#[test]
fn create_refuses_bad_names_without_asking_anything() {
    let mut kernel = Kernel::with_bridge("br0");
    let outcome = drive(&mut kernel, create("tap 0", "br0"));
    assert_eq!(outcome.exit_code(), 1);
    assert_eq!(
        outcome.printed().stdout,
        "{\"success\":false,\"error\":\"Invalid character in interface name: ' '\"}"
    );
    assert!(kernel.log.is_empty());
    let outcome = drive(&mut kernel, create_text("tap0", ""));
    assert_eq!(outcome.printed().stderr, "Error: Interface name cannot be empty");
    assert!(kernel.log.is_empty());
    let outcome = drive(&mut kernel, create_text("", "0"));
    assert_eq!(outcome.printed().stderr, "Error: Interface name cannot be empty");
    match outcome {
        Outcome::NotCreated { error, .. } => assert_eq!(error.category(), Category::Validation),
        _ => panic!("wrong outcome"),
    }
}

#[test]
fn create_needs_the_capability() {
    let mut kernel = Kernel::with_bridge("br0");
    kernel.status = Some(UNPRIVILEGED.to_string());
    let outcome = drive(&mut kernel, create("tap0", "br0"));
    assert_eq!(outcome.exit_code(), 1);
    assert_eq!(
        outcome.printed().stdout,
        "{\"success\":false,\"error\":\"Missing CAP_NET_ADMIN capability. Install with: sudo setcap cap_net_admin+ep <binary>\"}"
    );
    assert_eq!(kernel.log, vec!["status"]);
    assert!(!kernel.links.contains_key("tap0"));
}

#[test]
fn create_refuses_an_existing_tap() {
    let mut kernel = Kernel::with_bridge("br0");
    kernel.add_link("tap0", false);
    let before = kernel.links.clone();
    let outcome = drive(&mut kernel, create("tap0", "br0"));
    assert_eq!(outcome.exit_code(), 1);
    assert_eq!(
        outcome.printed().stdout,
        "{\"success\":false,\"error\":\"TAP device 'tap0' already exists\"}"
    );
    assert_eq!(kernel.log, vec!["status", "probe tap0"]);
    assert_eq!(kernel.links, before);
}

#[test]
fn create_reports_each_failing_step() {
    let cases: [(u64, &str); 4] = [
        (0x400454ca, "Failed to create TAP device: EPERM: Operation not permitted"),
        (0x400454cc, "Failed to set TAP owner: EPERM: Operation not permitted"),
        (0x400454ce, "Failed to set TAP group: EPERM: Operation not permitted"),
        (0x400454cb, "Failed to set TAP persistence: EPERM: Operation not permitted"),
    ];
    for (code, message) in cases.iter() {
        let mut kernel = Kernel::with_bridge("br0");
        kernel.failing.insert(*code, EPERM);
        let outcome = drive(&mut kernel, create_text("tap0", "br0"));
        assert_eq!(outcome.exit_code(), 1);
        assert_eq!(outcome.printed().stderr, format!("Error: {}", message));
        assert!(!kernel.links.contains_key("tap0"));
        assert!(kernel.handles.is_empty());
        assert_eq!(kernel.log.last().unwrap(), "close");
        match outcome {
            Outcome::NotCreated { error, .. } => assert_eq!(error.category(), Category::KernelCall),
            _ => panic!("wrong outcome"),
        }
    }
    let mut kernel = Kernel::with_bridge("br0");
    kernel.tun_fails = Some(2);
    let outcome = drive(&mut kernel, create_text("tap0", "br0"));
    assert_eq!(
        outcome.printed().stderr,
        "Error: Failed to open /dev/net/tun: ENOENT: No such file or directory"
    );
    assert_eq!(kernel.log, vec!["status", "probe tap0", "tun cloexec=true"]);
}

#[test]
fn delete_of_missing_tap_is_success() {
    let mut kernel = Kernel::with_bridge("br0");
    let before = kernel.links.clone();
    let outcome = drive(&mut kernel, delete("tap0"));
    assert_eq!(outcome.exit_code(), 0);
    assert_eq!(outcome.printed().stdout, "TAP device 'tap0' does not exist");
    assert_eq!(outcome.printed().stderr, "");
    assert_eq!(kernel.log, vec!["status", "probe tap0"]);
    assert_eq!(kernel.links, before);
    assert!(matches!(outcome, Outcome::NothingToDelete { .. }));
}

#[test]
fn delete_removes_a_tap() {
    let mut kernel = Kernel::with_bridge("br0");
    drive(&mut kernel, create("tap0", "br0"));
    kernel.log.clear();
    let outcome = drive(&mut kernel, delete("tap0"));
    assert_eq!(outcome.exit_code(), 0);
    assert_eq!(outcome.printed().stdout, "Deleted TAP device: tap0");
    assert!(!kernel.links.contains_key("tap0"));
    assert!(kernel.handles.is_empty());
    assert_eq!(
        kernel.log,
        vec![
            "status",
            "probe tap0",
            "probe tap0/operstate",
            "tun cloexec=false",
            "setiff tap0 0x1002",
            "persist false",
            "close",
        ]
    );
}

#[test]
fn delete_falls_back_when_the_device_cannot_be_opened() {
    let mut kernel = Kernel::new();
    kernel.add_link("tap0", false);
    kernel.tun_fails = Some(EPERM);
    let outcome = drive(&mut kernel, delete("tap0"));
    assert_eq!(outcome.exit_code(), 0);
    assert!(!kernel.links.contains_key("tap0"));
    assert_eq!(kernel.log.last().unwrap(), "ip link delete tap0");
}

#[test]
fn delete_falls_back_when_binding_fails() {
    let mut kernel = Kernel::new();
    kernel.add_link("tap0", false);
    kernel.failing.insert(0x400454ca, EBUSY);
    kernel.command_fails = true;
    let outcome = drive(&mut kernel, delete("tap0"));
    assert_eq!(outcome.exit_code(), 1);
    assert_eq!(
        outcome.printed().stderr,
        "Error: Failed to delete interface: RTNETLINK answers: Operation not permitted\n"
    );
    assert!(kernel.handles.is_empty());
    assert_eq!(
        kernel.log,
        vec![
            "status",
            "probe tap0",
            "probe tap0/operstate",
            "tun cloexec=false",
            "setiff tap0 0x1002",
            "close",
            "ip link delete tap0",
        ]
    );
    match outcome {
        Outcome::NotDeleted { error } => assert_eq!(error.category(), Category::Fallback),
        _ => panic!("wrong outcome"),
    }
}

#[test]
fn delete_reports_a_persistence_that_cannot_be_cleared() {
    let mut kernel = Kernel::new();
    kernel.add_link("tap0", false);
    kernel.failing.insert(0x400454cb, EPERM);
    let outcome = drive(&mut kernel, delete("tap0"));
    assert_eq!(
        outcome.printed().stderr,
        "Error: Failed to clear TAP persistence: EPERM: Operation not permitted"
    );
    assert!(kernel.handles.is_empty());
    assert!(kernel.links.contains_key("tap0"));
}

#[test]
fn delete_needs_name_and_capability() {
    let mut kernel = Kernel::new();
    let outcome = drive(&mut kernel, delete("9tap"));
    assert_eq!(outcome.exit_code(), 1);
    assert_eq!(
        outcome.printed().stderr,
        "Error: Interface name must start with a letter"
    );
    assert!(kernel.log.is_empty());
    kernel.status = Some(UNPRIVILEGED.to_string());
    let outcome = drive(&mut kernel, delete("tap0"));
    assert_eq!(outcome.printed().stderr, "Error: Missing CAP_NET_ADMIN capability");
    assert_eq!(kernel.log, vec!["status"]);
    match outcome {
        Outcome::NotDeleted { error } => assert_eq!(error.category(), Category::Privilege),
        _ => panic!("wrong outcome"),
    }
}

#[test]
fn command_that_cannot_be_run() {
    let mut kernel = Kernel::new();
    kernel.add_link("tap0", false);
    let mut turn = Session::start(delete("tap0"), caller());
    let outcome = loop {
        match turn {
            Turn::Exit { outcome } => break outcome,
            Turn::Continue { session } => {
                let action = session.action();
                let reply = match &action {
                    Action::OpenTun { .. } => Reply::Failed { errno: EPERM },
                    Action::LinkDelete { .. } => Reply::Unreadable {
                        reason: "No such file or directory (os error 2)".to_string(),
                    },
                    _ => kernel.perform(&action),
                };
                turn = session.step(reply);
            }
        }
    };
    assert_eq!(
        outcome.printed().stderr,
        "Error: Failed to execute ip command: No such file or directory (os error 2)"
    );
}

#[test]
fn setup_bridge_creates_addresses_and_raises() {
    let mut kernel = Kernel::new();
    let outcome = drive(&mut kernel, setup("br0", "172.31.0.1/24"));
    assert_eq!(outcome.exit_code(), 0);
    assert_eq!(
        outcome.printed().stdout,
        "Bridge 'br0' configured with IP 172.31.0.1/24"
    );
    let bridge = &kernel.links["br0"];
    assert!(bridge.bridge);
    assert_eq!(bridge.address, Some(Ipv4 { a: 172, b: 31, c: 0, d: 1 }));
    assert_eq!(bridge.netmask, Some(Ipv4 { a: 255, b: 255, c: 255, d: 0 }));
    assert_eq!(bridge.flags & IFF_UP, IFF_UP);
    assert!(kernel.handles.is_empty());
    assert_eq!(
        kernel.log,
        vec![
            "status",
            "probe br0",
            "socket",
            "addbr br0",
            "close",
            "socket",
            "setaddr br0 172.31.0.1",
            "setmask br0 255.255.255.0",
            "close",
            "socket",
            "getflags br0",
            "setflags br0 0x1003",
            "close",
        ]
    );
}

#[test]
fn setup_bridge_twice_changes_nothing() {
    let mut kernel = Kernel::new();
    drive(&mut kernel, setup("br0", "10.0.0.1/8"));
    let once = kernel.links.clone();
    kernel.log.clear();
    let outcome = drive(&mut kernel, setup("br0", "10.0.0.1/8"));
    assert_eq!(outcome.exit_code(), 0);
    assert_eq!(kernel.links, once);
    assert!(kernel.handles.is_empty());
    assert!(!kernel.log.iter().any(|line| line.starts_with("addbr")));
    let bridge = &kernel.links["br0"];
    assert_eq!(bridge.address, Some(Ipv4 { a: 10, b: 0, c: 0, d: 1 }));
    assert_eq!(bridge.netmask, Some(Ipv4 { a: 255, b: 0, c: 0, d: 0 }));
    assert_eq!(bridge.flags & IFF_UP, IFF_UP);
}

#[test]
fn setup_bridge_tolerates_what_exists_already() {
    // the bridge appears between the probe and the call that creates it
    let mut kernel = Kernel::new();
    let mut turn = Session::start(setup("br0", "10.0.0.1/8"), caller());
    let mut address_calls = 0;
    let outcome = loop {
        match turn {
            Turn::Exit { outcome } => break outcome,
            Turn::Continue { session } => {
                let action = session.action();
                let reply = match &action {
                    Action::Control { request: Request::BridgeAdd { .. }, .. } => {
                        kernel.add_link("br0", true);
                        kernel.log.push("addbr br0".to_string());
                        Reply::Failed { errno: EEXIST }
                    }
                    Action::Control { request: Request::SetAddress { .. }, .. } => {
                        address_calls += 1;
                        kernel.log.push("setaddr".to_string());
                        Reply::Failed { errno: EEXIST }
                    }
                    _ => kernel.perform(&action),
                };
                turn = session.step(reply);
            }
        }
    };
    assert_eq!(outcome.exit_code(), 0);
    assert_eq!(address_calls, 1);
    assert_eq!(kernel.links["br0"].netmask, Some(Ipv4 { a: 255, b: 0, c: 0, d: 0 }));
    assert!(kernel.handles.is_empty());
    let closes = kernel.log.iter().filter(|line| *line == "close").count();
    let sockets = kernel.log.iter().filter(|line| *line == "socket").count();
    assert_eq!(closes, 3);
    assert_eq!(sockets, 3);
}

#[test]
fn setup_bridge_reports_each_failing_step() {
    let mut kernel = Kernel::new();
    kernel.failing.insert(0x89a0, EPERM);
    let outcome = drive(&mut kernel, setup("br0", "10.0.0.1/8"));
    assert_eq!(outcome.exit_code(), 1);
    assert_eq!(
        outcome.printed().stderr,
        "Error creating bridge: Failed to create bridge: EPERM: Operation not permitted"
    );
    assert!(kernel.handles.is_empty());

    let mut kernel = Kernel::with_bridge("br0");
    kernel.failing.insert(0x8916, EPERM);
    let outcome = drive(&mut kernel, setup("br0", "10.0.0.1/8"));
    assert_eq!(
        outcome.printed().stderr,
        "Error setting IP: Failed to set IP address: EPERM: Operation not permitted"
    );
    assert!(kernel.handles.is_empty());
    assert!(!kernel.log.iter().any(|line| line.starts_with("setmask")));

    let mut kernel = Kernel::with_bridge("br0");
    kernel.failing.insert(0x891c, EPERM);
    let outcome = drive(&mut kernel, setup("br0", "10.0.0.1/8"));
    assert_eq!(
        outcome.printed().stderr,
        "Error setting IP: Failed to set netmask: EPERM: Operation not permitted"
    );
    assert!(kernel.handles.is_empty());

    let mut kernel = Kernel::with_bridge("br0");
    kernel.failing.insert(0x8914, EPERM);
    let outcome = drive(&mut kernel, setup("br0", "10.0.0.1/8"));
    assert_eq!(
        outcome.printed().stderr,
        "Error bringing up bridge: Failed to bring up interface: EPERM: Operation not permitted"
    );
    assert!(matches!(
        outcome,
        Outcome::NotConfigured { step: SetupStep::Raising, error: Error::Kernel { call: Call::SetFlags, errno: 1 } }
    ));
    assert!(kernel.handles.is_empty());

    let mut kernel = Kernel::with_bridge("br0");
    kernel.socket_fails = Some(24);
    let outcome = drive(&mut kernel, setup("br0", "10.0.0.1/8"));
    assert_eq!(
        outcome.printed().stderr,
        "Error setting IP: Failed to create socket: EMFILE: Too many open files"
    );
}

#[test]
fn setup_bridge_reads_the_address_when_it_is_to_be_set() {
    let mut kernel = Kernel::new();
    let outcome = drive(&mut kernel, setup("br0", "10.0.0.1"));
    assert_eq!(outcome.exit_code(), 1);
    assert_eq!(
        outcome.printed().stderr,
        "Error setting IP: IP must be in CIDR format (e.g., 172.31.0.1/24)"
    );
    assert!(kernel.links.contains_key("br0"));
    assert!(kernel.handles.is_empty());
    let cases = [
        ("10.0.0.1/x", "Error setting IP: Invalid prefix length"),
        ("10.0.0.1/40", "Error setting IP: Invalid prefix length"),
        ("10.0.0.300/8", "Error setting IP: Invalid IP octet"),
        ("10.0.0/8", "Error setting IP: Invalid IP address format"),
    ];
    for (ip, message) in cases.iter() {
        let mut kernel = Kernel::with_bridge("br0");
        let outcome = drive(&mut kernel, setup("br0", ip));
        assert_eq!(outcome.printed().stderr, *message);
        assert_eq!(kernel.log, vec!["status", "probe br0"]);
    }
}

#[test]
fn setup_bridge_needs_name_and_capability() {
    let mut kernel = Kernel::new();
    let outcome = drive(&mut kernel, setup("br0;", "10.0.0.1/8"));
    assert_eq!(
        outcome.printed().stderr,
        "Error: Invalid character in interface name: ';'"
    );
    assert!(kernel.log.is_empty());
    kernel.status = None;
    let outcome = drive(&mut kernel, setup("br0", "10.0.0.1/8"));
    assert_eq!(outcome.printed().stderr, "Error: Missing CAP_NET_ADMIN capability");
    assert_eq!(kernel.log, vec!["status"]);
}

#[test]
fn check_caps_reports_both_ways() {
    let command = || Command::CheckCaps { program: "/usr/bin/helper".to_string() };
    let mut kernel = Kernel::new();
    let outcome = drive(&mut kernel, command());
    assert_eq!(outcome.exit_code(), 0);
    assert_eq!(outcome.printed().stdout, "CAP_NET_ADMIN: yes");
    kernel.status = Some(UNPRIVILEGED.to_string());
    let outcome = drive(&mut kernel, command());
    assert_eq!(outcome.exit_code(), 1);
    assert_eq!(
        outcome.printed().stdout,
        "CAP_NET_ADMIN: no\nInstall with: sudo setcap cap_net_admin+ep /usr/bin/helper"
    );
    assert_eq!(outcome.printed().stderr, "");
    assert_eq!(kernel.log, vec!["status", "status"]);
}

#[test]
fn root_passes_the_gate_without_a_status() {
    let mut kernel = Kernel::new();
    kernel.status = None;
    let turn = Session::start(delete("tap0"), Caller { uid: 0, gid: 0 });
    let session = match turn {
        Turn::Continue { session } => session,
        Turn::Exit { .. } => panic!("ended early"),
    };
    let reply = kernel.perform(&session.action());
    match session.step(reply) {
        Turn::Continue { session } => {
            assert!(matches!(session.action(), Action::Probe { entry: Entry::Link, .. }));
        }
        Turn::Exit { .. } => panic!("root was refused"),
    }
}

#[test]
fn a_reply_that_does_not_fit_is_handed_back() {
    let turn = Session::start(delete("tap0"), caller());
    let session = match turn {
        Turn::Continue { session } => session,
        Turn::Exit { .. } => panic!("ended early"),
    };
    assert!(!session.accepts(&Reply::Done));
    assert!(!session.accepts(&Reply::Present { present: true }));
    assert!(session.accepts(&Reply::Unreadable { reason: String::new() }));
    match session.advance(Reply::Opened { fd: 3 }) {
        Err((session, reply)) => {
            assert!(matches!(reply, Reply::Opened { fd: 3 }));
            assert!(matches!(session.action(), Action::ReadStatus));
            assert!(session.advance(Reply::Contents { text: PRIVILEGED.to_string() }).is_ok());
        }
        Ok(_) => panic!("a reply that does not fit was taken"),
    }
}

#[test]
fn begin_uses_the_ids_of_the_process() {
    let turn = Session::begin(Command::Create {
        name: "tap0".to_string(),
        bridge: "br0".to_string(),
        owner_uid: None,
        owner_gid: Some(5),
        format: "json".to_string(),
    });
    match turn {
        Turn::Continue { session: Session::Create { owner_uid, owner_gid, caller_uid, json, .. } } => {
            assert_eq!(owner_uid, nix::unistd::getuid().as_raw());
            assert_eq!(caller_uid, nix::unistd::getuid().as_raw());
            assert_eq!(owner_gid, 5);
            assert!(json);
        }
        _ => panic!("wrong turn"),
    }
}

#[test]
fn action_paths() {
    let name = || tap_helper::name::InterfaceName::parse("tap0").unwrap();
    assert_eq!(Action::ReadStatus.path().unwrap(), "/proc/self/status");
    assert_eq!(
        Action::Probe { name: name(), entry: Entry::Link }.path().unwrap(),
        "/sys/class/net/tap0"
    );
    assert_eq!(
        Action::Probe { name: name(), entry: Entry::OperState }.path().unwrap(),
        "/sys/class/net/tap0/operstate"
    );
    assert_eq!(
        Action::ReadIndex { name: name() }.path().unwrap(),
        "/sys/class/net/tap0/ifindex"
    );
    assert_eq!(Action::OpenTun { cloexec: true }.path().unwrap(), "/dev/net/tun");
    assert!(Action::OpenSocket.path().is_none());
    assert!(Action::Close { fd: 3 }.path().is_none());
}
