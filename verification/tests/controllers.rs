use tap_helper::address::Ipv4;
use tap_helper::bridge::{
    add_to_bridge, create_bridge, existence_query, get_interface_index, interface_exists, Attachment,
    BridgeCreation,
};
use tap_helper::error::{Call, Category, Error};
use tap_helper::link::{bring_up, create_control_socket, plan_address, set_ip_address, Addressing, BringUp};
use tap_helper::name::InterfaceName;
use tap_helper::outcome::{is_json, print_error};
use tap_helper::protocol::{Action, Entry, Flow, Reply, Request};
use tap_helper::tap::{create_tap, delete_interface, Deletion, TapCreation};
use tap_helper::text::NumberFault;

fn name(text: &str) -> InterfaceName {
    InterfaceName::parse(text).unwrap()
}

fn contents(text: &str) -> Reply {
    Reply::Contents { text: text.to_string() }
}

#[test]
fn interface_exists_reads_the_answer() {
    assert!(interface_exists(&Reply::Present { present: true }));
    assert!(!interface_exists(&Reply::Present { present: false }));
    match existence_query(&name("br0")) {
        Action::Probe { name, entry: Entry::Link } => assert_eq!(name.as_str(), "br0"),
        _ => panic!("wrong action"),
    }
}

#[test]
fn interface_index_is_read_between_white_space() {
    let tap = name("tap0");
    assert!(matches!(get_interface_index(&tap, contents("7\n")), Ok(7)));
    assert!(matches!(get_interface_index(&tap, contents("  42 \t\r\n")), Ok(42)));
    assert!(matches!(get_interface_index(&tap, contents("+3")), Ok(3)));
    assert!(matches!(get_interface_index(&tap, contents("-3")), Ok(-3)));
    assert!(matches!(get_interface_index(&tap, contents("2147483647")), Ok(2147483647)));
    assert!(matches!(get_interface_index(&tap, contents("-2147483648\n")), Ok(-2147483648)));
    assert!(matches!(get_interface_index(&tap, contents("\u{a0}0009\u{3000}")), Ok(9)));
}

#[test]
fn interface_index_faults() {
    let tap = name("tap0");
    let fault = |text: &str| match get_interface_index(&tap, contents(text)) {
        Err(Error::IndexMalformed { number }) => number,
        _ => panic!("no fault for {:?}", text),
    };
    assert_eq!(fault(""), NumberFault::Empty);
    assert_eq!(fault(" \n"), NumberFault::Empty);
    assert_eq!(fault("x"), NumberFault::InvalidDigit);
    assert_eq!(fault("1 2"), NumberFault::InvalidDigit);
    assert_eq!(fault("+"), NumberFault::InvalidDigit);
    assert_eq!(fault("-"), NumberFault::InvalidDigit);
    assert_eq!(fault("12x"), NumberFault::InvalidDigit);
    assert_eq!(fault("2147483648"), NumberFault::TooLarge);
    assert_eq!(fault("99999999999999999999999"), NumberFault::TooLarge);
    assert_eq!(fault("99999999999x"), NumberFault::TooLarge);
    assert_eq!(fault("-2147483649"), NumberFault::TooSmall);
    let error = get_interface_index(&tap, contents("x")).unwrap_err();
    assert_eq!(error.message(), "Failed to parse ifindex: invalid digit found in string");
    assert_eq!(error.category(), Category::KernelCall);
    let error = get_interface_index(&tap, contents("")).unwrap_err();
    assert_eq!(error.message(), "Failed to parse ifindex: cannot parse integer from empty string");
    let error = get_interface_index(&tap, contents("4294967296")).unwrap_err();
    assert_eq!(error.message(), "Failed to parse ifindex: number too large to fit in target type");
    let error = get_interface_index(&tap, contents("-4294967296")).unwrap_err();
    assert_eq!(error.message(), "Failed to parse ifindex: number too small to fit in target type");
    let error = get_interface_index(
        &tap,
        Reply::Unreadable { reason: "No such file or directory (os error 2)".to_string() },
    )
    .unwrap_err();
    assert_eq!(
        error.message(),
        "Failed to read ifindex for tap0: No such file or directory (os error 2)"
    );
}

#[test]
fn control_socket_outcomes() {
    assert!(matches!(create_control_socket(Reply::Opened { fd: 5 }), Ok(5)));
    let error = create_control_socket(Reply::Failed { errno: 13 }).unwrap_err();
    assert!(matches!(error, Error::Kernel { call: Call::Socket, errno: 13 }));
    assert_eq!(error.message(), "Failed to create socket: EACCES: Permission denied");
}

#[test]
fn tap_creation_stage_by_stage() {
    let tap = name("tap0");
    let stage = TapCreation::start();
    assert!(matches!(stage.action(&tap, 1, 2), Action::OpenTun { cloexec: true }));
    let stage = match create_tap(&tap, 1, 2, stage, Reply::Opened { fd: 4 }) {
        Flow::Goto { stage } => stage,
        _ => panic!("ended"),
    };
    match stage.action(&tap, 1, 2) {
        Action::Control { fd: 4, request: Request::TunSetIff { name, flags: 0x5002 } } => {
            assert_eq!(name.as_str(), "tap0")
        }
        _ => panic!("wrong action"),
    }
    let stage = match create_tap(&tap, 1, 2, stage, Reply::Done) {
        Flow::Goto { stage } => stage,
        _ => panic!("ended"),
    };
    assert!(matches!(
        stage.action(&tap, 1, 2),
        Action::Control { fd: 4, request: Request::TunSetOwner { uid: 1 } }
    ));
    let stage = match create_tap(&tap, 1, 2, stage, Reply::Done) {
        Flow::Goto { stage } => stage,
        _ => panic!("ended"),
    };
    assert!(matches!(
        stage.action(&tap, 1, 2),
        Action::Control { fd: 4, request: Request::TunSetGroup { gid: 2 } }
    ));
    let stage = match create_tap(&tap, 1, 2, stage, Reply::Failed { errno: 1 }) {
        Flow::Goto { stage } => stage,
        _ => panic!("ended"),
    };
    assert!(matches!(stage.action(&tap, 1, 2), Action::Close { fd: 4 }));
    match create_tap(&tap, 1, 2, stage, Reply::Done) {
        Flow::Return { outcome: Err(Error::Kernel { call: Call::SetGroup, errno: 1 }) } => {}
        _ => panic!("wrong end"),
    }
}

#[test]
fn tap_creation_returns_the_open_handle() {
    let tap = name("tap0");
    let mut stage = TapCreation::start();
    let replies = [Reply::Opened { fd: 9 }, Reply::Done, Reply::Done, Reply::Done];
    for reply in replies {
        stage = match create_tap(&tap, 1, 2, stage, reply) {
            Flow::Goto { stage } => stage,
            _ => panic!("ended"),
        };
    }
    assert!(matches!(
        stage.action(&tap, 1, 2),
        Action::Control { fd: 9, request: Request::TunSetPersist { on: true } }
    ));
    assert!(matches!(
        create_tap(&tap, 1, 2, stage, Reply::Done),
        Flow::Return { outcome: Ok(9) }
    ));
}

#[test]
fn deletion_of_what_is_not_there_is_an_error() {
    let tap = name("tap0");
    let stage = Deletion::start();
    assert!(matches!(stage.action(&tap), Action::Probe { entry: Entry::OperState, .. }));
    match delete_interface(&tap, stage, Reply::Present { present: false }) {
        Flow::Return { outcome: Err(error) } => {
            assert_eq!(error.message(), "Interface 'tap0' does not exist");
            assert_eq!(error.category(), Category::Precondition);
        }
        _ => panic!("wrong end"),
    }
}

#[test]
fn bridge_creation_takes_exists_as_success() {
    let bridge = name("br0");
    let adding = || match create_bridge(&bridge, BridgeCreation::start(), Reply::Opened { fd: 3 }) {
        Flow::Goto { stage } => stage,
        _ => panic!("ended"),
    };
    match adding().action(&bridge) {
        Action::Control { fd: 3, request: Request::BridgeAdd { name } } => assert_eq!(name.as_str(), "br0"),
        _ => panic!("wrong action"),
    }
    for (reply, ok) in [
        (Reply::Done, true),
        (Reply::Failed { errno: 17 }, true),
        (Reply::Failed { errno: 1 }, false),
        (Reply::Failed { errno: 16 }, false),
        (Reply::Failed { errno: 0 }, false),
    ] {
        let closing = match create_bridge(&bridge, adding(), reply) {
            Flow::Goto { stage } => stage,
            _ => panic!("ended"),
        };
        assert!(matches!(closing.action(&bridge), Action::Close { fd: 3 }));
        match create_bridge(&bridge, closing, Reply::Done) {
            Flow::Return { outcome } => assert_eq!(outcome.is_ok(), ok),
            _ => panic!("went on"),
        }
    }
}

#[test]
fn attachment_carries_the_index_of_the_tap() {
    let tap = name("tap0");
    let bridge = name("br0");
    let mut stage = Attachment::start();
    for reply in [Reply::Present { present: true }, contents("12\n"), Reply::Opened { fd: 6 }] {
        stage = match add_to_bridge(&tap, &bridge, stage, reply) {
            Flow::Goto { stage } => stage,
            _ => panic!("ended"),
        };
    }
    match stage.action(&tap, &bridge) {
        Action::Control { fd: 6, request: Request::BridgeAddIf { bridge, index: 12 } } => {
            assert_eq!(bridge.as_str(), "br0")
        }
        _ => panic!("wrong action"),
    }
}

#[test]
fn bring_up_sets_only_the_up_bit() {
    let tap = name("tap0");
    let mut stage = BringUp::start();
    for reply in [Reply::Opened { fd: 6 }, Reply::Flags { flags: 0x1042 }] {
        stage = match bring_up(&tap, stage, reply) {
            Flow::Goto { stage } => stage,
            _ => panic!("ended"),
        };
    }
    assert!(matches!(
        stage.action(&tap),
        Action::Control { fd: 6, request: Request::SetFlags { flags: 0x1043, .. } }
    ));
}

#[test]
fn addressing_goes_on_after_exists() {
    let bridge = name("br0");
    let (address, mask) = plan_address("192.168.1.1/32").unwrap();
    assert_eq!(address, Ipv4 { a: 192, b: 168, c: 1, d: 1 });
    assert_eq!(mask, Ipv4 { a: 255, b: 255, c: 255, d: 255 });
    let setting = || match set_ip_address(&bridge, address, mask, Addressing::start(), Reply::Opened { fd: 3 }) {
        Flow::Goto { stage } => stage,
        _ => panic!("ended"),
    };
    match set_ip_address(&bridge, address, mask, setting(), Reply::Failed { errno: 17 }) {
        Flow::Goto { stage } => assert!(matches!(
            stage.action(&bridge, address, mask),
            Action::Control { fd: 3, request: Request::SetNetmask { .. } }
        )),
        _ => panic!("ended"),
    }
    match set_ip_address(&bridge, address, mask, setting(), Reply::Failed { errno: 19 }) {
        Flow::Goto { stage } => assert!(matches!(stage.action(&bridge, address, mask), Action::Close { fd: 3 })),
        _ => panic!("ended"),
    }
    assert!(matches!(plan_address("1.2.3.4"), Err(Error::Address { .. })));
}

#[test]
fn printed_errors() {
    assert!(is_json("json"));
    assert!(!is_json("text"));
    assert!(!is_json("JSON"));
    assert!(!is_json(""));
    let printed = print_error("it failed", true);
    assert_eq!(printed.stdout, "{\"success\":false,\"error\":\"it failed\"}");
    assert_eq!(printed.stderr, "");
    let printed = print_error("it failed", false);
    assert_eq!(printed.stdout, "");
    assert_eq!(printed.stderr, "Error: it failed");
    let printed = print_error("a \"quoted\" \\ line\nand a tab\t", true);
    assert_eq!(
        printed.stdout,
        "{\"success\":false,\"error\":\"a \\\"quoted\\\" \\\\ line\\nand a tab\\t\"}"
    );
    let value: serde_json::Value = serde_json::from_str(&printed.stdout).unwrap();
    assert_eq!(value["success"], serde_json::Value::Bool(false));
    assert_eq!(
        value["error"],
        serde_json::Value::String("a \"quoted\" \\ line\nand a tab\t".to_string())
    );
}

#[test]
fn kernel_error_messages_name_step_and_error() {
    let error = Error::Kernel { call: Call::CreateTap, errno: 16 };
    assert_eq!(error.message(), "Failed to create TAP device: EBUSY: Device or resource busy");
    assert_eq!(error.category(), Category::KernelCall);
    let error = Error::Kernel { call: Call::ClearPersist, errno: 1 };
    assert_eq!(error.message(), "Failed to clear TAP persistence: EPERM: Operation not permitted");
    assert_eq!(Error::Unprivileged.message(), "Missing CAP_NET_ADMIN capability");
    assert_eq!(Error::Unprivileged.category(), Category::Privilege);
    assert_eq!(
        Error::TapExists { name: name("tap0") }.message(),
        "TAP device 'tap0' already exists"
    );
    assert_eq!(
        Error::FallbackNotRun { reason: "gone".to_string() }.category(),
        Category::Fallback
    );
}
