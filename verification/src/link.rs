//! The state of an interface: bringing it up and giving it an address.

use crate::address::{cidr_value, mask_of, Cidr, Ipv4};
use crate::error::{Call, Error};
use crate::name::InterfaceName;
use crate::platform::{is_already_exists, EEXIST};
use crate::protocol::{fits, Action, Flow, Reply, Request};
use crate::request::{raise, raised};
use vstd::pervasive::unreached;
use vstd::prelude::*;

verus! {

/// The outcome of opening a control socket: the handle, or the error of
/// the call.
pub open spec fn socket_outcome(reply: Reply) -> Result<i32, Error> {
    match reply {
        Reply::Opened { fd } => Ok(fd),
        Reply::Failed { errno } => Err(Error::Kernel { call: Call::Socket, errno }),
        _ => Err(Error::Kernel { call: Call::Socket, errno: 0 }),
    }
}

/// The handle of the control socket that was opened, or why there is none.
pub fn create_control_socket(reply: Reply) -> (out: Result<i32, Error>)
    requires
        fits(Action::OpenSocket, reply),
    ensures
        out == socket_outcome(reply),
{
    match reply {
        Reply::Opened { fd } => Ok(fd),
        Reply::Failed { errno } => Err(Error::Kernel { call: Call::Socket, errno }),
        _ => unreached(),
    }
}

/// How far bringing an interface up has come.
#[derive(Debug)]
pub enum BringUp {
    /// The control socket is being opened.
    Connecting,
    /// The flags are being read.
    Reading { fd: i32 },
    /// The flags are being written, with the up bit set.
    Writing { fd: i32, flags: i16 },
    /// The socket is being closed; the outcome is known.
    Closing { fd: i32, outcome: Result<(), Error> },
}

impl BringUp {
    /// The stage that the work starts in.
    pub open spec fn first() -> BringUp {
        BringUp::Connecting
    }

    /// The action whose answer this stage waits for.
    pub open spec fn asks(self, name: InterfaceName) -> Action {
        match self {
            BringUp::Connecting => Action::OpenSocket,
            BringUp::Reading { fd } => Action::Control { fd, request: Request::GetFlags { name } },
            BringUp::Writing { fd, flags } => Action::Control {
                fd,
                request: Request::SetFlags { name, flags },
            },
            BringUp::Closing { fd, .. } => Action::Close { fd },
        }
    }

    /// Where an answer leads. The flags are read and written back with
    /// the up bit set and no other bit changed. The socket is closed
    /// whether the calls succeed or not.
    pub open spec fn next(self, reply: Reply) -> Flow<BringUp, Result<(), Error>> {
        match self {
            BringUp::Connecting => match socket_outcome(reply) {
                Ok(fd) => Flow::Goto { stage: BringUp::Reading { fd } },
                Err(e) => Flow::Return { outcome: Err(e) },
            },
            BringUp::Reading { fd } => match reply {
                Reply::Flags { flags } => Flow::Goto {
                    stage: BringUp::Writing { fd, flags: raised(flags) },
                },
                Reply::Failed { errno } => Flow::Goto {
                    stage: BringUp::Closing {
                        fd,
                        outcome: Err(Error::Kernel { call: Call::GetFlags, errno }),
                    },
                },
                _ => Flow::Goto { stage: self },
            },
            BringUp::Writing { fd, .. } => match reply {
                Reply::Failed { errno } => Flow::Goto {
                    stage: BringUp::Closing {
                        fd,
                        outcome: Err(Error::Kernel { call: Call::SetFlags, errno }),
                    },
                },
                _ => Flow::Goto { stage: BringUp::Closing { fd, outcome: Ok(()) } },
            },
            BringUp::Closing { outcome, .. } => Flow::Return { outcome },
        }
    }

    /// The stage that the work starts in.
    pub fn start() -> (stage: BringUp)
        ensures
            stage == BringUp::first(),
    {
        BringUp::Connecting
    }

    /// The action whose answer this stage waits for.
    pub fn action(&self, name: &InterfaceName) -> (out: Action)
        ensures
            out == self.asks(*name),
    {
        match self {
            BringUp::Connecting => Action::OpenSocket,
            BringUp::Reading { fd } => Action::Control {
                fd: *fd,
                request: Request::GetFlags { name: name.duplicate() },
            },
            BringUp::Writing { fd, flags } => Action::Control {
                fd: *fd,
                request: Request::SetFlags { name: name.duplicate(), flags: *flags },
            },
            BringUp::Closing { fd, .. } => Action::Close { fd: *fd },
        }
    }
}

/// Takes bringing up the interface `name` one answer further.
pub fn bring_up(name: &InterfaceName, stage: BringUp, reply: Reply) -> (flow: Flow<
    BringUp,
    Result<(), Error>,
>)
    requires
        fits(stage.asks(*name), reply),
    ensures
        flow == stage.next(reply),
{
    match stage {
        BringUp::Connecting => match create_control_socket(reply) {
            Ok(fd) => Flow::Goto { stage: BringUp::Reading { fd } },
            Err(e) => Flow::Return { outcome: Err(e) },
        },
        BringUp::Reading { fd } => match reply {
            Reply::Flags { flags } => Flow::Goto {
                stage: BringUp::Writing { fd, flags: raise(flags) },
            },
            Reply::Failed { errno } => Flow::Goto {
                stage: BringUp::Closing {
                    fd,
                    outcome: Err(Error::Kernel { call: Call::GetFlags, errno }),
                },
            },
            _ => unreached(),
        },
        BringUp::Writing { fd, .. } => match reply {
            Reply::Failed { errno } => Flow::Goto {
                stage: BringUp::Closing {
                    fd,
                    outcome: Err(Error::Kernel { call: Call::SetFlags, errno }),
                },
            },
            _ => Flow::Goto { stage: BringUp::Closing { fd, outcome: Ok(()) } },
        },
        BringUp::Closing { outcome, .. } => Flow::Return { outcome },
    }
}

/// The address and the mask that a text in CIDR notation asks for, or why
/// it asks for none.
pub open spec fn address_plan(ip: Seq<char>) -> Result<(Ipv4, Ipv4), Error> {
    match cidr_value(ip) {
        Ok(pair) => Ok((pair.0, mask_of(pair.1))),
        Err(syntax) => Err(Error::Address { syntax }),
    }
}

/// Reads the address to set and derives its mask.
pub fn plan_address(ip: &str) -> (out: Result<(Ipv4, Ipv4), Error>)
    ensures
        out == address_plan(ip@),
{
    match Cidr::parse(ip) {
        Ok(cidr) => Ok((cidr.ip(), cidr.mask())),
        Err(syntax) => Err(Error::Address { syntax }),
    }
}

/// How far giving an interface its address has come.
#[derive(Debug)]
pub enum Addressing {
    /// The control socket is being opened.
    Connecting,
    /// The address is being set.
    SettingAddress { fd: i32 },
    /// The mask is being set.
    SettingMask { fd: i32 },
    /// The socket is being closed; the outcome is known.
    Closing { fd: i32, outcome: Result<(), Error> },
}

impl Addressing {
    /// The stage that the work starts in.
    pub open spec fn first() -> Addressing {
        Addressing::Connecting
    }

    /// The action whose answer this stage waits for.
    pub open spec fn asks(self, name: InterfaceName, address: Ipv4, mask: Ipv4) -> Action {
        match self {
            Addressing::Connecting => Action::OpenSocket,
            Addressing::SettingAddress { fd } => Action::Control {
                fd,
                request: Request::SetAddress { name, address },
            },
            Addressing::SettingMask { fd } => Action::Control {
                fd,
                request: Request::SetNetmask { name, mask },
            },
            Addressing::Closing { fd, .. } => Action::Close { fd },
        }
    }

    /// Where an answer leads. The address is set, then the mask. That the
    /// address exists already is no failure; any other failure of either
    /// call is. The socket is closed in every case, and once.
    pub open spec fn next(self, reply: Reply) -> Flow<Addressing, Result<(), Error>> {
        match self {
            Addressing::Connecting => match socket_outcome(reply) {
                Ok(fd) => Flow::Goto { stage: Addressing::SettingAddress { fd } },
                Err(e) => Flow::Return { outcome: Err(e) },
            },
            Addressing::SettingAddress { fd } => match reply {
                Reply::Failed { errno } => if errno == EEXIST {
                    Flow::Goto { stage: Addressing::SettingMask { fd } }
                } else {
                    Flow::Goto {
                        stage: Addressing::Closing {
                            fd,
                            outcome: Err(Error::Kernel { call: Call::SetAddress, errno }),
                        },
                    }
                },
                _ => Flow::Goto { stage: Addressing::SettingMask { fd } },
            },
            Addressing::SettingMask { fd } => match reply {
                Reply::Failed { errno } => Flow::Goto {
                    stage: Addressing::Closing {
                        fd,
                        outcome: Err(Error::Kernel { call: Call::SetNetmask, errno }),
                    },
                },
                _ => Flow::Goto { stage: Addressing::Closing { fd, outcome: Ok(()) } },
            },
            Addressing::Closing { outcome, .. } => Flow::Return { outcome },
        }
    }

    /// The stage that the work starts in.
    pub fn start() -> (stage: Addressing)
        ensures
            stage == Addressing::first(),
    {
        Addressing::Connecting
    }

    /// The action whose answer this stage waits for.
    pub fn action(&self, name: &InterfaceName, address: Ipv4, mask: Ipv4) -> (out: Action)
        ensures
            out == self.asks(*name, address, mask),
    {
        match self {
            Addressing::Connecting => Action::OpenSocket,
            Addressing::SettingAddress { fd } => Action::Control {
                fd: *fd,
                request: Request::SetAddress { name: name.duplicate(), address },
            },
            Addressing::SettingMask { fd } => Action::Control {
                fd: *fd,
                request: Request::SetNetmask { name: name.duplicate(), mask },
            },
            Addressing::Closing { fd, .. } => Action::Close { fd: *fd },
        }
    }
}

/// Takes giving the interface `name` its address one answer further.
pub fn set_ip_address(
    name: &InterfaceName,
    address: Ipv4,
    mask: Ipv4,
    stage: Addressing,
    reply: Reply,
) -> (flow: Flow<Addressing, Result<(), Error>>)
    requires
        fits(stage.asks(*name, address, mask), reply),
    ensures
        flow == stage.next(reply),
{
    match stage {
        Addressing::Connecting => match create_control_socket(reply) {
            Ok(fd) => Flow::Goto { stage: Addressing::SettingAddress { fd } },
            Err(e) => Flow::Return { outcome: Err(e) },
        },
        Addressing::SettingAddress { fd } => match reply {
            Reply::Failed { errno } => if is_already_exists(errno) {
                Flow::Goto { stage: Addressing::SettingMask { fd } }
            } else {
                Flow::Goto {
                    stage: Addressing::Closing {
                        fd,
                        outcome: Err(Error::Kernel { call: Call::SetAddress, errno }),
                    },
                }
            },
            _ => Flow::Goto { stage: Addressing::SettingMask { fd } },
        },
        Addressing::SettingMask { fd } => match reply {
            Reply::Failed { errno } => Flow::Goto {
                stage: Addressing::Closing {
                    fd,
                    outcome: Err(Error::Kernel { call: Call::SetNetmask, errno }),
                },
            },
            _ => Flow::Goto { stage: Addressing::Closing { fd, outcome: Ok(()) } },
        },
        Addressing::Closing { outcome, .. } => Flow::Return { outcome },
    }
}

} // verus!
