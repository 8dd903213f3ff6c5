//! The conversation with the kernel: what the library asks to have done,
//! and what it takes as an answer.
//!
//! The library performs no system call. It names the next one as an
//! [`Action`]; whoever drives it performs the call and hands back a
//! [`Reply`].

use crate::address::Ipv4;
use crate::name::InterfaceName;
use crate::request::{
    interface_field, IfReq, Payload, SIOCBRADDBR, SIOCBRADDIF, SIOCGIFFLAGS, SIOCSIFADDR, SIOCSIFFLAGS,
    SIOCSIFNETMASK, TUNSETGROUP, TUNSETIFF, TUNSETOWNER, TUNSETPERSIST,
};
use vstd::prelude::*;
use vstd::string::StringExecFns;

verus! {

/// A control call on an open handle.
#[derive(Debug)]
pub enum Request {
    /// Bind a tun handle to the tap of this name, creating the tap where
    /// there is none.
    TunSetIff { name: InterfaceName, flags: i16 },
    /// Give the tap of the handle to a user.
    TunSetOwner { uid: u32 },
    /// Give the tap of the handle to a group.
    TunSetGroup { gid: u32 },
    /// Let the tap of the handle outlive its handles, or not.
    TunSetPersist { on: bool },
    /// Create a bridge.
    BridgeAdd { name: InterfaceName },
    /// Attach the interface of the given index to a bridge.
    BridgeAddIf { bridge: InterfaceName, index: i32 },
    /// Read the flags of an interface.
    GetFlags { name: InterfaceName },
    /// Write the flags of an interface.
    SetFlags { name: InterfaceName, flags: i16 },
    /// Set the address of an interface.
    SetAddress { name: InterfaceName, address: Ipv4 },
    /// Set the network mask of an interface.
    SetNetmask { name: InterfaceName, mask: Ipv4 },
}

/// An entry of an interface in the kernel's pseudo file system.
#[derive(Clone, Copy, Debug, PartialEq, Eq, Structural)]
pub enum Entry {
    /// The directory of the interface.
    Link,
    /// The file with its operational state.
    OperState,
}

/// What the library asks to have done next.
#[derive(Debug)]
pub enum Action {
    /// Read the status file of the process.
    ReadStatus,
    /// Say whether an entry of an interface exists.
    Probe { name: InterfaceName, entry: Entry },
    /// Read the file that holds the index of an interface.
    ReadIndex { name: InterfaceName },
    /// Open the tun control device for reading and writing.
    OpenTun { cloexec: bool },
    /// Open a datagram socket for interface calls.
    OpenSocket,
    /// Make a control call on a handle.
    Control { fd: i32, request: Request },
    /// Close a handle.
    Close { fd: i32 },
    /// Run the command that deletes a link.
    LinkDelete { name: InterfaceName },
}

/// The answer to an action.
#[derive(Debug)]
pub enum Reply {
    /// The call succeeded and gives nothing back.
    Done,
    /// The call failed with this error number.
    Failed { errno: i32 },
    /// The handle that was opened.
    Opened { fd: i32 },
    /// The flags that were read.
    Flags { flags: i16 },
    /// Whether the entry exists.
    Present { present: bool },
    /// What the file holds.
    Contents { text: String },
    /// The file could not be read, or the command could not be run; why.
    Unreadable { reason: String },
    /// The command ran; whether it succeeded and what it wrote as errors.
    Exited { success: bool, stderr: String },
}

/// Whether a reply is one that the action can have.
pub open spec fn fits(action: Action, reply: Reply) -> bool {
    match action {
        Action::ReadStatus | Action::ReadIndex { .. } => reply is Contents || reply is Unreadable,
        Action::Probe { .. } => reply is Present,
        Action::OpenTun { .. } | Action::OpenSocket => reply is Opened || reply is Failed,
        Action::Control { request, .. } => if request is GetFlags {
            reply is Flags || reply is Failed
        } else {
            reply is Done || reply is Failed
        },
        Action::Close { .. } => reply is Done || reply is Failed,
        Action::LinkDelete { .. } => reply is Exited || reply is Unreadable,
    }
}

impl Request {
    /// The number of the control call.
    pub open spec fn number(self) -> u64 {
        match self {
            Request::TunSetIff { .. } => TUNSETIFF,
            Request::TunSetOwner { .. } => TUNSETOWNER,
            Request::TunSetGroup { .. } => TUNSETGROUP,
            Request::TunSetPersist { .. } => TUNSETPERSIST,
            Request::BridgeAdd { .. } => SIOCBRADDBR,
            Request::BridgeAddIf { .. } => SIOCBRADDIF,
            Request::GetFlags { .. } => SIOCGIFFLAGS,
            Request::SetFlags { .. } => SIOCSIFFLAGS,
            Request::SetAddress { .. } => SIOCSIFADDR,
            Request::SetNetmask { .. } => SIOCSIFNETMASK,
        }
    }

    /// The number of the control call.
    pub fn code(&self) -> (out: u64)
        ensures
            out == self.number(),
    {
        match self {
            Request::TunSetIff { .. } => TUNSETIFF,
            Request::TunSetOwner { .. } => TUNSETOWNER,
            Request::TunSetGroup { .. } => TUNSETGROUP,
            Request::TunSetPersist { .. } => TUNSETPERSIST,
            Request::BridgeAdd { .. } => SIOCBRADDBR,
            Request::BridgeAddIf { .. } => SIOCBRADDIF,
            Request::GetFlags { .. } => SIOCGIFFLAGS,
            Request::SetFlags { .. } => SIOCSIFFLAGS,
            Request::SetAddress { .. } => SIOCSIFADDR,
            Request::SetNetmask { .. } => SIOCSIFNETMASK,
        }
    }

    /// The name field and the payload of the request structure that the
    /// call takes, where it takes one.
    pub open spec fn structure(self) -> Option<(Seq<u8>, Payload)> {
        match self {
            Request::TunSetIff { name, flags } => Some(
                (interface_field(name@), Payload::Flags { flags }),
            ),
            Request::BridgeAddIf { bridge, index } => Some(
                (interface_field(bridge@), Payload::Index { index }),
            ),
            Request::GetFlags { name } => Some((interface_field(name@), Payload::Unset)),
            Request::SetFlags { name, flags } => Some(
                (interface_field(name@), Payload::Flags { flags }),
            ),
            Request::SetAddress { name, address } => Some(
                (interface_field(name@), Payload::Address { address }),
            ),
            Request::SetNetmask { name, mask } => Some(
                (interface_field(name@), Payload::Address { address: mask }),
            ),
            Request::TunSetOwner { .. } | Request::TunSetGroup { .. } | Request::TunSetPersist {
                ..
            } | Request::BridgeAdd { .. } => None,
        }
    }

    /// The request structure that the call takes, where it takes one.
    pub fn ifreq(&self) -> (out: Option<IfReq>)
        ensures
            match out {
                Some(req) => self.structure() == Some((req.name(), req.payload())),
                None => self.structure() is None,
            },
    {
        match self {
            Request::TunSetIff { name, flags } => Some(
                IfReq::for_interface(name, Payload::Flags { flags: *flags }),
            ),
            Request::BridgeAddIf { bridge, index } => Some(
                IfReq::for_interface(bridge, Payload::Index { index: *index }),
            ),
            Request::GetFlags { name } => Some(IfReq::for_interface(name, Payload::Unset)),
            Request::SetFlags { name, flags } => Some(
                IfReq::for_interface(name, Payload::Flags { flags: *flags }),
            ),
            Request::SetAddress { name, address } => Some(
                IfReq::for_interface(name, Payload::Address { address: *address }),
            ),
            Request::SetNetmask { name, mask } => Some(
                IfReq::for_interface(name, Payload::Address { address: *mask }),
            ),
            Request::TunSetOwner { .. } | Request::TunSetGroup { .. } | Request::TunSetPersist {
                ..
            } | Request::BridgeAdd { .. } => None,
        }
    }

    /// The number that the call takes in place of a structure, where it
    /// takes one: a user id, a group id, or 1 or 0 for persistence.
    pub open spec fn scalar(self) -> Option<u64> {
        match self {
            Request::TunSetOwner { uid } => Some(uid as u64),
            Request::TunSetGroup { gid } => Some(gid as u64),
            Request::TunSetPersist { on } => Some(
                if on {
                    1u64
                } else {
                    0u64
                },
            ),
            _ => None,
        }
    }

    /// The number that the call takes in place of a structure.
    pub fn value(&self) -> (out: Option<u64>)
        ensures
            out == self.scalar(),
    {
        match self {
            Request::TunSetOwner { uid } => Some(*uid as u64),
            Request::TunSetGroup { gid } => Some(*gid as u64),
            Request::TunSetPersist { on } => Some(
                if *on {
                    1
                } else {
                    0
                },
            ),
            _ => None,
        }
    }

    /// The name that the call takes as plain text: that of a bridge to
    /// create.
    pub fn bridge_name(&self) -> (out: Option<&str>)
        ensures
            match out {
                Some(text) => self matches Request::BridgeAdd { name } && text@ == name@,
                None => !(self is BridgeAdd),
            },
    {
        match self {
            Request::BridgeAdd { name } => Some(name.as_str()),
            _ => None,
        }
    }

    /// Whether the call changes nothing: it only reads.
    pub open spec fn reads_only(self) -> bool {
        self is GetFlags
    }
}

/// The directory that holds one entry for each interface.
pub open spec fn net_dir() -> Seq<char> {
    "/sys/class/net/"@
}

impl Action {
    /// The file that the action is about, where it is about one.
    pub open spec fn file(self) -> Option<Seq<char>> {
        match self {
            Action::ReadStatus => Some("/proc/self/status"@),
            Action::Probe { name, entry } => Some(
                match entry {
                    Entry::Link => net_dir() + name@,
                    Entry::OperState => net_dir() + name@ + "/operstate"@,
                },
            ),
            Action::ReadIndex { name } => Some(net_dir() + name@ + "/ifindex"@),
            Action::OpenTun { .. } => Some("/dev/net/tun"@),
            _ => None,
        }
    }

    /// The file that the action is about, where it is about one.
    pub fn path(&self) -> (out: Option<String>)
        ensures
            match out {
                Some(p) => self.file() == Some(p@),
                None => self.file() is None,
            },
    {
        match self {
            Action::ReadStatus => Some("/proc/self/status".to_owned()),
            Action::Probe { name, entry } => {
                let mut out = "/sys/class/net/".to_owned();
                out.append(name.as_str());
                match entry {
                    Entry::Link => {},
                    Entry::OperState => {
                        out.append("/operstate");
                    },
                }
                Some(out)
            },
            Action::ReadIndex { name } => {
                let mut out = "/sys/class/net/".to_owned();
                out.append(name.as_str());
                out.append("/ifindex");
                Some(out)
            },
            Action::OpenTun { .. } => Some("/dev/net/tun".to_owned()),
            _ => None,
        }
    }

    /// Whether the action can change nothing in the kernel: it reads a
    /// file, looks for one, or reads flags.
    pub open spec fn reads_only(self) -> bool {
        match self {
            Action::ReadStatus | Action::Probe { .. } | Action::ReadIndex { .. } => true,
            Action::Control { request, .. } => request.reads_only(),
            _ => false,
        }
    }

    /// Whether a reply is one that this action can have.
    pub fn accepts(&self, reply: &Reply) -> (out: bool)
        ensures
            out == fits(*self, *reply),
    {
        match self {
            Action::ReadStatus | Action::ReadIndex { .. } => match reply {
                Reply::Contents { .. } | Reply::Unreadable { .. } => true,
                _ => false,
            },
            Action::Probe { .. } => match reply {
                Reply::Present { .. } => true,
                _ => false,
            },
            Action::OpenTun { .. } | Action::OpenSocket => match reply {
                Reply::Opened { .. } | Reply::Failed { .. } => true,
                _ => false,
            },
            Action::Control { request, .. } => match request {
                Request::GetFlags { .. } => match reply {
                    Reply::Flags { .. } | Reply::Failed { .. } => true,
                    _ => false,
                },
                _ => match reply {
                    Reply::Done | Reply::Failed { .. } => true,
                    _ => false,
                },
            },
            Action::Close { .. } => match reply {
                Reply::Done | Reply::Failed { .. } => true,
                _ => false,
            },
            Action::LinkDelete { .. } => match reply {
                Reply::Exited { .. } | Reply::Unreadable { .. } => true,
                _ => false,
            },
        }
    }
}

/// What a step leads to: the next stage, or the end with an outcome.
#[derive(Debug)]
pub enum Flow<S, T> {
    Goto { stage: S },
    Return { outcome: T },
}

} // verus!
