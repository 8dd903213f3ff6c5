//! Bridges: whether an interface exists, creating a bridge, and attaching
//! a tap to one.

use crate::error::{Call, Error};
use crate::link::{create_control_socket, socket_outcome};
use crate::name::InterfaceName;
use crate::platform::{is_already_exists, EEXIST};
use crate::protocol::{fits, Action, Entry, Flow, Reply, Request};
use crate::text::{chars_of, parse_signed, signed_value, trim_bounds, trimmed};
use vstd::pervasive::unreached;
use vstd::prelude::*;

verus! {

/// The question whether the interface `name` exists.
pub fn existence_query(name: &InterfaceName) -> (out: Action)
    ensures
        out == (Action::Probe { name: *name, entry: Entry::Link }),
{
    Action::Probe { name: name.duplicate(), entry: Entry::Link }
}

/// Whether the interface exists, from the answer to
/// [`existence_query`].
pub fn interface_exists(answer: &Reply) -> (exists: bool)
    requires
        answer is Present,
    ensures
        exists == answer->present,
{
    match answer {
        Reply::Present { present } => *present,
        _ => unreached(),
    }
}

/// The index that the answer to reading an interface's index file gives:
/// the number that the text holds between white space, or why there is
/// none.
pub open spec fn index_outcome(name: InterfaceName, reply: Reply) -> Result<i32, Error> {
    match reply {
        Reply::Contents { text } => match signed_value(trimmed(text@)) {
            Ok(v) => Ok(v as i32),
            Err(number) => Err(Error::IndexMalformed { number }),
        },
        Reply::Unreadable { reason } => Err(Error::IndexUnreadable { name, reason }),
        _ => Err(Error::IndexMalformed { number: crate::text::NumberFault::Empty }),
    }
}

/// The index of the interface `name`, from the answer to reading its
/// index file.
pub fn get_interface_index(name: &InterfaceName, reply: Reply) -> (out: Result<i32, Error>)
    requires
        fits(Action::ReadIndex { name: *name }, reply),
    ensures
        out == index_outcome(*name, reply),
{
    match reply {
        Reply::Contents { text } => {
            let chars = chars_of(text.as_str());
            let (from, to) = trim_bounds(&chars);
            match parse_signed(&chars, from, to) {
                Ok(v) => Ok(v),
                Err(number) => Err(Error::IndexMalformed { number }),
            }
        },
        Reply::Unreadable { reason } => Err(
            Error::IndexUnreadable { name: name.duplicate(), reason },
        ),
        _ => unreached(),
    }
}

/// How far creating a bridge has come.
#[derive(Debug)]
pub enum BridgeCreation {
    /// The control socket is being opened.
    Connecting,
    /// The bridge is being added.
    Adding { fd: i32 },
    /// The socket is being closed; the outcome is known.
    Closing { fd: i32, outcome: Result<(), Error> },
}

impl BridgeCreation {
    /// The stage that the work starts in.
    pub open spec fn first() -> BridgeCreation {
        BridgeCreation::Connecting
    }

    /// The action whose answer this stage waits for.
    pub open spec fn asks(self, name: InterfaceName) -> Action {
        match self {
            BridgeCreation::Connecting => Action::OpenSocket,
            BridgeCreation::Adding { fd } => Action::Control {
                fd,
                request: Request::BridgeAdd { name },
            },
            BridgeCreation::Closing { fd, .. } => Action::Close { fd },
        }
    }

    /// Where an answer leads. That the bridge exists already is success;
    /// any other failure of the call is the outcome. The socket is closed
    /// in every case.
    pub open spec fn next(self, reply: Reply) -> Flow<BridgeCreation, Result<(), Error>> {
        match self {
            BridgeCreation::Connecting => match socket_outcome(reply) {
                Ok(fd) => Flow::Goto { stage: BridgeCreation::Adding { fd } },
                Err(e) => Flow::Return { outcome: Err(e) },
            },
            BridgeCreation::Adding { fd } => match reply {
                Reply::Failed { errno } => if errno == EEXIST {
                    Flow::Goto { stage: BridgeCreation::Closing { fd, outcome: Ok(()) } }
                } else {
                    Flow::Goto {
                        stage: BridgeCreation::Closing {
                            fd,
                            outcome: Err(Error::Kernel { call: Call::CreateBridge, errno }),
                        },
                    }
                },
                _ => Flow::Goto { stage: BridgeCreation::Closing { fd, outcome: Ok(()) } },
            },
            BridgeCreation::Closing { outcome, .. } => Flow::Return { outcome },
        }
    }

    /// The stage that the work starts in.
    pub fn start() -> (stage: BridgeCreation)
        ensures
            stage == BridgeCreation::first(),
    {
        BridgeCreation::Connecting
    }

    /// The action whose answer this stage waits for.
    pub fn action(&self, name: &InterfaceName) -> (out: Action)
        ensures
            out == self.asks(*name),
    {
        match self {
            BridgeCreation::Connecting => Action::OpenSocket,
            BridgeCreation::Adding { fd } => Action::Control {
                fd: *fd,
                request: Request::BridgeAdd { name: name.duplicate() },
            },
            BridgeCreation::Closing { fd, .. } => Action::Close { fd: *fd },
        }
    }
}

/// Takes creating the bridge `name` one answer further.
pub fn create_bridge(name: &InterfaceName, stage: BridgeCreation, reply: Reply) -> (flow: Flow<
    BridgeCreation,
    Result<(), Error>,
>)
    requires
        fits(stage.asks(*name), reply),
    ensures
        flow == stage.next(reply),
{
    match stage {
        BridgeCreation::Connecting => match create_control_socket(reply) {
            Ok(fd) => Flow::Goto { stage: BridgeCreation::Adding { fd } },
            Err(e) => Flow::Return { outcome: Err(e) },
        },
        BridgeCreation::Adding { fd } => match reply {
            Reply::Failed { errno } => if is_already_exists(errno) {
                Flow::Goto { stage: BridgeCreation::Closing { fd, outcome: Ok(()) } }
            } else {
                Flow::Goto {
                    stage: BridgeCreation::Closing {
                        fd,
                        outcome: Err(Error::Kernel { call: Call::CreateBridge, errno }),
                    },
                }
            },
            _ => Flow::Goto { stage: BridgeCreation::Closing { fd, outcome: Ok(()) } },
        },
        BridgeCreation::Closing { outcome, .. } => Flow::Return { outcome },
    }
}

/// How far attaching a tap to a bridge has come.
#[derive(Debug)]
pub enum Attachment {
    /// The bridge is being looked for.
    Checking,
    /// The index of the tap is being read.
    Resolving,
    /// The control socket is being opened.
    Connecting { index: i32 },
    /// The tap is being added to the bridge.
    Joining { fd: i32, index: i32 },
    /// The socket is being closed; the outcome is known.
    Closing { fd: i32, outcome: Result<(), Error> },
}

impl Attachment {
    /// The stage that the work starts in.
    pub open spec fn first() -> Attachment {
        Attachment::Checking
    }

    /// The action whose answer this stage waits for.
    pub open spec fn asks(self, tap: InterfaceName, bridge: InterfaceName) -> Action {
        match self {
            Attachment::Checking => Action::Probe { name: bridge, entry: Entry::Link },
            Attachment::Resolving => Action::ReadIndex { name: tap },
            Attachment::Connecting { .. } => Action::OpenSocket,
            Attachment::Joining { fd, index } => Action::Control {
                fd,
                request: Request::BridgeAddIf { bridge, index },
            },
            Attachment::Closing { fd, .. } => Action::Close { fd },
        }
    }

    /// Where an answer leads. The bridge must exist; the index of the tap
    /// is resolved; the call that attaches carries that index in the
    /// request named after the bridge. A missing bridge, an index that
    /// cannot be resolved and a failure of the call each end the work with
    /// an error of their own.
    pub open spec fn next(self, tap: InterfaceName, bridge: InterfaceName, reply: Reply) -> Flow<
        Attachment,
        Result<(), Error>,
    > {
        match self {
            Attachment::Checking => match reply {
                Reply::Present { present } => if present {
                    Flow::Goto { stage: Attachment::Resolving }
                } else {
                    Flow::Return { outcome: Err(Error::NoBridge { name: bridge }) }
                },
                _ => Flow::Goto { stage: self },
            },
            Attachment::Resolving => match index_outcome(tap, reply) {
                Ok(index) => Flow::Goto { stage: Attachment::Connecting { index } },
                Err(e) => Flow::Return { outcome: Err(e) },
            },
            Attachment::Connecting { index } => match socket_outcome(reply) {
                Ok(fd) => Flow::Goto { stage: Attachment::Joining { fd, index } },
                Err(e) => Flow::Return { outcome: Err(e) },
            },
            Attachment::Joining { fd, .. } => match reply {
                Reply::Failed { errno } => Flow::Goto {
                    stage: Attachment::Closing {
                        fd,
                        outcome: Err(Error::Kernel { call: Call::AddToBridge, errno }),
                    },
                },
                _ => Flow::Goto { stage: Attachment::Closing { fd, outcome: Ok(()) } },
            },
            Attachment::Closing { outcome, .. } => Flow::Return { outcome },
        }
    }

    /// The stage that the work starts in.
    pub fn start() -> (stage: Attachment)
        ensures
            stage == Attachment::first(),
    {
        Attachment::Checking
    }

    /// The action whose answer this stage waits for.
    pub fn action(&self, tap: &InterfaceName, bridge: &InterfaceName) -> (out: Action)
        ensures
            out == self.asks(*tap, *bridge),
    {
        match self {
            Attachment::Checking => existence_query(bridge),
            Attachment::Resolving => Action::ReadIndex { name: tap.duplicate() },
            Attachment::Connecting { .. } => Action::OpenSocket,
            Attachment::Joining { fd, index } => Action::Control {
                fd: *fd,
                request: Request::BridgeAddIf { bridge: bridge.duplicate(), index: *index },
            },
            Attachment::Closing { fd, .. } => Action::Close { fd: *fd },
        }
    }
}

/// Takes attaching the tap to the bridge one answer further.
pub fn add_to_bridge(
    tap_name: &InterfaceName,
    bridge_name: &InterfaceName,
    stage: Attachment,
    reply: Reply,
) -> (flow: Flow<Attachment, Result<(), Error>>)
    requires
        fits(stage.asks(*tap_name, *bridge_name), reply),
    ensures
        flow == stage.next(*tap_name, *bridge_name, reply),
{
    match stage {
        Attachment::Checking => if interface_exists(&reply) {
            Flow::Goto { stage: Attachment::Resolving }
        } else {
            Flow::Return { outcome: Err(Error::NoBridge { name: bridge_name.duplicate() }) }
        },
        Attachment::Resolving => match get_interface_index(tap_name, reply) {
            Ok(index) => Flow::Goto { stage: Attachment::Connecting { index } },
            Err(e) => Flow::Return { outcome: Err(e) },
        },
        Attachment::Connecting { index } => match create_control_socket(reply) {
            Ok(fd) => Flow::Goto { stage: Attachment::Joining { fd, index } },
            Err(e) => Flow::Return { outcome: Err(e) },
        },
        Attachment::Joining { fd, .. } => match reply {
            Reply::Failed { errno } => Flow::Goto {
                stage: Attachment::Closing {
                    fd,
                    outcome: Err(Error::Kernel { call: Call::AddToBridge, errno }),
                },
            },
            _ => Flow::Goto { stage: Attachment::Closing { fd, outcome: Ok(()) } },
        },
        Attachment::Closing { outcome, .. } => Flow::Return { outcome },
    }
}

} // verus!
