//! The life of a tap device: creation with owner, group and persistence,
//! and deletion.

use crate::error::{Call, Error};
use crate::name::InterfaceName;
use crate::protocol::{fits, Action, Entry, Flow, Reply, Request};
use crate::request::{TAP_ATTACH_FLAGS, TAP_CREATE_FLAGS};
use vstd::pervasive::unreached;
use vstd::prelude::*;

verus! {

/// How far the creation of a tap has come. A handle that was opened is
/// held by every stage up to the end or to the stage that closes it.
#[derive(Debug)]
pub enum TapCreation {
    /// The tun control device is being opened.
    Opening,
    /// The handle is being bound to the new tap.
    Binding { fd: i32 },
    /// The tap is being given to its user.
    Owning { fd: i32 },
    /// The tap is being given to its group.
    Grouping { fd: i32 },
    /// The tap is being made persistent.
    Persisting { fd: i32 },
    /// A call failed; the handle is being closed.
    Abandoning { fd: i32, cause: Error },
}

impl TapCreation {
    /// The stage that creation starts in.
    pub open spec fn first() -> TapCreation {
        TapCreation::Opening
    }

    /// The action whose answer this stage waits for.
    pub open spec fn asks(self, name: InterfaceName, owner_uid: u32, owner_gid: u32) -> Action {
        match self {
            TapCreation::Opening => Action::OpenTun { cloexec: true },
            TapCreation::Binding { fd } => Action::Control {
                fd,
                request: Request::TunSetIff { name, flags: TAP_CREATE_FLAGS },
            },
            TapCreation::Owning { fd } => Action::Control {
                fd,
                request: Request::TunSetOwner { uid: owner_uid },
            },
            TapCreation::Grouping { fd } => Action::Control {
                fd,
                request: Request::TunSetGroup { gid: owner_gid },
            },
            TapCreation::Persisting { fd } => Action::Control {
                fd,
                request: Request::TunSetPersist { on: true },
            },
            TapCreation::Abandoning { fd, .. } => Action::Close { fd },
        }
    }

    /// Where an answer leads. The device is opened and bound, then given
    /// its user, its group and persistence, in this order. The first call
    /// that fails ends the work: the handle, if one is open, is closed, and
    /// the outcome is the error of that call. Where all succeed the outcome
    /// is the open handle.
    pub open spec fn next(self, reply: Reply) -> Flow<TapCreation, Result<i32, Error>> {
        match self {
            TapCreation::Opening => match reply {
                Reply::Opened { fd } => Flow::Goto { stage: TapCreation::Binding { fd } },
                Reply::Failed { errno } => Flow::Return {
                    outcome: Err(Error::Kernel { call: Call::OpenTun, errno }),
                },
                _ => Flow::Goto { stage: self },
            },
            TapCreation::Binding { fd } => match reply {
                Reply::Failed { errno } => Flow::Goto {
                    stage: TapCreation::Abandoning {
                        fd,
                        cause: Error::Kernel { call: Call::CreateTap, errno },
                    },
                },
                _ => Flow::Goto { stage: TapCreation::Owning { fd } },
            },
            TapCreation::Owning { fd } => match reply {
                Reply::Failed { errno } => Flow::Goto {
                    stage: TapCreation::Abandoning {
                        fd,
                        cause: Error::Kernel { call: Call::SetOwner, errno },
                    },
                },
                _ => Flow::Goto { stage: TapCreation::Grouping { fd } },
            },
            TapCreation::Grouping { fd } => match reply {
                Reply::Failed { errno } => Flow::Goto {
                    stage: TapCreation::Abandoning {
                        fd,
                        cause: Error::Kernel { call: Call::SetGroup, errno },
                    },
                },
                _ => Flow::Goto { stage: TapCreation::Persisting { fd } },
            },
            TapCreation::Persisting { fd } => match reply {
                Reply::Failed { errno } => Flow::Goto {
                    stage: TapCreation::Abandoning {
                        fd,
                        cause: Error::Kernel { call: Call::SetPersist, errno },
                    },
                },
                _ => Flow::Return { outcome: Ok(fd) },
            },
            TapCreation::Abandoning { cause, .. } => Flow::Return { outcome: Err(cause) },
        }
    }

    /// The stage that creation starts in.
    pub fn start() -> (stage: TapCreation)
        ensures
            stage == TapCreation::first(),
    {
        TapCreation::Opening
    }

    /// The action whose answer this stage waits for.
    pub fn action(&self, name: &InterfaceName, owner_uid: u32, owner_gid: u32) -> (out: Action)
        ensures
            out == self.asks(*name, owner_uid, owner_gid),
    {
        match self {
            TapCreation::Opening => Action::OpenTun { cloexec: true },
            TapCreation::Binding { fd } => Action::Control {
                fd: *fd,
                request: Request::TunSetIff { name: name.duplicate(), flags: TAP_CREATE_FLAGS },
            },
            TapCreation::Owning { fd } => Action::Control {
                fd: *fd,
                request: Request::TunSetOwner { uid: owner_uid },
            },
            TapCreation::Grouping { fd } => Action::Control {
                fd: *fd,
                request: Request::TunSetGroup { gid: owner_gid },
            },
            TapCreation::Persisting { fd } => Action::Control {
                fd: *fd,
                request: Request::TunSetPersist { on: true },
            },
            TapCreation::Abandoning { fd, .. } => Action::Close { fd: *fd },
        }
    }
}

/// Takes the creation of the tap `name` one answer further.
pub fn create_tap(
    name: &InterfaceName,
    owner_uid: u32,
    owner_gid: u32,
    stage: TapCreation,
    reply: Reply,
) -> (flow: Flow<TapCreation, Result<i32, Error>>)
    requires
        fits(stage.asks(*name, owner_uid, owner_gid), reply),
    ensures
        flow == stage.next(reply),
{
    match stage {
        TapCreation::Opening => match reply {
            Reply::Opened { fd } => Flow::Goto { stage: TapCreation::Binding { fd } },
            Reply::Failed { errno } => Flow::Return {
                outcome: Err(Error::Kernel { call: Call::OpenTun, errno }),
            },
            _ => unreached(),
        },
        TapCreation::Binding { fd } => match reply {
            Reply::Failed { errno } => Flow::Goto {
                stage: TapCreation::Abandoning {
                    fd,
                    cause: Error::Kernel { call: Call::CreateTap, errno },
                },
            },
            _ => Flow::Goto { stage: TapCreation::Owning { fd } },
        },
        TapCreation::Owning { fd } => match reply {
            Reply::Failed { errno } => Flow::Goto {
                stage: TapCreation::Abandoning {
                    fd,
                    cause: Error::Kernel { call: Call::SetOwner, errno },
                },
            },
            _ => Flow::Goto { stage: TapCreation::Grouping { fd } },
        },
        TapCreation::Grouping { fd } => match reply {
            Reply::Failed { errno } => Flow::Goto {
                stage: TapCreation::Abandoning {
                    fd,
                    cause: Error::Kernel { call: Call::SetGroup, errno },
                },
            },
            _ => Flow::Goto { stage: TapCreation::Persisting { fd } },
        },
        TapCreation::Persisting { fd } => match reply {
            Reply::Failed { errno } => Flow::Goto {
                stage: TapCreation::Abandoning {
                    fd,
                    cause: Error::Kernel { call: Call::SetPersist, errno },
                },
            },
            _ => Flow::Return { outcome: Ok(fd) },
        },
        TapCreation::Abandoning { cause, .. } => Flow::Return { outcome: Err(cause) },
    }
}

/// How far the deletion of an interface has come.
#[derive(Debug)]
pub enum Deletion {
    /// The interface is being looked for.
    Checking,
    /// The tun control device is being opened.
    Opening,
    /// The handle is being bound to the tap.
    Binding { fd: i32 },
    /// Persistence is being cleared.
    Clearing { fd: i32 },
    /// Binding failed; the handle is being closed before the command is
    /// tried.
    Releasing { fd: i32 },
    /// The handle is being closed; the outcome is known.
    Closing { fd: i32, outcome: Result<(), Error> },
    /// The command that deletes a link is running.
    Commanding,
}

impl Deletion {
    /// The stage that deletion starts in.
    pub open spec fn first() -> Deletion {
        Deletion::Checking
    }

    /// The action whose answer this stage waits for.
    pub open spec fn asks(self, name: InterfaceName) -> Action {
        match self {
            Deletion::Checking => Action::Probe { name, entry: Entry::OperState },
            Deletion::Opening => Action::OpenTun { cloexec: false },
            Deletion::Binding { fd } => Action::Control {
                fd,
                request: Request::TunSetIff { name, flags: TAP_ATTACH_FLAGS },
            },
            Deletion::Clearing { fd } => Action::Control {
                fd,
                request: Request::TunSetPersist { on: false },
            },
            Deletion::Releasing { fd } => Action::Close { fd },
            Deletion::Closing { fd, .. } => Action::Close { fd },
            Deletion::Commanding => Action::LinkDelete { name },
        }
    }

    /// Where an answer leads. An interface that is not there is an error.
    /// Else the device is opened and bound to the tap, persistence is
    /// cleared and the handle closed, upon which the kernel removes the
    /// tap. Where the device cannot be opened or bound, the command that
    /// deletes a link is run in its place, and its failure is the outcome
    /// as it stands.
    pub open spec fn next(self, name: InterfaceName, reply: Reply) -> Flow<Deletion, Result<(), Error>> {
        match self {
            Deletion::Checking => match reply {
                Reply::Present { present } => if present {
                    Flow::Goto { stage: Deletion::Opening }
                } else {
                    Flow::Return { outcome: Err(Error::NoInterface { name }) }
                },
                _ => Flow::Goto { stage: self },
            },
            Deletion::Opening => match reply {
                Reply::Opened { fd } => Flow::Goto { stage: Deletion::Binding { fd } },
                _ => Flow::Goto { stage: Deletion::Commanding },
            },
            Deletion::Binding { fd } => match reply {
                Reply::Failed { .. } => Flow::Goto { stage: Deletion::Releasing { fd } },
                _ => Flow::Goto { stage: Deletion::Clearing { fd } },
            },
            Deletion::Clearing { fd } => match reply {
                Reply::Failed { errno } => Flow::Goto {
                    stage: Deletion::Closing {
                        fd,
                        outcome: Err(Error::Kernel { call: Call::ClearPersist, errno }),
                    },
                },
                _ => Flow::Goto { stage: Deletion::Closing { fd, outcome: Ok(()) } },
            },
            Deletion::Releasing { .. } => Flow::Goto { stage: Deletion::Commanding },
            Deletion::Closing { outcome, .. } => Flow::Return { outcome },
            Deletion::Commanding => match reply {
                Reply::Exited { success, stderr } => if success {
                    Flow::Return { outcome: Ok(()) }
                } else {
                    Flow::Return { outcome: Err(Error::FallbackFailed { stderr }) }
                },
                Reply::Unreadable { reason } => Flow::Return {
                    outcome: Err(Error::FallbackNotRun { reason }),
                },
                _ => Flow::Goto { stage: self },
            },
        }
    }

    /// The stage that deletion starts in.
    pub fn start() -> (stage: Deletion)
        ensures
            stage == Deletion::first(),
    {
        Deletion::Checking
    }

    /// The action whose answer this stage waits for.
    pub fn action(&self, name: &InterfaceName) -> (out: Action)
        ensures
            out == self.asks(*name),
    {
        match self {
            Deletion::Checking => Action::Probe { name: name.duplicate(), entry: Entry::OperState },
            Deletion::Opening => Action::OpenTun { cloexec: false },
            Deletion::Binding { fd } => Action::Control {
                fd: *fd,
                request: Request::TunSetIff { name: name.duplicate(), flags: TAP_ATTACH_FLAGS },
            },
            Deletion::Clearing { fd } => Action::Control {
                fd: *fd,
                request: Request::TunSetPersist { on: false },
            },
            Deletion::Releasing { fd } => Action::Close { fd: *fd },
            Deletion::Closing { fd, .. } => Action::Close { fd: *fd },
            Deletion::Commanding => Action::LinkDelete { name: name.duplicate() },
        }
    }
}

/// Takes the deletion of the interface `name` one answer further.
pub fn delete_interface(name: &InterfaceName, stage: Deletion, reply: Reply) -> (flow: Flow<
    Deletion,
    Result<(), Error>,
>)
    requires
        fits(stage.asks(*name), reply),
    ensures
        flow == stage.next(*name, reply),
{
    match stage {
        Deletion::Checking => match reply {
            Reply::Present { present } => if present {
                Flow::Goto { stage: Deletion::Opening }
            } else {
                Flow::Return { outcome: Err(Error::NoInterface { name: name.duplicate() }) }
            },
            _ => unreached(),
        },
        Deletion::Opening => match reply {
            Reply::Opened { fd } => Flow::Goto { stage: Deletion::Binding { fd } },
            _ => Flow::Goto { stage: Deletion::Commanding },
        },
        Deletion::Binding { fd } => match reply {
            Reply::Failed { .. } => Flow::Goto { stage: Deletion::Releasing { fd } },
            _ => Flow::Goto { stage: Deletion::Clearing { fd } },
        },
        Deletion::Clearing { fd } => match reply {
            Reply::Failed { errno } => Flow::Goto {
                stage: Deletion::Closing {
                    fd,
                    outcome: Err(Error::Kernel { call: Call::ClearPersist, errno }),
                },
            },
            _ => Flow::Goto { stage: Deletion::Closing { fd, outcome: Ok(()) } },
        },
        Deletion::Releasing { .. } => Flow::Goto { stage: Deletion::Commanding },
        Deletion::Closing { outcome, .. } => Flow::Return { outcome },
        Deletion::Commanding => match reply {
            Reply::Exited { success, stderr } => if success {
                Flow::Return { outcome: Ok(()) }
            } else {
                Flow::Return { outcome: Err(Error::FallbackFailed { stderr }) }
            },
            Reply::Unreadable { reason } => Flow::Return {
                outcome: Err(Error::FallbackNotRun { reason }),
            },
            _ => unreached(),
        },
    }
}

} // verus!
