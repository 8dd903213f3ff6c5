//! The three compound operations and the inspection of the capability,
//! each as a conversation: a session names the next action, takes the
//! answer and moves on, until it ends with an outcome.

use crate::address::Ipv4;
use crate::bridge::{add_to_bridge, create_bridge, existence_query, interface_exists, Attachment, BridgeCreation};
use crate::error::Error;
use crate::link::{address_plan, bring_up, plan_address, set_ip_address, Addressing, BringUp};
use crate::name::{name_verdict, InterfaceName};
use crate::outcome::{is_json, Outcome, SetupStep};
use crate::privilege::{check_capabilities, privileged, Caller};
use crate::protocol::{fits, Action, Entry, Flow, Reply};
use crate::tap::{create_tap, delete_interface, Deletion, TapCreation};
use vstd::pervasive::unreached;
use vstd::prelude::*;

verus! {

/// What is asked for, as it comes from the command line.
#[derive(Debug)]
pub enum Command {
    /// Create a tap, attach it to a bridge and bring it up.
    Create {
        name: String,
        bridge: String,
        owner_uid: Option<u32>,
        owner_gid: Option<u32>,
        format: String,
    },
    /// Delete a tap.
    Delete { name: String },
    /// Say whether the capability is held.
    CheckCaps { program: String },
    /// Create a bridge where there is none, give it an address and bring
    /// it up.
    SetupBridge { name: String, ip: String },
}

/// How far creating and attaching a tap has come.
#[allow(inconsistent_fields)]
#[derive(Debug)]
pub enum CreatePhase {
    /// The process status is being read.
    Privilege,
    /// The tap is being looked for: it must not exist.
    Vacancy,
    /// The tap is being created.
    Creating { stage: TapCreation },
    /// The handle of the new tap is being closed.
    Releasing { fd: i32 },
    /// The tap is being attached to the bridge.
    Attaching { stage: Attachment },
    /// The tap is being brought up.
    Raising { stage: BringUp },
    /// Attaching or bringing up failed with `cause`; the tap is being
    /// removed again.
    RollingBack { stage: Deletion, cause: Error },
}

/// How far deleting a tap has come.
#[derive(Debug)]
pub enum DeletePhase {
    /// The process status is being read.
    Privilege,
    /// The tap is being looked for.
    Presence,
    /// The tap is being deleted.
    Deleting { stage: Deletion },
}

/// How far setting up a bridge has come.
#[allow(inconsistent_fields)]
#[derive(Debug)]
pub enum SetupPhase {
    /// The process status is being read.
    Privilege,
    /// The bridge is being looked for.
    Presence,
    /// The bridge is being created.
    CreatingBridge { stage: BridgeCreation },
    /// The bridge is being given its address.
    Addressing { stage: Addressing, address: Ipv4, mask: Ipv4 },
    /// The bridge is being brought up.
    Raising { stage: BringUp },
}

/// A command under way. Every name in it has been validated.
#[allow(inconsistent_fields)]
#[derive(Debug)]
pub enum Session {
    Create {
        tap: InterfaceName,
        bridge: InterfaceName,
        owner_uid: u32,
        owner_gid: u32,
        json: bool,
        caller_uid: u32,
        phase: CreatePhase,
    },
    Delete { name: InterfaceName, caller_uid: u32, phase: DeletePhase },
    CheckCaps { program: String, caller_uid: u32 },
    SetupBridge { name: InterfaceName, ip: String, caller_uid: u32, phase: SetupPhase },
}

/// What a session does next: it goes on, or it ends.
#[derive(Debug)]
pub enum Turn {
    Continue { session: Session },
    Exit { outcome: Outcome },
}

/// The text of the process status that a reply holds, if it holds one.
pub open spec fn status_text(reply: Reply) -> Option<Seq<char>> {
    match reply {
        Reply::Contents { text } => Some(text@),
        _ => None,
    }
}

/// What a removal that was tried leaves to tell: its error, if it failed.
pub open spec fn rollback_result(outcome: Result<(), Error>) -> Option<Error> {
    match outcome {
        Ok(_) => None,
        Err(e) => Some(e),
    }
}

/// The outcome of a command whose text is refused before a session
/// starts, or how its session starts. The names are validated first, the
/// tap's before the bridge's; nothing is asked of the kernel for a name
/// that is refused. A session starts by reading the process status.
pub open spec fn starts(command: Command, caller: Caller, turn: Turn) -> bool {
    match command {
        Command::Create { name, bridge, owner_uid, owner_gid, format } => {
            let json = format@ == "json"@;
            match name_verdict(name@, vstd::utf8::encode_utf8(name@).len()) {
                Err(fault) => turn matches Turn::Exit { outcome } && outcome == (Outcome::NotCreated {
                    error: Error::Name { fault },
                    json,
                    rollback: None,
                }),
                Ok(_) => match name_verdict(bridge@, vstd::utf8::encode_utf8(bridge@).len()) {
                    Err(fault) => turn matches Turn::Exit { outcome } && outcome == (
                    Outcome::NotCreated { error: Error::Name { fault }, json, rollback: None }),
                    Ok(_) => {
                        &&& turn matches Turn::Continue { session }
                        &&& session matches Session::Create {
                            tap,
                            bridge: b,
                            owner_uid: uid,
                            owner_gid: gid,
                            json: j,
                            caller_uid,
                            phase,
                        }
                        &&& tap@ == name@
                        &&& b@ == bridge@
                        &&& uid == (match owner_uid {
                            Some(u) => u,
                            None => caller.uid,
                        })
                        &&& gid == (match owner_gid {
                            Some(g) => g,
                            None => caller.gid,
                        })
                        &&& j == json
                        &&& caller_uid == caller.uid
                        &&& phase is Privilege
                    },
                },
            }
        },
        Command::Delete { name } => match name_verdict(name@, vstd::utf8::encode_utf8(name@).len()) {
            Err(fault) => turn matches Turn::Exit { outcome } && outcome == (Outcome::NotDeleted {
                error: Error::Name { fault },
            }),
            Ok(_) => {
                &&& turn matches Turn::Continue { session }
                &&& session matches Session::Delete { name: n, caller_uid, phase }
                &&& n@ == name@
                &&& caller_uid == caller.uid
                &&& phase is Privilege
            },
        },
        Command::CheckCaps { program } => {
            &&& turn matches Turn::Continue { session }
            &&& session == (Session::CheckCaps { program, caller_uid: caller.uid })
        },
        Command::SetupBridge { name, ip } => match name_verdict(name@, vstd::utf8::encode_utf8(name@).len()) {
            Err(fault) => turn matches Turn::Exit { outcome } && outcome == (
            Outcome::NotConfigured { step: SetupStep::Checking, error: Error::Name { fault } }),
            Ok(_) => {
                &&& turn matches Turn::Continue { session }
                &&& session matches Session::SetupBridge { name: n, ip: i, caller_uid, phase }
                &&& n@ == name@
                &&& i == ip
                &&& caller_uid == caller.uid
                &&& phase is Privilege
            },
        },
    }
}

impl Session {
    /// The action whose answer the session waits for.
    pub open spec fn asks(self) -> Action {
        match self {
            Session::Create { tap, bridge, owner_uid, owner_gid, phase, .. } => match phase {
                CreatePhase::Privilege => Action::ReadStatus,
                CreatePhase::Vacancy => Action::Probe { name: tap, entry: Entry::Link },
                CreatePhase::Creating { stage } => stage.asks(tap, owner_uid, owner_gid),
                CreatePhase::Releasing { fd } => Action::Close { fd },
                CreatePhase::Attaching { stage } => stage.asks(tap, bridge),
                CreatePhase::Raising { stage } => stage.asks(tap),
                CreatePhase::RollingBack { stage, .. } => stage.asks(tap),
            },
            Session::Delete { name, phase, .. } => match phase {
                DeletePhase::Privilege => Action::ReadStatus,
                DeletePhase::Presence => Action::Probe { name, entry: Entry::Link },
                DeletePhase::Deleting { stage } => stage.asks(name),
            },
            Session::CheckCaps { .. } => Action::ReadStatus,
            Session::SetupBridge { name, phase, .. } => match phase {
                SetupPhase::Privilege => Action::ReadStatus,
                SetupPhase::Presence => Action::Probe { name, entry: Entry::Link },
                SetupPhase::CreatingBridge { stage } => stage.asks(name),
                SetupPhase::Addressing { stage, address, mask } => stage.asks(name, address, mask),
                SetupPhase::Raising { stage } => stage.asks(name),
            },
        }
    }

    /// Where an answer leads.
    ///
    /// Creating a tap: the capability is required, and that the tap does
    /// not exist; then the tap is created, its handle closed, the tap
    /// attached and brought up. Where attaching or bringing up fails the
    /// tap is removed again, and the outcome is the error that caused the
    /// removal, whatever becomes of the removal itself.
    ///
    /// Deleting: the capability is required; a tap that does not exist is
    /// a success with nothing done.
    ///
    /// Setting up a bridge: the capability is required; the bridge is
    /// created where it does not exist, given its address and brought up.
    /// The address is read when it is to be set. A failure leaves what was
    /// done before it.
    pub open spec fn next(self, reply: Reply) -> Turn {
        match self {
            Session::Create { tap, bridge, owner_uid, owner_gid, json, caller_uid, phase } => {
                match phase {
                    CreatePhase::Privilege => if privileged(status_text(reply), caller_uid) {
                        Turn::Continue {
                            session: Session::Create {
                                tap,
                                bridge,
                                owner_uid,
                                owner_gid,
                                json,
                                caller_uid,
                                phase: CreatePhase::Vacancy,
                            },
                        }
                    } else {
                        Turn::Exit {
                            outcome: Outcome::NotCreated {
                                error: Error::Unprivileged,
                                json,
                                rollback: None,
                            },
                        }
                    },
                    CreatePhase::Vacancy => if reply is Present && reply->present {
                        Turn::Exit {
                            outcome: Outcome::NotCreated {
                                error: Error::TapExists { name: tap },
                                json,
                                rollback: None,
                            },
                        }
                    } else {
                        Turn::Continue {
                            session: Session::Create {
                                tap,
                                bridge,
                                owner_uid,
                                owner_gid,
                                json,
                                caller_uid,
                                phase: CreatePhase::Creating { stage: TapCreation::first() },
                            },
                        }
                    },
                    CreatePhase::Creating { stage } => match stage.next(reply) {
                        Flow::Goto { stage } => Turn::Continue {
                            session: Session::Create {
                                tap,
                                bridge,
                                owner_uid,
                                owner_gid,
                                json,
                                caller_uid,
                                phase: CreatePhase::Creating { stage },
                            },
                        },
                        Flow::Return { outcome: Ok(fd) } => Turn::Continue {
                            session: Session::Create {
                                tap,
                                bridge,
                                owner_uid,
                                owner_gid,
                                json,
                                caller_uid,
                                phase: CreatePhase::Releasing { fd },
                            },
                        },
                        Flow::Return { outcome: Err(error) } => Turn::Exit {
                            outcome: Outcome::NotCreated { error, json, rollback: None },
                        },
                    },
                    CreatePhase::Releasing { .. } => Turn::Continue {
                        session: Session::Create {
                            tap,
                            bridge,
                            owner_uid,
                            owner_gid,
                            json,
                            caller_uid,
                            phase: CreatePhase::Attaching { stage: Attachment::first() },
                        },
                    },
                    CreatePhase::Attaching { stage } => match stage.next(tap, bridge, reply) {
                        Flow::Goto { stage } => Turn::Continue {
                            session: Session::Create {
                                tap,
                                bridge,
                                owner_uid,
                                owner_gid,
                                json,
                                caller_uid,
                                phase: CreatePhase::Attaching { stage },
                            },
                        },
                        Flow::Return { outcome: Ok(_) } => Turn::Continue {
                            session: Session::Create {
                                tap,
                                bridge,
                                owner_uid,
                                owner_gid,
                                json,
                                caller_uid,
                                phase: CreatePhase::Raising { stage: BringUp::first() },
                            },
                        },
                        Flow::Return { outcome: Err(cause) } => Turn::Continue {
                            session: Session::Create {
                                tap,
                                bridge,
                                owner_uid,
                                owner_gid,
                                json,
                                caller_uid,
                                phase: CreatePhase::RollingBack { stage: Deletion::first(), cause },
                            },
                        },
                    },
                    CreatePhase::Raising { stage } => match stage.next(reply) {
                        Flow::Goto { stage } => Turn::Continue {
                            session: Session::Create {
                                tap,
                                bridge,
                                owner_uid,
                                owner_gid,
                                json,
                                caller_uid,
                                phase: CreatePhase::Raising { stage },
                            },
                        },
                        Flow::Return { outcome: Ok(_) } => Turn::Exit {
                            outcome: Outcome::Created { tap, json },
                        },
                        Flow::Return { outcome: Err(cause) } => Turn::Continue {
                            session: Session::Create {
                                tap,
                                bridge,
                                owner_uid,
                                owner_gid,
                                json,
                                caller_uid,
                                phase: CreatePhase::RollingBack { stage: Deletion::first(), cause },
                            },
                        },
                    },
                    CreatePhase::RollingBack { stage, cause } => match stage.next(tap, reply) {
                        Flow::Goto { stage } => Turn::Continue {
                            session: Session::Create {
                                tap,
                                bridge,
                                owner_uid,
                                owner_gid,
                                json,
                                caller_uid,
                                phase: CreatePhase::RollingBack { stage, cause },
                            },
                        },
                        Flow::Return { outcome } => Turn::Exit {
                            outcome: Outcome::NotCreated {
                                error: cause,
                                json,
                                rollback: rollback_result(outcome),
                            },
                        },
                    },
                }
            },
            Session::Delete { name, caller_uid, phase } => match phase {
                DeletePhase::Privilege => if privileged(status_text(reply), caller_uid) {
                    Turn::Continue {
                        session: Session::Delete { name, caller_uid, phase: DeletePhase::Presence },
                    }
                } else {
                    Turn::Exit { outcome: Outcome::NotDeleted { error: Error::Unprivileged } }
                },
                DeletePhase::Presence => if reply is Present && reply->present {
                    Turn::Continue {
                        session: Session::Delete {
                            name,
                            caller_uid,
                            phase: DeletePhase::Deleting { stage: Deletion::first() },
                        },
                    }
                } else {
                    Turn::Exit { outcome: Outcome::NothingToDelete { name } }
                },
                DeletePhase::Deleting { stage } => match stage.next(name, reply) {
                    Flow::Goto { stage } => Turn::Continue {
                        session: Session::Delete {
                            name,
                            caller_uid,
                            phase: DeletePhase::Deleting { stage },
                        },
                    },
                    Flow::Return { outcome: Ok(_) } => Turn::Exit {
                        outcome: Outcome::Deleted { name },
                    },
                    Flow::Return { outcome: Err(error) } => Turn::Exit {
                        outcome: Outcome::NotDeleted { error },
                    },
                },
            },
            Session::CheckCaps { program, caller_uid } => if privileged(
                status_text(reply),
                caller_uid,
            ) {
                Turn::Exit { outcome: Outcome::CapabilityHeld }
            } else {
                Turn::Exit { outcome: Outcome::CapabilityMissing { program } }
            },
            Session::SetupBridge { name, ip, caller_uid, phase } => match phase {
                SetupPhase::Privilege => if privileged(status_text(reply), caller_uid) {
                    Turn::Continue {
                        session: Session::SetupBridge {
                            name,
                            ip,
                            caller_uid,
                            phase: SetupPhase::Presence,
                        },
                    }
                } else {
                    Turn::Exit {
                        outcome: Outcome::NotConfigured {
                            step: SetupStep::Checking,
                            error: Error::Unprivileged,
                        },
                    }
                },
                SetupPhase::Presence => if reply is Present && reply->present {
                    Session::addressing(name, ip, caller_uid)
                } else {
                    Turn::Continue {
                        session: Session::SetupBridge {
                            name,
                            ip,
                            caller_uid,
                            phase: SetupPhase::CreatingBridge { stage: BridgeCreation::first() },
                        },
                    }
                },
                SetupPhase::CreatingBridge { stage } => match stage.next(reply) {
                    Flow::Goto { stage } => Turn::Continue {
                        session: Session::SetupBridge {
                            name,
                            ip,
                            caller_uid,
                            phase: SetupPhase::CreatingBridge { stage },
                        },
                    },
                    Flow::Return { outcome: Ok(_) } => Session::addressing(name, ip, caller_uid),
                    Flow::Return { outcome: Err(error) } => Turn::Exit {
                        outcome: Outcome::NotConfigured { step: SetupStep::CreatingBridge, error },
                    },
                },
                SetupPhase::Addressing { stage, address, mask } => match stage.next(reply) {
                    Flow::Goto { stage } => Turn::Continue {
                        session: Session::SetupBridge {
                            name,
                            ip,
                            caller_uid,
                            phase: SetupPhase::Addressing { stage, address, mask },
                        },
                    },
                    Flow::Return { outcome: Ok(_) } => Turn::Continue {
                        session: Session::SetupBridge {
                            name,
                            ip,
                            caller_uid,
                            phase: SetupPhase::Raising { stage: BringUp::first() },
                        },
                    },
                    Flow::Return { outcome: Err(error) } => Turn::Exit {
                        outcome: Outcome::NotConfigured { step: SetupStep::Addressing, error },
                    },
                },
                SetupPhase::Raising { stage } => match stage.next(reply) {
                    Flow::Goto { stage } => Turn::Continue {
                        session: Session::SetupBridge {
                            name,
                            ip,
                            caller_uid,
                            phase: SetupPhase::Raising { stage },
                        },
                    },
                    Flow::Return { outcome: Ok(_) } => Turn::Exit {
                        outcome: Outcome::Configured { name, ip },
                    },
                    Flow::Return { outcome: Err(error) } => Turn::Exit {
                        outcome: Outcome::NotConfigured { step: SetupStep::Raising, error },
                    },
                },
            },
        }
    }

    /// How giving the bridge its address starts: with the address read
    /// from the text that was asked for, or with the end where it is
    /// malformed.
    pub open spec fn addressing(name: InterfaceName, ip: String, caller_uid: u32) -> Turn {
        match address_plan(ip@) {
            Ok(plan) => Turn::Continue {
                session: Session::SetupBridge {
                    name,
                    ip,
                    caller_uid,
                    phase: SetupPhase::Addressing {
                        stage: Addressing::first(),
                        address: plan.0,
                        mask: plan.1,
                    },
                },
            },
            Err(error) => Turn::Exit {
                outcome: Outcome::NotConfigured { step: SetupStep::Addressing, error },
            },
        }
    }

    fn begin_addressing(name: InterfaceName, ip: String, caller_uid: u32) -> (turn: Turn)
        ensures
            turn == Session::addressing(name, ip, caller_uid),
    {
        match plan_address(ip.as_str()) {
            Ok(plan) => Turn::Continue {
                session: Session::SetupBridge {
                    name,
                    ip,
                    caller_uid,
                    phase: SetupPhase::Addressing {
                        stage: Addressing::start(),
                        address: plan.0,
                        mask: plan.1,
                    },
                },
            },
            Err(error) => Turn::Exit {
                outcome: Outcome::NotConfigured { step: SetupStep::Addressing, error },
            },
        }
    }

    /// Starts a command for the given caller.
    pub fn start(command: Command, caller: Caller) -> (turn: Turn)
        ensures
            starts(command, caller, turn),
    {
        match command {
            Command::Create { name, bridge, owner_uid, owner_gid, format } => {
                let json = is_json(format.as_str());
                let tap = match InterfaceName::parse(name.as_str()) {
                    Ok(n) => n,
                    Err(fault) => {
                        return Turn::Exit {
                            outcome: Outcome::NotCreated {
                                error: Error::Name { fault },
                                json,
                                rollback: None,
                            },
                        };
                    },
                };
                let bridge_name = match InterfaceName::parse(bridge.as_str()) {
                    Ok(n) => n,
                    Err(fault) => {
                        return Turn::Exit {
                            outcome: Outcome::NotCreated {
                                error: Error::Name { fault },
                                json,
                                rollback: None,
                            },
                        };
                    },
                };
                let uid: u32 = match owner_uid {
                    Some(u) => u,
                    None => caller.uid,
                };
                let gid: u32 = match owner_gid {
                    Some(g) => g,
                    None => caller.gid,
                };
                Turn::Continue {
                    session: Session::Create {
                        tap,
                        bridge: bridge_name,
                        owner_uid: uid,
                        owner_gid: gid,
                        json,
                        caller_uid: caller.uid,
                        phase: CreatePhase::Privilege,
                    },
                }
            },
            Command::Delete { name } => match InterfaceName::parse(name.as_str()) {
                Ok(n) => Turn::Continue {
                    session: Session::Delete {
                        name: n,
                        caller_uid: caller.uid,
                        phase: DeletePhase::Privilege,
                    },
                },
                Err(fault) => Turn::Exit {
                    outcome: Outcome::NotDeleted { error: Error::Name { fault } },
                },
            },
            Command::CheckCaps { program } => Turn::Continue {
                session: Session::CheckCaps { program, caller_uid: caller.uid },
            },
            Command::SetupBridge { name, ip } => match InterfaceName::parse(name.as_str()) {
                Ok(n) => Turn::Continue {
                    session: Session::SetupBridge {
                        name: n,
                        ip,
                        caller_uid: caller.uid,
                        phase: SetupPhase::Privilege,
                    },
                },
                Err(fault) => Turn::Exit {
                    outcome: Outcome::NotConfigured {
                        step: SetupStep::Checking,
                        error: Error::Name { fault },
                    },
                },
            },
        }
    }

    /// Starts a command for the process that calls.
    pub fn begin(command: Command) -> (turn: Turn)
        ensures
            exists|caller: Caller| starts(command, caller, turn),
    {
        let caller = Caller::current();
        Session::start(command, caller)
    }

    /// The action whose answer the session waits for.
    pub fn action(&self) -> (out: Action)
        ensures
            out == self.asks(),
    {
        match self {
            Session::Create { tap, bridge, owner_uid, owner_gid, phase, .. } => match phase {
                CreatePhase::Privilege => Action::ReadStatus,
                CreatePhase::Vacancy => existence_query(tap),
                CreatePhase::Creating { stage } => stage.action(tap, *owner_uid, *owner_gid),
                CreatePhase::Releasing { fd } => Action::Close { fd: *fd },
                CreatePhase::Attaching { stage } => stage.action(tap, bridge),
                CreatePhase::Raising { stage } => stage.action(tap),
                CreatePhase::RollingBack { stage, .. } => stage.action(tap),
            },
            Session::Delete { name, phase, .. } => match phase {
                DeletePhase::Privilege => Action::ReadStatus,
                DeletePhase::Presence => existence_query(name),
                DeletePhase::Deleting { stage } => stage.action(name),
            },
            Session::CheckCaps { .. } => Action::ReadStatus,
            Session::SetupBridge { name, phase, .. } => match phase {
                SetupPhase::Privilege => Action::ReadStatus,
                SetupPhase::Presence => existence_query(name),
                SetupPhase::CreatingBridge { stage } => stage.action(name),
                SetupPhase::Addressing { stage, address, mask } => stage.action(
                    name,
                    *address,
                    *mask,
                ),
                SetupPhase::Raising { stage } => stage.action(name),
            },
        }
    }

    /// Whether `reply` can be the answer that the session waits for.
    pub fn accepts(&self, reply: &Reply) -> (out: bool)
        ensures
            out == fits(self.asks(), *reply),
    {
        self.action().accepts(reply)
    }

    /// Takes the session one answer further.
    pub fn step(self, reply: Reply) -> (turn: Turn)
        requires
            fits(self.asks(), reply),
        ensures
            turn == self.next(reply),
    {
        match self {
            Session::Create { tap, bridge, owner_uid, owner_gid, json, caller_uid, phase } => {
                let phase = match phase {
                    CreatePhase::Privilege => if held(&reply, caller_uid) {
                        CreatePhase::Vacancy
                    } else {
                        return Turn::Exit {
                            outcome: Outcome::NotCreated {
                                error: Error::Unprivileged,
                                json,
                                rollback: None,
                            },
                        };
                    },
                    CreatePhase::Vacancy => if interface_exists(&reply) {
                        return Turn::Exit {
                            outcome: Outcome::NotCreated {
                                error: Error::TapExists { name: tap },
                                json,
                                rollback: None,
                            },
                        };
                    } else {
                        CreatePhase::Creating { stage: TapCreation::start() }
                    },
                    CreatePhase::Creating { stage } => match create_tap(
                        &tap,
                        owner_uid,
                        owner_gid,
                        stage,
                        reply,
                    ) {
                        Flow::Goto { stage } => CreatePhase::Creating { stage },
                        Flow::Return { outcome: Ok(fd) } => CreatePhase::Releasing { fd },
                        Flow::Return { outcome: Err(error) } => {
                            return Turn::Exit {
                                outcome: Outcome::NotCreated { error, json, rollback: None },
                            };
                        },
                    },
                    CreatePhase::Releasing { .. } => CreatePhase::Attaching {
                        stage: Attachment::start(),
                    },
                    CreatePhase::Attaching { stage } => match add_to_bridge(
                        &tap,
                        &bridge,
                        stage,
                        reply,
                    ) {
                        Flow::Goto { stage } => CreatePhase::Attaching { stage },
                        Flow::Return { outcome: Ok(_) } => CreatePhase::Raising {
                            stage: BringUp::start(),
                        },
                        Flow::Return { outcome: Err(cause) } => CreatePhase::RollingBack {
                            stage: Deletion::start(),
                            cause,
                        },
                    },
                    CreatePhase::Raising { stage } => match bring_up(&tap, stage, reply) {
                        Flow::Goto { stage } => CreatePhase::Raising { stage },
                        Flow::Return { outcome: Ok(_) } => {
                            return Turn::Exit { outcome: Outcome::Created { tap, json } };
                        },
                        Flow::Return { outcome: Err(cause) } => CreatePhase::RollingBack {
                            stage: Deletion::start(),
                            cause,
                        },
                    },
                    CreatePhase::RollingBack { stage, cause } => match delete_interface(
                        &tap,
                        stage,
                        reply,
                    ) {
                        Flow::Goto { stage } => CreatePhase::RollingBack { stage, cause },
                        Flow::Return { outcome } => {
                            let rollback = match outcome {
                                Ok(_) => None,
                                Err(e) => Some(e),
                            };
                            return Turn::Exit {
                                outcome: Outcome::NotCreated { error: cause, json, rollback },
                            };
                        },
                    },
                };
                Turn::Continue {
                    session: Session::Create {
                        tap,
                        bridge,
                        owner_uid,
                        owner_gid,
                        json,
                        caller_uid,
                        phase,
                    },
                }
            },
            Session::Delete { name, caller_uid, phase } => {
                let phase = match phase {
                    DeletePhase::Privilege => if held(&reply, caller_uid) {
                        DeletePhase::Presence
                    } else {
                        return Turn::Exit {
                            outcome: Outcome::NotDeleted { error: Error::Unprivileged },
                        };
                    },
                    DeletePhase::Presence => if interface_exists(&reply) {
                        DeletePhase::Deleting { stage: Deletion::start() }
                    } else {
                        return Turn::Exit { outcome: Outcome::NothingToDelete { name } };
                    },
                    DeletePhase::Deleting { stage } => match delete_interface(&name, stage, reply) {
                        Flow::Goto { stage } => DeletePhase::Deleting { stage },
                        Flow::Return { outcome: Ok(_) } => {
                            return Turn::Exit { outcome: Outcome::Deleted { name } };
                        },
                        Flow::Return { outcome: Err(error) } => {
                            return Turn::Exit { outcome: Outcome::NotDeleted { error } };
                        },
                    },
                };
                Turn::Continue { session: Session::Delete { name, caller_uid, phase } }
            },
            Session::CheckCaps { program, caller_uid } => if held(&reply, caller_uid) {
                Turn::Exit { outcome: Outcome::CapabilityHeld }
            } else {
                Turn::Exit { outcome: Outcome::CapabilityMissing { program } }
            },
            Session::SetupBridge { name, ip, caller_uid, phase } => {
                let phase = match phase {
                    SetupPhase::Privilege => if held(&reply, caller_uid) {
                        SetupPhase::Presence
                    } else {
                        return Turn::Exit {
                            outcome: Outcome::NotConfigured {
                                step: SetupStep::Checking,
                                error: Error::Unprivileged,
                            },
                        };
                    },
                    SetupPhase::Presence => if interface_exists(&reply) {
                        return Session::begin_addressing(name, ip, caller_uid);
                    } else {
                        SetupPhase::CreatingBridge { stage: BridgeCreation::start() }
                    },
                    SetupPhase::CreatingBridge { stage } => match create_bridge(
                        &name,
                        stage,
                        reply,
                    ) {
                        Flow::Goto { stage } => SetupPhase::CreatingBridge { stage },
                        Flow::Return { outcome: Ok(_) } => {
                            return Session::begin_addressing(name, ip, caller_uid);
                        },
                        Flow::Return { outcome: Err(error) } => {
                            return Turn::Exit {
                                outcome: Outcome::NotConfigured {
                                    step: SetupStep::CreatingBridge,
                                    error,
                                },
                            };
                        },
                    },
                    SetupPhase::Addressing { stage, address, mask } => match set_ip_address(
                        &name,
                        address,
                        mask,
                        stage,
                        reply,
                    ) {
                        Flow::Goto { stage } => SetupPhase::Addressing { stage, address, mask },
                        Flow::Return { outcome: Ok(_) } => SetupPhase::Raising {
                            stage: BringUp::start(),
                        },
                        Flow::Return { outcome: Err(error) } => {
                            return Turn::Exit {
                                outcome: Outcome::NotConfigured {
                                    step: SetupStep::Addressing,
                                    error,
                                },
                            };
                        },
                    },
                    SetupPhase::Raising { stage } => match bring_up(&name, stage, reply) {
                        Flow::Goto { stage } => SetupPhase::Raising { stage },
                        Flow::Return { outcome: Ok(_) } => {
                            return Turn::Exit { outcome: Outcome::Configured { name, ip } };
                        },
                        Flow::Return { outcome: Err(error) } => {
                            return Turn::Exit {
                                outcome: Outcome::NotConfigured { step: SetupStep::Raising, error },
                            };
                        },
                    },
                };
                Turn::Continue { session: Session::SetupBridge { name, ip, caller_uid, phase } }
            },
        }
    }

    /// Takes the session one answer further where the reply can be the
    /// answer; else hands both back.
    pub fn advance(self, reply: Reply) -> (out: Result<Turn, (Session, Reply)>)
        ensures
            match out {
                Ok(turn) => fits(self.asks(), reply) && turn == self.next(reply),
                Err(back) => !fits(self.asks(), reply) && back.0 == self && back.1 == reply,
            },
    {
        if self.accepts(&reply) {
            Ok(self.step(reply))
        } else {
            Err((self, reply))
        }
    }
}

/// Whether the answer to reading the process status shows the privilege.
fn held(reply: &Reply, caller_uid: u32) -> (out: bool)
    ensures
        out == privileged(status_text(*reply), caller_uid),
{
    match reply {
        Reply::Contents { text } => check_capabilities(Some(text.as_str()), caller_uid),
        _ => check_capabilities(None, caller_uid),
    }
}

} // verus!
