//! A model of the kernel's interface table, for stating what the sessions
//! achieve. It is idealised: it holds what the calls of this library read
//! and change, and nothing else.
//!
//! Any call may fail, and a call that fails changes nothing; it fails as a
//! duplicate only where what it is to create or set is there already. A
//! call that succeeds does what its name says. A tap lives as long as it is
//! persistent or the handle that is bound to it is open.

use crate::address::Ipv4;
use crate::platform::EEXIST;
use crate::protocol::{fits, Action, Reply, Request};
use crate::session::{Session, Turn};
use crate::text::{signed_value, trimmed};
use vstd::prelude::*;

verus! {

/// One interface.
pub struct Link {
    /// Whether it is a bridge.
    pub bridge: bool,
    /// Whether it outlives its handles.
    pub persistent: bool,
    /// Its flags, the up bit among them.
    pub flags: i16,
    pub address: Option<Ipv4>,
    pub netmask: Option<Ipv4>,
    /// The bridge that it is attached to.
    pub master: Option<Seq<char>>,
    pub index: int,
    pub owner: Option<u32>,
    pub group: Option<u32>,
}

/// The interfaces by name, and the open handles, each with the tap that it
/// is bound to, if any.
pub struct Host {
    pub links: Map<Seq<char>, Link>,
    pub handles: Map<int, Option<Seq<char>>>,
}

/// Whether no interface has the index `i`.
pub open spec fn index_unused(links: Map<Seq<char>, Link>, i: int) -> bool {
    forall|n: Seq<char>| links.contains_key(n) ==> (#[trigger] links[n]).index != i
}

/// An index that no interface has.
pub open spec fn unused_index(links: Map<Seq<char>, Link>) -> int {
    choose|i: int| index_unused(links, i)
}

/// A tap as the kernel creates it.
pub open spec fn new_tap(links: Map<Seq<char>, Link>) -> Link {
    Link {
        bridge: false,
        persistent: false,
        flags: 0,
        address: None,
        netmask: None,
        master: None,
        index: unused_index(links),
        owner: None,
        group: None,
    }
}

/// A bridge as the kernel creates it.
pub open spec fn new_bridge(links: Map<Seq<char>, Link>) -> Link {
    Link {
        bridge: true,
        persistent: true,
        flags: 0,
        address: None,
        netmask: None,
        master: None,
        index: unused_index(links),
        owner: None,
        group: None,
    }
}

/// The tap that a handle is bound to, where it is open, bound, and the
/// tap exists.
pub open spec fn bound_tap(host: Host, fd: int) -> Option<Seq<char>> {
    if host.handles.contains_key(fd) && host.handles[fd] is Some && host.links.contains_key(
        host.handles[fd]->0,
    ) {
        host.handles[fd]
    } else {
        None
    }
}

/// Whether a control call can succeed in this state.
pub open spec fn can_succeed(host: Host, fd: int, request: Request) -> bool {
    host.handles.contains_key(fd) && match request {
        Request::TunSetIff { name, .. } => host.links.contains_key(name@) ==> !host.links[name@].bridge,
        Request::TunSetOwner { .. } | Request::TunSetGroup { .. } | Request::TunSetPersist {
            ..
        } => bound_tap(host, fd) is Some,
        Request::BridgeAdd { name } => !host.links.contains_key(name@),
        Request::BridgeAddIf { bridge, .. } => host.links.contains_key(bridge@)
            && host.links[bridge@].bridge,
        Request::GetFlags { name } | Request::SetFlags { name, .. } | Request::SetAddress {
            name,
            ..
        } | Request::SetNetmask { name, .. } => host.links.contains_key(name@),
    }
}

/// Whether what a call is to create or to set is there already. Only then
/// does the kernel refuse the call as a duplicate.
pub open spec fn exists_already(host: Host, request: Request) -> bool {
    match request {
        Request::BridgeAdd { name } => host.links.contains_key(name@),
        Request::SetAddress { name, address } => host.links.contains_key(name@)
            && host.links[name@].address == Some(address),
        _ => true,
    }
}

/// Whether the kernel can give this reply to this action in this state.
pub open spec fn plausible(host: Host, action: Action, reply: Reply) -> bool {
    fits(action, reply) && match action {
        Action::ReadStatus => true,
        Action::Probe { name, .. } => reply->present == host.links.contains_key(name@),
        Action::ReadIndex { name } => reply is Contents ==> host.links.contains_key(name@)
            && signed_value(trimmed(reply->text@)) == Ok::<int, crate::text::NumberFault>(
            host.links[name@].index,
        ),
        Action::OpenTun { .. } | Action::OpenSocket => reply is Opened ==> !host.handles.contains_key(
            reply->fd as int,
        ),
        Action::Control { fd, request } => match reply {
            Reply::Failed { errno } => errno == EEXIST ==> exists_already(host, request),
            Reply::Flags { flags } => {
                &&& can_succeed(host, fd as int, request)
                &&& request matches Request::GetFlags { name }
                &&& flags == host.links[name@].flags
            },
            _ => can_succeed(host, fd as int, request),
        },
        Action::Close { .. } => true,
        Action::LinkDelete { name } => (reply is Exited && reply->success)
            ==> host.links.contains_key(name@),
    }
}

/// What a control call that succeeded leaves.
pub open spec fn after_control(host: Host, fd: int, request: Request) -> Host {
    match request {
        Request::TunSetIff { name, .. } => Host {
            links: if host.links.contains_key(name@) {
                host.links
            } else {
                host.links.insert(name@, new_tap(host.links))
            },
            handles: host.handles.insert(fd, Some(name@)),
        },
        Request::TunSetOwner { uid } => match bound_tap(host, fd) {
            Some(n) => Host {
                links: host.links.insert(n, Link { owner: Some(uid), ..host.links[n] }),
                ..host
            },
            None => host,
        },
        Request::TunSetGroup { gid } => match bound_tap(host, fd) {
            Some(n) => Host {
                links: host.links.insert(n, Link { group: Some(gid), ..host.links[n] }),
                ..host
            },
            None => host,
        },
        Request::TunSetPersist { on } => match bound_tap(host, fd) {
            Some(n) => Host {
                links: host.links.insert(n, Link { persistent: on, ..host.links[n] }),
                ..host
            },
            None => host,
        },
        Request::BridgeAdd { name } => Host {
            links: host.links.insert(name@, new_bridge(host.links)),
            ..host
        },
        Request::BridgeAddIf { bridge, index } => Host {
            links: Map::new(
                |n: Seq<char>| host.links.contains_key(n),
                |n: Seq<char>|
                    if host.links[n].index == index {
                        Link { master: Some(bridge@), ..host.links[n] }
                    } else {
                        host.links[n]
                    },
            ),
            ..host
        },
        Request::GetFlags { .. } => host,
        Request::SetFlags { name, flags } => Host {
            links: host.links.insert(name@, Link { flags, ..host.links[name@] }),
            ..host
        },
        Request::SetAddress { name, address } => Host {
            links: host.links.insert(name@, Link { address: Some(address), ..host.links[name@] }),
            ..host
        },
        Request::SetNetmask { name, mask } => Host {
            links: host.links.insert(name@, Link { netmask: Some(mask), ..host.links[name@] }),
            ..host
        },
    }
}

/// What closing a handle leaves: the handle is gone, and with it the tap
/// that it was bound to, unless that tap is persistent.
pub open spec fn after_close(host: Host, fd: int) -> Host {
    Host {
        links: match bound_tap(host, fd) {
            Some(n) => if host.links[n].persistent {
                host.links
            } else {
                host.links.remove(n)
            },
            None => host.links,
        },
        handles: host.handles.remove(fd),
    }
}

/// The state after an action that was answered with `reply`.
pub open spec fn effect(host: Host, action: Action, reply: Reply) -> Host {
    match action {
        Action::ReadStatus | Action::Probe { .. } | Action::ReadIndex { .. } => host,
        Action::OpenTun { .. } | Action::OpenSocket => match reply {
            Reply::Opened { fd } => Host { handles: host.handles.insert(fd as int, None), ..host },
            _ => host,
        },
        Action::Control { fd, request } => match reply {
            Reply::Failed { .. } => host,
            _ => after_control(host, fd as int, request),
        },
        Action::Close { fd } => after_close(host, fd as int),
        Action::LinkDelete { name } => match reply {
            Reply::Exited { success, .. } => if success {
                Host { links: host.links.remove(name@), ..host }
            } else {
                host
            },
            _ => host,
        },
    }
}

/// Where a session stands after a run of replies, and the state that the
/// run leaves. Replies after the end are not looked at.
pub open spec fn run(session: Session, host: Host, replies: Seq<Reply>) -> (Turn, Host)
    decreases replies.len(),
{
    if replies.len() == 0 {
        (Turn::Continue { session }, host)
    } else {
        let after = effect(host, session.asks(), replies[0]);
        match session.next(replies[0]) {
            Turn::Continue { session: s } => run(s, after, replies.drop_first()),
            Turn::Exit { outcome } => (Turn::Exit { outcome }, after),
        }
    }
}

/// Whether each reply of a run is one that the kernel can give to the
/// action that it answers, in the state that the run has reached.
pub open spec fn faithful(session: Session, host: Host, replies: Seq<Reply>) -> bool
    decreases replies.len(),
{
    if replies.len() == 0 {
        true
    } else {
        plausible(host, session.asks(), replies[0]) && match session.next(replies[0]) {
            Turn::Continue { session: s } => faithful(
                s,
                effect(host, session.asks(), replies[0]),
                replies.drop_first(),
            ),
            Turn::Exit { .. } => true,
        }
    }
}

/// The actions that a run asks for, in order.
pub open spec fn asked(session: Session, replies: Seq<Reply>) -> Seq<Action>
    decreases replies.len(),
{
    if replies.len() == 0 {
        Seq::empty()
    } else {
        match session.next(replies[0]) {
            Turn::Continue { session: s } => seq![session.asks()] + asked(s, replies.drop_first()),
            Turn::Exit { .. } => seq![session.asks()],
        }
    }
}

} // verus!
