//! What the sessions achieve, stated over the model of the kernel and
//! proved for every run of replies that the model allows.

use crate::address::Ipv4;
use crate::bridge::{Attachment, BridgeCreation};
use crate::link::{address_plan, Addressing, BringUp};
use crate::model::{asked, effect, faithful, plausible, run, Host};
use crate::outcome::Outcome;
use crate::protocol::Reply;
use crate::request::{lemma_raised, IFF_UP};
use crate::session::{CreatePhase, DeletePhase, Session, SetupPhase, Turn};
use crate::tap::{Deletion, TapCreation};
use vstd::prelude::*;

verus! {

/// The handle `fd` is open and was not open at the start; but for it the
/// open handles are those of the start.
pub open spec fn one_more(host: Host, start: Host, fd: int) -> bool {
    &&& !start.handles.contains_key(fd)
    &&& host.handles.contains_key(fd)
    &&& host.handles.remove(fd) =~= start.handles
}

/// The handle `fd` is the one handle more, and it is bound to nothing.
pub open spec fn one_unbound(host: Host, start: Host, fd: int) -> bool {
    one_more(host, start, fd) && host.handles[fd] is None
}

/// The handle `fd` is the one handle more, and it is bound to `tap`.
pub open spec fn one_bound(host: Host, start: Host, fd: int, tap: Seq<char>) -> bool {
    one_more(host, start, fd) && host.handles[fd] == Some(tap)
}

/// The open handles are those of the start.
pub open spec fn none_more(host: Host, start: Host) -> bool {
    host.handles =~= start.handles
}

/// Nothing has changed since the start.
pub open spec fn untouched(host: Host, start: Host) -> bool {
    host.links =~= start.links && host.handles =~= start.handles
}

/// The tap exists, is no bridge, and has the given persistence.
pub open spec fn tap_there(host: Host, tap: Seq<char>, persistent: bool) -> bool {
    &&& host.links.contains_key(tap)
    &&& !host.links[tap].bridge
    &&& host.links[tap].persistent == persistent
}

/// The tap is finished: persistent, with its user and group.
pub open spec fn tap_made(host: Host, tap: Seq<char>, uid: u32, gid: u32) -> bool {
    &&& tap_there(host, tap, true)
    &&& host.links[tap].owner == Some(uid)
    &&& host.links[tap].group == Some(gid)
}

/// The tap is attached to the bridge.
pub open spec fn tap_attached(host: Host, tap: Seq<char>, bridge: Seq<char>) -> bool {
    host.links.contains_key(tap) && host.links[tap].master == Some(bridge)
}

/// The interface is up.
pub open spec fn is_up(host: Host, name: Seq<char>) -> bool {
    host.links.contains_key(name) && host.links[name].flags & IFF_UP == IFF_UP
}

/// The interface has the address.
pub open spec fn has_address(host: Host, name: Seq<char>, address: Ipv4) -> bool {
    host.links.contains_key(name) && host.links[name].address == Some(address)
}

/// The interface has the mask.
pub open spec fn has_mask(host: Host, name: Seq<char>, mask: Ipv4) -> bool {
    host.links.contains_key(name) && host.links[name].netmask == Some(mask)
}

/// What holds of the state while a tap is removed, stage by stage.
pub open spec fn removing(stage: Deletion, name: Seq<char>, host: Host, start: Host) -> bool {
    match stage {
        Deletion::Checking | Deletion::Opening | Deletion::Commanding => none_more(host, start),
        Deletion::Binding { fd } | Deletion::Releasing { fd } => one_unbound(host, start, fd as int),
        Deletion::Clearing { fd } => host.links.contains_key(name) && one_bound(
            host,
            start,
            fd as int,
            name,
        ),
        Deletion::Closing { fd, outcome } => one_more(host, start, fd as int) && (outcome is Ok
            ==> host.links.contains_key(name) && !host.links[name].persistent
            && host.handles[fd as int] == Some(name)),
    }
}

/// What holds of the state while a tap is created, stage by stage.
pub open spec fn creating(session: Session, host: Host, start: Host) -> bool {
    session matches Session::Create { tap, bridge, owner_uid, owner_gid, phase, .. } && match phase {
        CreatePhase::Privilege | CreatePhase::Vacancy => untouched(host, start),
        CreatePhase::Creating { stage } => match stage {
            TapCreation::Opening => !host.links.contains_key(tap@) && none_more(host, start),
            TapCreation::Binding { fd } => !host.links.contains_key(tap@) && one_unbound(
                host,
                start,
                fd as int,
            ),
            TapCreation::Owning { fd } => tap_there(host, tap@, false) && one_bound(
                host,
                start,
                fd as int,
                tap@,
            ),
            TapCreation::Grouping { fd } => tap_there(host, tap@, false) && one_bound(
                host,
                start,
                fd as int,
                tap@,
            ) && host.links[tap@].owner == Some(owner_uid),
            TapCreation::Persisting { fd } => tap_there(host, tap@, false) && one_bound(
                host,
                start,
                fd as int,
                tap@,
            ) && host.links[tap@].owner == Some(owner_uid) && host.links[tap@].group == Some(
                owner_gid,
            ),
            TapCreation::Abandoning { fd, .. } => one_more(host, start, fd as int) && (
            host.links.contains_key(tap@) ==> !host.links[tap@].persistent
                && host.handles[fd as int] == Some(tap@)),
        },
        CreatePhase::Releasing { fd } => tap_made(host, tap@, owner_uid, owner_gid) && one_more(
            host,
            start,
            fd as int,
        ),
        CreatePhase::Attaching { stage } => tap_made(host, tap@, owner_uid, owner_gid) && match stage {
            Attachment::Checking | Attachment::Resolving => none_more(host, start),
            Attachment::Connecting { index } => none_more(host, start) && index
                == host.links[tap@].index,
            Attachment::Joining { fd, index } => one_unbound(host, start, fd as int) && index
                == host.links[tap@].index,
            Attachment::Closing { fd, outcome } => one_unbound(host, start, fd as int) && (outcome is Ok
                ==> tap_attached(host, tap@, bridge@)),
        },
        CreatePhase::Raising { stage } => tap_made(host, tap@, owner_uid, owner_gid) && match stage {
            BringUp::Connecting => none_more(host, start) && tap_attached(host, tap@, bridge@),
            BringUp::Reading { fd } => one_unbound(host, start, fd as int) && tap_attached(
                host,
                tap@,
                bridge@,
            ),
            BringUp::Writing { fd, flags } => one_unbound(host, start, fd as int) && tap_attached(
                host,
                tap@,
                bridge@,
            ) && flags & IFF_UP == IFF_UP,
            BringUp::Closing { fd, outcome } => one_unbound(host, start, fd as int) && (outcome is Ok
                ==> tap_attached(host, tap@, bridge@) && is_up(host, tap@)),
        },
        CreatePhase::RollingBack { stage, .. } => removing(stage, tap@, host, start) && (stage is Checking
            ==> host.links.contains_key(tap@)),
    }
}

/// What holds of the state when the creation of a tap has ended.
pub open spec fn created(session: Session, outcome: Outcome, host: Host, start: Host) -> bool {
    session matches Session::Create { tap, bridge, owner_uid, owner_gid, .. } && none_more(
        host,
        start,
    ) && match outcome {
        Outcome::Created { tap: t, .. } => t == tap && tap_made(host, tap@, owner_uid, owner_gid)
            && tap_attached(host, tap@, bridge@) && is_up(host, tap@),
        Outcome::NotCreated { rollback, .. } => rollback is None ==> !host.links.contains_key(tap@)
            || untouched(host, start),
        _ => false,
    }
}

/// One answer keeps what holds while a tap is created, or ends the
/// session in a state as [`created`] describes it.
pub proof fn lemma_creating_step(session: Session, host: Host, start: Host, reply: Reply)
    requires
        creating(session, host, start),
        plausible(host, session.asks(), reply),
    ensures
        match session.next(reply) {
            Turn::Continue { session: s } => creating(s, effect(host, session.asks(), reply), start),
            Turn::Exit { outcome } => created(
                session,
                outcome,
                effect(host, session.asks(), reply),
                start,
            ),
        },
{
    if session matches Session::Create { phase, .. } && phase matches CreatePhase::Raising { stage }
        && stage is Reading && reply is Flags {
        lemma_raised(reply->flags);
    }
}

/// A run keeps what holds while a tap is created, or ends as [`created`]
/// describes it.
pub proof fn lemma_creating_run(session: Session, host: Host, start: Host, replies: Seq<Reply>)
    requires
        creating(session, host, start),
        faithful(session, host, replies),
    ensures
        match run(session, host, replies).0 {
            Turn::Continue { session: s } => creating(s, run(session, host, replies).1, start),
            Turn::Exit { outcome } => created(session, outcome, run(session, host, replies).1, start),
        },
    decreases replies.len(),
{
    if replies.len() > 0 {
        lemma_creating_step(session, host, start, replies[0]);
        match session.next(replies[0]) {
            Turn::Continue { session: s } => {
                lemma_creating_run(
                    s,
                    effect(host, session.asks(), replies[0]),
                    start,
                    replies.drop_first(),
                );
            },
            Turn::Exit { .. } => {},
        }
    }
}

/// Creating a tap is all or nothing.
///
/// Take a session that creates a tap, and any run of replies that the
/// kernel can give. When the session ends, the handles that it opened are
/// closed. If it ends in success, the tap exists, is persistent, belongs
/// to the user and the group asked for, is attached to the bridge and is
/// up. If it ends in failure, at whatever step, then nothing has changed
/// or the tap does not exist, unless removing it was tried and failed as
/// well. So where the tap did not exist before, it does not exist after a
/// failure whose removal did not fail.
pub proof fn law_create_is_all_or_nothing(session: Session, host: Host, replies: Seq<Reply>)
    requires
        session matches Session::Create { phase, .. } && phase is Privilege,
        faithful(session, host, replies),
        run(session, host, replies).0 is Exit,
    ensures
        created(session, run(session, host, replies).0->outcome, run(session, host, replies).1, host),
        ({
            let end = run(session, host, replies);
            let tap = session->Create_tap;
            !host.links.contains_key(tap@) && end.0->outcome is NotCreated
                && end.0->outcome->rollback is None ==> !end.1.links.contains_key(tap@)
        }),
{
    lemma_creating_run(session, host, host, replies);
}

/// What holds of the state while a tap is deleted, stage by stage.
pub open spec fn deleting(session: Session, host: Host, start: Host) -> bool {
    session matches Session::Delete { name, phase, .. } && match phase {
        DeletePhase::Privilege | DeletePhase::Presence => untouched(host, start),
        DeletePhase::Deleting { stage } => removing(stage, name@, host, start),
    }
}

/// What holds of the state when the deletion of a tap has ended.
pub open spec fn deleted(session: Session, outcome: Outcome, host: Host, start: Host) -> bool {
    session matches Session::Delete { name, .. } && none_more(host, start) && match outcome {
        Outcome::Deleted { name: n } => n == name && !host.links.contains_key(name@),
        Outcome::NothingToDelete { name: n } => n == name && untouched(host, start)
            && !host.links.contains_key(name@),
        Outcome::NotDeleted { .. } => true,
        _ => false,
    }
}

/// One answer keeps what holds while a tap is deleted, or ends the
/// session in a state as [`deleted`] describes it.
pub proof fn lemma_deleting_step(session: Session, host: Host, start: Host, reply: Reply)
    requires
        deleting(session, host, start),
        plausible(host, session.asks(), reply),
    ensures
        match session.next(reply) {
            Turn::Continue { session: s } => deleting(s, effect(host, session.asks(), reply), start),
            Turn::Exit { outcome } => deleted(
                session,
                outcome,
                effect(host, session.asks(), reply),
                start,
            ),
        },
{
}

/// A run keeps what holds while a tap is deleted, or ends as [`deleted`]
/// describes it.
pub proof fn lemma_deleting_run(session: Session, host: Host, start: Host, replies: Seq<Reply>)
    requires
        deleting(session, host, start),
        faithful(session, host, replies),
    ensures
        match run(session, host, replies).0 {
            Turn::Continue { session: s } => deleting(s, run(session, host, replies).1, start),
            Turn::Exit { outcome } => deleted(session, outcome, run(session, host, replies).1, start),
        },
    decreases replies.len(),
{
    if replies.len() > 0 {
        lemma_deleting_step(session, host, start, replies[0]);
        match session.next(replies[0]) {
            Turn::Continue { session: s } => {
                lemma_deleting_run(
                    s,
                    effect(host, session.asks(), replies[0]),
                    start,
                    replies.drop_first(),
                );
            },
            Turn::Exit { .. } => {},
        }
    }
}

/// Deleting removes the tap or says that it did not.
///
/// Take a session that deletes a tap, and any run of replies that the
/// kernel can give. When the session ends, the handles that it opened are
/// closed. If it reports the tap deleted, the tap does not exist. If it
/// reports that there was nothing to delete, there was no such tap and
/// nothing has changed.
pub proof fn law_delete_removes(session: Session, host: Host, replies: Seq<Reply>)
    requires
        session matches Session::Delete { phase, .. } && phase is Privilege,
        faithful(session, host, replies),
        run(session, host, replies).0 is Exit,
    ensures
        deleted(session, run(session, host, replies).0->outcome, run(session, host, replies).1, host),
{
    lemma_deleting_run(session, host, host, replies);
}

/// Deleting what is not there is a success that touches nothing.
///
/// Take a session that deletes a tap which does not exist, and any run of
/// replies that the kernel can give. If the capability is held, the
/// session ends in success, with exit code 0. In every case it has asked
/// only for actions that read, and nothing has changed.
pub proof fn law_delete_of_absent_is_noop(session: Session, host: Host, replies: Seq<Reply>)
    requires
        session matches Session::Delete { name, phase, .. } && phase is Privilege
            && !host.links.contains_key(name@),
        faithful(session, host, replies),
        run(session, host, replies).0 is Exit,
    ensures
        run(session, host, replies).1 == host,
        forall|i: int|
            0 <= i < asked(session, replies).len() ==> (#[trigger] asked(
                session,
                replies,
            )[i]).reads_only(),
        run(session, host, replies).0->outcome is NothingToDelete || run(
            session,
            host,
            replies,
        ).0->outcome == (Outcome::NotDeleted { error: crate::error::Error::Unprivileged }),
        run(session, host, replies).0->outcome is NothingToDelete ==> run(
            session,
            host,
            replies,
        ).0->outcome.code() == 0,
{
    reveal_with_fuel(run, 3);
    reveal_with_fuel(faithful, 3);
    reveal_with_fuel(asked, 3);
    let first = replies[0];
    match session.next(first) {
        Turn::Continue { session: s } => {
            let rest = replies.drop_first();
            assert(rest.len() > 0);
            assert(s.next(rest[0]) is Exit);
            assert(asked(session, replies) =~= seq![session.asks(), s.asks()]);
        },
        Turn::Exit { .. } => {
            assert(asked(session, replies) =~= seq![session.asks()]);
        },
    }
}

/// The address and the mask that the session is to set.
pub open spec fn planned(session: Session) -> (Ipv4, Ipv4) {
    if session is SetupBridge && address_plan(session->SetupBridge_ip@) is Ok {
        address_plan(session->SetupBridge_ip@)->Ok_0
    } else {
        (Ipv4 { a: 0, b: 0, c: 0, d: 0 }, Ipv4 { a: 0, b: 0, c: 0, d: 0 })
    }
}

/// What holds of the state while a bridge is set up, stage by stage.
pub open spec fn setting_up(session: Session, host: Host, start: Host) -> bool {
    session matches Session::SetupBridge { name, ip, phase, .. } && match phase {
        SetupPhase::Privilege | SetupPhase::Presence => untouched(host, start),
        SetupPhase::CreatingBridge { stage } => match stage {
            BridgeCreation::Connecting => none_more(host, start),
            BridgeCreation::Adding { fd } => one_unbound(host, start, fd as int),
            BridgeCreation::Closing { fd, .. } => one_unbound(host, start, fd as int),
        },
        SetupPhase::Addressing { stage, address, mask } => address_plan(ip@) == Ok::<
            (Ipv4, Ipv4),
            crate::error::Error,
        >((address, mask)) && match stage {
            Addressing::Connecting => none_more(host, start),
            Addressing::SettingAddress { fd } => one_unbound(host, start, fd as int),
            Addressing::SettingMask { fd } => one_unbound(host, start, fd as int) && has_address(
                host,
                name@,
                address,
            ),
            Addressing::Closing { fd, outcome } => one_unbound(host, start, fd as int) && (outcome is Ok
                ==> has_address(host, name@, address) && has_mask(host, name@, mask)),
        },
        SetupPhase::Raising { stage } => address_plan(ip@) is Ok && match stage {
            BringUp::Connecting => none_more(host, start) && configured(session, host),
            BringUp::Reading { fd } => one_unbound(host, start, fd as int) && configured(
                session,
                host,
            ),
            BringUp::Writing { fd, flags } => one_unbound(host, start, fd as int) && configured(
                session,
                host,
            ) && flags & IFF_UP == IFF_UP,
            BringUp::Closing { fd, outcome } => one_unbound(host, start, fd as int) && (outcome is Ok
                ==> configured(session, host) && is_up(host, name@)),
        },
    }
}

/// The bridge of the session has the address and the mask that were
/// asked for.
pub open spec fn configured(session: Session, host: Host) -> bool {
    session matches Session::SetupBridge { name, .. } && has_address(
        host,
        name@,
        planned(session).0,
    ) && has_mask(host, name@, planned(session).1)
}

/// What holds of the state when setting up a bridge has ended.
pub open spec fn set_up(session: Session, outcome: Outcome, host: Host, start: Host) -> bool {
    session matches Session::SetupBridge { name, ip, .. } && none_more(host, start) && match outcome {
        Outcome::Configured { name: n, ip: i } => n == name && i == ip && address_plan(ip@) is Ok
            && configured(session, host) && is_up(host, name@),
        Outcome::NotConfigured { .. } => true,
        _ => false,
    }
}

/// The phase of a session that sets up a bridge does not change what it
/// is to set.
pub proof fn lemma_plan_is_kept(session: Session, reply: Reply)
    requires
        session is SetupBridge,
    ensures
        session.next(reply) matches Turn::Continue { session: s } ==> s is SetupBridge && planned(s)
            == planned(session) && s->SetupBridge_name == session->SetupBridge_name
            && s->SetupBridge_ip == session->SetupBridge_ip,
{
}

/// One answer keeps what holds while a bridge is set up, or ends the
/// session in a state as [`set_up`] describes it.
pub proof fn lemma_setting_up_step(session: Session, host: Host, start: Host, reply: Reply)
    requires
        setting_up(session, host, start),
        plausible(host, session.asks(), reply),
    ensures
        match session.next(reply) {
            Turn::Continue { session: s } => setting_up(
                s,
                effect(host, session.asks(), reply),
                start,
            ),
            Turn::Exit { outcome } => set_up(
                session,
                outcome,
                effect(host, session.asks(), reply),
                start,
            ),
        },
{
    lemma_plan_is_kept(session, reply);
    if session matches Session::SetupBridge { phase, .. } && phase matches SetupPhase::Raising { stage }
        && stage is Reading && reply is Flags {
        lemma_raised(reply->flags);
    }
}

/// A run keeps what holds while a bridge is set up, or ends as
/// [`set_up`] describes it.
pub proof fn lemma_setting_up_run(session: Session, host: Host, start: Host, replies: Seq<Reply>)
    requires
        setting_up(session, host, start),
        faithful(session, host, replies),
    ensures
        match run(session, host, replies).0 {
            Turn::Continue { session: s } => setting_up(s, run(session, host, replies).1, start),
            Turn::Exit { outcome } => set_up(session, outcome, run(session, host, replies).1, start),
        },
    decreases replies.len(),
{
    if replies.len() > 0 {
        lemma_setting_up_step(session, host, start, replies[0]);
        lemma_plan_is_kept(session, replies[0]);
        match session.next(replies[0]) {
            Turn::Continue { session: s } => {
                lemma_setting_up_run(
                    s,
                    effect(host, session.asks(), replies[0]),
                    start,
                    replies.drop_first(),
                );
            },
            Turn::Exit { .. } => {},
        }
    }
}

/// Setting up a bridge reaches its goal or says that it did not.
///
/// Take a session that sets up a bridge, and any run of replies that the
/// kernel can give. When the session ends, the handles that it opened are
/// closed. If it ends in success, the bridge exists, has the address and
/// the mask that were asked for, and is up.
pub proof fn law_setup_configures(session: Session, host: Host, replies: Seq<Reply>)
    requires
        session matches Session::SetupBridge { phase, .. } && phase is Privilege,
        faithful(session, host, replies),
        run(session, host, replies).0 is Exit,
    ensures
        set_up(session, run(session, host, replies).0->outcome, run(session, host, replies).1, host),
{
    lemma_setting_up_run(session, host, host, replies);
}

/// What holds of the state while a bridge that is set up already is set
/// up again: nothing changes.
pub open spec fn steady(session: Session, host: Host, start: Host) -> bool {
    session matches Session::SetupBridge { name, ip, phase, .. } && host.links =~= start.links
        && address_plan(ip@) is Ok && configured(session, start) && is_up(start, name@)
        && match phase {
        SetupPhase::Privilege | SetupPhase::Presence => none_more(host, start),
        SetupPhase::CreatingBridge { .. } => false,
        SetupPhase::Addressing { stage, address, mask } => address_plan(ip@) == Ok::<
            (Ipv4, Ipv4),
            crate::error::Error,
        >((address, mask)) && match stage {
            Addressing::Connecting => none_more(host, start),
            Addressing::SettingAddress { fd } | Addressing::SettingMask { fd } | Addressing::Closing {
                fd,
                ..
            } => one_unbound(host, start, fd as int),
        },
        SetupPhase::Raising { stage } => match stage {
            BringUp::Connecting => none_more(host, start),
            BringUp::Reading { fd } | BringUp::Closing { fd, .. } => one_unbound(
                host,
                start,
                fd as int,
            ),
            BringUp::Writing { fd, flags } => one_unbound(host, start, fd as int) && flags
                == start.links[name@].flags,
        },
    }
}

/// One answer keeps the state steady, or ends the session with nothing
/// changed.
pub proof fn lemma_steady_step(session: Session, host: Host, start: Host, reply: Reply)
    requires
        steady(session, host, start),
        plausible(host, session.asks(), reply),
    ensures
        match session.next(reply) {
            Turn::Continue { session: s } => steady(s, effect(host, session.asks(), reply), start),
            Turn::Exit { .. } => untouched(effect(host, session.asks(), reply), start),
        },
{
    lemma_plan_is_kept(session, reply);
    let name = session->SetupBridge_name;
    lemma_raised(start.links[name@].flags);
    let after = effect(host, session.asks(), reply);
    if session.asks() is Control && !(reply is Failed) {
        assert(after.links =~= host.links);
    }
}

/// A run keeps the state steady, or ends with nothing changed.
pub proof fn lemma_steady_run(session: Session, host: Host, start: Host, replies: Seq<Reply>)
    requires
        steady(session, host, start),
        faithful(session, host, replies),
    ensures
        match run(session, host, replies).0 {
            Turn::Continue { session: s } => steady(s, run(session, host, replies).1, start),
            Turn::Exit { .. } => untouched(run(session, host, replies).1, start),
        },
    decreases replies.len(),
{
    if replies.len() > 0 {
        lemma_steady_step(session, host, start, replies[0]);
        match session.next(replies[0]) {
            Turn::Continue { session: s } => {
                lemma_steady_run(
                    s,
                    effect(host, session.asks(), replies[0]),
                    start,
                    replies.drop_first(),
                );
            },
            Turn::Exit { .. } => {},
        }
    }
}

/// Setting up a bridge twice is setting it up once.
///
/// Take a session that sets up a bridge and a run of replies that ends in
/// success. Take the same session again, in the state that the first run
/// left, and any run of replies that the kernel can give. Whatever the
/// second run ends in, it changes nothing: the interfaces are as the first
/// run left them, so the bridge still has its address and its mask and is
/// up, and the handles that the second run opened are closed.
pub proof fn law_setup_is_idempotent(
    session: Session,
    host: Host,
    first: Seq<Reply>,
    second: Seq<Reply>,
)
    requires
        session matches Session::SetupBridge { phase, .. } && phase is Privilege,
        faithful(session, host, first),
        run(session, host, first).0 matches Turn::Exit { outcome } && outcome is Configured,
        faithful(session, run(session, host, first).1, second),
        run(session, run(session, host, first).1, second).0 is Exit,
    ensures
        ({
            let once = run(session, host, first).1;
            let twice = run(session, once, second).1;
            &&& untouched(twice, once)
            &&& configured(session, twice)
            &&& is_up(twice, session->SetupBridge_name@)
        }),
{
    let once = run(session, host, first).1;
    law_setup_configures(session, host, first);
    lemma_steady_run(session, once, once, second);
}

/// Asking for the capability reads the process status and nothing else.
pub proof fn law_check_reads_only(session: Session, reply: Reply)
    requires
        session is CheckCaps,
    ensures
        session.asks().reads_only(),
        session.next(reply) is Exit,
        session.next(reply)->outcome is CapabilityHeld || session.next(
            reply,
        )->outcome is CapabilityMissing,
{
}

/// Nothing is changed before the capability is known to be held.
///
/// Every session starts by reading the process status. Where the status
/// and the user do not show the capability, the session ends on that
/// answer, in failure, having asked for nothing else.
pub proof fn law_privilege_comes_first(session: Session, reply: Reply)
    requires
        match session {
            Session::Create { phase, .. } => phase is Privilege,
            Session::Delete { phase, .. } => phase is Privilege,
            Session::CheckCaps { .. } => true,
            Session::SetupBridge { phase, .. } => phase is Privilege,
        },
        !crate::privilege::privileged(
            crate::session::status_text(reply),
            match session {
                Session::Create { caller_uid, .. } => caller_uid,
                Session::Delete { caller_uid, .. } => caller_uid,
                Session::CheckCaps { caller_uid, .. } => caller_uid,
                Session::SetupBridge { caller_uid, .. } => caller_uid,
            },
        ),
    ensures
        session.asks() is ReadStatus,
        session.next(reply) matches Turn::Exit { outcome } && !outcome.succeeded() && outcome.code()
            == 1,
{
}

} // verus!
