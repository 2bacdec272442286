//! Properties of the lifecycle that hold across calls, stated over the
//! transitions that the executable functions are proved to perform.
use crate::database::{resolve_post, SenderTableView};
use crate::dispatch::{expiry_signals, run_expiries, PROTOCOL_VERSION, SERVER_NAME, SERVER_VENDOR, SERVER_VERSION};
use crate::registry::{
    close_step, expire_step, notify_post, spec_deadline, CloseReason, NotificationContent,
    RegistryView, Signal,
};
use crate::scheduler::{
    due_events, lemma_due_events_are_due, lemma_pending_events_are_pending, pending_events,
    ExpiryEvent,
};
use vstd::prelude::*;

verus! {

/// After any notify, the active identifiers are those active before plus the
/// one returned; and unless an active notification was replaced, the
/// returned identifier was not active, so no two active notifications ever
/// share an identifier.
pub proof fn lemma_notify_id_is_unique(
    pre: RegistryView,
    post: RegistryView,
    replace_id: u32,
    content: NotificationContent,
    timeout_ms: Option<u64>,
    now: u64,
    r: (u32, u64),
)
    requires
        pre.wf(),
        notify_post(pre, post, replace_id, content, timeout_ms, now, r),
    ensures
        post.active.dom() == pre.active.dom().insert(r.0),
        !pre.replaces(replace_id) ==> forall|x: u32| #[trigger] pre.active.contains_key(x) ==> x != r.0,
{
    assert(post.active.dom() =~= pre.active.dom().insert(r.0));
}

/// Two notifies in a row that replace nothing return different identifiers:
/// the first is still active when the second allocates.
pub proof fn lemma_successive_new_ids_differ(
    r0: RegistryView,
    r1: RegistryView,
    r2: RegistryView,
    c1: NotificationContent,
    c2: NotificationContent,
    t1: Option<u64>,
    t2: Option<u64>,
    now1: u64,
    now2: u64,
    a: (u32, u64),
    b: (u32, u64),
)
    requires
        r0.wf(),
        notify_post(r0, r1, 0, c1, t1, now1, a),
        notify_post(r1, r2, 0, c2, t2, now2, b),
    ensures
        a.0 != b.0,
        r2.active.contains_key(a.0) && r2.active.contains_key(b.0),
{
    assert(r1.active.contains_key(a.0));
}

/// A notify whose replace target is active returns that identifier and
/// leaves the set of active identifiers as it was; one with target zero
/// returns an identifier that was not active.
pub proof fn lemma_replace_keeps_id(
    pre: RegistryView,
    post: RegistryView,
    replace_id: u32,
    content: NotificationContent,
    timeout_ms: Option<u64>,
    now: u64,
    r: (u32, u64),
)
    requires
        pre.wf(),
        notify_post(pre, post, replace_id, content, timeout_ms, now, r),
    ensures
        pre.replaces(replace_id) ==> r.0 == replace_id && post.active.dom() == pre.active.dom(),
        replace_id == 0 ==> !pre.active.contains_key(r.0),
{
    if pre.replaces(replace_id) {
        assert(post.active.dom() =~= pre.active.dom());
    }
}

/// Closing is idempotent: a second close of the same identifier, whatever
/// the reason, changes nothing and signals nothing; closing an identifier
/// that is not active does the same.
pub proof fn lemma_close_idempotent(reg: RegistryView, id: u32, first: CloseReason, second: CloseReason)
    ensures
        close_step(close_step(reg, id, first).0, id, second) == (close_step(reg, id, first).0, None::<Signal>),
        !reg.active.contains_key(id) ==> close_step(reg, id, first) == (reg, None::<Signal>),
{
}

/// A notification made with a timeout and not touched again is closed as
/// expired by its own deadline, with exactly one closure signal, even if
/// the deadline were delivered twice; the deadline lies the timeout after
/// the time of the notify.
pub proof fn lemma_expiry_fires_once(
    pre: RegistryView,
    post: RegistryView,
    replace_id: u32,
    content: NotificationContent,
    timeout: u64,
    now: u64,
    r: (u32, u64),
)
    requires
        pre.wf(),
        notify_post(pre, post, replace_id, content, Some(timeout), now, r),
    ensures
        ({
            let e = ExpiryEvent {
                deadline: spec_deadline(now, Some(timeout))->Some_0,
                id: r.0,
                generation: r.1,
            };
            &&& now + timeout <= u64::MAX ==> e.deadline == now + timeout
            &&& expiry_signals(post, seq![e]) == seq![
                Signal::NotificationClosed { id: r.0, reason: CloseReason::Expired },
            ]
            &&& expiry_signals(post, seq![e, e]) == seq![
                Signal::NotificationClosed { id: r.0, reason: CloseReason::Expired },
            ]
            &&& !run_expiries(post, seq![e]).active.contains_key(r.0)
        }),
{
    let e = ExpiryEvent {
        deadline: spec_deadline(now, Some(timeout))->Some_0,
        id: r.0,
        generation: r.1,
    };
    let one = seq![e];
    let two = seq![e, e];
    assert(one.drop_last() =~= Seq::<ExpiryEvent>::empty());
    assert(two.drop_last() =~= one);
    assert(post.active.contains_key(r.0));
    assert(post.active[r.0].generation == r.1);
    assert(one.last() == e);
    assert(run_expiries(post, one.drop_last()) == post);
    assert(expiry_signals(post, one.drop_last()) == Seq::<Signal>::empty());
    assert(expiry_signals(post, one) =~= seq![
        Signal::NotificationClosed { id: r.0, reason: CloseReason::Expired },
    ]);
    let after = run_expiries(post, one);
    assert(!after.active.contains_key(r.0));
    assert(two.last() == e);
    assert(expire_step(after, e.id, e.generation).1 == None::<Signal>);
    assert(expiry_signals(post, two) =~= seq![
        Signal::NotificationClosed { id: r.0, reason: CloseReason::Expired },
    ]);
}

/// No expiry is applied before its deadline: of the scheduled events, a
/// tick at `now` takes out exactly those whose deadline has passed, and
/// every event it leaves is still in the future.
pub proof fn lemma_tick_respects_deadlines(schedule: Seq<ExpiryEvent>, now: u64)
    ensures
        forall|i: int|
            0 <= i < due_events(schedule, now).len() ==> #[trigger] due_events(schedule, now)[i].deadline
                <= now,
        forall|i: int|
            0 <= i < pending_events(schedule, now).len() ==> #[trigger] pending_events(
                schedule,
                now,
            )[i].deadline > now,
{
    lemma_due_events_are_due(schedule, now);
    lemma_pending_events_are_pending(schedule, now);
}

/// Replacing a notification before its deadline cancels that deadline: the
/// expiry scheduled under the old generation, when it comes, changes
/// nothing and signals nothing.
pub proof fn lemma_replace_cancels_old_deadline(
    pre: RegistryView,
    post: RegistryView,
    replace_id: u32,
    content: NotificationContent,
    timeout_ms: Option<u64>,
    now: u64,
    r: (u32, u64),
)
    requires
        pre.wf(),
        pre.replaces(replace_id),
        notify_post(pre, post, replace_id, content, timeout_ms, now, r),
    ensures
        expire_step(post, replace_id, pre.active[replace_id].generation) == (post, None::<Signal>),
{
}

/// Resolving a name leaves exactly one row with that name, and never moves
/// the row's timestamp back.
pub proof fn lemma_resolve_one_row_monotone(
    pre: SenderTableView,
    post: SenderTableView,
    name: Seq<char>,
    now: u64,
    r: u64,
)
    requires
        pre.wf(),
        post.wf(),
        resolve_post(pre, post, name, now, r),
    ensures
        post.has_name(name),
        forall|i: int, j: int|
            0 <= i < post.rows.len() && 0 <= j < post.rows.len() && #[trigger] post.rows[i].name == name
                && #[trigger] post.rows[j].name == name ==> i == j,
        forall|i: int|
            0 <= i < pre.rows.len() && #[trigger] pre.rows[i].name == name ==> post.rows[i].last_notified_uts
                >= pre.rows[i].last_notified_uts && post.rows[i].last_notified_uts >= now,
{
    if pre.has_name(name) {
        let k = choose|k: int|
            0 <= k < pre.rows.len() && #[trigger] pre.rows[k].name == name && r == pre.rows[k].sender_id
                && post.rows == pre.rows.update(
                k,
                (crate::database::SenderView {
                    last_notified_uts: crate::database::spec_max(pre.rows[k].last_notified_uts, now),
                    ..pre.rows[k]
                }),
            );
        assert forall|i: int|
            0 <= i < pre.rows.len() && #[trigger] pre.rows[i].name == name implies post.rows[i].last_notified_uts
                >= pre.rows[i].last_notified_uts && post.rows[i].last_notified_uts >= now by {
            if i != k {
                assert(pre.rows[i].sender_id != pre.rows[k].sender_id);
            }
        }
    }
    assert forall|i: int, j: int|
        0 <= i < post.rows.len() && 0 <= j < post.rows.len() && #[trigger] post.rows[i].name == name
            && #[trigger] post.rows[j].name == name implies i == j by {
        if i != j {
            assert(post.rows[i].sender_id != post.rows[j].sender_id);
        }
    }
}

/// The server information is the same on every call.
pub proof fn lemma_server_information_stable(
    a: (&'static str, &'static str, &'static str, &'static str),
    b: (&'static str, &'static str, &'static str, &'static str),
)
    requires
        a == (SERVER_NAME, SERVER_VENDOR, SERVER_VERSION, PROTOCOL_VERSION),
        b == (SERVER_NAME, SERVER_VENDOR, SERVER_VERSION, PROTOCOL_VERSION),
    ensures
        a == b,
{
}

} // verus!
