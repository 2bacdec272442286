//! The dispatch coordinator: the single owner of the registry, the
//! scheduler and the stores, and the only entry point for lifecycle changes.
//!
//! Requests and expiry events are applied one at a time, so the transitions
//! of any one notification happen in the order they were accepted. Every
//! transition that ends a notification hands back exactly one closure signal.
use crate::database::{
    declared_actions, notification_record, resolve_post, History, HistoryView, SenderTable,
    SenderTableView,
};
use crate::registry::{
    close_step, deadline_after, expire_step, notify_post, spec_deadline, CloseReason, NotificationContent, Registry,
    RegistryView, Signal,
};
use crate::scheduler::{due_events, is_earliest_deadline, pending_events, ExpiryEvent, Scheduler};
use vstd::prelude::*;

verus! {

/// The timeout, in milliseconds, of a notification that asks for the
/// server's default.
pub const DEFAULT_EXPIRE_TIMEOUT_MS: u64 = 5000;

/// The name under which the server reports itself.
pub const SERVER_NAME: &'static str = "rnot";

/// The vendor the server reports.
pub const SERVER_VENDOR: &'static str = "oldwomanjosiah";

/// The version of the server.
pub const SERVER_VERSION: &'static str = "0.1.0";

/// The version of the notification protocol the server implements.
pub const PROTOCOL_VERSION: &'static str = "1.2";

/// The expiry a client's `expire_timeout` asks for: a negative value takes
/// the server default, zero never expires, and a positive value is a number
/// of milliseconds.
pub open spec fn spec_effective_timeout(expire_timeout: i32) -> Option<u64> {
    if expire_timeout < 0 {
        Some(DEFAULT_EXPIRE_TIMEOUT_MS)
    } else if expire_timeout == 0 {
        None
    } else {
        Some(expire_timeout as u64)
    }
}

pub fn effective_timeout(expire_timeout: i32) -> (r: Option<u64>)
    ensures
        r == spec_effective_timeout(expire_timeout),
{
    if expire_timeout < 0 {
        Some(DEFAULT_EXPIRE_TIMEOUT_MS)
    } else if expire_timeout == 0 {
        None
    } else {
        Some(expire_timeout as u64)
    }
}

/// The schedule after a notify that set generation `generation` of `id`
/// at `now`: a deadline is added only when the notification expires.
pub open spec fn schedule_after_notify(
    schedule: Seq<ExpiryEvent>,
    timeout_ms: Option<u64>,
    now: u64,
    id: u32,
    generation: u64,
) -> Seq<ExpiryEvent> {
    match spec_deadline(now, timeout_ms) {
        Some(deadline) => schedule.push(ExpiryEvent { deadline, id, generation }),
        None => schedule,
    }
}

/// The registry after applying the expiry events `events` in order.
pub open spec fn run_expiries(reg: RegistryView, events: Seq<ExpiryEvent>) -> RegistryView
    decreases events.len(),
{
    if events.len() == 0 {
        reg
    } else {
        let e = events.last();
        expire_step(run_expiries(reg, events.drop_last()), e.id, e.generation).0
    }
}

/// The closure signals that applying the expiry events `events` in order
/// hands back.
pub open spec fn expiry_signals(reg: RegistryView, events: Seq<ExpiryEvent>) -> Seq<Signal>
    decreases events.len(),
{
    if events.len() == 0 {
        Seq::empty()
    } else {
        let e = events.last();
        let before = expiry_signals(reg, events.drop_last());
        match expire_step(run_expiries(reg, events.drop_last()), e.id, e.generation).1 {
            Some(s) => before.push(s),
            None => before,
        }
    }
}

/// The coordinator after a notify from `app_name` at `now` that returned
/// `r`: the sender is resolved to some key, the registry moves as
/// [`notify_post`] says under the generation that was next, the
/// notification and its declared actions are recorded, and its deadline,
/// if it expires, is scheduled.
pub open spec fn notify_transition(
    pre: DispatcherView,
    post: DispatcherView,
    app_name: String,
    replace_id: u32,
    app_icon: String,
    summary: String,
    body: String,
    actions: Vec<String>,
    expire_timeout: i32,
    now: u64,
    r: u32,
) -> bool {
    &&& exists|key: u64|
        #[trigger] resolve_post(pre.senders, post.senders, app_name@, now, key) && notify_post(
            pre.registry,
            post.registry,
            replace_id,
            (NotificationContent { sender_id: key, app_icon, summary, body, actions }),
            spec_effective_timeout(expire_timeout),
            now,
            (r, pre.registry.next_generation),
        ) && post.history.notifications == pre.history.notifications.push(
            notification_record(r, key, summary@, body@, now, spec_effective_timeout(expire_timeout)),
        )
    &&& post.schedule == schedule_after_notify(
        pre.schedule,
        spec_effective_timeout(expire_timeout),
        now,
        r,
        pre.registry.next_generation,
    )
    &&& post.history.actions == pre.history.actions + declared_actions(r, actions@)
}

/// The abstract state of the coordinator.
pub struct DispatcherView {
    pub registry: RegistryView,
    pub schedule: Seq<ExpiryEvent>,
    pub senders: SenderTableView,
    pub history: HistoryView,
}

impl DispatcherView {
    pub open spec fn wf(self) -> bool {
        self.registry.wf() && self.senders.wf()
    }

    /// A notify can be served: an identifier and a generation are free and
    /// the sender table can take a new key.
    pub open spec fn can_notify(self) -> bool {
        self.registry.can_notify() && self.senders.next_key < u64::MAX
    }
}

/// The coordinator of the notification lifecycle.
pub struct Dispatcher {
    registry: Registry,
    scheduler: Scheduler,
    senders: SenderTable,
    history: History,
}

impl View for Dispatcher {
    type V = DispatcherView;

    closed spec fn view(&self) -> DispatcherView {
        DispatcherView {
            registry: self.registry@,
            schedule: self.scheduler@,
            senders: self.senders@,
            history: self.history@,
        }
    }
}

impl Dispatcher {
    /// A coordinator with no active notification, nothing scheduled and
    /// empty stores.
    pub fn new() -> (r: Dispatcher)
        ensures
            r@.wf(),
            r@.can_notify(),
            r@.registry.active.is_empty(),
            r@.registry.next_id == 1,
            r@.registry.next_generation == 0,
            r@.schedule.len() == 0,
            r@.senders.rows.len() == 0,
            r@.senders.next_key == 1,
            r@.history.notifications.len() == 0,
            r@.history.actions.len() == 0,
    {
        Dispatcher {
            registry: Registry::new(),
            scheduler: Scheduler::new(),
            senders: SenderTable::new(),
            history: History::new(),
        }
    }

    pub fn registry(&self) -> (r: &Registry)
        ensures
            r@ == self@.registry,
    {
        &self.registry
    }

    pub fn senders(&self) -> (r: &SenderTable)
        ensures
            r@ == self@.senders,
    {
        &self.senders
    }

    pub fn history(&self) -> (r: &History)
        ensures
            r@ == self@.history,
    {
        &self.history
    }

    pub fn is_active(&self, id: u32) -> (r: bool)
        ensures
            r == self@.registry.active.contains_key(id),
    {
        self.registry.is_active(id)
    }

    /// The earliest pending deadline, if any.
    pub fn next_deadline(&self) -> (r: Option<u64>)
        ensures
            r.is_none() <==> self@.schedule.len() == 0,
            r matches Some(d) ==> is_earliest_deadline(self@.schedule, d),
    {
        self.scheduler.next_deadline()
    }

    /// Whether [`Dispatcher::notify`] may be called.
    pub fn can_notify(&self) -> (r: bool)
        requires
            self@.wf(),
        ensures
            r == self@.can_notify(),
    {
        self.senders.has_room() && self.registry.can_notify()
    }

    /// The capabilities the server announces.
    pub fn get_capabilities(&self) -> (r: Vec<String>)
        ensures
            r@.len() == 0,
    {
        Vec::new()
    }

    /// The name, vendor, version and protocol version of the server.
    pub fn get_server_information(&self) -> (r: (&'static str, &'static str, &'static str, &'static str))
        ensures
            r == (SERVER_NAME, SERVER_VENDOR, SERVER_VERSION, PROTOCOL_VERSION),
    {
        (SERVER_NAME, SERVER_VENDOR, SERVER_VERSION, PROTOCOL_VERSION)
    }

    /// Serve a notify from `app_name` at `now` (milliseconds): resolve the
    /// sender, replace `replace_id` in place when it is active or take a new
    /// identifier, record the notification, and schedule its expiry.
    /// Returns the identifier; no closure signal comes of a notify.
    pub fn notify(
        &mut self,
        app_name: String,
        replace_id: u32,
        app_icon: String,
        summary: String,
        body: String,
        actions: Vec<String>,
        expire_timeout: i32,
        now: u64,
    ) -> (r: u32)
        requires
            old(self)@.wf(),
            old(self)@.can_notify(),
            actions@.len() / 2 <= u32::MAX,
        ensures
            final(self)@.wf(),
            notify_transition(
                old(self)@,
                final(self)@,
                app_name,
                replace_id,
                app_icon,
                summary,
                body,
                actions,
                expire_timeout,
                now,
                r,
            ),
    {
        let timeout_ms = effective_timeout(expire_timeout);
        let key = self.senders.resolve(app_name, now);
        let ghost content = NotificationContent { sender_id: key, app_icon, summary, body, actions };
        let (id, generation) = self.registry.notify(
            replace_id,
            NotificationContent { sender_id: key, app_icon, summary, body, actions },
            timeout_ms,
            now,
        );
        match self.registry.get(id) {
            Some(entry) => {
                self.history.record(
                    id,
                    key,
                    &entry.content.summary,
                    &entry.content.body,
                    now,
                    timeout_ms,
                    &entry.content.actions,
                );
            },
            None => {},
        }
        match deadline_after(now, timeout_ms) {
            Some(deadline) => {
                self.scheduler.schedule(ExpiryEvent { deadline, id, generation });
            },
            None => {},
        }
        id
    }

    /// Close `id` at the client's request: one closure signal when it was
    /// active, nothing (and no error) otherwise.
    pub fn close_notification(&mut self, id: u32) -> (r: Option<Signal>)
        requires
            old(self)@.wf(),
        ensures
            final(self)@.wf(),
            (final(self)@.registry, r) == close_step(old(self)@.registry, id, CloseReason::ClosedByCall),
            final(self)@.schedule == old(self)@.schedule,
            final(self)@.senders == old(self)@.senders,
            final(self)@.history == old(self)@.history,
    {
        self.registry.close(id, CloseReason::ClosedByCall)
    }

    /// The user dismissed `id`: one closure signal when it was active,
    /// nothing otherwise.
    pub fn dismiss(&mut self, id: u32) -> (r: Option<Signal>)
        requires
            old(self)@.wf(),
        ensures
            final(self)@.wf(),
            (final(self)@.registry, r) == close_step(old(self)@.registry, id, CloseReason::Dismissed),
            final(self)@.schedule == old(self)@.schedule,
            final(self)@.senders == old(self)@.senders,
            final(self)@.history == old(self)@.history,
    {
        self.registry.close(id, CloseReason::Dismissed)
    }

    /// The user invoked the action `action_key` of `id`: one action signal,
    /// and the registry is left as it is.
    pub fn action_invoked(&self, id: u32, action_key: String) -> (r: Signal)
        ensures
            r == (Signal::ActionInvoked { id, action_key }),
    {
        Signal::ActionInvoked { id, action_key }
    }

    /// Apply one expiry event: it closes its notification as expired only
    /// while the schedule that set it is current.
    pub fn expire(&mut self, event: ExpiryEvent) -> (r: Option<Signal>)
        requires
            old(self)@.wf(),
        ensures
            final(self)@.wf(),
            (final(self)@.registry, r) == expire_step(old(self)@.registry, event.id, event.generation),
            final(self)@.schedule == old(self)@.schedule,
            final(self)@.senders == old(self)@.senders,
            final(self)@.history == old(self)@.history,
    {
        self.registry.expire(event.id, event.generation)
    }

    /// Take out the deadlines that have passed at `now` and apply them in
    /// the order they were scheduled; returns the closure signals that came
    /// of them.
    pub fn tick(&mut self, now: u64) -> (r: Vec<Signal>)
        requires
            old(self)@.wf(),
        ensures
            final(self)@.wf(),
            final(self)@.schedule == pending_events(old(self)@.schedule, now),
            final(self)@.registry == run_expiries(
                old(self)@.registry,
                due_events(old(self)@.schedule, now),
            ),
            r@ == expiry_signals(old(self)@.registry, due_events(old(self)@.schedule, now)),
            final(self)@.senders == old(self)@.senders,
            final(self)@.history == old(self)@.history,
    {
        let ghost reg0 = self.registry@;
        let due = self.scheduler.take_due(now);
        let mut signals: Vec<Signal> = Vec::new();
        let mut i: usize = 0;
        while i < due.len()
            invariant
                self.registry@.wf(),
                self.senders@.wf(),
                self.scheduler@ == pending_events(old(self)@.schedule, now),
                self.senders@ == old(self)@.senders,
                self.history@ == old(self)@.history,
                i <= due@.len(),
                self.registry@ == run_expiries(reg0, due@.take(i as int)),
                signals@ == expiry_signals(reg0, due@.take(i as int)),
            decreases due@.len() - i,
        {
            let e = due[i];
            proof {
                assert(due@.take(i as int + 1).drop_last() =~= due@.take(i as int));
            }
            match self.registry.expire(e.id, e.generation) {
                Some(s) => signals.push(s),
                None => {},
            }
            i = i + 1;
        }
        proof {
            assert(due@.take(i as int) =~= due@);
        }
        signals
    }
}

} // verus!
