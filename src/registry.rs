//! The registry of active notifications and its lifecycle state machine.
//!
//! A notification is `Active` from the moment its identifier is allocated
//! until it is closed (explicitly, by expiry or by dismissal); closing is
//! terminal and removes it from the active set, after which its identifier
//! may be allocated again.
use std::collections::HashMap;
use vstd::prelude::*;

verus! {

broadcast use vstd::std_specs::hash::group_hash_axioms;

/// The largest notification identifier.
pub const MAX_ID: u32 = 0xffff_ffff;

/// Why a notification stopped being active.
#[derive(Clone, Copy, Debug, PartialEq, Eq, Structural)]
pub enum CloseReason {
    Expired,
    Dismissed,
    ClosedByCall,
    Undefined,
}

impl CloseReason {
    /// The numeric code carried on the bus for this reason.
    pub open spec fn spec_code(self) -> u32 {
        match self {
            CloseReason::Expired => 1,
            CloseReason::Dismissed => 2,
            CloseReason::ClosedByCall => 3,
            CloseReason::Undefined => 4,
        }
    }

    pub fn code(&self) -> (r: u32)
        ensures
            r == self.spec_code(),
    {
        match self {
            CloseReason::Expired => 1,
            CloseReason::Dismissed => 2,
            CloseReason::ClosedByCall => 3,
            CloseReason::Undefined => 4,
        }
    }
}

/// A lifecycle event to be forwarded onto the bus.
#[derive(Clone, Debug, PartialEq, Eq)]
pub enum Signal {
    NotificationClosed { id: u32, reason: CloseReason },
    ActionInvoked { id: u32, action_key: String },
}

/// What a client asked to be shown.
#[derive(Clone, Debug)]
pub struct NotificationContent {
    pub sender_id: u64,
    pub app_icon: String,
    pub summary: String,
    pub body: String,
    pub actions: Vec<String>,
}

/// An active notification as the registry holds it.
#[derive(Clone, Debug)]
pub struct ActiveNotification {
    pub content: NotificationContent,
    /// Milliseconds until automatic expiry; `None` never expires.
    pub timeout_ms: Option<u64>,
    /// The instant (in milliseconds) at which it expires, if it does.
    pub deadline: Option<u64>,
    /// The generation tag of its current schedule.
    pub generation: u64,
}

/// The identifier that follows `id` in allocation order (zero is skipped).
pub open spec fn spec_next_after(id: u32) -> u32 {
    if id == MAX_ID {
        1
    } else {
        (id + 1) as u32
    }
}

/// The position of the non-zero identifier `x` in the cyclic probe order
/// that starts at `start`.
pub open spec fn probe_offset(start: u32, x: u32) -> int {
    if x >= start {
        x - start
    } else {
        x + (MAX_ID - start)
    }
}

/// Some non-zero identifier is not active.
pub open spec fn has_free_id(active: Map<u32, ActiveNotification>) -> bool {
    exists|x: u32| x != 0 && !#[trigger] active.contains_key(x)
}

/// `id` is the first identifier, probing forward from `start`, that is free.
pub open spec fn is_first_free(active: Map<u32, ActiveNotification>, start: u32, id: u32) -> bool {
    &&& id != 0
    &&& !active.contains_key(id)
    &&& forall|x: u32|
        x != 0 && #[trigger] probe_offset(start, x) < probe_offset(start, id)
            ==> active.contains_key(x)
}

/// The deadline of a notification scheduled at `now` with timeout `timeout_ms`
/// (saturating at the largest instant).
pub open spec fn spec_deadline(now: u64, timeout_ms: Option<u64>) -> Option<u64> {
    match timeout_ms {
        Some(t) => Some(
            if now + t > u64::MAX {
                u64::MAX
            } else {
                (now + t) as u64
            },
        ),
        None => None,
    }
}

pub fn deadline_after(now: u64, timeout_ms: Option<u64>) -> (r: Option<u64>)
    ensures
        r == spec_deadline(now, timeout_ms),
{
    match timeout_ms {
        Some(t) => Some(now.saturating_add(t)),
        None => None,
    }
}

pub fn next_after(id: u32) -> (r: u32)
    ensures
        r == spec_next_after(id),
        r != 0,
{
    if id == MAX_ID {
        1
    } else {
        id + 1
    }
}

/// The abstract state of a registry.
pub struct RegistryView {
    pub active: Map<u32, ActiveNotification>,
    pub next_id: u32,
    pub next_generation: u64,
}

impl RegistryView {
    pub open spec fn wf(self) -> bool {
        &&& !self.active.contains_key(0)
        &&& self.next_id != 0
        &&& forall|id: u32|
            #[trigger] self.active.contains_key(id) ==> self.active[id].generation
                < self.next_generation
    }

    /// A new notification can be made: an identifier is free and the
    /// generation counter has room.
    pub open spec fn can_notify(self) -> bool {
        &&& has_free_id(self.active)
        &&& self.next_generation < u64::MAX
    }

    /// `replace_id` names a notification that is active now.
    pub open spec fn replaces(self, replace_id: u32) -> bool {
        replace_id != 0 && self.active.contains_key(replace_id)
    }
}

/// The authoritative index of active notifications.
pub struct Registry {
    active: HashMap<u32, ActiveNotification>,
    next_id: u32,
    next_generation: u64,
}

impl View for Registry {
    type V = RegistryView;

    closed spec fn view(&self) -> RegistryView {
        RegistryView {
            active: self.active@,
            next_id: self.next_id,
            next_generation: self.next_generation,
        }
    }
}

impl Registry {
    /// An empty registry; the first identifier handed out is 1.
    pub fn new() -> (r: Registry)
        ensures
            r@.wf(),
            r@.active.is_empty(),
            r@.next_id == 1,
            r@.next_generation == 0,
            r@.can_notify(),
    {
        let r = Registry { active: HashMap::new(), next_id: 1, next_generation: 0 };
        assert(r@.active =~= Map::empty());
        assert(!r@.active.contains_key(1u32));
        r
    }

    pub fn is_active(&self, id: u32) -> (r: bool)
        ensures
            r == self@.active.contains_key(id),
    {
        self.active.contains_key(&id)
    }

    pub fn len(&self) -> (r: usize)
        ensures
            r == self@.active.len(),
    {
        self.active.len()
    }

    /// The active notification `id`, if any.
    pub fn get(&self, id: u32) -> (r: Option<&ActiveNotification>)
        ensures
            r == (if self@.active.contains_key(id) {
                Some(&self@.active[id])
            } else {
                None
            }),
    {
        self.active.get(&id)
    }

    /// The first free identifier, probing forward from the counter.
    /// `None` when every non-zero identifier is active.
    pub fn first_free_id(&self) -> (r: Option<u32>)
        requires
            self@.wf(),
        ensures
            r is None <==> !has_free_id(self@.active),
            r matches Some(id) ==> is_first_free(self@.active, self@.next_id, id),
    {
        let start = self.next_id;
        let mut cand: u32 = start;
        let mut k: u32 = 0;
        while k < MAX_ID
            invariant
                self@.wf(),
                start == self@.next_id,
                cand != 0,
                k < MAX_ID ==> probe_offset(start, cand) == k,
                forall|x: u32|
                    x != 0 && #[trigger] probe_offset(start, x) < k ==> self@.active.contains_key(
                        x,
                    ),
            decreases MAX_ID - k,
        {
            if !self.active.contains_key(&cand) {
                return Some(cand);
            }
            cand = next_after(cand);
            k = k + 1;
        }
        proof {
            if has_free_id(self@.active) {
                let x = choose|x: u32| x != 0 && !#[trigger] self@.active.contains_key(x);
                assert(probe_offset(start, x) < k);
            }
        }
        None
    }

    /// Whether [`Registry::notify`] may be called.
    pub fn can_notify(&self) -> (r: bool)
        requires
            self@.wf(),
        ensures
            r == self@.can_notify(),
    {
        self.next_generation < u64::MAX && self.first_free_id().is_some()
    }

    /// Notify: replace `replace_id` in place when it is active, otherwise
    /// allocate a new identifier. Returns the identifier and the generation
    /// of the new schedule.
    pub fn notify(
        &mut self,
        replace_id: u32,
        content: NotificationContent,
        timeout_ms: Option<u64>,
        now: u64,
    ) -> (r: (u32, u64))
        requires
            old(self)@.wf(),
            old(self)@.can_notify(),
        ensures
            final(self)@.wf(),
            notify_post(old(self)@, final(self)@, replace_id, content, timeout_ms, now, r),
    {
        let id = if replace_id != 0 && self.active.contains_key(&replace_id) {
            replace_id
        } else {
            let id = match self.first_free_id() {
                Some(id) => id,
                None => 0,
            };
            self.next_id = next_after(id);
            id
        };
        let generation = self.next_generation;
        self.next_generation = self.next_generation + 1;
        let deadline = deadline_after(now, timeout_ms);
        self.active.insert(id, ActiveNotification { content, timeout_ms, deadline, generation });
        (id, generation)
    }

    /// Close `id` for `reason`: a closure signal when it was active, nothing
    /// otherwise.
    pub fn close(&mut self, id: u32, reason: CloseReason) -> (r: Option<Signal>)
        requires
            old(self)@.wf(),
        ensures
            final(self)@.wf(),
            (final(self)@, r) == close_step(old(self)@, id, reason),
    {
        let ghost before = self@;
        match self.active.remove(&id) {
            Some(_) => Some(Signal::NotificationClosed { id, reason }),
            None => {
                assert(self@.active =~= before.active);
                None
            },
        }
    }

    /// A scheduled expiry of `id` at `generation`: it closes the notification
    /// only while that schedule is still current.
    pub fn expire(&mut self, id: u32, generation: u64) -> (r: Option<Signal>)
        requires
            old(self)@.wf(),
        ensures
            final(self)@.wf(),
            (final(self)@, r) == expire_step(old(self)@, id, generation),
    {
        let current = match self.active.get(&id) {
            Some(n) => n.generation == generation && n.timeout_ms.is_some(),
            None => false,
        };
        if current {
            self.close(id, CloseReason::Expired)
        } else {
            None
        }
    }
}

/// An expiry of `id` at `generation` still applies: the notification is
/// active, has a timeout, and has not been rescheduled since.
pub open spec fn expiry_is_current(reg: RegistryView, id: u32, generation: u64) -> bool {
    &&& reg.active.contains_key(id)
    &&& reg.active[id].generation == generation
    &&& reg.active[id].timeout_ms.is_some()
}

/// The registry after a notify that returned `r` (the identifier and the
/// generation of its schedule) relates to the registry before it so: the
/// target is replaced in place when active, otherwise the first free
/// identifier is taken; either way the entry gets a fresh generation.
pub open spec fn notify_post(
    pre: RegistryView,
    post: RegistryView,
    replace_id: u32,
    content: NotificationContent,
    timeout_ms: Option<u64>,
    now: u64,
    r: (u32, u64),
) -> bool {
    &&& r.0 != 0
    &&& pre.replaces(replace_id) ==> r.0 == replace_id && post.next_id == pre.next_id
    &&& !pre.replaces(replace_id) ==> is_first_free(pre.active, pre.next_id, r.0) && post.next_id
        == spec_next_after(r.0)
    &&& r.1 == pre.next_generation
    &&& post.next_generation == pre.next_generation + 1
    &&& post.active == pre.active.insert(
        r.0,
        (ActiveNotification {
            content,
            timeout_ms,
            deadline: spec_deadline(now, timeout_ms),
            generation: r.1,
        }),
    )
}

/// Closing `id` for `reason`: removed with one closure signal when active,
/// nothing otherwise.
pub open spec fn close_step(reg: RegistryView, id: u32, reason: CloseReason) -> (RegistryView, Option<Signal>) {
    if reg.active.contains_key(id) {
        (
            RegistryView { active: reg.active.remove(id), ..reg },
            Some(Signal::NotificationClosed { id, reason }),
        )
    } else {
        (reg, None)
    }
}

/// An expiry of `id` at `generation`: closes it as expired while that
/// schedule is current, and is discarded otherwise.
pub open spec fn expire_step(reg: RegistryView, id: u32, generation: u64) -> (RegistryView, Option<Signal>) {
    if expiry_is_current(reg, id, generation) {
        close_step(reg, id, CloseReason::Expired)
    } else {
        (reg, None)
    }
}

} // verus!
