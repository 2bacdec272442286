//! The persistence layer: sender records keyed by a store-assigned key and
//! unique by name, and historical notification and action records.
//!
//! Every operation that looks a row up reports a missing row as
//! [`PersistError::NotFound`]; a write that would give two senders one name
//! is refused with [`PersistError::Conflict`].
use vstd::prelude::*;

verus! {

/// Why a persistence operation did not take effect.
#[derive(Clone, Copy, Debug, PartialEq, Eq, Structural)]
pub enum PersistError {
    /// No row has the requested key.
    NotFound,
    /// Another row already has this name.
    Conflict,
}

/// The plain value of a sender row.
pub struct SenderView {
    pub sender_id: u64,
    pub name: Seq<char>,
    pub icon_path: Option<Seq<char>>,
    pub last_notified_uts: u64,
}

pub open spec fn opt_view(o: Option<String>) -> Option<Seq<char>> {
    match o {
        Some(s) => Some(s@),
        None => None,
    }
}

fn copy_opt(o: &Option<String>) -> (r: Option<String>)
    ensures
        r == *o,
{
    match o {
        Some(s) => Some(s.clone()),
        None => None,
    }
}

/// A sending application.
#[derive(Debug)]
pub struct Sender {
    /// The key assigned by the store.
    sender_id: u64,
    /// The name of the sending application, as the application sent it.
    pub name: String,
    /// Cached local path to the icon of this application, if there is one.
    pub icon_path: Option<String>,
    /// When (in milliseconds since the epoch) this application last notified.
    pub last_notified_uts: u64,
}

impl View for Sender {
    type V = SenderView;

    closed spec fn view(&self) -> SenderView {
        SenderView {
            sender_id: self.sender_id,
            name: self.name@,
            icon_path: opt_view(self.icon_path),
            last_notified_uts: self.last_notified_uts,
        }
    }
}

/// The abstract state of the sender table.
pub struct SenderTableView {
    pub rows: Seq<SenderView>,
    pub next_key: u64,
}

impl SenderTableView {
    /// Keys are below the next key and unique, and names are unique.
    pub open spec fn wf(self) -> bool {
        &&& forall|i: int| 0 <= i < self.rows.len() ==> #[trigger] self.rows[i].sender_id < self.next_key
        &&& forall|i: int, j: int|
            0 <= i < self.rows.len() && 0 <= j < self.rows.len() && i != j ==> #[trigger] self.rows[i].sender_id
                != #[trigger] self.rows[j].sender_id && self.rows[i].name != self.rows[j].name
    }

    pub open spec fn has_id(self, id: u64) -> bool {
        exists|i: int| 0 <= i < self.rows.len() && #[trigger] self.rows[i].sender_id == id
    }

    pub open spec fn has_name(self, name: Seq<char>) -> bool {
        exists|i: int| 0 <= i < self.rows.len() && #[trigger] self.rows[i].name == name
    }

    /// The row keyed `id` is `row`.
    pub open spec fn row_is(self, id: u64, row: SenderView) -> bool {
        exists|i: int| 0 <= i < self.rows.len() && #[trigger] self.rows[i] == row && row.sender_id == id
    }

    /// The row named `name` is `row`.
    pub open spec fn named_row_is(self, name: Seq<char>, row: SenderView) -> bool {
        exists|i: int| 0 <= i < self.rows.len() && #[trigger] self.rows[i] == row && row.name == name
    }
}

/// The store of sender rows.
pub struct SenderTable {
    rows: Vec<Sender>,
    next_key: u64,
}

impl View for SenderTable {
    type V = SenderTableView;

    closed spec fn view(&self) -> SenderTableView {
        SenderTableView { rows: self.rows@.map_values(|s: Sender| s@), next_key: self.next_key }
    }
}

impl SenderTable {
    /// An empty table; the first key it assigns is 1.
    pub fn new() -> (r: SenderTable)
        ensures
            r@.wf(),
            r@.rows.len() == 0,
            r@.next_key == 1,
    {
        let r = SenderTable { rows: Vec::new(), next_key: 1 };
        assert(r@.rows =~= Seq::<SenderView>::empty());
        r
    }

    pub fn len(&self) -> (r: usize)
        ensures
            r == self@.rows.len(),
    {
        self.rows.len()
    }

    /// Room is left for another key.
    pub open spec fn can_create(&self) -> bool {
        self@.next_key < u64::MAX
    }

    /// The rows, in the order they were added.
    pub fn rows(&self) -> (r: &Vec<Sender>)
        ensures
            r@.map_values(|s: Sender| s@) == self@.rows,
    {
        &self.rows
    }

    pub fn has_room(&self) -> (r: bool)
        ensures
            r == self.can_create(),
    {
        self.next_key < u64::MAX
    }

    fn index_of_id(&self, id: u64) -> (r: Option<usize>)
        ensures
            r.is_none() <==> !self@.has_id(id),
            r matches Some(i) ==> i < self@.rows.len() && self@.rows[i as int].sender_id == id,
    {
        let mut i: usize = 0;
        while i < self.rows.len()
            invariant
                i <= self@.rows.len(),
                forall|j: int| 0 <= j < i ==> #[trigger] self@.rows[j].sender_id != id,
            decreases self@.rows.len() - i,
        {
            if self.rows[i].sender_id == id {
                assert(self@.rows[i as int].sender_id == id);
                return Some(i);
            }
            i = i + 1;
        }
        None
    }

    fn index_of_name(&self, name: &String) -> (r: Option<usize>)
        ensures
            r.is_none() <==> !self@.has_name(name@),
            r matches Some(i) ==> i < self@.rows.len() && self@.rows[i as int].name == name@,
    {
        let mut i: usize = 0;
        while i < self.rows.len()
            invariant
                i <= self@.rows.len(),
                forall|j: int| 0 <= j < i ==> #[trigger] self@.rows[j].name != name@,
            decreases self@.rows.len() - i,
        {
            if self.rows[i].name == *name {
                assert(self@.rows[i as int].name == name@);
                return Some(i);
            }
            i = i + 1;
        }
        None
    }

    /// The row keyed `id`, if there is one.
    pub fn fetch_by_id(&self, id: u64) -> (r: Option<Sender>)
        requires
            self@.wf(),
        ensures
            r.is_none() <==> !self@.has_id(id),
            r matches Some(s) ==> self@.row_is(id, s@),
    {
        match self.index_of_id(id) {
            Some(i) => Some(self.rows[i].duplicate()),
            None => None,
        }
    }

    /// The row named exactly `name`, if there is one.
    pub fn fetch_by_name(&self, name: &String) -> (r: Option<Sender>)
        requires
            self@.wf(),
        ensures
            r.is_none() <==> !self@.has_name(name@),
            r matches Some(s) ==> self@.named_row_is(name@, s@),
    {
        match self.index_of_name(name) {
            Some(i) => Some(self.rows[i].duplicate()),
            None => None,
        }
    }

    /// Add a row under the next key, unless the name is taken.
    pub fn create(&mut self, name: String, icon_path: Option<String>, last_notified: u64) -> (r:
        Result<Sender, PersistError>)
        requires
            old(self)@.wf(),
            old(self).can_create(),
        ensures
            final(self)@.wf(),
            old(self)@.has_name(name@) ==> r == Err::<Sender, PersistError>(PersistError::Conflict)
                && final(self)@ == old(self)@,
            !old(self)@.has_name(name@) ==> r is Ok && r->Ok_0@ == (SenderView {
                sender_id: old(self)@.next_key,
                name: name@,
                icon_path: opt_view(icon_path),
                last_notified_uts: last_notified,
            }) && final(self)@.rows == old(self)@.rows.push(r->Ok_0@) && final(self)@.next_key
                == old(self)@.next_key + 1,
    {
        if self.index_of_name(&name).is_some() {
            return Err(PersistError::Conflict);
        }
        let row = Sender {
            sender_id: self.next_key,
            name,
            icon_path,
            last_notified_uts: last_notified,
        };
        let out = row.duplicate();
        let ghost before = self@;
        self.rows.push(row);
        self.next_key = self.next_key + 1;
        proof {
            assert(self@.rows =~= before.rows.push(out@));
        }
        Ok(out)
    }

    /// Write the mutable fields of `s` to its row.
    pub fn update(&mut self, s: &Sender) -> (r: Result<(), PersistError>)
        requires
            old(self)@.wf(),
        ensures
            final(self)@.wf(),
            final(self)@.next_key == old(self)@.next_key,
            !old(self)@.has_id(s@.sender_id) ==> r == Err::<(), PersistError>(PersistError::NotFound)
                && final(self)@ == old(self)@,
            old(self)@.has_id(s@.sender_id) && name_taken_by_other(old(self)@, s@) ==> r == Err::<
                (),
                PersistError,
            >(PersistError::Conflict) && final(self)@ == old(self)@,
            old(self)@.has_id(s@.sender_id) && !name_taken_by_other(old(self)@, s@) ==> r is Ok
                && exists|i: int|
                0 <= i < old(self)@.rows.len() && #[trigger] old(self)@.rows[i].sender_id
                    == s@.sender_id && final(self)@.rows == old(self)@.rows.update(i, s@),
    {
        let i = match self.index_of_id(s.sender_id) {
            Some(i) => i,
            None => return Err(PersistError::NotFound),
        };
        let mut j: usize = 0;
        while j < self.rows.len()
            invariant
                self@ == old(self)@,
                self@.wf(),
                i < self@.rows.len(),
                self@.rows[i as int].sender_id == s.sender_id,
                j <= self@.rows.len(),
                forall|k: int|
                    0 <= k < j && k != i ==> #[trigger] self@.rows[k].name != s.name@,
            decreases self@.rows.len() - j,
        {
            if j != i && self.rows[j].name == s.name {
                proof {
                    assert(self@.rows[j as int].name == s@.name);
                    assert(self@.rows[j as int].sender_id != self@.rows[i as int].sender_id);
                }
                return Err(PersistError::Conflict);
            }
            assert(j != i ==> self@.rows[j as int].name != s@.name);
            j = j + 1;
        }
        let ghost before = self@;
        let row = s.duplicate();
        self.rows.set(i, row);
        proof {
            assert(self@.rows =~= before.rows.update(i as int, s@));
        }
        Ok(())
    }

    /// Remove the row keyed `id`.
    pub fn delete(&mut self, id: u64) -> (r: Result<(), PersistError>)
        requires
            old(self)@.wf(),
        ensures
            final(self)@.wf(),
            final(self)@.next_key == old(self)@.next_key,
            !old(self)@.has_id(id) ==> r == Err::<(), PersistError>(PersistError::NotFound)
                && final(self)@ == old(self)@,
            old(self)@.has_id(id) ==> r is Ok && !final(self)@.has_id(id) && exists|i: int|
                0 <= i < old(self)@.rows.len() && #[trigger] old(self)@.rows[i].sender_id == id
                    && final(self)@.rows == old(self)@.rows.remove(i),
    {
        match self.index_of_id(id) {
            Some(i) => {
                let ghost before = self@;
                let _ = self.rows.remove(i);
                proof {
                    assert(self@.rows =~= before.rows.remove(i as int));
                }
                Ok(())
            },
            None => Err(PersistError::NotFound),
        }
    }

    /// The sender named `name`: its row, refreshed to `now` (never moving
    /// its timestamp back), or a new row with no icon when the name is new.
    /// Returns the sender's key.
    pub fn resolve(&mut self, name: String, now: u64) -> (r: u64)
        requires
            old(self)@.wf(),
            old(self).can_create(),
        ensures
            final(self)@.wf(),
            resolve_post(old(self)@, final(self)@, name@, now, r),
    {
        match self.index_of_name(&name) {
            Some(i) => {
                let ghost before = self@;
                let mut row = self.rows[i].duplicate();
                if row.last_notified_uts < now {
                    row.last_notified_uts = now;
                }
                let id = row.sender_id;
                self.rows.set(i, row);
                proof {
                    assert(self@.rows =~= before.rows.update(
                        i as int,
                        SenderView {
                            last_notified_uts: spec_max(before.rows[i as int].last_notified_uts, now),
                            ..before.rows[i as int]
                        },
                    ));
                    assert(self@.rows[i as int].name == name@);
                    assert(self@.has_name(name@));
                }
                id
            },
            None => {
                let ghost before = self@;
                let created = self.create(name, None, now);
                proof {
                    assert(self@.rows[before.rows.len() as int] == created->Ok_0@);
                    assert(self@.rows[before.rows.len() as int].name == name@);
                }
                match created {
                    Ok(s) => s.sender_id,
                    Err(_) => 0,
                }
            },
        }
    }
}

/// The sender table after resolving `name` at `now` to the key `r`: the
/// named row has its timestamp moved forward to `now` (never back), or a
/// row with no icon is added when the name is new.
pub open spec fn resolve_post(pre: SenderTableView, post: SenderTableView, name: Seq<char>, now: u64, r: u64) -> bool {
    &&& post.has_name(name)
    &&& pre.has_name(name) ==> post.next_key == pre.next_key && post.rows.len() == pre.rows.len()
        && exists|i: int|
        0 <= i < pre.rows.len() && #[trigger] pre.rows[i].name == name && r == pre.rows[i].sender_id
            && post.rows == pre.rows.update(
            i,
            (SenderView {
                last_notified_uts: spec_max(pre.rows[i].last_notified_uts, now),
                ..pre.rows[i]
            }),
        )
    &&& !pre.has_name(name) ==> r == pre.next_key && post.next_key == pre.next_key + 1
        && post.rows == pre.rows.push(
        (SenderView { sender_id: r, name, icon_path: None, last_notified_uts: now }),
    )
}

pub open spec fn spec_max(a: u64, b: u64) -> u64 {
    if a < b {
        b
    } else {
        a
    }
}

/// Some row other than the one keyed like `s` has the name of `s`.
pub open spec fn name_taken_by_other(t: SenderTableView, s: SenderView) -> bool {
    exists|k: int| 0 <= k < t.rows.len() && #[trigger] t.rows[k].name == s.name && t.rows[k].sender_id != s.sender_id
}

impl Sender {
    /// A copy of this row.
    pub fn duplicate(&self) -> (r: Sender)
        ensures
            r@ == self@,
    {
        Sender {
            sender_id: self.sender_id,
            name: self.name.clone(),
            icon_path: copy_opt(&self.icon_path),
            last_notified_uts: self.last_notified_uts,
        }
    }

    /// Add a new sender to the table with this information and return it.
    pub fn new(name: String, icon_path: Option<String>, last_notified: u64, conn: &mut SenderTable) -> (r: Result<Sender, PersistError>)
        requires
            old(conn)@.wf(),
            old(conn).can_create(),
        ensures
            final(conn)@.wf(),
            old(conn)@.has_name(name@) ==> r == Err::<Sender, PersistError>(PersistError::Conflict)
                && final(conn)@ == old(conn)@,
            !old(conn)@.has_name(name@) ==> r is Ok && r->Ok_0@ == (SenderView {
                sender_id: old(conn)@.next_key,
                name: name@,
                icon_path: opt_view(icon_path),
                last_notified_uts: last_notified,
            }) && final(conn)@.rows == old(conn)@.rows.push(r->Ok_0@) && final(conn)@.next_key
                == old(conn)@.next_key + 1,
    {
        conn.create(name, icon_path, last_notified)
    }

    pub fn get_by_id(id: u64, conn: &SenderTable) -> (r: Option<Sender>)
        requires
            conn@.wf(),
        ensures
            r.is_none() <==> !conn@.has_id(id),
            r matches Some(s) ==> conn@.row_is(id, s@),
    {
        conn.fetch_by_id(id)
    }

    pub fn get_by_name(name: &String, conn: &SenderTable) -> (r: Option<Sender>)
        requires
            conn@.wf(),
        ensures
            r.is_none() <==> !conn@.has_name(name@),
            r matches Some(s) ==> conn@.named_row_is(name@, s@),
    {
        conn.fetch_by_name(name)
    }

    pub fn get_id(&self) -> (r: u64)
        ensures
            r == self@.sender_id,
    {
        self.sender_id
    }

    /// Write the changes of this sender to the table.
    pub fn commit_changes(&self, conn: &mut SenderTable) -> (r: Result<(), PersistError>)
        requires
            old(conn)@.wf(),
        ensures
            final(conn)@.wf(),
            final(conn)@.next_key == old(conn)@.next_key,
            !old(conn)@.has_id(self@.sender_id) ==> r == Err::<(), PersistError>(PersistError::NotFound)
                && final(conn)@ == old(conn)@,
            old(conn)@.has_id(self@.sender_id) && name_taken_by_other(old(conn)@, self@) ==> r == Err::<
                (),
                PersistError,
            >(PersistError::Conflict) && final(conn)@ == old(conn)@,
            old(conn)@.has_id(self@.sender_id) && !name_taken_by_other(old(conn)@, self@) ==> r is Ok
                && exists|i: int|
                0 <= i < old(conn)@.rows.len() && #[trigger] old(conn)@.rows[i].sender_id
                    == self@.sender_id && final(conn)@.rows == old(conn)@.rows.update(i, self@),
    {
        conn.update(self)
    }

    /// Replace this sender's fields with its row in the table, discarding
    /// local changes; `NotFound` (and no change) once the row is gone.
    pub fn refresh(&mut self, conn: &SenderTable) -> (r: Result<(), PersistError>)
        requires
            conn@.wf(),
        ensures
            !conn@.has_id(old(self)@.sender_id) ==> r == Err::<(), PersistError>(PersistError::NotFound)
                && final(self)@ == old(self)@,
            conn@.has_id(old(self)@.sender_id) ==> r is Ok && conn@.row_is(old(self)@.sender_id, final(self)@),
    {
        match conn.fetch_by_id(self.sender_id) {
            Some(row) => {
                *self = row;
                Ok(())
            },
            None => Err(PersistError::NotFound),
        }
    }

    /// Remove this sender from the table.
    pub fn remove(self, conn: &mut SenderTable) -> (r: Result<(), PersistError>)
        requires
            old(conn)@.wf(),
        ensures
            final(conn)@.wf(),
            !old(conn)@.has_id(self@.sender_id) ==> r == Err::<(), PersistError>(PersistError::NotFound)
                && final(conn)@ == old(conn)@,
            old(conn)@.has_id(self@.sender_id) ==> r is Ok && !final(conn)@.has_id(self@.sender_id),
    {
        conn.delete(self.sender_id)
    }
}

/// The plain value of a notification record.
pub struct NotificationRecord {
    pub notification_id: u32,
    pub sender_id: u64,
    pub summary: Seq<char>,
    pub format_body: Option<Seq<char>>,
    pub received: u64,
    pub timeout_ms: Option<u64>,
}

/// A notification as the history keeps it.
#[derive(Debug)]
pub struct Notification {
    notification_id: u32,
    sender_id: u64,
    /// The title or summary of the notification.
    summary: String,
    /// The formatted body of the notification, absent when it was empty.
    format_body: Option<String>,
    /// When (in milliseconds since the epoch) it was received.
    received: u64,
    /// Milliseconds it stays before it expires, if it expires.
    timeout_ms: Option<u64>,
}

impl View for Notification {
    type V = NotificationRecord;

    closed spec fn view(&self) -> NotificationRecord {
        NotificationRecord {
            notification_id: self.notification_id,
            sender_id: self.sender_id,
            summary: self.summary@,
            format_body: opt_view(self.format_body),
            received: self.received,
            timeout_ms: self.timeout_ms,
        }
    }
}

impl Notification {
    pub fn notification_id(&self) -> (r: u32)
        ensures
            r == self@.notification_id,
    {
        self.notification_id
    }

    pub fn sender_id(&self) -> (r: u64)
        ensures
            r == self@.sender_id,
    {
        self.sender_id
    }

    pub fn summary(&self) -> (r: &String)
        ensures
            r@ == self@.summary,
    {
        &self.summary
    }

    pub fn format_body(&self) -> (r: &Option<String>)
        ensures
            opt_view(*r) == self@.format_body,
    {
        &self.format_body
    }

    pub fn received(&self) -> (r: u64)
        ensures
            r == self@.received,
    {
        self.received
    }

    pub fn timeout_ms(&self) -> (r: Option<u64>)
        ensures
            r == self@.timeout_ms,
    {
        self.timeout_ms
    }
}

/// The plain value of an action record.
pub struct ActionRecord {
    pub notification_id: u32,
    pub action_id: u32,
    pub action_key: Seq<char>,
    pub action_format_summary: Seq<char>,
}

/// A response option declared with a notification.
#[derive(Debug)]
pub struct Action {
    // These are unique together.
    notification_id: u32,
    action_id: u32,
    /// The key broadcast when the user takes this action.
    action_key: String,
    /// The display text of this action, formatted like a notification body.
    action_format_summary: String,
}

impl View for Action {
    type V = ActionRecord;

    closed spec fn view(&self) -> ActionRecord {
        ActionRecord {
            notification_id: self.notification_id,
            action_id: self.action_id,
            action_key: self.action_key@,
            action_format_summary: self.action_format_summary@,
        }
    }
}

impl Action {
    pub fn notification_id(&self) -> (r: u32)
        ensures
            r == self@.notification_id,
    {
        self.notification_id
    }

    pub fn action_id(&self) -> (r: u32)
        ensures
            r == self@.action_id,
    {
        self.action_id
    }

    pub fn action_key(&self) -> (r: &String)
        ensures
            r@ == self@.action_key,
    {
        &self.action_key
    }

    pub fn action_format_summary(&self) -> (r: &String)
        ensures
            r@ == self@.action_format_summary,
    {
        &self.action_format_summary
    }
}

/// The actions that the flat list `list` declares for notification `id`:
/// one for each (key, display text) pair, numbered from zero; a trailing
/// key without text declares nothing.
pub open spec fn declared_actions(id: u32, list: Seq<String>) -> Seq<ActionRecord> {
    Seq::new(
        list.len() / 2,
        |k: int|
            ActionRecord {
                notification_id: id,
                action_id: k as u32,
                action_key: list[2 * k]@,
                action_format_summary: list[2 * k + 1]@,
            },
    )
}

/// The record of a notification received at `received`.
pub open spec fn notification_record(
    id: u32,
    sender_id: u64,
    summary: Seq<char>,
    body: Seq<char>,
    received: u64,
    timeout_ms: Option<u64>,
) -> NotificationRecord {
    NotificationRecord {
        notification_id: id,
        sender_id,
        summary,
        format_body: if body.len() == 0 {
            None
        } else {
            Some(body)
        },
        received,
        timeout_ms,
    }
}

/// The historical notification and action records, in the order received.
pub struct History {
    notifications: Vec<Notification>,
    actions: Vec<Action>,
}

pub struct HistoryView {
    pub notifications: Seq<NotificationRecord>,
    pub actions: Seq<ActionRecord>,
}

impl View for History {
    type V = HistoryView;

    closed spec fn view(&self) -> HistoryView {
        HistoryView {
            notifications: self.notifications@.map_values(|n: Notification| n@),
            actions: self.actions@.map_values(|a: Action| a@),
        }
    }
}

impl History {
    pub fn new() -> (r: History)
        ensures
            r@.notifications.len() == 0,
            r@.actions.len() == 0,
    {
        let r = History { notifications: Vec::new(), actions: Vec::new() };
        assert(r@.notifications =~= Seq::<NotificationRecord>::empty());
        assert(r@.actions =~= Seq::<ActionRecord>::empty());
        r
    }

    pub fn notifications(&self) -> (r: &Vec<Notification>)
        ensures
            r@.map_values(|n: Notification| n@) == self@.notifications,
    {
        &self.notifications
    }

    pub fn actions(&self) -> (r: &Vec<Action>)
        ensures
            r@.map_values(|a: Action| a@) == self@.actions,
    {
        &self.actions
    }

    /// Record a notification and the actions its list declares.
    pub fn record(
        &mut self,
        id: u32,
        sender_id: u64,
        summary: &String,
        body: &String,
        received: u64,
        timeout_ms: Option<u64>,
        actions: &Vec<String>,
    )
        requires
            actions@.len() / 2 <= u32::MAX,
        ensures
            final(self)@.notifications == old(self)@.notifications.push(
                notification_record(id, sender_id, summary@, body@, received, timeout_ms),
            ),
            final(self)@.actions == old(self)@.actions + declared_actions(id, actions@),
    {
        let empty = String::new();
        let format_body = if *body == empty {
            None
        } else {
            Some(body.clone())
        };
        let n = Notification {
            notification_id: id,
            sender_id,
            summary: summary.clone(),
            format_body,
            received,
            timeout_ms,
        };
        let ghost before = self@;
        let ghost rec = n@;
        self.notifications.push(n);
        proof {
            assert(self@.notifications =~= before.notifications.push(rec));
            if body@.len() == 0 {
                assert(body@ =~= empty@);
            }
            assert(rec == notification_record(id, sender_id, summary@, body@, received, timeout_ms));
        }
        let len = actions.len();
        let pairs = len / 2;
        let mut k: usize = 0;
        while k < pairs
            invariant
                len == actions@.len(),
                pairs == len / 2,
                pairs <= u32::MAX,
                2 * pairs <= actions@.len(),
                k <= pairs,
                self@.notifications == before.notifications.push(rec),
                self@.actions == before.actions + declared_actions(id, actions@).take(k as int),
            decreases pairs - k,
        {
            let a = Action {
                notification_id: id,
                action_id: k as u32,
                action_key: actions[2 * k].clone(),
                action_format_summary: actions[2 * k + 1].clone(),
            };
            let ghost mid = self@;
            let ghost arec = a@;
            self.actions.push(a);
            proof {
                assert(self@.actions =~= mid.actions.push(arec));
                assert(arec == declared_actions(id, actions@)[k as int]);
                assert(declared_actions(id, actions@).take(k as int + 1) =~= declared_actions(
                    id,
                    actions@,
                ).take(k as int).push(arec));
                assert(self@.notifications =~= before.notifications.push(rec));
            }
            k = k + 1;
        }
        proof {
            assert(declared_actions(id, actions@).take(k as int) =~= declared_actions(id, actions@));
        }
    }
}

} // verus!
