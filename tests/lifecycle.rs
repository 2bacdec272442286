use rnot::database::{PersistError, Sender, SenderTable};
use rnot::dbus_methods::{
    ActionInvokedSignal, CloseNotificationMethod, GetCapabilitiesMethod,
    GetServerInformationMethod, NotificationClosedSignal, ReceiveNotificationMethod,
};
use rnot::dispatch::{effective_timeout, Dispatcher, DEFAULT_EXPIRE_TIMEOUT_MS};
use rnot::registry::{CloseReason, Signal};
use rnot::scheduler::{ExpiryEvent, Scheduler};

fn s(x: &str) -> String {
    x.to_string()
}

fn notify_at(d: &mut Dispatcher, app: &str, replace: u32, summary: &str, timeout: i32, now: u64) -> u32 {
    d.notify(s(app), replace, s(""), s(summary), s(""), vec![], timeout, now)
}

fn closed(id: u32, reason: CloseReason) -> Signal {
    Signal::NotificationClosed { id, reason }
}

#[test]
fn build_notification_expires_once() {
    let mut d = Dispatcher::new();
    let id = notify_at(&mut d, "Build", 0, "Build finished", 5000, 0);
    assert_eq!(id, 1);
    assert_eq!(d.next_deadline(), Some(5000));
    assert!(d.tick(4999).is_empty());
    assert!(d.is_active(1));
    assert_eq!(d.tick(5000), vec![closed(1, CloseReason::Expired)]);
    assert!(!d.is_active(1));
    assert!(d.tick(20000).is_empty());
    assert_eq!(d.next_deadline(), None);
}

#[test]
fn replace_resets_deadline() {
    let mut d = Dispatcher::new();
    assert_eq!(notify_at(&mut d, "Build", 0, "Build finished", 5000, 0), 1);
    let again = notify_at(&mut d, "Build", 1, "Build finished (updated)", 5000, 2000);
    assert_eq!(again, 1);
    assert_eq!(d.registry().get(1).unwrap().content.summary, "Build finished (updated)");
    assert_eq!(d.registry().len(), 1);
    assert!(d.tick(5000).is_empty());
    assert!(d.is_active(1));
    assert_eq!(d.tick(7000), vec![closed(1, CloseReason::Expired)]);
    assert!(d.tick(9000).is_empty());
}

#[test]
fn close_twice_signals_once() {
    let mut d = Dispatcher::new();
    assert_eq!(notify_at(&mut d, "Build", 0, "Build finished", 5000, 0), 1);
    assert_eq!(d.close_notification(1), Some(closed(1, CloseReason::ClosedByCall)));
    assert_eq!(d.close_notification(1), None);
    assert_eq!(d.close_notification(77), None);
    // the deadline of the closed notification no longer fires
    assert!(d.tick(6000).is_empty());
}

#[test]
fn weather_sender_row_is_reused() {
    let mut d = Dispatcher::new();
    notify_at(&mut d, "Weather", 0, "Rain", 0, 100);
    assert_eq!(d.senders().len(), 1);
    let first = Sender::get_by_name(&s("Weather"), d.senders()).unwrap();
    assert_eq!(first.last_notified_uts, 100);
    notify_at(&mut d, "Weather", 0, "Sun", 0, 250);
    assert_eq!(d.senders().len(), 1);
    let second = Sender::get_by_name(&s("Weather"), d.senders()).unwrap();
    assert_eq!(second.get_id(), first.get_id());
    assert_eq!(second.last_notified_uts, 250);
}

#[test]
fn sender_timestamp_never_moves_back() {
    let mut d = Dispatcher::new();
    notify_at(&mut d, "Mail", 0, "a", 0, 900);
    notify_at(&mut d, "Mail", 0, "b", 0, 300);
    let row = Sender::get_by_name(&s("Mail"), d.senders()).unwrap();
    assert_eq!(row.last_notified_uts, 900);
    notify_at(&mut d, "Chat", 0, "c", 0, 1000);
    assert_eq!(d.senders().len(), 2);
}

#[test]
fn active_ids_are_distinct() {
    let mut d = Dispatcher::new();
    let a = notify_at(&mut d, "A", 0, "one", 0, 0);
    let b = notify_at(&mut d, "A", 0, "two", 0, 0);
    let c = notify_at(&mut d, "B", 0, "three", 0, 0);
    assert_eq!((a, b, c), (1, 2, 3));
    assert!(d.close_notification(2).is_some());
    let e = notify_at(&mut d, "B", 0, "four", 0, 0);
    assert_eq!(e, 4);
    assert_eq!(d.registry().len(), 3);
}

#[test]
fn replace_of_inactive_id_allocates() {
    let mut d = Dispatcher::new();
    let a = notify_at(&mut d, "A", 42, "one", 0, 0);
    assert_eq!(a, 1);
    assert!(!d.is_active(42));
    let b = notify_at(&mut d, "A", 0, "two", 0, 0);
    assert_eq!(b, 2);
    let again = notify_at(&mut d, "A", 1, "one again", 0, 0);
    assert_eq!(again, 1);
    assert_eq!(d.registry().len(), 2);
}

#[test]
fn stale_expiry_is_discarded() {
    let mut d = Dispatcher::new();
    notify_at(&mut d, "A", 0, "one", 1000, 0);
    let old_generation = d.registry().get(1).unwrap().generation;
    notify_at(&mut d, "A", 1, "one again", 1000, 500);
    let stale = ExpiryEvent { deadline: 1000, id: 1, generation: old_generation };
    assert_eq!(d.expire(stale), None);
    assert!(d.is_active(1));
    let current = d.registry().get(1).unwrap().generation;
    assert_eq!(
        d.expire(ExpiryEvent { deadline: 1500, id: 1, generation: current }),
        Some(closed(1, CloseReason::Expired))
    );
}

#[test]
fn never_expiring_notification_stays() {
    let mut d = Dispatcher::new();
    notify_at(&mut d, "A", 0, "pinned", 0, 0);
    assert_eq!(d.next_deadline(), None);
    assert!(d.tick(u64::MAX).is_empty());
    assert!(d.is_active(1));
    let g = d.registry().get(1).unwrap().generation;
    assert_eq!(d.expire(ExpiryEvent { deadline: 0, id: 1, generation: g }), None);
}

#[test]
fn default_timeout_applies() {
    assert_eq!(effective_timeout(-1), Some(DEFAULT_EXPIRE_TIMEOUT_MS));
    assert_eq!(effective_timeout(0), None);
    assert_eq!(effective_timeout(7), Some(7));
    let mut d = Dispatcher::new();
    notify_at(&mut d, "A", 0, "x", -1, 100);
    assert_eq!(d.next_deadline(), Some(5100));
}

#[test]
fn deadline_saturates() {
    let mut d = Dispatcher::new();
    notify_at(&mut d, "A", 0, "x", 10, u64::MAX - 3);
    assert_eq!(d.next_deadline(), Some(u64::MAX));
}

#[test]
fn dismissal_and_actions() {
    let mut d = Dispatcher::new();
    notify_at(&mut d, "A", 0, "x", 0, 0);
    let sig = d.dismiss(1).unwrap();
    assert_eq!(sig, closed(1, CloseReason::Dismissed));
    assert_eq!(NotificationClosedSignal::args(&sig), Some((1, 2)));
    assert_eq!(ActionInvokedSignal::args(&sig), None);
    assert_eq!(d.dismiss(1), None);
    let act = d.action_invoked(9, s("open"));
    assert_eq!(act, Signal::ActionInvoked { id: 9, action_key: s("open") });
    assert_eq!(ActionInvokedSignal::args(&act), Some((9, s("open"))));
    assert_eq!(NotificationClosedSignal::args(&act), None);
}

#[test]
fn close_reason_codes() {
    assert_eq!(CloseReason::Expired.code(), 1);
    assert_eq!(CloseReason::Dismissed.code(), 2);
    assert_eq!(CloseReason::ClosedByCall.code(), 3);
    assert_eq!(CloseReason::Undefined.code(), 4);
}

#[test]
fn server_information_is_stable() {
    let d = Dispatcher::new();
    let a = d.get_server_information();
    let b = GetServerInformationMethod::reply(&d);
    assert_eq!(a, b);
    assert_eq!(a, ("rnot", "oldwomanjosiah", "0.1.0", "1.2"));
    assert!(GetCapabilitiesMethod::reply(&d).is_empty());
}

#[test]
fn history_keeps_records_and_actions() {
    let mut d = Dispatcher::new();
    let actions = vec![s("default"), s("Open"), s("later"), s("Snooze"), s("dangling")];
    let id = d.notify(s("Mail"), 0, s("mail.png"), s("New mail"), s("3 unread"), actions, 0, 42);
    notify_at(&mut d, "Mail", 0, "Empty body", 0, 43);
    let h = d.history();
    assert_eq!(h.notifications().len(), 2);
    let n = &h.notifications()[0];
    assert_eq!(n.notification_id(), id);
    assert_eq!(n.summary(), "New mail");
    assert_eq!(n.format_body(), &Some(s("3 unread")));
    assert_eq!(n.received(), 42);
    assert_eq!(n.timeout_ms(), None);
    assert_eq!(h.notifications()[1].format_body(), &None);
    assert_eq!(h.actions().len(), 2);
    assert_eq!(h.actions()[1].action_id(), 1);
    assert_eq!(h.actions()[1].action_key(), "later");
    assert_eq!(h.actions()[1].action_format_summary(), "Snooze");
    assert_eq!(h.actions()[0].notification_id(), id);
    let sender = Sender::get_by_name(&s("Mail"), d.senders()).unwrap();
    assert_eq!(n.sender_id(), sender.get_id());
}

#[test]
fn method_handlers_forward() {
    let mut d = Dispatcher::new();
    let id = ReceiveNotificationMethod::handle(
        &mut d, s("A"), 0, s(""), s("hi"), s(""), vec![], 5000, 0,
    );
    assert_eq!(id, Some(1));
    assert_eq!(
        CloseNotificationMethod::handle(&mut d, 1),
        Some(closed(1, CloseReason::ClosedByCall))
    );
    assert_eq!(CloseNotificationMethod::handle(&mut d, 1), None);
}

#[test]
fn sender_repository_operations() {
    let mut t = SenderTable::new();
    let a = Sender::new(s("A"), Some(s("/a.png")), 5, &mut t).unwrap();
    assert_eq!(a.get_id(), 1);
    assert_eq!(a.icon_path, Some(s("/a.png")));
    assert_eq!(Sender::new(s("A"), None, 6, &mut t).unwrap_err(), PersistError::Conflict);
    let b = Sender::new(s("B"), None, 7, &mut t).unwrap();
    assert_eq!(b.get_id(), 2);
    assert_eq!(Sender::get_by_id(2, &t).unwrap().name, "B");
    assert!(Sender::get_by_id(9, &t).is_none());
    assert!(Sender::get_by_name(&s("a"), &t).is_none());

    let mut renamed = Sender::get_by_id(2, &t).unwrap();
    renamed.name = s("A");
    assert_eq!(renamed.commit_changes(&mut t), Err(PersistError::Conflict));
    renamed.name = s("Bee");
    renamed.last_notified_uts = 70;
    assert_eq!(renamed.commit_changes(&mut t), Ok(()));
    assert_eq!(Sender::get_by_id(2, &t).unwrap().name, "Bee");

    let mut local = Sender::get_by_id(1, &t).unwrap();
    local.last_notified_uts = 999;
    assert_eq!(local.refresh(&t), Ok(()));
    assert_eq!(local.last_notified_uts, 5);

    let gone = Sender::get_by_id(1, &t).unwrap();
    assert_eq!(gone.remove(&mut t), Ok(()));
    assert_eq!(t.len(), 1);
    assert_eq!(local.refresh(&t), Err(PersistError::NotFound));
    assert_eq!(local.commit_changes(&mut t), Err(PersistError::NotFound));
    let again = Sender::get_by_id(2, &t).unwrap();
    assert_eq!(Sender::get_by_id(2, &t).unwrap().remove(&mut t), Ok(()));
    assert_eq!(again.remove(&mut t), Err(PersistError::NotFound));
}

#[test]
fn resolve_creates_then_refreshes() {
    let mut t = SenderTable::new();
    let k = t.resolve(s("Weather"), 10);
    assert_eq!(k, 1);
    assert_eq!(t.resolve(s("Weather"), 20), 1);
    assert_eq!(t.resolve(s("News"), 30), 2);
    assert_eq!(t.len(), 2);
    let w = t.fetch_by_id(1).unwrap();
    assert_eq!(w.last_notified_uts, 20);
    assert_eq!(w.icon_path, None);
}

#[test]
fn scheduler_takes_due_in_order() {
    let mut sch = Scheduler::new();
    sch.schedule(ExpiryEvent { deadline: 30, id: 1, generation: 0 });
    sch.schedule(ExpiryEvent { deadline: 10, id: 2, generation: 1 });
    sch.schedule(ExpiryEvent { deadline: 20, id: 3, generation: 2 });
    assert_eq!(sch.next_deadline(), Some(10));
    let due = sch.take_due(20);
    assert_eq!(due.len(), 2);
    assert_eq!(due[0].id, 2);
    assert_eq!(due[1].id, 3);
    assert_eq!(sch.len(), 1);
    assert_eq!(sch.next_deadline(), Some(30));
}
