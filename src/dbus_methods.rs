//! The methods and signals of the notification interface, as the protocol
//! adapter sees them: each method hands its decoded arguments to the
//! coordinator, and each signal turns a lifecycle event into its arguments.
use crate::dispatch::{notify_transition, Dispatcher, PROTOCOL_VERSION, SERVER_NAME, SERVER_VENDOR, SERVER_VERSION};
use crate::registry::{close_step, CloseReason, Signal};
use vstd::prelude::*;

verus! {

/// `GetCapabilities`: the optional features the server supports.
pub struct GetCapabilitiesMethod;

impl GetCapabilitiesMethod {
    pub fn reply(dispatcher: &Dispatcher) -> (r: Vec<String>)
        ensures
            r@.len() == 0,
    {
        dispatcher.get_capabilities()
    }
}

/// `Notify`: show a notification, or replace an active one.
pub struct ReceiveNotificationMethod;

impl ReceiveNotificationMethod {
    /// Serve a decoded `Notify` call at `now`. `None` when the server cannot
    /// take one more notification (no identifier, generation or sender key
    /// is left) or the action list is too long to number; the state is then
    /// left as it is.
    pub fn handle(
        dispatcher: &mut Dispatcher,
        app_name: String,
        replaces_id: u32,
        app_icon: String,
        summary: String,
        body: String,
        actions: Vec<String>,
        expire_timeout: i32,
        now: u64,
    ) -> (r: Option<u32>)
        requires
            old(dispatcher)@.wf(),
        ensures
            final(dispatcher)@.wf(),
            r is None <==> !(old(dispatcher)@.can_notify() && actions@.len() / 2 <= u32::MAX),
            r is None ==> final(dispatcher)@ == old(dispatcher)@,
            r matches Some(id) ==> notify_transition(
                old(dispatcher)@,
                final(dispatcher)@,
                app_name,
                replaces_id,
                app_icon,
                summary,
                body,
                actions,
                expire_timeout,
                now,
                id,
            ),
    {
        if !dispatcher.can_notify() || actions.len() / 2 > 0xffff_ffff {
            return None;
        }
        let id = dispatcher.notify(
            app_name,
            replaces_id,
            app_icon,
            summary,
            body,
            actions,
            expire_timeout,
            now,
        );
        Some(id)
    }
}

/// `CloseNotification`: close a notification at the client's request.
pub struct CloseNotificationMethod;

impl CloseNotificationMethod {
    /// Always succeeds; the closure signal to emit, if the id was active.
    pub fn handle(dispatcher: &mut Dispatcher, id: u32) -> (r: Option<Signal>)
        requires
            old(dispatcher)@.wf(),
        ensures
            final(dispatcher)@.wf(),
            (final(dispatcher)@.registry, r) == close_step(
                old(dispatcher)@.registry,
                id,
                CloseReason::ClosedByCall,
            ),
    {
        dispatcher.close_notification(id)
    }
}

/// `GetServerInformation`: who the server is.
pub struct GetServerInformationMethod;

impl GetServerInformationMethod {
    pub fn reply(dispatcher: &Dispatcher) -> (r: (&'static str, &'static str, &'static str, &'static str))
        ensures
            r == (SERVER_NAME, SERVER_VENDOR, SERVER_VERSION, PROTOCOL_VERSION),
    {
        dispatcher.get_server_information()
    }
}

/// `NotificationClosed(id, reason)`.
pub struct NotificationClosedSignal;

impl NotificationClosedSignal {
    /// The arguments of the signal for a closure event; `None` for any
    /// other event.
    pub fn args(signal: &Signal) -> (r: Option<(u32, u32)>)
        ensures
            match *signal {
                Signal::NotificationClosed { id, reason } => r == Some((id, reason.spec_code())),
                _ => r.is_none(),
            },
    {
        match signal {
            Signal::NotificationClosed { id, reason } => Some((*id, reason.code())),
            _ => None,
        }
    }
}

/// `ActionInvoked(id, action_key)`.
pub struct ActionInvokedSignal;

impl ActionInvokedSignal {
    /// The arguments of the signal for an action event; `None` for any
    /// other event.
    pub fn args(signal: &Signal) -> (r: Option<(u32, String)>)
        ensures
            match *signal {
                Signal::ActionInvoked { id, action_key } => r == Some((id, action_key)),
                _ => r.is_none(),
            },
    {
        match signal {
            Signal::ActionInvoked { id, action_key } => Some((*id, action_key.clone())),
            _ => None,
        }
    }
}

} // verus!
