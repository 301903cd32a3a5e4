//! Notifications for the user: toasts for the front end, and events for the
//! clients of the gateway with their fallback inside the process.

use vstd::prelude::*;
use vstd::string::*;
use crate::connection::after_broadcast;
use crate::json::{json_quote, json_quoted};
use crate::lifecycle::{Delivery, WebServerManager};
use crate::message::{JsonText, WsMessageView};

verus! {

/// The ways in which a notification can reach the user.
#[derive(Clone, Copy, Debug, PartialEq, Eq, Structural)]
pub enum NotificationChannel {
    /// Pushed to the clients of the gateway, or to the front end as an event.
    WebSocket,
    /// Shown by the front end as a toast.
    Toast,
    /// Shown by the operating system.
    Native,
}

/// How serious a toast is.
#[derive(Clone, Copy, Debug, PartialEq, Eq, Structural)]
pub enum ToastLevel {
    Info,
    Success,
    Warning,
    Error,
}

impl ToastLevel {
    /// The name of the level as the front end knows it.
    pub open spec fn name(self) -> Seq<char> {
        match self {
            ToastLevel::Info => "info"@,
            ToastLevel::Success => "success"@,
            ToastLevel::Warning => "warning"@,
            ToastLevel::Error => "error"@,
        }
    }

    /// The name of the level as the front end knows it.
    pub fn as_str(&self) -> (r: &'static str)
        ensures
            r@ == self.name(),
    {
        match self {
            ToastLevel::Info => "info",
            ToastLevel::Success => "success",
            ToastLevel::Warning => "warning",
            ToastLevel::Error => "error",
        }
    }
}

/// A message for the user with its level.
#[derive(Debug)]
pub struct Toast {
    pub message: String,
    pub level: ToastLevel,
}

/// An event with its payload, for the clients of the gateway.
#[derive(Debug)]
pub struct WebSocketNotification {
    /// The name of the event, which is also the channel it is sent on.
    pub event: String,
    /// What the event carries.
    pub payload: JsonText,
}

/// The name of the event that carries a toast to the front end.
pub open spec fn toast_event() -> Seq<char> {
    "toast-notification"@
}

/// The payload of the event that carries a toast to the front end.
pub open spec fn toast_payload(message: Seq<char>, level: ToastLevel) -> Seq<char> {
    "{\"level\":"@ + json_quoted(level.name()) + ",\"message\":"@ + json_quoted(message) + "}"@
}

impl Clone for WebSocketNotification {
    fn clone(&self) -> (r: Self)
        ensures
            r.event@ == self.event@,
            r.payload@ == self.payload@,
    {
        WebSocketNotification { event: self.event.clone(), payload: self.payload.clone() }
    }
}

impl WebSocketNotification {
    /// The event `event` with `payload`, or with `null` where there is none.
    pub fn new(event: String, payload: Option<JsonText>) -> (r: WebSocketNotification)
        ensures
            r.event@ == event@,
            r.payload@ == (match payload {
                Some(p) => p@,
                None => "null"@,
            }),
    {
        let payload = match payload {
            Some(p) => p,
            None => JsonText::null(),
        };
        WebSocketNotification { event, payload }
    }

    /// The event that carries `toast` to the front end.
    pub fn toast(toast: &Toast) -> (r: WebSocketNotification)
        ensures
            r.event@ == toast_event(),
            r.payload@ == toast_payload(toast.message@, toast.level),
    {
        let mut payload = String::from_str("{\"level\":");
        payload.append(json_quote(toast.level.as_str()).as_str());
        payload.append(",\"message\":");
        payload.append(json_quote(toast.message.as_str()).as_str());
        payload.append("}");
        WebSocketNotification {
            event: String::from_str("toast-notification"),
            payload: JsonText::new(payload),
        }
    }
}

/// Sends `notification` to the clients of the gateway.
///
/// While the gateway runs, the event is queued for every connection that
/// listens on the channel named like the event. While it does not, nothing
/// is queued and the answer is `Local`: the caller then emits the event
/// inside the process instead, so that it is not lost.
pub fn send_websocket(manager: &mut WebServerManager, notification: &WebSocketNotification) -> (r:
    Delivery)
    requires
        old(manager).wf(),
    ensures
        final(manager).wf(),
        final(manager).state() == old(manager).state(),
        final(manager).address() == old(manager).address(),
        final(manager).upcoming() == old(manager).upcoming(),
        r.answers(old(manager).state() is Running, old(manager).connections(), notification.event@),
        final(manager).connections() == (if old(manager).state() is Running {
            after_broadcast(
                old(manager).connections(),
                notification.event@,
                WsMessageView::Event {
                    channel: notification.event@,
                    payload: notification.payload@,
                },
            )
        } else {
            old(manager).connections()
        }),
{
    manager.send_event(notification.event.as_str(), notification.payload.clone())
}

} // verus!
