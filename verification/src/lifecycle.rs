//! Start, stop and status of the gateway as a whole, and the gateway's state
//! while it runs: its connections and the ids it hands out.
//!
//! Binding the listener and stopping the tasks is the caller's work. Each of
//! the two is therefore taken in two steps: `begin_start` before the listener
//! is bound and `finish_start` with what binding gave, `begin_stop` before
//! the tasks are told to end and `finish_stop` once they have.

use vstd::prelude::*;
use vstd::string::*;
use crate::connection::{
    after_broadcast, after_send, names, receivers, send_outcome, ConnectionManager,
    ConnectionView, SendError,
};
use crate::message::{JsonText, WsMessage, WsMessageView};
use crate::text::text_view;
use crate::registry::HandlerRegistry;
use crate::router::{
    after_text, connection_id, drain_frames, finish_call, following, handle_frame,
    open_connection, reply_for, result_view, ConnectionIds, FrameOutcome, PendingCall,
    SocketFrame,
};

verus! {

/// Where the gateway stands between stopped and running.
#[derive(Clone, Copy, Debug, PartialEq, Eq, Structural)]
pub enum LifecycleState {
    Stopped,
    Starting,
    Running,
    Stopping,
}

/// What a misuse of `start` or `stop` is answered with.
#[derive(Clone, Copy, Debug, PartialEq, Eq, Structural)]
pub enum LifecycleError {
    /// A start while the gateway is not stopped.
    AlreadyRunning,
    /// A step that needs a start under way, without one.
    NotRunning,
    /// The listener could not be bound.
    BindError,
}

/// What `status` reports.
#[derive(Debug)]
pub struct WebServerStatus {
    pub running: bool,
    pub connection_count: usize,
    pub bound_address: Option<String>,
}

/// Where an event went.
#[derive(Debug, PartialEq, Eq)]
pub enum Delivery {
    /// The gateway runs: the event is queued for the channel's subscribers,
    /// whose ids are listed.
    Broadcast(Vec<String>),
    /// The gateway does not run: the caller notifies inside the process.
    Local,
}

impl Delivery {
    /// That the delivery is the one owed to an event on `channel` by a
    /// gateway that runs or not and has the connections `table`: a broadcast
    /// to exactly the connections that receive it, or the word to notify
    /// inside the process.
    pub open spec fn answers(
        self,
        running: bool,
        table: Map<Seq<char>, ConnectionView>,
        channel: Seq<char>,
    ) -> bool {
        match self {
            Delivery::Broadcast(reached) => running && names(reached@) == receivers(
                table,
                channel,
            ),
            Delivery::Local => !running,
        }
    }
}

/// The gateway: its place in the lifecycle, the address it is bound to, and
/// its connections.
pub struct WebServerManager {
    state: LifecycleState,
    address: Option<String>,
    connections: ConnectionManager,
    ids: ConnectionIds,
}

impl WebServerManager {
    /// Where the gateway stands.
    pub closed spec fn state(&self) -> LifecycleState {
        self.state
    }

    /// The address that the listener is bound to.
    pub closed spec fn address(&self) -> Option<Seq<char>> {
        text_view(self.address)
    }

    /// The live connections.
    pub closed spec fn connections(&self) -> Map<Seq<char>, ConnectionView> {
        self.connections@
    }

    /// The number that the next connection id is made of.
    pub closed spec fn upcoming(&self) -> nat {
        self.ids.upcoming()
    }

    /// That the connection registry is sound, that a gateway which is stopped
    /// or about to start has neither connections nor an address, and that one
    /// which runs or is about to stop has an address.
    pub closed spec fn wf(&self) -> bool {
        &&& self.connections.wf()
        &&& (self.state is Stopped || self.state is Starting) ==> self.connections@
            == Map::<Seq<char>, ConnectionView>::empty() && self.address is None
        &&& (self.state is Running || self.state is Stopping) ==> self.address is Some
    }

    /// A stopped gateway.
    pub fn new() -> (r: WebServerManager)
        ensures
            r.wf(),
            r.state() == LifecycleState::Stopped,
            r.address() == None::<Seq<char>>,
            r.connections() == Map::<Seq<char>, ConnectionView>::empty(),
            r.upcoming() == 0,
    {
        WebServerManager {
            state: LifecycleState::Stopped,
            address: None,
            connections: ConnectionManager::new(),
            ids: ConnectionIds::new(),
        }
    }

    /// The first step of a start. Only a stopped gateway starts; any other is
    /// answered with `AlreadyRunning` and left as it is.
    pub fn begin_start(&mut self) -> (r: Result<(), LifecycleError>)
        requires
            old(self).wf(),
        ensures
            final(self).wf(),
            final(self).connections() == old(self).connections(),
            final(self).address() == old(self).address(),
            final(self).upcoming() == old(self).upcoming(),
            old(self).state() is Stopped ==> r == Ok::<(), LifecycleError>(())
                && final(self).state() == LifecycleState::Starting,
            !(old(self).state() is Stopped) ==> r == Err::<(), LifecycleError>(
                LifecycleError::AlreadyRunning,
            ) && final(self).state() == old(self).state(),
    {
        match self.state {
            LifecycleState::Stopped => {
                self.state = LifecycleState::Starting;
                Ok(())
            },
            _ => Err(LifecycleError::AlreadyRunning),
        }
    }

    /// The second step of a start, with the address that the listener was
    /// bound to, or `None` where binding failed.
    ///
    /// With an address the gateway runs. Without one it is stopped again and
    /// the answer is `BindError`. Where no start is under way the answer is
    /// `NotRunning` and nothing changes.
    pub fn finish_start(&mut self, bound: Option<String>) -> (r: Result<
        WebServerStatus,
        LifecycleError,
    >)
        requires
            old(self).wf(),
        ensures
            final(self).wf(),
            final(self).connections() == old(self).connections(),
            final(self).upcoming() == old(self).upcoming(),
            match (old(self).state(), bound) {
                (LifecycleState::Starting, Some(address)) => {
                    &&& final(self).state() == LifecycleState::Running
                    &&& final(self).address() == Some(address@)
                    &&& r matches Ok(status)
                    &&& status.running
                    &&& status.connection_count == 0
                    &&& text_view(status.bound_address) == Some(address@)
                },
                (LifecycleState::Starting, None) => {
                    &&& final(self).state() == LifecycleState::Stopped
                    &&& final(self).address() == None::<Seq<char>>
                    &&& r matches Err(LifecycleError::BindError)
                },
                _ => {
                    &&& final(self).state() == old(self).state()
                    &&& final(self).address() == old(self).address()
                    &&& r matches Err(LifecycleError::NotRunning)
                },
            },
    {
        match self.state {
            LifecycleState::Starting => match bound {
                Some(address) => {
                    let status = WebServerStatus {
                        running: true,
                        connection_count: 0,
                        bound_address: Some(address.clone()),
                    };
                    self.address = Some(address);
                    self.state = LifecycleState::Running;
                    Ok(status)
                },
                None => {
                    self.state = LifecycleState::Stopped;
                    Err(LifecycleError::BindError)
                },
            },
            _ => Err(LifecycleError::NotRunning),
        }
    }

    /// The first step of a stop: says whether there is anything to stop. A
    /// running gateway is from now on stopping, and the caller tells its
    /// tasks to end; any other is left as it is.
    pub fn begin_stop(&mut self) -> (r: bool)
        requires
            old(self).wf(),
        ensures
            final(self).wf(),
            final(self).connections() == old(self).connections(),
            final(self).address() == old(self).address(),
            final(self).upcoming() == old(self).upcoming(),
            r == (old(self).state() is Running),
            final(self).state() == (if old(self).state() is Running {
                LifecycleState::Stopping
            } else {
                old(self).state()
            }),
    {
        match self.state {
            LifecycleState::Running => {
                self.state = LifecycleState::Stopping;
                true
            },
            _ => false,
        }
    }

    /// The second step of a stop, once the tasks have ended: the gateway is
    /// stopped, without connections or address. Where no stop is under way
    /// nothing changes.
    pub fn finish_stop(&mut self) -> (r: WebServerStatus)
        requires
            old(self).wf(),
        ensures
            final(self).wf(),
            final(self).upcoming() == old(self).upcoming(),
            old(self).state() is Stopping ==> {
                &&& final(self).state() == LifecycleState::Stopped
                &&& final(self).address() == None::<Seq<char>>
                &&& final(self).connections() == Map::<Seq<char>, ConnectionView>::empty()
            },
            !(old(self).state() is Stopping) ==> {
                &&& final(self).state() == old(self).state()
                &&& final(self).address() == old(self).address()
                &&& final(self).connections() == old(self).connections()
            },
            r.running == (final(self).state() is Running),
            r.connection_count == final(self).connections().dom().len(),
            text_view(r.bound_address) == final(self).address(),
    {
        match self.state {
            LifecycleState::Stopping => {
                self.connections.clear();
                self.address = None;
                self.state = LifecycleState::Stopped;
            },
            _ => {},
        }
        self.status()
    }

    /// Whether the gateway runs, how many connections it has, and where it
    /// is bound.
    pub fn status(&self) -> (r: WebServerStatus)
        requires
            self.wf(),
        ensures
            r.running == (self.state() is Running),
            self.connections().dom().finite(),
            r.connection_count == self.connections().dom().len(),
            text_view(r.bound_address) == self.address(),
    {
        WebServerStatus {
            running: self.is_running(),
            connection_count: self.connections.connection_count(),
            bound_address: self.address.clone(),
        }
    }

    /// A gateway that is stopped or about to start has no connections and no
    /// address; one that runs or is about to stop has an address.
    pub proof fn lemma_idle_gateway_is_empty(&self)
        requires
            self.wf(),
        ensures
            self.state() is Stopped || self.state() is Starting ==> self.connections()
                == Map::<Seq<char>, ConnectionView>::empty() && self.address() is None,
            self.state() is Running || self.state() is Stopping ==> self.address() is Some,
    {
    }

    /// Where the gateway stands.
    pub fn current_state(&self) -> (r: LifecycleState)
        ensures
            r == self.state(),
    {
        self.state
    }

    /// Whether the gateway runs.
    pub fn is_running(&self) -> (r: bool)
        ensures
            r == (self.state() is Running),
    {
        match self.state {
            LifecycleState::Running => true,
            _ => false,
        }
    }

    /// The connection registry of a running gateway; `None` of any other.
    pub fn get_connection_manager(&self) -> (r: Option<&ConnectionManager>)
        requires
            self.wf(),
        ensures
            r is Some == (self.state() is Running),
            r matches Some(manager) ==> manager.wf() && manager@ == self.connections(),
    {
        if self.is_running() {
            Some(&self.connections)
        } else {
            None
        }
    }

    /// Takes a new connection in: a running gateway registers it under the
    /// next id and hands the id out; any other takes none.
    pub fn accept(&mut self) -> (r: Option<String>)
        requires
            old(self).wf(),
        ensures
            final(self).wf(),
            final(self).state() == old(self).state(),
            final(self).address() == old(self).address(),
            match r {
                Some(id) => {
                    &&& old(self).state() is Running
                    &&& id@ == connection_id(old(self).upcoming())
                    &&& final(self).connections() == old(self).connections().insert(
                        id@,
                        ConnectionView::fresh(),
                    )
                    &&& final(self).upcoming() == following(old(self).upcoming())
                },
                None => {
                    &&& !(old(self).state() is Running)
                    &&& final(self).connections() == old(self).connections()
                    &&& final(self).upcoming() == old(self).upcoming()
                },
            },
    {
        if self.is_running() {
            Some(open_connection(&mut self.ids, &mut self.connections))
        } else {
            None
        }
    }

    /// Handles one frame from the connection `conn_id`, as
    /// [`handle_frame`](crate::router::handle_frame) does.
    pub fn receive<'a, H>(
        &mut self,
        conn_id: &str,
        frame: SocketFrame,
        registry: &'a HandlerRegistry<H>,
    ) -> (r: FrameOutcome<'a, H>)
        requires
            old(self).wf(),
            registry.wf(),
        ensures
            final(self).wf(),
            final(self).state() == old(self).state(),
            final(self).address() == old(self).address(),
            final(self).upcoming() == old(self).upcoming(),
            match frame {
                SocketFrame::Text(text) => {
                    &&& final(self).connections() == after_text(
                        old(self).connections(),
                        registry.methods().dom(),
                        registry.events(),
                        conn_id@,
                        text@,
                    )
                    &&& r.answers_text(registry.methods(), registry.events(), conn_id@, text@)
                },
                SocketFrame::Close => final(self).connections() == old(self).connections()
                    && r is Closed,
                SocketFrame::Other => final(self).connections() == old(self).connections()
                    && r is Skipped,
            },
    {
        handle_frame(conn_id, frame, registry, &mut self.connections)
    }

    /// Queues the reply to a call whose handler has returned, as
    /// [`finish_call`](crate::router::finish_call) does.
    pub fn finish_call(&mut self, call: PendingCall, result: Result<JsonText, String>) -> (r: Result<
        (),
        SendError,
    >)
        requires
            old(self).wf(),
        ensures
            final(self).wf(),
            final(self).state() == old(self).state(),
            final(self).address() == old(self).address(),
            final(self).upcoming() == old(self).upcoming(),
            r == send_outcome(old(self).connections(), call.conn_id@),
            final(self).connections() == after_send(
                old(self).connections(),
                call.conn_id@,
                reply_for(call.id@, call.method@, result_view(result)),
            ),
    {
        finish_call(call, result, &mut self.connections)
    }

    /// Takes the frames that wait for `conn_id` out of its queue, as the text
    /// to write to its socket, in enqueue order.
    pub fn drain(&mut self, conn_id: &str) -> (r: Vec<String>)
        requires
            old(self).wf(),
        ensures
            final(self).wf(),
            final(self).state() == old(self).state(),
            final(self).address() == old(self).address(),
            final(self).upcoming() == old(self).upcoming(),
            final(self).connections() == (if old(self).connections().dom().contains(conn_id@) {
                old(self).connections().insert(
                    conn_id@,
                    old(self).connections()[conn_id@].drained(),
                )
            } else {
                old(self).connections()
            }),
            r@.len() == (if old(self).connections().dom().contains(conn_id@) {
                old(self).connections()[conn_id@].outbox.len()
            } else {
                0
            }),
            forall|i: int|
                0 <= i < r@.len() ==> #[trigger] r@[i]@ == old(self).connections()[conn_id@].outbox[i].wire(),
    {
        drain_frames(conn_id, &mut self.connections)
    }

    /// Ends the connection `conn_id`: its entry, queue and subscriptions are
    /// gone. A connection that is gone already changes nothing.
    pub fn disconnect(&mut self, conn_id: &str)
        requires
            old(self).wf(),
        ensures
            final(self).wf(),
            final(self).state() == old(self).state(),
            final(self).address() == old(self).address(),
            final(self).upcoming() == old(self).upcoming(),
            final(self).connections() == old(self).connections().remove(conn_id@),
    {
        proof {
            assert(Map::<Seq<char>, ConnectionView>::empty().remove(conn_id@)
                =~= Map::<Seq<char>, ConnectionView>::empty());
        }
        self.connections.unregister(conn_id);
    }

    /// Sends an event to the subscribers of `channel`. A running gateway
    /// queues it for each of them; any other leaves it to the caller to
    /// notify inside the process, and says so.
    pub fn send_event(&mut self, channel: &str, payload: JsonText) -> (r: Delivery)
        requires
            old(self).wf(),
        ensures
            final(self).wf(),
            final(self).state() == old(self).state(),
            final(self).address() == old(self).address(),
            final(self).upcoming() == old(self).upcoming(),
            r.answers(old(self).state() is Running, old(self).connections(), channel@),
            final(self).connections() == (if old(self).state() is Running {
                after_broadcast(
                    old(self).connections(),
                    channel@,
                    WsMessageView::Event { channel: channel@, payload: payload@ },
                )
            } else {
                old(self).connections()
            }),
    {
        if self.is_running() {
            let message = WsMessage::event(String::from_str(channel), payload);
            Delivery::Broadcast(self.connections.broadcast_to_channel(channel, &message))
        } else {
            Delivery::Local
        }
    }

    /// Queues `message` for the connection `conn_id`, as
    /// [`ConnectionManager::send_to`] does.
    pub fn send_to(&mut self, conn_id: &str, message: WsMessage) -> (r: Result<(), SendError>)
        requires
            old(self).wf(),
        ensures
            final(self).wf(),
            final(self).state() == old(self).state(),
            final(self).address() == old(self).address(),
            final(self).upcoming() == old(self).upcoming(),
            r == send_outcome(old(self).connections(), conn_id@),
            final(self).connections() == after_send(old(self).connections(), conn_id@, message@),
    {
        self.connections.send_to(conn_id, message)
    }

    /// Queues a copy of `message` for every connection that listens on
    /// `channel` and takes messages, and lists the connections it reached, as
    /// [`ConnectionManager::broadcast_to_channel`] does.
    pub fn broadcast_to_channel(&mut self, channel: &str, message: &WsMessage) -> (reached: Vec<
        String,
    >)
        requires
            old(self).wf(),
        ensures
            final(self).wf(),
            final(self).state() == old(self).state(),
            final(self).address() == old(self).address(),
            final(self).upcoming() == old(self).upcoming(),
            final(self).connections() == after_broadcast(
                old(self).connections(),
                channel@,
                message@,
            ),
            names(reached@) == receivers(old(self).connections(), channel@),
    {
        proof {
            assert(after_broadcast(
                Map::<Seq<char>, ConnectionView>::empty(),
                channel@,
                message@,
            ) =~= Map::<Seq<char>, ConnectionView>::empty());
        }
        self.connections.broadcast_to_channel(channel, message)
    }

    /// Closes the queue of the connection `conn_id`, whose socket no longer
    /// takes frames: from now on nothing is queued for it.
    pub fn close(&mut self, conn_id: &str)
        requires
            old(self).wf(),
        ensures
            final(self).wf(),
            final(self).state() == old(self).state(),
            final(self).address() == old(self).address(),
            final(self).upcoming() == old(self).upcoming(),
            final(self).connections() == (if old(self).connections().dom().contains(conn_id@) {
                old(self).connections().insert(
                    conn_id@,
                    old(self).connections()[conn_id@].closed(),
                )
            } else {
                old(self).connections()
            }),
    {
        self.connections.close(conn_id);
    }
}

} // verus!
