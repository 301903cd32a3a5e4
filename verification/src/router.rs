//! What the gateway does with each frame that a connection sends: calls are
//! looked up and answered, listens are checked and acknowledged, everything
//! else is passed over. The socket itself is the caller's business; these
//! functions decide and keep the registries.

use vstd::prelude::*;
use vstd::string::*;
use crate::connection::{
    after_broadcast, after_send, after_subscribe, messages_view, receivers, send_outcome,
    ConnectionManager, ConnectionView, SendError,
};
use crate::json::{json_quote, json_quoted};
use crate::message::{
    error_reply, parsed, payload_view, success_reply, CallBody, JsonText, ListenBody, WsMessage,
    WsMessageView,
};
use crate::registry::HandlerRegistry;
use crate::text::{decimal, decimal_string};

verus! {

/// The id of the `n`-th connection.
pub open spec fn connection_id(n: nat) -> Seq<char> {
    "conn-"@ + decimal(n)
}

/// The number after `n` in the count of connections: one more, and zero
/// again after the largest number that the counter holds.
pub open spec fn following(n: nat) -> nat {
    if n == u64::MAX {
        0
    } else {
        n + 1
    }
}

/// Hands out the ids of connections, counting up from zero.
pub struct ConnectionIds {
    next: u64,
}

impl ConnectionIds {
    /// The number that the next id is made of.
    pub closed spec fn upcoming(&self) -> nat {
        self.next as nat
    }

    /// A generator that starts at zero.
    pub fn new() -> (r: ConnectionIds)
        ensures
            r.upcoming() == 0,
    {
        ConnectionIds { next: 0 }
    }

    /// The next id. The count goes up by one and starts over past `u64::MAX`.
    pub fn next_id(&mut self) -> (r: String)
        ensures
            r@ == connection_id(old(self).upcoming()),
            final(self).upcoming() == following(old(self).upcoming()),
    {
        let mut id = String::from_str("conn-");
        id.append(decimal_string(self.next).as_str());
        self.next = if self.next == u64::MAX {
            0
        } else {
            self.next + 1
        };
        id
    }
}

/// A frame as it comes off the socket.
#[derive(Debug)]
pub enum SocketFrame {
    /// A text frame with its content.
    Text(String),
    /// The peer closes the connection.
    Close,
    /// Any other frame: binary data, ping, pong.
    Other,
}

/// A call whose handler runs: where the reply goes and what it answers.
#[derive(Debug)]
pub struct PendingCall {
    pub conn_id: String,
    pub id: String,
    pub method: String,
}

/// What became of a call.
pub enum CallOutcome<'a, H> {
    /// The method has a handler. The caller invokes it with `params` and
    /// hands the result to [`finish_call`] with `call`.
    Invoke { handler: &'a H, call: PendingCall, params: JsonText },
    /// The method has no handler; the error reply is on its way.
    UnknownMethod,
}

/// What became of a frame.
pub enum FrameOutcome<'a, H> {
    /// A call to a registered method, to be invoked as in [`CallOutcome`].
    Invoke { handler: &'a H, call: PendingCall, params: JsonText },
    /// A call to a method without handler; the error reply is queued.
    UnknownMethod,
    /// A listen on a registered channel; the connection is subscribed and the
    /// acknowledgement is queued.
    Subscribed,
    /// A listen on a channel that is not registered; the error reply is queued.
    UnregisteredChannel,
    /// A well-formed frame that only the gateway sends: a reply or an event.
    Unexpected,
    /// Text that is no frame of the protocol.
    Malformed,
    /// A frame without text.
    Skipped,
    /// The peer closed: the receive loop ends.
    Closed,
}

/// The text of the error for a call to a method without handler.
pub open spec fn unknown_method(method: Seq<char>) -> Seq<char> {
    "Unknown method: "@ + method
}

/// The id under which a listen on `channel` is answered.
pub open spec fn listen_id(channel: Seq<char>) -> Seq<char> {
    "listen-"@ + channel
}

/// The data of the acknowledgement of a listen on `channel`.
pub open spec fn listen_ack(channel: Seq<char>) -> Seq<char> {
    "{\"event\":"@ + json_quoted(channel) + ",\"subscribed\":true}"@
}

/// The text of the error for a listen on a channel that is not registered.
pub open spec fn unregistered_event(channel: Seq<char>) -> Seq<char> {
    "Event '"@ + channel + "' is not registered"@
}

/// The parameters that a handler is invoked with: `null` where the call has none.
pub open spec fn call_params(params: Option<Seq<char>>) -> Seq<char> {
    match params {
        Some(p) => p,
        None => "null"@,
    }
}

/// The reply to the call `id` of `method` whose handler gave `result`.
pub open spec fn reply_for(
    id: Seq<char>,
    method: Seq<char>,
    result: Result<Seq<char>, Seq<char>>,
) -> WsMessageView {
    match result {
        Ok(data) => success_reply(id, method, data),
        Err(error) => error_reply(id, method, error),
    }
}

/// The view of a handler's result.
pub open spec fn result_view(result: Result<JsonText, String>) -> Result<Seq<char>, Seq<char>> {
    match result {
        Ok(data) => Ok(data@),
        Err(error) => Err(error@),
    }
}

/// The connection registry after a call from `conn` has been looked up: a
/// registered method changes nothing yet, any other queues the error reply.
pub open spec fn after_call(
    table: Map<Seq<char>, ConnectionView>,
    methods: Set<Seq<char>>,
    conn: Seq<char>,
    id: Seq<char>,
    method: Seq<char>,
) -> Map<Seq<char>, ConnectionView> {
    if methods.contains(method) {
        table
    } else {
        after_send(table, conn, error_reply(id, method, unknown_method(method)))
    }
}

/// The connection registry after a listen from `conn`: on a registered
/// channel the connection is subscribed and the acknowledgement queued, on
/// any other only the error reply is queued.
pub open spec fn after_listen(
    table: Map<Seq<char>, ConnectionView>,
    events: Set<Seq<char>>,
    conn: Seq<char>,
    channel: Seq<char>,
) -> Map<Seq<char>, ConnectionView> {
    if events.contains(channel) {
        after_send(
            after_subscribe(table, conn, channel),
            conn,
            success_reply(listen_id(channel), "listen"@, listen_ack(channel)),
        )
    } else {
        after_send(
            table,
            conn,
            error_reply(listen_id(channel), "listen"@, unregistered_event(channel)),
        )
    }
}

/// The connection registry after a text frame from `conn`.
pub open spec fn after_text(
    table: Map<Seq<char>, ConnectionView>,
    methods: Set<Seq<char>>,
    events: Set<Seq<char>>,
    conn: Seq<char>,
    text: Seq<char>,
) -> Map<Seq<char>, ConnectionView> {
    match parsed(text) {
        Some(WsMessageView::Call { id, method, params }) => after_call(
            table,
            methods,
            conn,
            id,
            method,
        ),
        Some(WsMessageView::Listen { channel }) => after_listen(table, events, conn, channel),
        _ => table,
    }
}

impl<'a, H> CallOutcome<'a, H> {
    /// That the outcome is the one owed to the call `id` of `method` with
    /// `params` from `conn`, given the registered `methods`.
    pub open spec fn answers(
        self,
        methods: Map<Seq<char>, H>,
        conn: Seq<char>,
        id: Seq<char>,
        method: Seq<char>,
        params: Option<Seq<char>>,
    ) -> bool {
        match self {
            CallOutcome::Invoke { handler, call, params: given } => {
                &&& methods.dom().contains(method)
                &&& *handler == methods[method]
                &&& call.conn_id@ == conn
                &&& call.id@ == id
                &&& call.method@ == method
                &&& given@ == call_params(params)
            },
            CallOutcome::UnknownMethod => !methods.dom().contains(method),
        }
    }
}

impl<'a, H> FrameOutcome<'a, H> {
    /// That the outcome is the one owed to the text frame `text` from `conn`.
    pub open spec fn answers_text(
        self,
        methods: Map<Seq<char>, H>,
        events: Set<Seq<char>>,
        conn: Seq<char>,
        text: Seq<char>,
    ) -> bool {
        match parsed(text) {
            Some(WsMessageView::Call { id, method, params }) => {
                if methods.dom().contains(method) {
                    &&& self matches FrameOutcome::Invoke { handler, call, params: given }
                    &&& *handler == methods[method]
                    &&& call.conn_id@ == conn
                    &&& call.id@ == id
                    &&& call.method@ == method
                    &&& given@ == call_params(params)
                } else {
                    self is UnknownMethod
                }
            },
            Some(WsMessageView::Listen { channel }) => {
                if events.contains(channel) {
                    self is Subscribed
                } else {
                    self is UnregisteredChannel
                }
            },
            Some(_) => self is Unexpected,
            None => self is Malformed,
        }
    }
}

/// Looks up the handler of a call from the connection `conn_id`.
///
/// A registered method is handed back for the caller to invoke, and the
/// registry is left as it is. For any other method the error reply is queued
/// for the calling connection; should that connection be gone, nothing
/// happens.
pub fn handle_call<'a, H>(
    conn_id: &str,
    call: CallBody,
    registry: &'a HandlerRegistry<H>,
    conn_mgr: &mut ConnectionManager,
) -> (r: CallOutcome<'a, H>)
    requires
        registry.wf(),
        old(conn_mgr).wf(),
    ensures
        final(conn_mgr).wf(),
        final(conn_mgr)@ == after_call(
            old(conn_mgr)@,
            registry.methods().dom(),
            conn_id@,
            call.id@,
            call.method@,
        ),
        r.answers(registry.methods(), conn_id@, call.id@, call.method@, payload_view(call.params)),
{
    let CallBody { id, method, params } = call;
    match registry.get(method.as_str()) {
        Some(handler) => {
            let params = match params {
                Some(p) => p,
                None => JsonText::null(),
            };
            let call = PendingCall { conn_id: String::from_str(conn_id), id, method };
            CallOutcome::Invoke { handler, call, params }
        },
        None => {
            let mut error = String::from_str("Unknown method: ");
            error.append(method.as_str());
            let reply = WsMessage::reply_error(id, method, error);
            let _ = conn_mgr.send_to(conn_id, reply);
            CallOutcome::UnknownMethod
        },
    }
}

/// Queues the reply to a call whose handler has returned: its data on
/// success, its error text on failure, under the id and method of the call
/// and for the calling connection only.
pub fn finish_call(call: PendingCall, result: Result<JsonText, String>, conn_mgr: &mut ConnectionManager) -> (r:
    Result<(), SendError>)
    requires
        old(conn_mgr).wf(),
    ensures
        final(conn_mgr).wf(),
        r == send_outcome(old(conn_mgr)@, call.conn_id@),
        final(conn_mgr)@ == after_send(
            old(conn_mgr)@,
            call.conn_id@,
            reply_for(call.id@, call.method@, result_view(result)),
        ),
{
    let PendingCall { conn_id, id, method } = call;
    let reply = match result {
        Ok(data) => WsMessage::reply_success(id, method, data),
        Err(error) => WsMessage::reply_error(id, method, error),
    };
    conn_mgr.send_to(conn_id.as_str(), reply)
}

/// Answers a call from the connection `conn_id` in one go, for handlers that
/// return at once, and says whether the method has a handler.
///
/// The handler of the method is looked up, `invoke` runs it with the method
/// and its parameters, and the reply with its result is queued for the
/// caller. A method without handler is answered with the error reply, and
/// `invoke` does not run. A caller that is gone gets nothing, as in
/// [`handle_call`] and [`finish_call`].
pub fn handle_call_with<H, F>(
    conn_id: &str,
    call: CallBody,
    registry: &HandlerRegistry<H>,
    conn_mgr: &mut ConnectionManager,
    invoke: F,
) -> (r: bool) where F: FnOnce(&H, &str, &JsonText) -> Result<JsonText, String>
    requires
        registry.wf(),
        old(conn_mgr).wf(),
        forall|handler: &H, method: &str, params: &JsonText|
            call_requires(invoke, (handler, method, params)),
    ensures
        final(conn_mgr).wf(),
        r == registry.methods().dom().contains(call.method@),
        !r ==> final(conn_mgr)@ == after_send(
            old(conn_mgr)@,
            conn_id@,
            error_reply(call.id@, call.method@, unknown_method(call.method@)),
        ),
        r ==> exists|method: &str, params: &JsonText, result: Result<JsonText, String>|
            {
                &&& method@ == call.method@
                &&& params@ == call_params(payload_view(call.params))
                &&& call_ensures(
                    invoke,
                    (&registry.methods()[call.method@], method, params),
                    result,
                )
                &&& final(conn_mgr)@ == after_send(
                    old(conn_mgr)@,
                    conn_id@,
                    reply_for(call.id@, call.method@, result_view(result)),
                )
            },
{
    match handle_call(conn_id, call, registry, conn_mgr) {
        CallOutcome::Invoke { handler, call: pending, params } => {
            let method = pending.method.clone();
            let name = method.as_str();
            let passed = &params;
            let result = invoke(handler, name, passed);
            let ghost outcome = result;
            let _ = finish_call(pending, result, conn_mgr);
            proof {
                assert(call_ensures(
                    invoke,
                    (&registry.methods()[call.method@], name, passed),
                    outcome,
                ));
            }
            true
        },
        CallOutcome::UnknownMethod => false,
    }
}

/// Answers a listen from the connection `conn_id` and says whether the
/// channel is registered.
///
/// On a registered channel the connection is subscribed and the
/// acknowledgement queued. On any other channel no subscription is made and
/// the error reply is queued.
pub fn handle_listen<H>(
    conn_id: &str,
    listen: ListenBody,
    registry: &HandlerRegistry<H>,
    conn_mgr: &mut ConnectionManager,
) -> (r: bool)
    requires
        registry.wf(),
        old(conn_mgr).wf(),
    ensures
        final(conn_mgr).wf(),
        r == registry.events().contains(listen.channel@),
        final(conn_mgr)@ == after_listen(
            old(conn_mgr)@,
            registry.events(),
            conn_id@,
            listen.channel@,
        ),
{
    let channel = listen.channel;
    let mut id = String::from_str("listen-");
    id.append(channel.as_str());
    let method = String::from_str("listen");
    if registry.is_event_registered(channel.as_str()) {
        let mut ack = String::from_str("{\"event\":");
        ack.append(json_quote(channel.as_str()).as_str());
        ack.append(",\"subscribed\":true}");
        let reply = WsMessage::reply_success(id, method, JsonText::new(ack));
        conn_mgr.subscribe(conn_id, channel);
        let _ = conn_mgr.send_to(conn_id, reply);
        true
    } else {
        let mut error = String::from_str("Event '");
        error.append(channel.as_str());
        error.append("' is not registered");
        let reply = WsMessage::reply_error(id, method, error);
        let _ = conn_mgr.send_to(conn_id, reply);
        false
    }
}

/// Handles one frame that the connection `conn_id` has sent.
///
/// Text is read as a frame of the protocol: a call goes through
/// [`handle_call`], a listen through [`handle_listen`]; a reply, an event or
/// text that is no frame changes nothing and the connection stays open. A
/// close frame ends the connection's receive loop; other frames are skipped.
pub fn handle_frame<'a, H>(
    conn_id: &str,
    frame: SocketFrame,
    registry: &'a HandlerRegistry<H>,
    conn_mgr: &mut ConnectionManager,
) -> (r: FrameOutcome<'a, H>)
    requires
        registry.wf(),
        old(conn_mgr).wf(),
    ensures
        final(conn_mgr).wf(),
        match frame {
            SocketFrame::Text(text) => {
                &&& final(conn_mgr)@ == after_text(
                    old(conn_mgr)@,
                    registry.methods().dom(),
                    registry.events(),
                    conn_id@,
                    text@,
                )
                &&& r.answers_text(registry.methods(), registry.events(), conn_id@, text@)
            },
            SocketFrame::Close => final(conn_mgr)@ == old(conn_mgr)@ && r is Closed,
            SocketFrame::Other => final(conn_mgr)@ == old(conn_mgr)@ && r is Skipped,
        },
{
    match frame {
        SocketFrame::Text(text) => {
            match WsMessage::parse(text.as_str()) {
                Some(WsMessage::Call { body }) => {
                    match handle_call(conn_id, body, registry, conn_mgr) {
                        CallOutcome::Invoke { handler, call, params } => FrameOutcome::Invoke {
                            handler,
                            call,
                            params,
                        },
                        CallOutcome::UnknownMethod => FrameOutcome::UnknownMethod,
                    }
                },
                Some(WsMessage::Listen { body }) => {
                    if handle_listen(conn_id, body, registry, conn_mgr) {
                        FrameOutcome::Subscribed
                    } else {
                        FrameOutcome::UnregisteredChannel
                    }
                },
                Some(_) => FrameOutcome::Unexpected,
                None => FrameOutcome::Malformed,
            }
        },
        SocketFrame::Close => FrameOutcome::Closed,
        SocketFrame::Other => FrameOutcome::Skipped,
    }
}

/// Registers a new connection under the next id and hands the id out.
pub fn open_connection(ids: &mut ConnectionIds, conn_mgr: &mut ConnectionManager) -> (r: String)
    requires
        old(conn_mgr).wf(),
    ensures
        final(conn_mgr).wf(),
        r@ == connection_id(old(ids).upcoming()),
        final(ids).upcoming() == following(old(ids).upcoming()),
        final(conn_mgr)@ == old(conn_mgr)@.insert(r@, ConnectionView::fresh()),
{
    let id = ids.next_id();
    conn_mgr.register(id.clone());
    id
}

/// The frames that wait for the connection `conn_id`, as the text to write
/// to its socket, in the order in which they were queued. The queue is empty
/// afterwards.
pub fn drain_frames(conn_id: &str, conn_mgr: &mut ConnectionManager) -> (r: Vec<String>)
    requires
        old(conn_mgr).wf(),
    ensures
        final(conn_mgr).wf(),
        final(conn_mgr)@ == (if old(conn_mgr)@.dom().contains(conn_id@) {
            old(conn_mgr)@.insert(conn_id@, old(conn_mgr)@[conn_id@].drained())
        } else {
            old(conn_mgr)@
        }),
        r@.len() == (if old(conn_mgr)@.dom().contains(conn_id@) {
            old(conn_mgr)@[conn_id@].outbox.len()
        } else {
            0
        }),
        forall|i: int|
            0 <= i < r@.len() ==> #[trigger] r@[i]@ == old(conn_mgr)@[conn_id@].outbox[i].wire(),
{
    let messages = conn_mgr.take_outbox(conn_id);
    let ghost queued = messages_view(messages@);
    let mut frames: Vec<String> = Vec::new();
    let mut i: usize = 0;
    while i < messages.len()
        invariant
            0 <= i <= messages.len(),
            conn_mgr.wf(),
            conn_mgr@ == (if old(conn_mgr)@.dom().contains(conn_id@) {
                old(conn_mgr)@.insert(conn_id@, old(conn_mgr)@[conn_id@].drained())
            } else {
                old(conn_mgr)@
            }),
            queued == (if old(conn_mgr)@.dom().contains(conn_id@) {
                old(conn_mgr)@[conn_id@].outbox
            } else {
                Seq::empty()
            }),
            queued == messages_view(messages@),
            frames@.len() == i,
            forall|j: int| 0 <= j < i ==> #[trigger] frames@[j]@ == queued[j].wire(),
        decreases messages.len() - i,
    {
        assert(queued[i as int] == messages@[i as int]@);
        frames.push(messages[i].encode());
        i += 1;
    }
    assert(queued.len() == messages@.len());
    frames
}

/// A call to a registered method from a connection that takes messages is
/// answered exactly once: looking the method up changes nothing, and the
/// handler's result puts one reply with the call's id and method at the end
/// of the caller's queue, while every other connection stays as it was.
pub proof fn lemma_call_answered_once(
    table: Map<Seq<char>, ConnectionView>,
    methods: Set<Seq<char>>,
    conn: Seq<char>,
    id: Seq<char>,
    method: Seq<char>,
    result: Result<Seq<char>, Seq<char>>,
)
    requires
        methods.contains(method),
        send_outcome(table, conn) is Ok,
    ensures
        after_call(table, methods, conn, id, method) == table,
        reply_for(id, method, result) matches WsMessageView::Reply {
            id: reply_id,
            method: reply_method,
            ok,
            ..
        } && reply_id == id && reply_method == method && ok == (result is Ok),
        ({
            let answered = after_send(table, conn, reply_for(id, method, result));
            &&& answered.dom() == table.dom()
            &&& answered[conn].outbox == table[conn].outbox.push(reply_for(id, method, result))
            &&& answered[conn].channels == table[conn].channels
            &&& forall|other: Seq<char>|
                other != conn && table.dom().contains(other) ==> #[trigger] answered[other]
                    == table[other]
        }),
{
    let answered = after_send(table, conn, reply_for(id, method, result));
    assert(answered.dom() =~= table.dom());
}

/// A call to a method without handler is answered with the error
/// `Unknown method: ` and the method's name, under the call's id and method,
/// to the caller alone; no handler runs.
pub proof fn lemma_unknown_method_answered(
    table: Map<Seq<char>, ConnectionView>,
    methods: Set<Seq<char>>,
    conn: Seq<char>,
    id: Seq<char>,
    method: Seq<char>,
)
    requires
        !methods.contains(method),
        send_outcome(table, conn) is Ok,
    ensures
        ({
            let answered = after_call(table, methods, conn, id, method);
            &&& answered.dom() == table.dom()
            &&& answered[conn].outbox == table[conn].outbox.push(
                error_reply(id, method, unknown_method(method)),
            )
            &&& forall|other: Seq<char>|
                other != conn && table.dom().contains(other) ==> #[trigger] answered[other]
                    == table[other]
        }),
{
    let answered = after_call(table, methods, conn, id, method);
    assert(answered.dom() =~= table.dom());
}

/// A listen on a registered channel subscribes the connection and
/// acknowledges it: the channel is among the connection's subscriptions, one
/// successful reply is at the end of its queue, and from then on a broadcast
/// on the channel reaches it for as long as it takes messages and is not
/// unregistered.
pub proof fn lemma_listen_subscribes(
    table: Map<Seq<char>, ConnectionView>,
    events: Set<Seq<char>>,
    conn: Seq<char>,
    channel: Seq<char>,
    event: WsMessageView,
)
    requires
        events.contains(channel),
        send_outcome(table, conn) is Ok,
    ensures
        ({
            let listening = after_listen(table, events, conn, channel);
            let reached = after_broadcast(listening, channel, event);
            &&& listening.dom() == table.dom()
            &&& listening[conn].channels == table[conn].channels.insert(channel)
            &&& listening[conn].outbox == table[conn].outbox.push(
                success_reply(listen_id(channel), "listen"@, listen_ack(channel)),
            )
            &&& forall|other: Seq<char>|
                other != conn && table.dom().contains(other) ==> #[trigger] listening[other]
                    == table[other]
            &&& reached[conn].outbox == listening[conn].outbox.push(event)
            &&& receivers(listening, channel).contains(conn)
            &&& !after_broadcast(listening.remove(conn), channel, event).dom().contains(conn)
        }),
{
    let listening = after_listen(table, events, conn, channel);
    assert(listening.dom() =~= table.dom());
}

/// A listen on a channel that is not registered subscribes nobody: every
/// connection keeps its subscriptions, and the caller finds one error reply
/// at the end of its queue.
pub proof fn lemma_listen_refused(
    table: Map<Seq<char>, ConnectionView>,
    events: Set<Seq<char>>,
    conn: Seq<char>,
    channel: Seq<char>,
)
    requires
        !events.contains(channel),
    ensures
        ({
            let refused = after_listen(table, events, conn, channel);
            &&& refused.dom() == table.dom()
            &&& forall|any: Seq<char>|
                table.dom().contains(any) ==> #[trigger] refused[any].channels
                    == table[any].channels
            &&& forall|other: Seq<char>|
                other != conn && table.dom().contains(other) ==> #[trigger] refused[other]
                    == table[other]
            &&& send_outcome(table, conn) is Ok ==> refused[conn].outbox
                == table[conn].outbox.push(
                error_reply(listen_id(channel), "listen"@, unregistered_event(channel)),
            )
            &&& !(send_outcome(table, conn) is Ok) ==> refused == table
        }),
{
    let refused = after_listen(table, events, conn, channel);
    assert(refused.dom() =~= table.dom());
}

/// Whatever text a connection sends, no connection comes or goes, no
/// subscription is lost, so that whoever was reached by a broadcast on a
/// channel still is, and only the sender's queue and subscriptions can
/// change.
pub proof fn lemma_text_frame_is_local(
    table: Map<Seq<char>, ConnectionView>,
    methods: Set<Seq<char>>,
    events: Set<Seq<char>>,
    conn: Seq<char>,
    text: Seq<char>,
)
    ensures
        ({
            let next = after_text(table, methods, events, conn, text);
            &&& next.dom() == table.dom()
            &&& forall|other: Seq<char>|
                other != conn && table.dom().contains(other) ==> #[trigger] next[other]
                    == table[other]
            &&& table.dom().contains(conn) ==> table[conn].channels.subset_of(
                next[conn].channels,
            ) && next[conn].open == table[conn].open
            &&& forall|id: Seq<char>, channel: Seq<char>|
                receivers(table, channel).contains(id)
                    ==> #[trigger] receivers(next, channel).contains(id)
        }),
{
    let next = after_text(table, methods, events, conn, text);
    assert(next.dom() =~= table.dom());
}

/// Connections with different numbers have different ids: until the count
/// starts over, no id is handed out twice.
pub proof fn lemma_connection_ids_differ(a: nat, b: nat)
    requires
        connection_id(a) == connection_id(b),
    ensures
        a == b,
{
    let prefix = "conn-"@;
    assert(connection_id(a).skip(prefix.len() as int) =~= decimal(a));
    assert(connection_id(b).skip(prefix.len() as int) =~= decimal(b));
    crate::text::lemma_decimal_injective(a, b);
}

} // verus!
