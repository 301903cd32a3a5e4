//! The connection registry: every live connection with its outbound queue
//! and the channels it has subscribed to.
//!
//! The registry owns the queues. Whoever writes to the sockets takes what
//! waits for a connection out of its queue, in order, and closes the queue
//! when the socket no longer takes frames.

use vstd::prelude::*;
use vstd::string::*;
use crate::message::{WsMessage, WsMessageView};
use crate::text::text_eq;

verus! {

/// Why a message could not be queued for a connection.
#[derive(Clone, Copy, Debug, PartialEq, Eq, Structural)]
pub enum SendError {
    /// No connection is registered under the id.
    ConnectionNotFound,
    /// The connection's queue has been closed.
    SendFailed,
}

/// One live connection.
struct Connection {
    id: String,
    outbox: Vec<WsMessage>,
    open: bool,
    channels: Vec<String>,
}

/// The mathematical value of a connection: what waits in its queue, in
/// enqueue order, whether the queue still takes messages, and the channels it
/// listens on.
pub struct ConnectionView {
    pub outbox: Seq<WsMessageView>,
    pub open: bool,
    pub channels: Set<Seq<char>>,
}

impl ConnectionView {
    /// A connection right after its registration.
    pub open spec fn fresh() -> ConnectionView {
        ConnectionView { outbox: Seq::empty(), open: true, channels: Set::empty() }
    }

    /// The connection with `message` at the end of its queue.
    pub open spec fn enqueued(self, message: WsMessageView) -> ConnectionView {
        ConnectionView { outbox: self.outbox.push(message), ..self }
    }

    /// The connection with `channel` among its subscriptions.
    pub open spec fn subscribed(self, channel: Seq<char>) -> ConnectionView {
        ConnectionView { channels: self.channels.insert(channel), ..self }
    }

    /// The connection with an empty queue.
    pub open spec fn drained(self) -> ConnectionView {
        ConnectionView { outbox: Seq::empty(), ..self }
    }

    /// The connection with its queue closed.
    pub open spec fn closed(self) -> ConnectionView {
        ConnectionView { open: false, ..self }
    }

    /// Whether a broadcast on `channel` reaches the connection.
    pub open spec fn receives(self, channel: Seq<char>) -> bool {
        self.open && self.channels.contains(channel)
    }
}

/// The messages of a queue, each by its view.
pub open spec fn messages_view(messages: Seq<WsMessage>) -> Seq<WsMessageView> {
    messages.map_values(|m: WsMessage| m@)
}

/// The set of the names in a list.
pub open spec fn names(list: Seq<String>) -> Set<Seq<char>> {
    Set::new(|name: Seq<char>| exists|j: int| 0 <= j < list.len() && #[trigger] list[j]@ == name)
}

impl View for Connection {
    type V = ConnectionView;

    closed spec fn view(&self) -> ConnectionView {
        ConnectionView {
            outbox: messages_view(self.outbox@),
            open: self.open,
            channels: names(self.channels@),
        }
    }
}

spec fn distinct(conns: Seq<Connection>) -> bool {
    forall|i: int, j: int|
        0 <= i < conns.len() && 0 <= j < conns.len() && i != j ==> #[trigger] conns[i].id@
            != #[trigger] conns[j].id@
}

spec fn present(conns: Seq<Connection>, id: Seq<char>) -> bool {
    exists|i: int| 0 <= i < conns.len() && #[trigger] conns[i].id@ == id
}

spec fn slot(conns: Seq<Connection>, id: Seq<char>) -> int {
    choose|i: int| 0 <= i < conns.len() && #[trigger] conns[i].id@ == id
}

spec fn table(conns: Seq<Connection>) -> Map<Seq<char>, ConnectionView> {
    Map::new(|id: Seq<char>| present(conns, id), |id: Seq<char>| conns[slot(conns, id)]@)
}

proof fn lemma_lookup(conns: Seq<Connection>, i: int)
    requires
        distinct(conns),
        0 <= i < conns.len(),
    ensures
        present(conns, conns[i].id@),
        slot(conns, conns[i].id@) == i,
        table(conns).dom().contains(conns[i].id@),
        table(conns)[conns[i].id@] == conns[i]@,
{
    let id = conns[i].id@;
    assert(present(conns, id));
    let k = slot(conns, id);
    assert(0 <= k < conns.len() && conns[k].id@ == id);
    if k != i {
        assert(conns[k].id@ != conns[i].id@);
    }
}

proof fn lemma_push(conns: Seq<Connection>, c: Connection)
    requires
        distinct(conns),
        !present(conns, c.id@),
    ensures
        distinct(conns.push(c)),
        table(conns.push(c)) == table(conns).insert(c.id@, c@),
{
    let next = conns.push(c);
    assert forall|i: int, j: int| 0 <= i < next.len() && 0 <= j < next.len() && i != j implies #[trigger] next[i].id@
        != #[trigger] next[j].id@ by {
        if i < conns.len() && j < conns.len() {
            assert(conns[i].id@ != conns[j].id@);
        } else if i < conns.len() {
            assert(conns[i].id@ != c.id@);
        } else {
            assert(conns[j].id@ != c.id@);
        }
    }
    assert forall|id: Seq<char>| present(next, id) == (present(conns, id) || id == c.id@) by {
        if present(conns, id) {
            let k = slot(conns, id);
            assert(next[k].id@ == id);
        }
        if id == c.id@ {
            assert(next[conns.len() as int].id@ == id);
        }
        if present(next, id) {
            let k = slot(next, id);
            if k < conns.len() {
                assert(conns[k].id@ == id);
            }
        }
    }
    assert forall|id: Seq<char>| present(next, id) implies #[trigger] table(next)[id] == table(
        conns,
    ).insert(c.id@, c@)[id] by {
        let k = slot(next, id);
        lemma_lookup(next, k);
        if k < conns.len() {
            assert(conns[k].id@ == id);
            lemma_lookup(conns, k);
        }
    }
    assert(table(next) =~= table(conns).insert(c.id@, c@));
}

proof fn lemma_remove(conns: Seq<Connection>, i: int)
    requires
        distinct(conns),
        0 <= i < conns.len(),
    ensures
        distinct(conns.remove(i)),
        table(conns.remove(i)) == table(conns).remove(conns[i].id@),
{
    let next = conns.remove(i);
    let gone = conns[i].id@;
    assert forall|a: int| 0 <= a < next.len() implies #[trigger] next[a] == conns[if a < i {
        a
    } else {
        a + 1
    }] by {}
    assert forall|a: int, b: int| 0 <= a < next.len() && 0 <= b < next.len() && a != b implies #[trigger] next[a].id@
        != #[trigger] next[b].id@ by {
        let a0 = if a < i { a } else { a + 1 };
        let b0 = if b < i { b } else { b + 1 };
        assert(next[a] == conns[a0]);
        assert(next[b] == conns[b0]);
        assert(conns[a0].id@ != conns[b0].id@);
    }
    assert forall|id: Seq<char>| present(next, id) == (present(conns, id) && id != gone) by {
        if present(conns, id) && id != gone {
            let k = slot(conns, id);
            let k1 = if k < i { k } else { k - 1 };
            assert(next[k1] == conns[k]);
            assert(next[k1].id@ == id);
        }
        if present(next, id) {
            let k = slot(next, id);
            let k0 = if k < i { k } else { k + 1 };
            assert(next[k] == conns[k0]);
            assert(conns[k0].id@ == id);
            assert(conns[k0].id@ != conns[i].id@);
        }
    }
    assert forall|id: Seq<char>| present(next, id) implies #[trigger] table(next)[id] == table(
        conns,
    ).remove(gone)[id] by {
        let k = slot(next, id);
        lemma_lookup(next, k);
        let k0 = if k < i { k } else { k + 1 };
        assert(next[k] == conns[k0]);
        lemma_lookup(conns, k0);
    }
    assert(table(next) =~= table(conns).remove(gone));
}

proof fn lemma_update(conns: Seq<Connection>, i: int, c: Connection)
    requires
        distinct(conns),
        0 <= i < conns.len(),
        c.id@ == conns[i].id@,
    ensures
        distinct(conns.update(i, c)),
        table(conns.update(i, c)) == table(conns).insert(c.id@, c@),
{
    let next = conns.update(i, c);
    assert forall|a: int, b: int| 0 <= a < next.len() && 0 <= b < next.len() && a != b implies #[trigger] next[a].id@
        != #[trigger] next[b].id@ by {
        assert(next[a].id@ == conns[a].id@);
        assert(next[b].id@ == conns[b].id@);
    }
    assert forall|id: Seq<char>| present(next, id) == present(conns, id) by {
        if present(conns, id) {
            let k = slot(conns, id);
            assert(next[k].id@ == id);
        }
        if present(next, id) {
            let k = slot(next, id);
            assert(conns[k].id@ == id);
        }
    }
    lemma_lookup(conns, i);
    assert forall|id: Seq<char>| present(next, id) implies #[trigger] table(next)[id] == table(
        conns,
    ).insert(c.id@, c@)[id] by {
        let k = slot(next, id);
        lemma_lookup(next, k);
        assert(conns[k].id@ == id);
        lemma_lookup(conns, k);
    }
    assert(table(next) =~= table(conns).insert(c.id@, c@));
}

proof fn lemma_absent(conns: Seq<Connection>, id: Seq<char>)
    requires
        forall|i: int| 0 <= i < conns.len() ==> #[trigger] conns[i].id@ != id,
    ensures
        !present(conns, id),
        !table(conns).dom().contains(id),
{
}

/// That `reached` lists the ids of those among the first `upto` connections
/// that a broadcast on `channel` reaches, and no others.
spec fn lists_receivers(
    reached: Seq<String>,
    conns: Seq<Connection>,
    upto: int,
    channel: Seq<char>,
) -> bool {
    forall|id: Seq<char>|
        names(reached).contains(id) <==> exists|j: int|
            0 <= j < upto && #[trigger] conns[j].id@ == id && conns[j]@.receives(channel)
}

proof fn lemma_lists_one_more(
    listed: Seq<String>,
    reached: Seq<String>,
    conns: Seq<Connection>,
    i: int,
    channel: Seq<char>,
)
    requires
        0 <= i < conns.len(),
        lists_receivers(listed, conns, i, channel),
        conns[i]@.receives(channel) ==> reached == listed.push(reached.last())
            && reached.last()@ == conns[i].id@,
        !conns[i]@.receives(channel) ==> reached == listed,
    ensures
        lists_receivers(reached, conns, i + 1, channel),
{
    assert forall|id: Seq<char>| names(reached).contains(id) <==> exists|j: int|
        0 <= j < i + 1 && #[trigger] conns[j].id@ == id && conns[j]@.receives(channel) by {
        if names(reached).contains(id) {
            let k = choose|k: int| 0 <= k < reached.len() && #[trigger] reached[k]@ == id;
            if k < listed.len() {
                assert(listed[k]@ == id);
                assert(names(listed).contains(id));
            } else {
                assert(conns[i].id@ == id);
            }
        }
        if exists|j: int|
            0 <= j < i + 1 && #[trigger] conns[j].id@ == id && conns[j]@.receives(channel) {
            let j = choose|j: int|
                0 <= j < i + 1 && #[trigger] conns[j].id@ == id && conns[j]@.receives(channel);
            if j < i {
                assert(names(listed).contains(id));
                let k = choose|k: int| 0 <= k < listed.len() && #[trigger] listed[k]@ == id;
                assert(reached[k]@ == id);
            } else {
                assert(reached[reached.len() - 1]@ == id);
            }
        }
    }
}

proof fn lemma_lists_all(reached: Seq<String>, conns: Seq<Connection>, channel: Seq<char>)
    requires
        distinct(conns),
        lists_receivers(reached, conns, conns.len() as int, channel),
    ensures
        names(reached) == receivers(table(conns), channel),
{
    assert forall|id: Seq<char>| names(reached).contains(id) == receivers(
        table(conns),
        channel,
    ).contains(id) by {
        if names(reached).contains(id) {
            let j = choose|j: int|
                0 <= j < conns.len() && #[trigger] conns[j].id@ == id && conns[j]@.receives(
                    channel,
                );
            lemma_lookup(conns, j);
        }
        if receivers(table(conns), channel).contains(id) {
            let k = slot(conns, id);
            lemma_lookup(conns, k);
            assert(conns[k].id@ == id && conns[k]@.receives(channel));
        }
    }
    assert(names(reached) =~= receivers(table(conns), channel));
}

proof fn lemma_same_ids(before: Seq<Connection>, after: Seq<Connection>)
    requires
        distinct(before),
        after.len() == before.len(),
        forall|j: int| 0 <= j < before.len() ==> #[trigger] after[j].id@ == before[j].id@,
    ensures
        distinct(after),
        table(after).dom() == table(before).dom(),
        forall|j: int|
            0 <= j < before.len() ==> #[trigger] table(after)[before[j].id@] == after[j]@
                && table(before)[before[j].id@] == before[j]@,
{
    assert forall|a: int, b: int|
        0 <= a < after.len() && 0 <= b < after.len() && a != b implies #[trigger] after[a].id@
        != #[trigger] after[b].id@ by {
        assert(after[a].id@ == before[a].id@);
        assert(after[b].id@ == before[b].id@);
    }
    assert forall|id: Seq<char>| present(after, id) == present(before, id) by {
        if present(before, id) {
            let k = slot(before, id);
            assert(after[k].id@ == id);
        }
        if present(after, id) {
            let k = slot(after, id);
            assert(before[k].id@ == after[k].id@);
        }
    }
    assert(table(after).dom() =~= table(before).dom());
    assert forall|j: int| 0 <= j < before.len() implies #[trigger] table(after)[before[j].id@]
        == after[j]@ && table(before)[before[j].id@] == before[j]@ by {
        lemma_lookup(before, j);
        assert(after[j].id@ == before[j].id@);
        lemma_lookup(after, j);
    }
}

/// The registry of live connections.
pub struct ConnectionManager {
    connections: Vec<Connection>,
}

impl View for ConnectionManager {
    type V = Map<Seq<char>, ConnectionView>;

    closed spec fn view(&self) -> Map<Seq<char>, ConnectionView> {
        table(self.connections@)
    }
}

/// What `send_to` answers for the connection `id` of `table`.
pub open spec fn send_outcome(table: Map<Seq<char>, ConnectionView>, id: Seq<char>) -> Result<
    (),
    SendError,
> {
    if !table.dom().contains(id) {
        Err(SendError::ConnectionNotFound)
    } else if !table[id].open {
        Err(SendError::SendFailed)
    } else {
        Ok(())
    }
}

/// The registry after `send_to`: the message is at the end of the queue of
/// `id` where the connection takes it, and nothing else has changed.
pub open spec fn after_send(
    table: Map<Seq<char>, ConnectionView>,
    id: Seq<char>,
    message: WsMessageView,
) -> Map<Seq<char>, ConnectionView> {
    if send_outcome(table, id) is Ok {
        table.insert(id, table[id].enqueued(message))
    } else {
        table
    }
}

/// The registry after `subscribe`.
pub open spec fn after_subscribe(
    table: Map<Seq<char>, ConnectionView>,
    id: Seq<char>,
    channel: Seq<char>,
) -> Map<Seq<char>, ConnectionView> {
    if table.dom().contains(id) {
        table.insert(id, table[id].subscribed(channel))
    } else {
        table
    }
}

/// The registry after a broadcast on `channel`: every connection that
/// receives it has the message at the end of its queue, once, and every other
/// connection is as it was.
pub open spec fn after_broadcast(
    table: Map<Seq<char>, ConnectionView>,
    channel: Seq<char>,
    message: WsMessageView,
) -> Map<Seq<char>, ConnectionView> {
    Map::new(
        |id: Seq<char>| table.dom().contains(id),
        |id: Seq<char>|
            if table[id].receives(channel) {
                table[id].enqueued(message)
            } else {
                table[id]
            },
    )
}

/// The connections that a broadcast on `channel` reaches.
pub open spec fn receivers(table: Map<Seq<char>, ConnectionView>, channel: Seq<char>) -> Set<
    Seq<char>,
> {
    Set::new(|id: Seq<char>| table.dom().contains(id) && table[id].receives(channel))
}

fn has_name(list: &Vec<String>, name: &str) -> (r: bool)
    ensures
        r == names(list@).contains(name@),
{
    let mut i: usize = 0;
    while i < list.len()
        invariant
            0 <= i <= list.len(),
            forall|j: int| 0 <= j < i ==> #[trigger] list@[j]@ != name@,
        decreases list.len() - i,
    {
        if text_eq(list[i].as_str(), name) {
            return true;
        }
        i += 1;
    }
    false
}

impl ConnectionManager {
    /// That no id is registered twice.
    pub closed spec fn wf(&self) -> bool {
        distinct(self.connections@)
    }

    /// A registry without connections.
    pub fn new() -> (r: ConnectionManager)
        ensures
            r.wf(),
            r@ == Map::<Seq<char>, ConnectionView>::empty(),
    {
        let r = ConnectionManager { connections: Vec::new() };
        assert(r@ =~= Map::<Seq<char>, ConnectionView>::empty());
        r
    }

    fn position(&self, id: &str) -> (r: Option<usize>)
        requires
            self.wf(),
        ensures
            match r {
                Some(i) => i < self.connections@.len() && self.connections@[i as int].id@ == id@
                    && self@.dom().contains(id@) && self@[id@] == self.connections@[i as int]@,
                None => !self@.dom().contains(id@),
            },
    {
        let mut i: usize = 0;
        while i < self.connections.len()
            invariant
                self.wf(),
                0 <= i <= self.connections.len(),
                forall|j: int| 0 <= j < i ==> #[trigger] self.connections@[j].id@ != id@,
            decreases self.connections.len() - i,
        {
            if text_eq(self.connections[i].id.as_str(), id) {
                proof {
                    lemma_lookup(self.connections@, i as int);
                }
                return Some(i);
            }
            i += 1;
        }
        proof {
            lemma_absent(self.connections@, id@);
        }
        None
    }

    /// Whether a connection is registered under `id`.
    pub fn contains(&self, id: &str) -> (r: bool)
        requires
            self.wf(),
        ensures
            r == self@.dom().contains(id@),
    {
        self.position(id).is_some()
    }

    /// Registers a connection under `id`, with an empty queue and no
    /// subscriptions. An earlier connection under the same id is replaced.
    pub fn register(&mut self, id: String)
        requires
            old(self).wf(),
        ensures
            final(self).wf(),
            final(self)@ == old(self)@.insert(id@, ConnectionView::fresh()),
    {
        self.unregister(id.as_str());
        let conn = Connection { id, outbox: Vec::new(), open: true, channels: Vec::new() };
        proof {
            assert(conn@.outbox =~= Seq::empty());
            assert(conn@.channels =~= Set::empty());
            assert(!self@.dom().contains(id@));
            assert(!present(self.connections@, id@));
            lemma_push(self.connections@, conn);
            assert(old(self)@.remove(id@).insert(id@, conn@) =~= old(self)@.insert(id@, conn@));
        }
        self.connections.push(conn);
    }

    /// Removes the connection `id` with its queue and subscriptions. Nothing
    /// happens where no such connection is registered.
    pub fn unregister(&mut self, id: &str)
        requires
            old(self).wf(),
        ensures
            final(self).wf(),
            final(self)@ == old(self)@.remove(id@),
    {
        match self.position(id) {
            Some(i) => {
                proof {
                    lemma_remove(self.connections@, i as int);
                }
                let _ = self.connections.remove(i);
            },
            None => {
                assert(self@.remove(id@) =~= self@);
            },
        }
    }

    /// Adds `channel` to the subscriptions of `id`. Nothing happens where the
    /// connection is gone, or listens on the channel already.
    pub fn subscribe(&mut self, id: &str, channel: String)
        requires
            old(self).wf(),
        ensures
            final(self).wf(),
            final(self)@ == after_subscribe(old(self)@, id@, channel@),
    {
        match self.position(id) {
            Some(i) => {
                let ghost before = self.connections@;
                if !has_name(&self.connections[i].channels, channel.as_str()) {
                    self.connections[i].channels.push(channel);
                }
                proof {
                    let after = self.connections@;
                    assert(after =~= before.update(i as int, after[i as int]));
                    assert(after[i as int]@.channels =~= before[i as int]@.channels.insert(
                        channel@,
                    )) by {
                        let a = after[i as int].channels@;
                        let b = before[i as int].channels@;
                        assert forall|n: Seq<char>| names(a).contains(n) == (names(b).contains(n)
                            || n == channel@) by {
                            if names(b).contains(n) {
                                let j = choose|j: int| 0 <= j < b.len() && #[trigger] b[j]@ == n;
                                assert(a[j]@ == n);
                            }
                            if n == channel@ && !names(b).contains(n) {
                                assert(a[b.len() as int]@ == n);
                            }
                        }
                    }
                    lemma_update(before, i as int, after[i as int]);
                }
            },
            None => {},
        }
    }

    /// Whether the connection `id` listens on `channel`.
    pub fn is_subscribed(&self, id: &str, channel: &str) -> (r: bool)
        requires
            self.wf(),
        ensures
            r == (self@.dom().contains(id@) && self@[id@].channels.contains(channel@)),
    {
        match self.position(id) {
            Some(i) => has_name(&self.connections[i].channels, channel),
            None => false,
        }
    }

    /// Puts `message` at the end of the queue of `id`.
    pub fn send_to(&mut self, id: &str, message: WsMessage) -> (r: Result<(), SendError>)
        requires
            old(self).wf(),
        ensures
            final(self).wf(),
            r == send_outcome(old(self)@, id@),
            final(self)@ == after_send(old(self)@, id@, message@),
    {
        match self.position(id) {
            Some(i) => {
                if !self.connections[i].open {
                    return Err(SendError::SendFailed);
                }
                let ghost before = self.connections@;
                self.connections[i].outbox.push(message);
                proof {
                    let after = self.connections@;
                    assert(after =~= before.update(i as int, after[i as int]));
                    assert(after[i as int]@.outbox =~= before[i as int]@.outbox.push(message@));
                    lemma_update(before, i as int, after[i as int]);
                }
                Ok(())
            },
            None => Err(SendError::ConnectionNotFound),
        }
    }

    /// Queues a copy of `message` for every connection that listens on
    /// `channel` and still takes messages, and lists the connections it
    /// reached. Connections that do not listen or take no messages are passed
    /// over; no delivery is tried twice.
    pub fn broadcast_to_channel(&mut self, channel: &str, message: &WsMessage) -> (reached: Vec<
        String,
    >)
        requires
            old(self).wf(),
        ensures
            final(self).wf(),
            final(self)@ == after_broadcast(old(self)@, channel@, message@),
            names(reached@) == receivers(old(self)@, channel@),
    {
        let ghost before = self.connections@;
        let mut reached: Vec<String> = Vec::new();
        let mut i: usize = 0;
        while i < self.connections.len()
            invariant
                distinct(before),
                self.connections@.len() == before.len(),
                0 <= i <= before.len(),
                lists_receivers(reached@, before, i as int, channel@),
                forall|j: int|
                    0 <= j < before.len() ==> #[trigger] self.connections@[j].id@ == before[j].id@,
                forall|j: int|
                    0 <= j < i ==> #[trigger] self.connections@[j]@ == (if before[j]@.receives(
                        channel@,
                    ) {
                        before[j]@.enqueued(message@)
                    } else {
                        before[j]@
                    }),
                forall|j: int| i <= j < before.len() ==> #[trigger] self.connections@[j] == before[j],
            decreases before.len() - i,
        {
            let ghost now = self.connections@;
            let ghost listed = reached@;
            if self.connections[i].open && has_name(&self.connections[i].channels, channel) {
                let copy = message.clone();
                reached.push(self.connections[i].id.clone());
                self.connections[i].outbox.push(copy);
                proof {
                    let after = self.connections@;
                    assert(after =~= now.update(i as int, after[i as int]));
                    assert(after[i as int]@.outbox =~= before[i as int]@.outbox.push(message@));
                }
            }
            proof {
                if before[i as int]@.receives(channel@) {
                    assert(reached@ =~= listed.push(reached@.last()));
                }
                lemma_lists_one_more(listed, reached@, before, i as int, channel@);
            }
            i += 1;
        }
        proof {
            lemma_lists_all(reached@, before, channel@);
            lemma_same_ids(before, self.connections@);
            assert(table(self.connections@) =~= after_broadcast(
                table(before),
                channel@,
                message@,
            ));
        }
        reached
    }

    /// Takes the messages that wait for `id` out of its queue, in the order in
    /// which they were queued. An unknown id gives none.
    pub fn take_outbox(&mut self, id: &str) -> (r: Vec<WsMessage>)
        requires
            old(self).wf(),
        ensures
            final(self).wf(),
            messages_view(r@) == (if old(self)@.dom().contains(id@) {
                old(self)@[id@].outbox
            } else {
                Seq::empty()
            }),
            final(self)@ == (if old(self)@.dom().contains(id@) {
                old(self)@.insert(id@, old(self)@[id@].drained())
            } else {
                old(self)@
            }),
    {
        let mut out: Vec<WsMessage> = Vec::new();
        match self.position(id) {
            Some(i) => {
                let ghost before = self.connections@;
                std::mem::swap(&mut self.connections[i].outbox, &mut out);
                proof {
                    let after = self.connections@;
                    assert(after =~= before.update(i as int, after[i as int]));
                    assert(after[i as int]@.outbox =~= Seq::empty());
                    lemma_update(before, i as int, after[i as int]);
                }
            },
            None => {
                assert(messages_view(out@) =~= Seq::empty());
            },
        }
        out
    }

    /// Closes the queue of `id`: from now on `send_to` fails for it and
    /// broadcasts pass it over. An unknown id changes nothing.
    pub fn close(&mut self, id: &str)
        requires
            old(self).wf(),
        ensures
            final(self).wf(),
            final(self)@ == (if old(self)@.dom().contains(id@) {
                old(self)@.insert(id@, old(self)@[id@].closed())
            } else {
                old(self)@
            }),
    {
        match self.position(id) {
            Some(i) => {
                let ghost before = self.connections@;
                self.connections[i].open = false;
                proof {
                    let after = self.connections@;
                    assert(after =~= before.update(i as int, after[i as int]));
                    lemma_update(before, i as int, after[i as int]);
                }
            },
            None => {},
        }
    }

    /// Removes every connection.
    pub fn clear(&mut self)
        requires
            old(self).wf(),
        ensures
            final(self).wf(),
            final(self)@ == Map::<Seq<char>, ConnectionView>::empty(),
    {
        self.connections = Vec::new();
        assert(self@ =~= Map::<Seq<char>, ConnectionView>::empty());
    }

    /// The number of registered connections.
    pub fn connection_count(&self) -> (r: usize)
        requires
            self.wf(),
        ensures
            self@.dom().finite(),
            r == self@.dom().len(),
    {
        proof {
            let conns = self.connections@;
            let ids = conns.map_values(|c: Connection| c.id@);
            assert forall|i: int, j: int| 0 <= i < ids.len() && 0 <= j < ids.len() && i != j implies ids[i]
                != ids[j] by {
                assert(conns[i].id@ != conns[j].id@);
            }
            assert(ids.no_duplicates());
            ids.unique_seq_to_set();
            assert forall|id: Seq<char>| ids.to_set().contains(id) == present(conns, id) by {
                if ids.contains(id) {
                    let k = choose|k: int| 0 <= k < ids.len() && ids[k] == id;
                    assert(conns[k].id@ == id);
                }
                if present(conns, id) {
                    let k = slot(conns, id);
                    assert(ids[k] == id);
                }
            }
            assert(self@.dom() =~= ids.to_set());
            vstd::seq_lib::seq_to_set_is_finite(ids);
        }
        self.connections.len()
    }
}

/// A broadcast reaches exactly the connections that listen on the channel
/// and take messages at that moment: each of them finds one copy at the end
/// of its queue, every other connection is as it was, and no connection comes
/// or goes.
pub proof fn lemma_broadcast_reaches_subscribers(
    table: Map<Seq<char>, ConnectionView>,
    channel: Seq<char>,
    message: WsMessageView,
)
    ensures
        ({
            let reached = after_broadcast(table, channel, message);
            &&& reached.dom() == table.dom()
            &&& forall|id: Seq<char>|
                receivers(table, channel).contains(id) ==> #[trigger] reached[id]
                    == table[id].enqueued(message)
            &&& forall|id: Seq<char>|
                table.dom().contains(id) && !receivers(table, channel).contains(id)
                    ==> #[trigger] reached[id] == table[id]
        }),
{
    let reached = after_broadcast(table, channel, message);
    assert(reached.dom() =~= table.dom());
}

/// A connection that subscribes only after a broadcast finds nothing of it
/// in its queue: events are not replayed.
pub proof fn lemma_no_replay(
    table: Map<Seq<char>, ConnectionView>,
    id: Seq<char>,
    channel: Seq<char>,
    message: WsMessageView,
)
    requires
        table.dom().contains(id),
        !table[id].channels.contains(channel),
    ensures
        after_subscribe(after_broadcast(table, channel, message), id, channel)[id].outbox
            == table[id].outbox,
{
}

/// Unregistering is idempotent: a second removal of the same id, or the
/// removal of an id that is not registered, changes nothing.
pub proof fn lemma_unregister_idempotent(table: Map<Seq<char>, ConnectionView>, id: Seq<char>)
    ensures
        table.remove(id).remove(id) == table.remove(id),
        !table.dom().contains(id) ==> table.remove(id) == table,
        forall|other: Seq<char>|
            other != id && table.dom().contains(other) ==> #[trigger] table.remove(id)[other]
                == table[other],
{
    assert(table.remove(id).remove(id) =~= table.remove(id));
    if !table.dom().contains(id) {
        assert(table.remove(id) =~= table);
    }
}

/// After a connection is unregistered, a broadcast on a channel it had
/// listened on reaches the remaining subscribers as before and nothing is
/// queued for the one that left.
pub proof fn lemma_broadcast_after_unregister(
    table: Map<Seq<char>, ConnectionView>,
    gone: Seq<char>,
    channel: Seq<char>,
    message: WsMessageView,
)
    ensures
        after_broadcast(table.remove(gone), channel, message) == after_broadcast(
            table,
            channel,
            message,
        ).remove(gone),
{
    assert(after_broadcast(table.remove(gone), channel, message) =~= after_broadcast(
        table,
        channel,
        message,
    ).remove(gone));
}

/// What is sent to one connection waits in its queue in the order of
/// sending, behind what waited there before.
pub proof fn lemma_queue_keeps_order(
    table: Map<Seq<char>, ConnectionView>,
    id: Seq<char>,
    first: WsMessageView,
    second: WsMessageView,
)
    requires
        send_outcome(table, id) is Ok,
    ensures
        after_send(after_send(table, id, first), id, second)[id].outbox == table[id].outbox.push(
            first,
        ).push(second),
{
}

/// A subscription lasts: whatever is sent, subscribed or broadcast, and
/// whichever other connection comes or goes, a connection that a broadcast on
/// `channel` reaches is reached by the next one too. Only closing or
/// unregistering the connection itself, or registering its id anew, ends it.
pub proof fn lemma_subscription_lasts(
    table: Map<Seq<char>, ConnectionView>,
    id: Seq<char>,
    channel: Seq<char>,
    other: Seq<char>,
    other_channel: Seq<char>,
    message: WsMessageView,
)
    requires
        table.dom().contains(id),
        table[id].receives(channel),
    ensures
        receivers(after_send(table, other, message), channel).contains(id),
        receivers(after_subscribe(table, other, other_channel), channel).contains(id),
        receivers(after_broadcast(table, other_channel, message), channel).contains(id),
        other != id ==> receivers(table.remove(other), channel).contains(id),
        other != id ==> receivers(table.insert(other, ConnectionView::fresh()), channel).contains(
            id,
        ),
{
}

} // verus!
