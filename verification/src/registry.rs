//! The handler registry: which methods can be called and which channels can
//! be listened on. It is filled before the gateway starts and only read
//! afterwards.

use vstd::prelude::*;
use vstd::string::*;
use crate::text::text_eq;

verus! {

/// Why a registration was turned down.
#[derive(Clone, Copy, Debug, PartialEq, Eq, Structural)]
pub enum RegistryError {
    /// A handler is registered under the method already.
    DuplicateMethod,
}

struct HandlerEntry<H> {
    method: String,
    handler: H,
}

/// Handlers by method name, and the names of the channels that exist.
///
/// `H` is whatever the application invokes for a call; the registry stores
/// and hands it out and never looks inside.
pub struct HandlerRegistry<H> {
    handlers: Vec<HandlerEntry<H>>,
    events: Vec<String>,
}

spec fn distinct<H>(entries: Seq<HandlerEntry<H>>) -> bool {
    forall|i: int, j: int|
        0 <= i < entries.len() && 0 <= j < entries.len() && i != j ==> #[trigger] entries[i].method@
            != #[trigger] entries[j].method@
}

spec fn present<H>(entries: Seq<HandlerEntry<H>>, method: Seq<char>) -> bool {
    exists|i: int| 0 <= i < entries.len() && #[trigger] entries[i].method@ == method
}

spec fn slot<H>(entries: Seq<HandlerEntry<H>>, method: Seq<char>) -> int {
    choose|i: int| 0 <= i < entries.len() && #[trigger] entries[i].method@ == method
}

spec fn table<H>(entries: Seq<HandlerEntry<H>>) -> Map<Seq<char>, H> {
    Map::new(
        |method: Seq<char>| present(entries, method),
        |method: Seq<char>| entries[slot(entries, method)].handler,
    )
}

spec fn name_set(list: Seq<String>) -> Set<Seq<char>> {
    Set::new(|name: Seq<char>| exists|j: int| 0 <= j < list.len() && #[trigger] list[j]@ == name)
}

proof fn lemma_lookup<H>(entries: Seq<HandlerEntry<H>>, i: int)
    requires
        distinct(entries),
        0 <= i < entries.len(),
    ensures
        table(entries).dom().contains(entries[i].method@),
        table(entries)[entries[i].method@] == entries[i].handler,
{
    let method = entries[i].method@;
    assert(present(entries, method));
    let k = slot(entries, method);
    if k != i {
        assert(entries[k].method@ != entries[i].method@);
    }
}

proof fn lemma_push<H>(entries: Seq<HandlerEntry<H>>, e: HandlerEntry<H>)
    requires
        distinct(entries),
        !present(entries, e.method@),
    ensures
        distinct(entries.push(e)),
        table(entries.push(e)) == table(entries).insert(e.method@, e.handler),
{
    let next = entries.push(e);
    assert forall|i: int, j: int|
        0 <= i < next.len() && 0 <= j < next.len() && i != j implies #[trigger] next[i].method@
        != #[trigger] next[j].method@ by {
        if i < entries.len() && j < entries.len() {
            assert(entries[i].method@ != entries[j].method@);
        } else if i < entries.len() {
            assert(entries[i].method@ != e.method@);
        } else {
            assert(entries[j].method@ != e.method@);
        }
    }
    assert forall|m: Seq<char>| present(next, m) == (present(entries, m) || m == e.method@) by {
        if present(entries, m) {
            let k = slot(entries, m);
            assert(next[k].method@ == m);
        }
        if m == e.method@ {
            assert(next[entries.len() as int].method@ == m);
        }
        if present(next, m) {
            let k = slot(next, m);
            if k < entries.len() {
                assert(entries[k].method@ == m);
            }
        }
    }
    assert forall|m: Seq<char>| present(next, m) implies #[trigger] table(next)[m] == table(
        entries,
    ).insert(e.method@, e.handler)[m] by {
        let k = slot(next, m);
        lemma_lookup(next, k);
        if k < entries.len() {
            assert(entries[k].method@ == m);
            lemma_lookup(entries, k);
        }
    }
    assert(table(next) =~= table(entries).insert(e.method@, e.handler));
}

impl<H> HandlerRegistry<H> {
    /// That no method is registered twice.
    pub closed spec fn wf(&self) -> bool {
        distinct(self.handlers@)
    }

    /// The handler of each registered method.
    pub closed spec fn methods(&self) -> Map<Seq<char>, H> {
        table(self.handlers@)
    }

    /// The channels that a connection may listen on.
    pub closed spec fn events(&self) -> Set<Seq<char>> {
        name_set(self.events@)
    }

    /// A registry without methods or channels.
    pub fn new() -> (r: HandlerRegistry<H>)
        ensures
            r.wf(),
            r.methods() == Map::<Seq<char>, H>::empty(),
            r.events() == Set::<Seq<char>>::empty(),
    {
        let r = HandlerRegistry { handlers: Vec::new(), events: Vec::new() };
        assert(r.methods() =~= Map::<Seq<char>, H>::empty());
        assert(r.events() =~= Set::<Seq<char>>::empty());
        r
    }

    fn position(&self, method: &str) -> (r: Option<usize>)
        requires
            self.wf(),
        ensures
            match r {
                Some(i) => i < self.handlers@.len() && self.handlers@[i as int].method@ == method@
                    && self.methods().dom().contains(method@) && self.methods()[method@]
                    == self.handlers@[i as int].handler,
                None => !present(self.handlers@, method@) && !self.methods().dom().contains(
                    method@,
                ),
            },
    {
        let mut i: usize = 0;
        while i < self.handlers.len()
            invariant
                self.wf(),
                0 <= i <= self.handlers.len(),
                forall|j: int| 0 <= j < i ==> #[trigger] self.handlers@[j].method@ != method@,
            decreases self.handlers.len() - i,
        {
            if text_eq(self.handlers[i].method.as_str(), method) {
                proof {
                    lemma_lookup(self.handlers@, i as int);
                }
                return Some(i);
            }
            i += 1;
        }
        None
    }

    /// Registers `handler` for `method`. A method that has a handler keeps
    /// it: the second registration is turned down and changes nothing.
    pub fn register_handler(&mut self, method: String, handler: H) -> (r: Result<
        (),
        RegistryError,
    >)
        requires
            old(self).wf(),
        ensures
            final(self).wf(),
            final(self).events() == old(self).events(),
            old(self).methods().dom().contains(method@) ==> r == Err::<(), RegistryError>(
                RegistryError::DuplicateMethod,
            ) && final(self).methods() == old(self).methods(),
            !old(self).methods().dom().contains(method@) ==> r == Ok::<(), RegistryError>(())
                && final(self).methods() == old(self).methods().insert(method@, handler),
    {
        match self.position(method.as_str()) {
            Some(_) => Err(RegistryError::DuplicateMethod),
            None => {
                let entry = HandlerEntry { method, handler };
                proof {
                    lemma_push(self.handlers@, entry);
                }
                self.handlers.push(entry);
                Ok(())
            },
        }
    }

    /// Marks `name` as a channel that connections may listen on.
    pub fn register_event(&mut self, name: String)
        requires
            old(self).wf(),
        ensures
            final(self).wf(),
            final(self).methods() == old(self).methods(),
            final(self).events() == old(self).events().insert(name@),
    {
        let ghost before = self.events@;
        self.events.push(name);
        proof {
            let after = self.events@;
            assert forall|n: Seq<char>| name_set(after).contains(n) == (name_set(before).contains(n)
                || n == name@) by {
                if name_set(before).contains(n) {
                    let j = choose|j: int| 0 <= j < before.len() && #[trigger] before[j]@ == n;
                    assert(after[j]@ == n);
                }
                if n == name@ {
                    assert(after[before.len() as int]@ == n);
                }
            }
            assert(name_set(after) =~= name_set(before).insert(name@));
        }
    }

    /// The handler registered for exactly `method`, if any.
    pub fn get(&self, method: &str) -> (r: Option<&H>)
        requires
            self.wf(),
        ensures
            match r {
                Some(handler) => self.methods().dom().contains(method@) && *handler
                    == self.methods()[method@],
                None => !self.methods().dom().contains(method@),
            },
    {
        match self.position(method) {
            Some(i) => Some(&self.handlers[i].handler),
            None => None,
        }
    }

    /// Whether a handler is registered for `method`.
    pub fn is_method_registered(&self, method: &str) -> (r: bool)
        requires
            self.wf(),
        ensures
            r == self.methods().dom().contains(method@),
    {
        self.position(method).is_some()
    }

    /// Whether `name` is a channel that connections may listen on.
    pub fn is_event_registered(&self, name: &str) -> (r: bool)
        requires
            self.wf(),
        ensures
            r == self.events().contains(name@),
    {
        let mut i: usize = 0;
        while i < self.events.len()
            invariant
                0 <= i <= self.events.len(),
                forall|j: int| 0 <= j < i ==> #[trigger] self.events@[j]@ != name@,
            decreases self.events.len() - i,
        {
            if text_eq(self.events[i].as_str(), name) {
                return true;
            }
            i += 1;
        }
        false
    }
}

} // verus!
