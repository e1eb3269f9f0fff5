//! The event router: one unbounded sink per (session, handle), and a root
//! sink for events that concern a session as a whole.

use crate::fifo::{
    distinct_keys, has_key, index_of, lemma_index_unique, lookup, put, without, Entries,
};
use crate::japrotocol::JaResponse;
use vstd::prelude::*;

verus! {

/// The sinks of a router: for each (session, handle) the events delivered
/// and not yet received, oldest first.
pub type Sinks = Entries<(u64, u64), Seq<JaResponse>>;

/// The sinks after opening a fresh, empty sink for `key`. A sink already
/// open for `key` is replaced.
pub open spec fn opened(sinks: Sinks, key: (u64, u64)) -> Sinks {
    put(sinks, key, Seq::<JaResponse>::empty(), sinks.len() + 1)
}

/// The sinks after delivering `rsp` to `key`: it goes to the back of that
/// sink; without such a sink nothing changes.
pub open spec fn published(sinks: Sinks, key: (u64, u64), rsp: JaResponse) -> Sinks {
    if has_key(sinks, key) {
        let i = index_of(sinks, key);
        sinks.update(i, (key, sinks[i].1.push(rsp)))
    } else {
        sinks
    }
}

/// The sinks after the receiver of `key` took the oldest event.
pub open spec fn received(sinks: Sinks, key: (u64, u64)) -> Sinks {
    if has_key(sinks, key) && sinks[index_of(sinks, key)].1.len() > 0 {
        let i = index_of(sinks, key);
        sinks.update(i, (key, sinks[i].1.drop_first()))
    } else {
        sinks
    }
}

/// The oldest event waiting in the sink of `key`.
pub open spec fn oldest(sinks: Sinks, key: (u64, u64)) -> Option<JaResponse> {
    match lookup(sinks, key) {
        Some(waiting) if waiting.len() > 0 => Some(waiting[0]),
        _ => None,
    }
}

/// Whether some handle of `session_id` has a sink.
pub open spec fn has_session(sinks: Sinks, session_id: u64) -> bool {
    exists|i: int| 0 <= i < sinks.len() && (#[trigger] sinks[i]).0.0 == session_id
}

/// An event delivered to one handle reaches the sink of that handle, at the
/// back, and the sink of no other handle: every other sink holds what it
/// held before, and no sink is opened or closed.
pub proof fn lemma_published_reaches_only_target(
    sinks: Sinks,
    key: (u64, u64),
    rsp: JaResponse,
    other: (u64, u64),
)
    requires
        distinct_keys(sinks),
    ensures
        distinct_keys(published(sinks, key, rsp)),
        has_key(published(sinks, key, rsp), other) == has_key(sinks, other),
        other != key ==> lookup(published(sinks, key, rsp), other) == lookup(sinks, other),
        has_key(sinks, key) ==> lookup(published(sinks, key, rsp), key) == Some(
            lookup(sinks, key).unwrap().push(rsp),
        ),
{
    let after = published(sinks, key, rsp);
    if has_key(sinks, key) {
        let k = index_of(sinks, key);
        lemma_index_unique(after, key, k);
        if has_key(sinks, other) {
            let i = index_of(sinks, other);
            lemma_index_unique(after, other, i);
        }
    }
}

/// The sinks after telling every handle of a session of `rsp`: it goes to
/// the back of each sink of that session, and the sinks of other sessions
/// stay as they are.
pub open spec fn told(sinks: Sinks, session_id: u64, rsp: JaResponse) -> Sinks {
    Seq::new(
        sinks.len(),
        |i: int|
            if sinks[i].0.0 == session_id {
                (sinks[i].0, sinks[i].1.push(rsp))
            } else {
                sinks[i]
            },
    )
}

/// An event told to a session arrives at the back of the sink of every
/// handle of that session and in no sink of another session, and no sink
/// is opened or closed.
pub proof fn lemma_told_reaches_session(
    sinks: Sinks,
    session_id: u64,
    rsp: JaResponse,
    key: (u64, u64),
)
    requires
        distinct_keys(sinks),
    ensures
        distinct_keys(told(sinks, session_id, rsp)),
        has_key(told(sinks, session_id, rsp), key) == has_key(sinks, key),
        key.0 == session_id && has_key(sinks, key) ==> lookup(told(sinks, session_id, rsp), key)
            == Some(lookup(sinks, key).unwrap().push(rsp)),
        key.0 != session_id ==> lookup(told(sinks, session_id, rsp), key) == lookup(sinks, key),
{
    let after = told(sinks, session_id, rsp);
    assert forall|i: int| 0 <= i < after.len() implies (#[trigger] after[i]).0 == sinks[i].0 by {}
    if has_key(sinks, key) {
        let i = index_of(sinks, key);
        assert(after[i].0 == key);
        lemma_index_unique(after, key, i);
    }
    if has_key(after, key) {
        let i = index_of(after, key);
        assert(sinks[i].0 == key);
    }
}

/// The events among `events` that are meant for `handle_id`: those that
/// name it as their sender and those that name no sender at all, in their
/// order.
pub open spec fn meant_for(events: Seq<JaResponse>, handle_id: u64) -> Seq<JaResponse>
    decreases events.len(),
{
    if events.len() == 0 {
        Seq::<JaResponse>::empty()
    } else if events.last().sender == Some(handle_id) || events.last().sender is None {
        meant_for(events.drop_last(), handle_id).push(events.last())
    } else {
        meant_for(events.drop_last(), handle_id)
    }
}

/// The sinks after delivering the events of one session, one after the
/// other: an event that names a sender goes to the sink of that handle, and
/// an event that names none goes to the sink of every handle of the
/// session.
pub open spec fn fanned_out(sinks: Sinks, session_id: u64, events: Seq<JaResponse>) -> Sinks
    decreases events.len(),
{
    if events.len() == 0 {
        sinks
    } else {
        let before = fanned_out(sinks, session_id, events.drop_last());
        match events.last().sender {
            Some(handle_id) => published(before, (session_id, handle_id), events.last()),
            None => told(before, session_id, events.last()),
        }
    }
}

/// No event of a session is lost, and none reaches the sink of a handle
/// that another handle's event names: behind what waited in the sink of a
/// handle of that session arrive exactly the events that name the handle
/// as their sender or name no sender, in the order in which they came; the
/// sinks of other sessions hold what they held before; and no sink is
/// opened or closed.
pub proof fn lemma_fanned_out_by_sender(
    sinks: Sinks,
    session_id: u64,
    events: Seq<JaResponse>,
    key: (u64, u64),
)
    requires
        distinct_keys(sinks),
    ensures
        distinct_keys(fanned_out(sinks, session_id, events)),
        has_key(fanned_out(sinks, session_id, events), key) == has_key(sinks, key),
        key.0 == session_id && has_key(sinks, key) ==> lookup(
            fanned_out(sinks, session_id, events),
            key,
        ) == Some(lookup(sinks, key).unwrap() + meant_for(events, key.1)),
        key.0 != session_id ==> lookup(fanned_out(sinks, session_id, events), key) == lookup(
            sinks,
            key,
        ),
    decreases events.len(),
{
    if events.len() == 0 {
        if has_key(sinks, key) {
            assert(lookup(sinks, key).unwrap() + meant_for(events, key.1) =~= lookup(
                sinks,
                key,
            ).unwrap());
        }
    } else {
        let front = events.drop_last();
        let before = fanned_out(sinks, session_id, front);
        lemma_fanned_out_by_sender(sinks, session_id, front, key);
        match events.last().sender {
            Some(handle_id) => {
                lemma_published_reaches_only_target(
                    before,
                    (session_id, handle_id),
                    events.last(),
                    key,
                );
            },
            None => {
                lemma_told_reaches_session(before, session_id, events.last(), key);
            },
        }
        if key.0 == session_id && has_key(sinks, key) && (events.last().sender == Some(key.1)
            || events.last().sender is None) {
            assert((lookup(sinks, key).unwrap() + meant_for(front, key.1)).push(events.last())
                =~= lookup(sinks, key).unwrap() + meant_for(events, key.1));
        }
    }
}

struct Route {
    session_id: u64,
    handle_id: u64,
    queue: Vec<JaResponse>,
}

/// The router. It never blocks: every sink takes any number of events, and
/// a receiver that does not drain its sink lets it grow.
pub struct Router {
    root: Vec<JaResponse>,
    routes: Vec<Route>,
}

impl Router {
    /// The sinks, in the order in which they were opened.
    pub closed spec fn sinks(&self) -> Sinks {
        self.routes@.map_values(|r: Route| ((r.session_id, r.handle_id), r.queue@))
    }

    /// The events waiting in the root sink, oldest first.
    pub closed spec fn root(&self) -> Seq<JaResponse> {
        self.root@
    }

    /// What holds of every router: at most one sink per (session, handle).
    pub open spec fn wf(&self) -> bool {
        distinct_keys(self.sinks())
    }

    /// A router with an empty root sink and no other sink.
    pub fn new() -> (r: Self)
        ensures
            r.wf(),
            r.sinks() == Seq::<((u64, u64), Seq<JaResponse>)>::empty(),
            r.root() == Seq::<JaResponse>::empty(),
    {
        let r = Router { root: Vec::new(), routes: Vec::new() };
        r
    }

    fn position(&self, session_id: u64, handle_id: u64) -> (r: Option<usize>)
        requires
            self.wf(),
        ensures
            r is Some == has_key(self.sinks(), (session_id, handle_id)),
            r matches Some(i) ==> i == index_of(self.sinks(), (session_id, handle_id)) && i
                < self.sinks().len(),
    {
        let mut i: usize = 0;
        while i < self.routes.len()
            invariant
                self.wf(),
                i <= self.routes.len(),
                forall|j: int| 0 <= j < i ==> (#[trigger] self.sinks()[j]).0 != (session_id, handle_id),
            decreases self.routes.len() - i,
        {
            if self.routes[i].session_id == session_id && self.routes[i].handle_id == handle_id {
                proof {
                    lemma_index_unique(self.sinks(), (session_id, handle_id), i as int);
                }
                return Some(i);
            }
            i += 1;
        }
        None
    }

    /// Whether a sink is open for the handle.
    pub fn has_subroute(&self, session_id: u64, handle_id: u64) -> (r: bool)
        requires
            self.wf(),
        ensures
            r == has_key(self.sinks(), (session_id, handle_id)),
    {
        self.position(session_id, handle_id).is_some()
    }

    /// Opens a fresh sink for the handle. A sink already open for it is
    /// replaced, so that its old receiver sees no further event.
    pub fn add_subroute(&mut self, session_id: u64, handle_id: u64)
        requires
            old(self).wf(),
        ensures
            final(self).wf(),
            final(self).sinks() == opened(old(self).sinks(), (session_id, handle_id)),
            final(self).root() == old(self).root(),
    {
        let ghost before = self.sinks();
        let fresh = Route { session_id, handle_id, queue: Vec::new() };
        match self.position(session_id, handle_id) {
            Some(i) => {
                self.routes.set(i, fresh);
                assert(self.sinks() =~= before.update(
                    i as int,
                    ((session_id, handle_id), Seq::<JaResponse>::empty()),
                ));
            },
            None => {
                self.routes.push(fresh);
                assert(self.sinks() =~= before.push(
                    ((session_id, handle_id), Seq::<JaResponse>::empty()),
                ));
            },
        }
    }

    /// Closes the sink of the handle, dropping what waits in it. Returns
    /// whether there was one.
    pub fn remove_subroute(&mut self, session_id: u64, handle_id: u64) -> (was_open: bool)
        requires
            old(self).wf(),
        ensures
            final(self).wf(),
            final(self).sinks() == without(old(self).sinks(), (session_id, handle_id)),
            final(self).root() == old(self).root(),
            was_open == has_key(old(self).sinks(), (session_id, handle_id)),
    {
        let ghost before = self.sinks();
        match self.position(session_id, handle_id) {
            Some(i) => {
                self.routes.remove(i);
                assert(self.sinks() =~= before.remove(i as int));
                true
            },
            None => false,
        }
    }

    /// Delivers an event to the root sink.
    pub fn pub_root(&mut self, rsp: JaResponse)
        requires
            old(self).wf(),
        ensures
            final(self).wf(),
            final(self).root() == old(self).root().push(rsp),
            final(self).sinks() == old(self).sinks(),
    {
        self.root.push(rsp);
    }

    /// Delivers an event to the sink of the handle, behind what already
    /// waits there. Without such a sink the event is dropped. Returns
    /// whether it was delivered. No other sink changes.
    pub fn pub_subroute(&mut self, session_id: u64, handle_id: u64, rsp: JaResponse) -> (delivered:
        bool)
        requires
            old(self).wf(),
        ensures
            final(self).wf(),
            final(self).sinks() == published(old(self).sinks(), (session_id, handle_id), rsp),
            final(self).root() == old(self).root(),
            delivered == has_key(old(self).sinks(), (session_id, handle_id)),
    {
        let ghost before = self.sinks();
        match self.position(session_id, handle_id) {
            Some(i) => {
                let mut route = self.routes.remove(i);
                route.queue.push(rsp);
                self.routes.insert(i, route);
                assert(self.sinks() =~= before.update(
                    i as int,
                    ((session_id, handle_id), before[i as int].1.push(rsp)),
                ));
                true
            },
            None => false,
        }
    }

    /// Tells every handle of a session of an event: it goes to the back of
    /// each sink of that session. The sinks of other sessions and the root
    /// sink stay as they are.
    pub fn pub_session(&mut self, session_id: u64, rsp: JaResponse)
        requires
            old(self).wf(),
        ensures
            final(self).wf(),
            final(self).sinks() == told(old(self).sinks(), session_id, rsp),
            final(self).root() == old(self).root(),
    {
        let ghost before = self.sinks();
        let ghost after = told(before, session_id, rsp);
        let mut i: usize = 0;
        while i < self.routes.len()
            invariant
                i <= self.routes.len(),
                self.root() == old(self).root(),
                before == old(self).sinks(),
                after == told(before, session_id, rsp),
                self.sinks().len() == before.len(),
                forall|j: int| 0 <= j < i ==> #[trigger] self.sinks()[j] == after[j],
                forall|j: int| i <= j < before.len() ==> #[trigger] self.sinks()[j] == before[j],
            decreases self.routes.len() - i,
        {
            if self.routes[i].session_id == session_id {
                let ghost current = self.sinks();
                let mut route = self.routes.remove(i);
                route.queue.push(rsp.clone());
                self.routes.insert(i, route);
                assert(current[i as int] == before[i as int]);
                assert(after[i as int] == (before[i as int].0, before[i as int].1.push(rsp)));
                assert(self.sinks() =~= current.update(i as int, after[i as int]));
            }
            i += 1;
        }
        assert(self.sinks() =~= after);
        proof {
            assert forall|a: int, b: int| 0 <= a < b < after.len() implies (#[trigger] after[a]).0
                != (#[trigger] after[b]).0 by {
                assert(after[a].0 == before[a].0);
                assert(after[b].0 == before[b].0);
            }
        }
    }

    /// Delivers the events of one session, in their order: an event that
    /// names a sender goes to the sink of that handle, or nowhere if the
    /// handle has no sink; an event that names no sender goes to the sink
    /// of every handle of the session. The root sink stays as it is.
    pub fn pub_subroutes(&mut self, session_id: u64, events: &Vec<JaResponse>)
        requires
            old(self).wf(),
        ensures
            final(self).wf(),
            final(self).sinks() == fanned_out(old(self).sinks(), session_id, events@),
            final(self).root() == old(self).root(),
    {
        let mut i: usize = 0;
        while i < events.len()
            invariant
                i <= events.len(),
                self.wf(),
                self.root() == old(self).root(),
                self.sinks() == fanned_out(
                    old(self).sinks(),
                    session_id,
                    events@.subrange(0, i as int),
                ),
            decreases events.len() - i,
        {
            match events[i].sender {
                Some(handle_id) => {
                    self.pub_subroute(session_id, handle_id, events[i].clone());
                },
                None => {
                    self.pub_session(session_id, events[i].clone());
                },
            }
            proof {
                let next = events@.subrange(0, i + 1);
                assert(next.drop_last() =~= events@.subrange(0, i as int));
            }
            i += 1;
        }
        assert(events@.subrange(0, i as int) =~= events@);
    }

    /// Takes the oldest event out of the root sink.
    pub fn recv_root(&mut self) -> (r: Option<JaResponse>)
        requires
            old(self).wf(),
        ensures
            final(self).wf(),
            final(self).sinks() == old(self).sinks(),
            old(self).root().len() == 0 ==> r is None && final(self).root() == old(self).root(),
            old(self).root().len() > 0 ==> r == Some(old(self).root()[0]) && final(self).root()
                == old(self).root().drop_first(),
    {
        if self.root.len() == 0 {
            None
        } else {
            let rsp = self.root.remove(0);
            Some(rsp)
        }
    }

    /// Takes the oldest event out of the sink of the handle: events leave a
    /// sink in the order in which they were delivered.
    pub fn recv_subroute(&mut self, session_id: u64, handle_id: u64) -> (r: Option<JaResponse>)
        requires
            old(self).wf(),
        ensures
            final(self).wf(),
            final(self).root() == old(self).root(),
            r == oldest(old(self).sinks(), (session_id, handle_id)),
            final(self).sinks() == received(old(self).sinks(), (session_id, handle_id)),
    {
        let ghost before = self.sinks();
        match self.position(session_id, handle_id) {
            Some(i) => {
                if self.routes[i].queue.len() == 0 {
                    return None;
                }
                let mut route = self.routes.remove(i);
                let rsp = route.queue.remove(0);
                self.routes.insert(i, route);
                proof {
                    let after = self.sinks();
                    assert(after =~= before.update(
                        i as int,
                        ((session_id, handle_id), before[i as int].1.drop_first()),
                    ));
                }
                Some(rsp)
            },
            None => None,
        }
    }

    /// The sessions that have a sink, each once.
    pub fn sessions(&self) -> (r: Vec<u64>)
        requires
            self.wf(),
        ensures
            forall|id: u64| r@.contains(id) <==> has_session(self.sinks(), id),
            r@.no_duplicates(),
    {
        let mut found: Vec<u64> = Vec::new();
        let mut i: usize = 0;
        while i < self.routes.len()
            invariant
                i <= self.routes.len(),
                found@.no_duplicates(),
                forall|id: u64|
                    found@.contains(id) <==> exists|j: int|
                        0 <= j < i && (#[trigger] self.sinks()[j]).0.0 == id,
            decreases self.routes.len() - i,
        {
            let id = self.routes[i].session_id;
            let ghost prev = found@;
            let mut known = false;
            let mut k: usize = 0;
            while k < found.len()
                invariant
                    k <= found.len(),
                    found@ == prev,
                    known <==> exists|m: int| 0 <= m < k && found@[m] == id,
                decreases found.len() - k,
            {
                if found[k] == id {
                    known = true;
                }
                k += 1;
            }
            if !known {
                found.push(id);
                assert(found@[prev.len() as int] == id);
            }
            proof {
                assert(self.sinks()[i as int].0.0 == id);
                assert forall|x: u64| found@.contains(x) <==> exists|j: int|
                    0 <= j < i + 1 && (#[trigger] self.sinks()[j]).0.0 == x by {
                    assert(found@.contains(x) ==> prev.contains(x) || x == id);
                    if exists|j: int| 0 <= j < i + 1 && (#[trigger] self.sinks()[j]).0.0 == x {
                        let j = choose|j: int|
                            0 <= j < i + 1 && (#[trigger] self.sinks()[j]).0.0 == x;
                        if j < i {
                            assert(prev.contains(x));
                            let m = choose|m: int| 0 <= m < prev.len() && prev[m] == x;
                            assert(found@[m] == x);
                        }
                    }
                }
            }
            i += 1;
        }
        found
    }
}

} // verus!
