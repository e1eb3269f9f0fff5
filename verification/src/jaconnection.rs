//! Sessions and handles as the caller sees them: cheap values that carry
//! their ids, and the connection's record of which of them are alive.

use crate::error::JaError;
use crate::fifo::{
    distinct_keys, has_key, index_of, lemma_index_unique, lookup, put, without, Entries,
};
use crate::handle_msg::{
    HandleMessage, HandleMessageWithEstablishment, HandleMessageWithEstablishmentAndTimeout,
    HandleMessageWithTimeout,
};
use crate::japrotocol::EstablishmentProtocol;
use std::time::Duration;
use vstd::prelude::*;

verus! {

/// A session: the id the server issued and the pace of its keep-alives.
#[derive(Debug, Clone, Copy, PartialEq, Eq, Structural)]
pub struct JaSession {
    pub id: u64,
    /// Seconds between two keep-alives.
    pub ka_interval: u32,
}

/// A handle: the id the server issued and the session it was issued in.
#[derive(Debug, Clone, Copy, PartialEq, Eq, Structural)]
pub struct JaHandle {
    pub session_id: u64,
    pub id: u64,
}

impl JaSession {
    /// What the keep-alive task of the session does after an attempt to
    /// send: it sleeps for the interval and sends again, unless the
    /// transport refused the send, in which case it ends. What the server
    /// answered plays no part.
    pub fn next_keep_alive(&self, sent: bool) -> (r: Option<u32>)
        ensures
            r == if sent {
                Some(self.ka_interval)
            } else {
                None::<u32>
            },
    {
        if sent {
            Some(self.ka_interval)
        } else {
            None
        }
    }
}

/// The live sessions of a connection, each with its handles.
pub type Sessions = Entries<u64, Seq<u64>>;

/// Whether the handle was attached to a session that is still alive.
pub open spec fn owns(sessions: Sessions, handle: JaHandle) -> bool {
    has_key(sessions, handle.session_id) && lookup(sessions, handle.session_id).unwrap().contains(
        handle.id,
    )
}

/// The sessions after attaching a handle to a live session.
pub open spec fn attached(sessions: Sessions, session_id: u64, handle_id: u64) -> Sessions {
    let handles = lookup(sessions, session_id).unwrap();
    put(
        sessions,
        session_id,
        if handles.contains(handle_id) {
            handles
        } else {
            handles.push(handle_id)
        },
        sessions.len() + 1,
    )
}

/// Destroying a session leaves every handle of it dangling, and every
/// other session with its handles as it was.
pub proof fn lemma_destroy_orphans(sessions: Sessions, session_id: u64, handle: JaHandle)
    requires
        distinct_keys(sessions),
    ensures
        handle.session_id == session_id ==> !owns(without(sessions, session_id), handle),
        handle.session_id != session_id ==> owns(without(sessions, session_id), handle) == owns(
            sessions,
            handle,
        ),
{
    if handle.session_id != session_id {
        crate::fifo::lemma_without_keeps_others(sessions, session_id, handle.session_id);
    }
}

struct SessionEntry {
    id: u64,
    handles: Vec<u64>,
}

/// What a connection knows about its sessions and handles.
pub struct JaConnection {
    sessions: Vec<SessionEntry>,
    open: bool,
}

impl JaConnection {
    /// The live sessions, each with its handles.
    pub closed spec fn sessions(&self) -> Sessions {
        self.sessions@.map_values(|e: SessionEntry| (e.id, e.handles@))
    }

    /// Whether the connection is open.
    pub closed spec fn is_open(&self) -> bool {
        self.open
    }

    /// What holds of every connection: no session is recorded twice, and a
    /// closed connection has no live session.
    pub open spec fn wf(&self) -> bool {
        distinct_keys(self.sessions()) && (!self.is_open() ==> self.sessions().len() == 0)
    }

    /// An open connection without sessions.
    pub fn new() -> (r: Self)
        ensures
            r.wf(),
            r.is_open(),
            r.sessions() == Seq::<(u64, Seq<u64>)>::empty(),
    {
        let r = JaConnection { sessions: Vec::new(), open: true };
        r
    }

    fn position(&self, session_id: u64) -> (r: Option<usize>)
        requires
            self.wf(),
        ensures
            r is Some == has_key(self.sessions(), session_id),
            r matches Some(i) ==> i == index_of(self.sessions(), session_id) && i
                < self.sessions().len(),
    {
        let mut i: usize = 0;
        while i < self.sessions.len()
            invariant
                self.wf(),
                i <= self.sessions.len(),
                forall|j: int| 0 <= j < i ==> (#[trigger] self.sessions()[j]).0 != session_id,
            decreases self.sessions.len() - i,
        {
            if self.sessions[i].id == session_id {
                proof {
                    lemma_index_unique(self.sessions(), session_id, i as int);
                }
                return Some(i);
            }
            i += 1;
        }
        None
    }

    /// Records the session the server opened. On a closed connection there
    /// is nothing to record it in.
    pub fn add_session(&mut self, id: u64, ka_interval: u32) -> (r: Result<JaSession, JaError>)
        requires
            old(self).wf(),
        ensures
            final(self).wf(),
            final(self).is_open() == old(self).is_open(),
            !old(self).is_open() ==> (r matches Err(JaError::TransportNotOpened))
                && final(self).sessions() == old(self).sessions(),
            old(self).is_open() ==> r == Ok::<JaSession, JaError>(JaSession { id, ka_interval })
                && final(self).sessions() == put(
                old(self).sessions(),
                id,
                Seq::<u64>::empty(),
                old(self).sessions().len() + 1,
            ),
    {
        if !self.open {
            return Err(JaError::TransportNotOpened);
        }
        let ghost before = self.sessions();
        let fresh = SessionEntry { id, handles: Vec::new() };
        match self.position(id) {
            Some(i) => {
                self.sessions.set(i, fresh);
                assert(self.sessions() =~= before.update(i as int, (id, Seq::<u64>::empty())));
            },
            None => {
                self.sessions.push(fresh);
                assert(self.sessions() =~= before.push((id, Seq::<u64>::empty())));
            },
        }
        Ok(JaSession { id, ka_interval })
    }

    /// Records the handle the server attached to a session. A session that
    /// is not alive cannot take it.
    pub fn add_handle(&mut self, session: &JaSession, handle_id: u64) -> (r: Result<
        JaHandle,
        JaError,
    >)
        requires
            old(self).wf(),
        ensures
            final(self).wf(),
            final(self).is_open() == old(self).is_open(),
            !old(self).is_open() ==> (r matches Err(JaError::TransportNotOpened))
                && final(self).sessions() == old(self).sessions(),
            old(self).is_open() && !has_key(old(self).sessions(), session.id) ==> (r matches Err(
                JaError::DanglingSession,
            )) && final(self).sessions() == old(self).sessions(),
            old(self).is_open() && has_key(old(self).sessions(), session.id) ==> r == Ok::<
                JaHandle,
                JaError,
            >(JaHandle { session_id: session.id, id: handle_id }) && final(self).sessions()
                == attached(old(self).sessions(), session.id, handle_id) && owns(
                final(self).sessions(),
                r.unwrap(),
            ),
    {
        if !self.open {
            return Err(JaError::TransportNotOpened);
        }
        let ghost before = self.sessions();
        match self.position(session.id) {
            None => Err(JaError::DanglingSession),
            Some(i) => {
                let mut entry = self.sessions.remove(i);
                let ghost handles = entry.handles@;
                if !contains(&entry.handles, handle_id) {
                    entry.handles.push(handle_id);
                }
                let ghost updated = entry.handles@;
                self.sessions.insert(i, entry);
                proof {
                    assert(updated.contains(handle_id)) by {
                        if !handles.contains(handle_id) {
                            assert(updated[handles.len() as int] == handle_id);
                        }
                    }
                    assert(self.sessions() =~= before.update(i as int, (session.id, updated)));
                    lemma_index_unique(self.sessions(), session.id, i as int);
                }
                Ok(JaHandle { session_id: session.id, id: handle_id })
            },
        }
    }

    /// Forgets a session that was destroyed, and with it all its handles.
    pub fn remove_session(&mut self, session: &JaSession) -> (r: Result<(), JaError>)
        requires
            old(self).wf(),
        ensures
            final(self).wf(),
            final(self).is_open() == old(self).is_open(),
            final(self).sessions() == without(old(self).sessions(), session.id),
            !old(self).is_open() ==> r matches Err(JaError::TransportNotOpened),
            old(self).is_open() && !has_key(old(self).sessions(), session.id) ==> r matches Err(
                JaError::DanglingSession,
            ),
            old(self).is_open() && has_key(old(self).sessions(), session.id) ==> r is Ok,
    {
        if !self.open {
            return Err(JaError::TransportNotOpened);
        }
        let ghost before = self.sessions();
        match self.position(session.id) {
            None => Err(JaError::DanglingSession),
            Some(i) => {
                self.sessions.remove(i);
                assert(self.sessions() =~= before.remove(i as int));
                Ok(())
            },
        }
    }

    /// Whether a session may be used: the connection is open and the
    /// session alive.
    pub fn check_session(&self, session: &JaSession) -> (r: Result<(), JaError>)
        requires
            self.wf(),
        ensures
            !self.is_open() ==> r matches Err(JaError::TransportNotOpened),
            self.is_open() && !has_key(self.sessions(), session.id) ==> r matches Err(
                JaError::DanglingSession,
            ),
            self.is_open() && has_key(self.sessions(), session.id) ==> r is Ok,
    {
        if !self.open {
            return Err(JaError::TransportNotOpened);
        }
        match self.position(session.id) {
            None => Err(JaError::DanglingSession),
            Some(_) => Ok(()),
        }
    }

    /// Whether a handle may be used: the connection is open, and the handle
    /// was attached to a session that is still alive.
    pub fn check_handle(&self, handle: &JaHandle) -> (r: Result<(), JaError>)
        requires
            self.wf(),
        ensures
            !self.is_open() ==> r matches Err(JaError::TransportNotOpened),
            self.is_open() && !owns(self.sessions(), *handle) ==> r matches Err(
                JaError::DanglingHandle,
            ),
            self.is_open() && owns(self.sessions(), *handle) ==> r is Ok,
    {
        if !self.open {
            return Err(JaError::TransportNotOpened);
        }
        match self.position(handle.session_id) {
            None => Err(JaError::DanglingHandle),
            Some(i) => {
                if contains(&self.sessions[i].handles, handle.id) {
                    Ok(())
                } else {
                    Err(JaError::DanglingHandle)
                }
            },
        }
    }

    /// The message a handle sends without waiting for any reply.
    pub fn message(&self, handle: &JaHandle, body: serde_json::Value) -> (r: Result<
        HandleMessage,
        JaError,
    >)
        requires
            self.wf(),
        ensures
            !self.is_open() ==> r matches Err(JaError::TransportNotOpened),
            self.is_open() && !owns(self.sessions(), *handle) ==> r matches Err(
                JaError::DanglingHandle,
            ),
            self.is_open() && owns(self.sessions(), *handle) ==> r == Ok::<HandleMessage, JaError>(
                HandleMessage { session_id: handle.session_id, handle_id: handle.id, body },
            ),
    {
        match self.check_handle(handle) {
            Err(e) => Err(e),
            Ok(_) => Ok(
                HandleMessage { session_id: handle.session_id, handle_id: handle.id, body },
            ),
        }
    }

    /// The message a handle sends when it waits for a reply up to a
    /// deadline.
    pub fn message_with_timeout(
        &self,
        handle: &JaHandle,
        body: serde_json::Value,
        timeout: Duration,
    ) -> (r: Result<HandleMessageWithTimeout, JaError>)
        requires
            self.wf(),
        ensures
            !self.is_open() ==> r matches Err(JaError::TransportNotOpened),
            self.is_open() && !owns(self.sessions(), *handle) ==> r matches Err(
                JaError::DanglingHandle,
            ),
            self.is_open() && owns(self.sessions(), *handle) ==> r == Ok::<
                HandleMessageWithTimeout,
                JaError,
            >(
                HandleMessageWithTimeout {
                    session_id: handle.session_id,
                    handle_id: handle.id,
                    body,
                    timeout,
                },
            ),
    {
        match self.check_handle(handle) {
            Err(e) => Err(e),
            Ok(_) => Ok(
                HandleMessageWithTimeout {
                    session_id: handle.session_id,
                    handle_id: handle.id,
                    body,
                    timeout,
                },
            ),
        }
    }

    /// The message with an establishment payload a handle sends without
    /// waiting for any reply.
    pub fn message_with_establishment(
        &self,
        handle: &JaHandle,
        body: serde_json::Value,
        protocol: EstablishmentProtocol,
    ) -> (r: Result<HandleMessageWithEstablishment, JaError>)
        requires
            self.wf(),
        ensures
            !self.is_open() ==> r matches Err(JaError::TransportNotOpened),
            self.is_open() && !owns(self.sessions(), *handle) ==> r matches Err(
                JaError::DanglingHandle,
            ),
            self.is_open() && owns(self.sessions(), *handle) ==> r == Ok::<
                HandleMessageWithEstablishment,
                JaError,
            >(
                HandleMessageWithEstablishment {
                    session_id: handle.session_id,
                    handle_id: handle.id,
                    body,
                    protocol,
                },
            ),
    {
        match self.check_handle(handle) {
            Err(e) => Err(e),
            Ok(_) => Ok(
                HandleMessageWithEstablishment {
                    session_id: handle.session_id,
                    handle_id: handle.id,
                    body,
                    protocol,
                },
            ),
        }
    }

    /// The message with an establishment payload a handle sends when it
    /// waits for a reply up to a deadline.
    pub fn message_with_establishment_and_timeout(
        &self,
        handle: &JaHandle,
        body: serde_json::Value,
        protocol: EstablishmentProtocol,
        timeout: Duration,
    ) -> (r: Result<HandleMessageWithEstablishmentAndTimeout, JaError>)
        requires
            self.wf(),
        ensures
            !self.is_open() ==> r matches Err(JaError::TransportNotOpened),
            self.is_open() && !owns(self.sessions(), *handle) ==> r matches Err(
                JaError::DanglingHandle,
            ),
            self.is_open() && owns(self.sessions(), *handle) ==> r == Ok::<
                HandleMessageWithEstablishmentAndTimeout,
                JaError,
            >(
                HandleMessageWithEstablishmentAndTimeout {
                    session_id: handle.session_id,
                    handle_id: handle.id,
                    body,
                    protocol,
                    timeout,
                },
            ),
    {
        match self.check_handle(handle) {
            Err(e) => Err(e),
            Ok(_) => Ok(
                HandleMessageWithEstablishmentAndTimeout {
                    session_id: handle.session_id,
                    handle_id: handle.id,
                    body,
                    protocol,
                    timeout,
                },
            ),
        }
    }

    /// Closes the connection: no session and no handle is alive afterwards.
    pub fn close(&mut self)
        requires
            old(self).wf(),
        ensures
            final(self).wf(),
            !final(self).is_open(),
            final(self).sessions() == Seq::<(u64, Seq<u64>)>::empty(),
    {
        self.open = false;
        self.sessions = Vec::new();
    }
}

fn contains(ids: &Vec<u64>, id: u64) -> (r: bool)
    ensures
        r == ids@.contains(id),
{
    let mut i: usize = 0;
    while i < ids.len()
        invariant
            i <= ids.len(),
            forall|j: int| 0 <= j < i ==> ids@[j] != id,
        decreases ids.len() - i,
    {
        if ids[i] == id {
            return true;
        }
        i += 1;
    }
    false
}

} // verus!
