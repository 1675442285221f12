//! The session registry: which connection listens for which job.
//!
//! The registry maps a job identifier to the outbound sink of the one
//! connection that listens for it. It is changed and read through three
//! operations only: `add_session`, `remove_session` and `deliver`.
//! `update_progress` and `complete_process` publish a snapshot: they write
//! its wire message and deliver it.
//!
//! The registry never writes to a sink itself. A delivery hands back the sink
//! and the message, and the caller pushes the one into the other without
//! waiting; where nobody listens there is nothing to push.

use vstd::prelude::*;
use std::collections::HashMap;
use crate::job_id::JobId;
use crate::status::Status;
use crate::wire::{FileProgress, Snapshot, WsMessage, file_views, render_snapshot, snapshot_json};

verus! {

broadcast use vstd::std_specs::hash::group_hash_axioms;

/// The registry of live sessions, over sinks of type `S`.
pub struct FileProcessor<S> {
    sessions: HashMap<u128, S>,
}

/// A message on its way to the sink of the session it was published for.
pub struct Delivery<'a, S> {
    pub socket: &'a S,
    pub message: WsMessage,
}

/// Asks the registry to listen for `id` on `addr` from now on.
pub struct AddSession<S> {
    pub id: JobId,
    pub addr: S,
}

/// Asks the registry to forget the session of `id`.
pub struct RemoveSession {
    pub id: JobId,
}

/// Publishes the state of a job while it is being worked on.
pub struct UpdateProgress {
    pub id: JobId,
    pub status: Status,
    pub files: Vec<FileProgress>,
}

/// Publishes the state of a job once all its files are done.
pub struct CompleteProcess {
    pub id: JobId,
    pub status: Status,
    pub files: Vec<FileProgress>,
}

impl View for UpdateProgress {
    type V = Snapshot;

    open spec fn view(&self) -> Snapshot {
        Snapshot { id: self.id, files: file_views(self.files@), status: self.status }
    }
}

impl View for CompleteProcess {
    type V = Snapshot;

    open spec fn view(&self) -> Snapshot {
        Snapshot { id: self.id, files: file_views(self.files@), status: self.status }
    }
}

impl<S> View for FileProcessor<S> {
    type V = Map<JobId, S>;

    /// The sink registered for each job that has one.
    closed spec fn view(&self) -> Map<JobId, S> {
        Map::new(
            |id: JobId| self.sessions@.contains_key(id.0),
            |id: JobId| self.sessions@[id.0],
        )
    }
}

impl<S> FileProcessor<S> {
    /// A registry without sessions.
    pub fn new() -> (r: Self)
        ensures
            r@ == Map::<JobId, S>::empty(),
    {
        let r = FileProcessor { sessions: HashMap::new() };
        assert(r@ =~= Map::<JobId, S>::empty());
        r
    }

    /// Registers `addr` as the sink of `id`. A sink registered for `id`
    /// before is dropped from the registry without a word to it.
    pub fn add_session(&mut self, id: JobId, addr: S)
        ensures
            final(self)@ == old(self)@.insert(id, addr),
    {
        self.sessions.insert(id.0, addr);
        assert(self@ =~= old(self)@.insert(id, addr));
    }

    /// Forgets the session of `id`, if there is one.
    pub fn remove_session(&mut self, id: JobId)
        ensures
            final(self)@ == old(self)@.remove(id),
    {
        self.sessions.remove(&id.0);
        assert(self@ =~= old(self)@.remove(id));
    }

    /// Looks up the session of `id` and addresses `message` to its sink.
    /// Where `id` has no session the message is dropped.
    pub fn deliver(&self, id: JobId, message: WsMessage) -> (r: Option<Delivery<'_, S>>)
        ensures
            match r {
                Some(d) => self@.contains_key(id) && *d.socket == self@[id] && d.message
                    == message,
                None => !self@.contains_key(id),
            },
    {
        match self.sessions.get(&id.0) {
            Some(socket) => Some(Delivery { socket, message }),
            None => None,
        }
    }

    /// Publishes a snapshot of job `id`: writes its wire message and
    /// delivers it to the session of `id`, if there is one.
    pub fn update_progress(&self, id: JobId, files: Vec<FileProgress>, status: Status) -> (r:
        Option<Delivery<'_, S>>)
        ensures
            match r {
                Some(d) => self@.contains_key(id) && *d.socket == self@[id] && d.message.0@
                    == snapshot_json(Snapshot { id, files: file_views(files@), status }),
                None => !self@.contains_key(id),
            },
    {
        if self.sessions.contains_key(&id.0) {
            self.deliver(id, render_snapshot(id, &files, status))
        } else {
            None
        }
    }

    /// Publishes the closing snapshot of job `id`, as `update_progress` does.
    pub fn complete_process(&self, id: JobId, files: Vec<FileProgress>, status: Status) -> (r:
        Option<Delivery<'_, S>>)
        ensures
            match r {
                Some(d) => self@.contains_key(id) && *d.socket == self@[id] && d.message.0@
                    == snapshot_json(Snapshot { id, files: file_views(files@), status }),
                None => !self@.contains_key(id),
            },
    {
        self.update_progress(id, files, status)
    }

    /// Acts on a request to register a session.
    pub fn handle_add_session(&mut self, msg: AddSession<S>)
        ensures
            final(self)@ == old(self)@.insert(msg.id, msg.addr),
    {
        self.add_session(msg.id, msg.addr)
    }

    /// Acts on a request to forget a session.
    pub fn handle_remove_session(&mut self, msg: RemoveSession)
        ensures
            final(self)@ == old(self)@.remove(msg.id),
    {
        self.remove_session(msg.id)
    }

    /// Acts on a progress message: publishes the snapshot it carries.
    pub fn handle_update_progress(&self, msg: UpdateProgress) -> (r: Option<Delivery<'_, S>>)
        ensures
            match r {
                Some(d) => self@.contains_key(msg.id) && *d.socket == self@[msg.id]
                    && d.message.0@ == snapshot_json(msg@),
                None => !self@.contains_key(msg.id),
            },
    {
        self.update_progress(msg.id, msg.files, msg.status)
    }

    /// Acts on a completion message: publishes the snapshot it carries.
    pub fn handle_complete_process(&self, msg: CompleteProcess) -> (r: Option<Delivery<'_, S>>)
        ensures
            match r {
                Some(d) => self@.contains_key(msg.id) && *d.socket == self@[msg.id]
                    && d.message.0@ == snapshot_json(msg@),
                None => !self@.contains_key(msg.id),
            },
    {
        self.complete_process(msg.id, msg.files, msg.status)
    }
}

/// A job has at most one session, and a second registration under the same
/// identifier takes the place of the first at once: the registry is then what
/// it would be had the first never been made, so every later delivery for
/// that job goes to the second sink and none to the first.
pub proof fn lemma_second_registration_supersedes<S>(
    sessions: Map<JobId, S>,
    id: JobId,
    first: S,
    second: S,
)
    ensures
        sessions.insert(id, first).insert(id, second) == sessions.insert(id, second),
        sessions.insert(id, first).insert(id, second)[id] == second,
        forall|other: JobId|
            other != id ==> (#[trigger] sessions.insert(id, first).insert(
                id,
                second,
            ).contains_key(other) <==> sessions.contains_key(other)),
{
    assert(sessions.insert(id, first).insert(id, second) =~= sessions.insert(id, second));
}

/// Forgetting a session twice is forgetting it once, and forgetting a session
/// that does not exist changes nothing.
pub proof fn lemma_remove_session_idempotent<S>(sessions: Map<JobId, S>, id: JobId)
    ensures
        sessions.remove(id).remove(id) == sessions.remove(id),
        !sessions.contains_key(id) ==> sessions.remove(id) == sessions,
        !sessions.remove(id).contains_key(id),
{
    assert(sessions.remove(id).remove(id) =~= sessions.remove(id));
    if !sessions.contains_key(id) {
        assert(sessions.remove(id) =~= sessions);
    }
}

} // verus!
