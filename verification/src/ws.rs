//! The life of one connection that listens for a job.
//!
//! A connection is `Connecting` until its handshake is accepted, `Connected`
//! from then on, and `Disconnected` once it has stopped. It is probed every
//! `HEARTBEAT_INTERVAL`, and stops when its client has been silent for more
//! than `CLIENT_TIMEOUT`. When it stops, for whatever reason, its session is
//! taken out of the registry.
//!
//! Time is a count of ticks on a clock that the caller reads, `TICKS_PER_UNIT`
//! of them to the time unit.

use vstd::prelude::*;
use crate::frame::{Frame, ProtocolError, Reaction, is_timed_out, timed_out};
use crate::job_id::JobId;
use crate::processor::RemoveSession;
use crate::status::Status;
use crate::wire::{FileProgress, Snapshot, WsMessage, file_views, render_snapshot, snapshot_json};

verus! {

/// The bytes that a probe carries.
pub open spec fn probe_payload() -> Seq<u8> {
    seq![0x68u8, 0x69u8]
}

/// One connection and what it knows of its job.
#[derive(Debug)]
pub struct WsConn {
    pub id: JobId,
    pub files: Vec<FileProgress>,
    pub status: Status,
    /// When the connection was opened.
    pub connected_at: u64,
    /// When the client was last heard of.
    pub hb: u64,
}

impl WsConn {
    /// The snapshot that the connection shows of itself.
    pub open spec fn snapshot(&self) -> Snapshot {
        Snapshot { id: self.id, files: file_views(self.files@), status: self.status }
    }

    /// A connection for job `id` that is opened at the time `now`. It knows
    /// of no file and is not yet connected.
    pub fn new(id: JobId, now: u64) -> (r: WsConn)
        ensures
            r.id == id,
            r.files@.len() == 0,
            r.status == Status::Connecting,
            r.connected_at == now,
            r.hb == now,
    {
        WsConn { id, files: Vec::new(), status: Status::Connecting, connected_at: now, hb: now }
    }

    /// The wire message of the snapshot that the connection shows of itself.
    pub fn send_status(&self) -> (r: WsMessage)
        ensures
            r.0@ == snapshot_json(self.snapshot()),
    {
        render_snapshot(self.id, &self.files, self.status)
    }

    /// The handshake was accepted: a connection that was `Connecting` is now
    /// `Connected`, and greets its client with a snapshot of itself as proof
    /// of life. A connection in any other state stays as it is and has
    /// nothing to say: one that has stopped never comes back.
    pub fn started(&mut self) -> (r: Option<WsMessage>)
        ensures
            final(self).id == old(self).id,
            final(self).files == old(self).files,
            final(self).connected_at == old(self).connected_at,
            final(self).hb == old(self).hb,
            old(self).status.may_become(final(self).status),
            match r {
                Some(greeting) => {
                    &&& old(self).status == Status::Connecting
                    &&& final(self).status == Status::Connected
                    &&& greeting.0@ == snapshot_json(final(self).snapshot())
                },
                None => old(self).status != Status::Connecting && final(self).status == old(
                    self,
                ).status,
            },
    {
        match self.status {
            Status::Connecting => {
                self.status = Status::Connected;
                Some(self.send_status())
            },
            _ => None,
        }
    }

    /// The heartbeat is due at the time `now`: a client that has been silent
    /// for more than `CLIENT_TIMEOUT` is given up and the connection stops,
    /// any other client is probed.
    pub fn hb(&self, now: u64) -> (r: Reaction)
        ensures
            r.stop == timed_out(self.hb, now),
            r.stop ==> r.reply is None,
            !r.stop ==> (r.reply matches Some(Frame::Ping(payload)) && payload@
                == probe_payload()),
    {
        if is_timed_out(self.hb, now) {
            Reaction::stop()
        } else {
            let payload: Vec<u8> = vec![0x68u8, 0x69u8];
            assert(payload@ =~= probe_payload());
            Reaction::reply(Frame::Ping(payload))
        }
    }

    /// The connection stops: it is `Disconnected` for good, and asks the
    /// registry to forget its session.
    pub fn stopping(&mut self) -> (r: RemoveSession)
        ensures
            r.id == old(self).id,
            final(self).status == Status::Disconnected,
            final(self).id == old(self).id,
            final(self).files == old(self).files,
            final(self).connected_at == old(self).connected_at,
            final(self).hb == old(self).hb,
    {
        self.status = Status::Disconnected;
        RemoveSession { id: self.id }
    }

    /// A frame arrived from the client, or failed to, at the time `now`.
    ///
    /// A ping is answered by a pong with the same bytes, and like a pong it
    /// shows that the client is alive. Text and binary frames are sent back
    /// as they came. A close frame is answered in kind and stops the
    /// connection, and so do a continuation frame and a broken transport.
    pub fn handle(&mut self, msg: Result<Frame, ProtocolError>, now: u64) -> (r: Reaction)
        ensures
            final(self).id == old(self).id,
            final(self).files == old(self).files,
            final(self).status == old(self).status,
            final(self).connected_at == old(self).connected_at,
            final(self).hb == match msg {
                Ok(Frame::Ping(_)) => now,
                Ok(Frame::Pong(_)) => now,
                _ => old(self).hb,
            },
            match msg {
                Ok(Frame::Ping(payload)) => r.reply == Some(Frame::Pong(payload)) && !r.stop,
                Ok(Frame::Pong(_)) => r.reply is None && !r.stop,
                Ok(Frame::Binary(bytes)) => r.reply == Some(Frame::Binary(bytes)) && !r.stop,
                Ok(Frame::Close(reason)) => r.reply == Some(Frame::Close(reason)) && r.stop,
                Ok(Frame::Continuation) => r.reply is None && r.stop,
                Ok(Frame::Nop) => r.reply is None && !r.stop,
                Ok(Frame::Text(text)) => r.reply == Some(Frame::Text(text)) && !r.stop,
                Err(_) => r.reply is None && r.stop,
            },
    {
        match msg {
            Ok(Frame::Ping(payload)) => {
                self.hb = now;
                Reaction::reply(Frame::Pong(payload))
            },
            Ok(Frame::Pong(_)) => {
                self.hb = now;
                Reaction::nothing()
            },
            Ok(Frame::Binary(bytes)) => Reaction::reply(Frame::Binary(bytes)),
            Ok(Frame::Close(reason)) => Reaction { reply: Some(Frame::Close(reason)), stop: true },
            Ok(Frame::Continuation) => Reaction::stop(),
            Ok(Frame::Nop) => Reaction::nothing(),
            Ok(Frame::Text(text)) => Reaction::reply(Frame::Text(text)),
            Err(_) => Reaction::stop(),
        }
    }

    /// A message was delivered for the job of this connection: it goes to
    /// the client as a text frame.
    pub fn handle_message(&self, msg: WsMessage) -> (r: Frame)
        ensures
            r == Frame::Text(msg.0),
    {
        Frame::Text(msg.0)
    }
}

} // verus!
