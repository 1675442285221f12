//! The life of one session that is named by its server.
//!
//! Such a session asks the server for its name when it starts, tells the
//! server when it stops, and keeps its client alive in between. It has
//! nothing to say to what its client sends.

use vstd::prelude::*;
use crate::frame::{Frame, ProtocolError, Reaction, is_timed_out, timed_out};

verus! {

/// One session, under the name that its server gave it.
#[derive(Debug)]
pub struct WsSession {
    pub id: String,
    pub hb: u64,
}

/// Tells the server that the session of this name is over.
#[derive(Debug)]
pub struct Disconnect {
    pub id: String,
}

impl WsSession {
    /// A session that is opened at the time `now` and has no name yet.
    pub fn new(now: u64) -> (r: WsSession)
        ensures
            r.id@ == Seq::<char>::empty(),
            r.hb == now,
    {
        WsSession { id: String::new(), hb: now }
    }

    /// The heartbeat is due at the time `now`: a client that has been silent
    /// for more than `CLIENT_TIMEOUT` is given up and the session stops, any
    /// other client is probed with an empty ping.
    pub fn hb(&self, now: u64) -> (r: Reaction)
        ensures
            r.stop == timed_out(self.hb, now),
            r.stop ==> r.reply is None,
            !r.stop ==> (r.reply matches Some(Frame::Ping(payload)) && payload@.len() == 0),
    {
        if is_timed_out(self.hb, now) {
            Reaction::stop()
        } else {
            Reaction::reply(Frame::Ping(Vec::new()))
        }
    }

    /// The server has answered the request to connect: the session takes the
    /// name it was given and goes on, or stops if it was given none. Says
    /// whether the session stops.
    pub fn started(&mut self, answer: Option<String>) -> (stop: bool)
        ensures
            final(self).hb == old(self).hb,
            match answer {
                Some(name) => !stop && final(self).id == name,
                None => stop && final(self).id == old(self).id,
            },
    {
        match answer {
            Some(name) => {
                self.id = name;
                false
            },
            None => true,
        }
    }

    /// The session stops: the server is told so.
    pub fn stopping(&self) -> (r: Disconnect)
        ensures
            r.id@ == self.id@,
    {
        Disconnect { id: self.id.clone() }
    }

    /// A frame arrived from the client, or failed to, at the time `now`.
    ///
    /// A ping is answered by a pong with the same bytes, and like a pong it
    /// shows that the client is alive. Text and binary frames are passed
    /// over. A close frame is answered in kind and stops the session, and so
    /// do a continuation frame and a broken transport.
    pub fn handle(&mut self, msg: Result<Frame, ProtocolError>, now: u64) -> (r: Reaction)
        ensures
            final(self).id == old(self).id,
            final(self).hb == match msg {
                Ok(Frame::Ping(_)) => now,
                Ok(Frame::Pong(_)) => now,
                _ => old(self).hb,
            },
            match msg {
                Ok(Frame::Ping(payload)) => r.reply == Some(Frame::Pong(payload)) && !r.stop,
                Ok(Frame::Pong(_)) => r.reply is None && !r.stop,
                Ok(Frame::Text(_)) => r.reply is None && !r.stop,
                Ok(Frame::Binary(_)) => r.reply is None && !r.stop,
                Ok(Frame::Close(reason)) => r.reply == Some(Frame::Close(reason)) && r.stop,
                Ok(Frame::Continuation) => r.reply is None && r.stop,
                Ok(Frame::Nop) => r.reply is None && !r.stop,
                Err(_) => r.reply is None && r.stop,
            },
    {
        match msg {
            Ok(Frame::Ping(payload)) => {
                self.hb = now;
                Reaction::reply(Frame::Pong(payload))
            },
            Ok(Frame::Pong(_)) => {
                self.hb = now;
                Reaction::nothing()
            },
            Ok(Frame::Text(_)) => Reaction::nothing(),
            Ok(Frame::Binary(_)) => Reaction::nothing(),
            Ok(Frame::Close(reason)) => Reaction { reply: Some(Frame::Close(reason)), stop: true },
            Ok(Frame::Continuation) => Reaction::stop(),
            Ok(Frame::Nop) => Reaction::nothing(),
            Err(_) => Reaction::stop(),
        }
    }
}

} // verus!
