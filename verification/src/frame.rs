//! What travels on a live connection, and what a connection does about it.

use vstd::prelude::*;

verus! {

/// How often a connection probes its client, in time units.
pub const HEARTBEAT_INTERVAL: u64 = 5;

/// How long a client may stay silent before it is given up, in time units.
pub const CLIENT_TIMEOUT: u64 = 10;

/// How many ticks of the clock make one time unit. Every point in time that
/// a connection is told of is a count of ticks.
pub const TICKS_PER_UNIT: u64 = 1000;

/// Why a connection is being closed.
#[derive(Debug)]
pub struct CloseReason {
    pub code: u16,
    pub description: Option<String>,
}

/// One frame of a connection.
#[derive(Debug)]
pub enum Frame {
    Text(String),
    Binary(Vec<u8>),
    Continuation,
    Ping(Vec<u8>),
    Pong(Vec<u8>),
    Close(Option<CloseReason>),
    Nop,
}

/// A frame could not be read: the transport is broken.
#[derive(Clone, Copy, Debug, PartialEq, Eq, Structural)]
pub struct ProtocolError;

/// What a connection does in answer to an event: it may send one frame, and
/// it may stop. A connection that stops is closed and is not heard of again.
#[derive(Debug)]
pub struct Reaction {
    pub reply: Option<Frame>,
    pub stop: bool,
}

/// The ticks that have passed at `now` since `since`; none if `now` is
/// earlier.
pub open spec fn elapsed(since: u64, now: u64) -> nat {
    if now >= since {
        (now - since) as nat
    } else {
        0
    }
}

/// Whether a client last heard of at `since` is given up at `now`: more
/// than `CLIENT_TIMEOUT` time units have passed.
pub open spec fn timed_out(since: u64, now: u64) -> bool {
    elapsed(since, now) > CLIENT_TIMEOUT * TICKS_PER_UNIT
}

/// Whether a client last heard of at `since` is given up at `now`.
pub fn is_timed_out(since: u64, now: u64) -> (r: bool)
    ensures
        r == timed_out(since, now),
{
    now >= since && now - since > CLIENT_TIMEOUT * TICKS_PER_UNIT
}

impl Reaction {
    /// Nothing is sent and the connection goes on.
    pub fn nothing() -> (r: Reaction)
        ensures
            r.reply is None,
            !r.stop,
    {
        Reaction { reply: None, stop: false }
    }

    /// Nothing is sent and the connection stops.
    pub fn stop() -> (r: Reaction)
        ensures
            r.reply is None,
            r.stop,
    {
        Reaction { reply: None, stop: true }
    }

    /// `frame` is sent and the connection goes on.
    pub fn reply(frame: Frame) -> (r: Reaction)
        ensures
            r.reply == Some(frame),
            !r.stop,
    {
        Reaction { reply: Some(frame), stop: false }
    }
}

} // verus!
