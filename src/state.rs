use vstd::prelude::*;
use crate::codec::{RecvError, UserError};
use crate::frame::{Reason, CANCEL, PROTOCOL_ERROR};
use crate::proto::Error;

verus! {

/// How far one direction of an open stream has come.
#[derive(Debug, Clone, Copy, PartialEq, Eq, Structural)]
pub enum OpenPeer {
    /// No header block seen yet in this direction.
    AwaitingHeaders,
    /// A header block was seen; data may follow.
    Streaming,
}

/// The side held responsible for a reset.
#[derive(Debug, Clone, Copy, PartialEq, Eq, Structural)]
pub enum Peer {
    Local,
    Remote,
}

/// Why a stream was closed.
#[derive(Debug, Clone, Copy, PartialEq, Eq, Structural)]
pub enum Cause {
    /// Both directions ended with an end-of-stream flag.
    EndStream,
    /// A reset, by the given side, with its reason code.
    Proto(Peer, Reason),
    /// A transport failure.
    Io,
    /// The user dropped every handle to the stream without resetting it.
    /// The connection still owes the peer a reset frame once the send queue
    /// has been flushed.
    Canceled,
}

/// The shape of a stream's life cycle.
#[derive(Debug, Clone, Copy, PartialEq, Eq, Structural)]
pub enum Inner {
    Idle,
    ReservedRemote,
    Open { local: OpenPeer, remote: OpenPeer },
    /// The local side is done sending; the remote direction's progress.
    HalfClosedLocal(OpenPeer),
    /// The remote side is done sending; the local direction's progress.
    HalfClosedRemote(OpenPeer),
    Closed(Cause),
}

/// The state of one stream.
///
/// ```text
///                              +--------+
///                      send PP |        | recv PP
///                     ,--------|  idle  |--------.
///                    /         |        |         \
///                   v          +--------+          v
///            +----------+          |           +----------+
///            |          |          | send H /  |          |
///     ,------| reserved |          | recv H    | reserved |------.
///     |      | (local)  |          |           | (remote) |      |
///     |      +----------+          v           +----------+      |
///     |          |             +--------+             |          |
///     |          |     recv ES |        | send ES     |          |
///     |   send H |     ,-------|  open  |-------.     | recv H   |
///     |          |    /        |        |        \    |          |
///     |          v   v         +--------+         v   v          |
///     |      +----------+          |           +----------+      |
///     |      |   half   |          |           |   half   |      |
///     |      |  closed  |          | send R /  |  closed  |      |
///     |      | (remote) |          | recv R    | (local)  |      |
///     |      +----------+          |           +----------+      |
///     |           |                |                 |           |
///     |           | send ES /      |       recv ES / |           |
///     |           | send R /       v        send R / |           |
///     |           | recv R     +--------+   recv R   |           |
///     | send R /  `----------->|        |<-----------'  send R / |
///     | recv R                 | closed |               recv R   |
///     `----------------------->|        |<----------------------'
///                              +--------+
///
///        H:  HEADERS frame          PP: PUSH_PROMISE frame
///        ES: END_STREAM flag        R:  RST_STREAM frame
/// ```
///
/// The locally reserved state is not tracked.
#[derive(Debug, Clone, PartialEq, Eq, Structural)]
pub struct State {
    inner: Inner,
}

impl View for State {
    type V = Inner;

    closed spec fn view(&self) -> Inner {
        self.inner
    }
}

impl Inner {
    /// The shape after the local side sends a header block, or `None` where
    /// sending one is not allowed.
    pub open spec fn after_send_open(self, eos: bool) -> Option<Inner> {
        match self {
            Inner::Idle => Some(
                if eos {
                    Inner::HalfClosedLocal(OpenPeer::AwaitingHeaders)
                } else {
                    Inner::Open { local: OpenPeer::Streaming, remote: OpenPeer::AwaitingHeaders }
                },
            ),
            Inner::Open { local: OpenPeer::AwaitingHeaders, remote } => Some(
                if eos {
                    Inner::HalfClosedLocal(remote)
                } else {
                    Inner::Open { local: OpenPeer::Streaming, remote }
                },
            ),
            Inner::HalfClosedRemote(OpenPeer::AwaitingHeaders) => Some(
                if eos {
                    Inner::Closed(Cause::EndStream)
                } else {
                    Inner::HalfClosedRemote(OpenPeer::Streaming)
                },
            ),
            _ => None,
        }
    }

    /// The shape after a header block is received, or `None` where receiving
    /// one breaks the protocol.
    pub open spec fn after_recv_open(self, eos: bool) -> Option<Inner> {
        match self {
            Inner::Idle => Some(
                if eos {
                    Inner::HalfClosedRemote(OpenPeer::AwaitingHeaders)
                } else {
                    Inner::Open { local: OpenPeer::AwaitingHeaders, remote: OpenPeer::Streaming }
                },
            ),
            Inner::ReservedRemote => Some(
                if eos {
                    Inner::Closed(Cause::EndStream)
                } else {
                    Inner::Open { local: OpenPeer::AwaitingHeaders, remote: OpenPeer::Streaming }
                },
            ),
            Inner::Open { local, remote: OpenPeer::AwaitingHeaders } => Some(
                if eos {
                    Inner::HalfClosedRemote(local)
                } else {
                    Inner::Open { local, remote: OpenPeer::Streaming }
                },
            ),
            Inner::HalfClosedLocal(OpenPeer::AwaitingHeaders) => Some(
                if eos {
                    Inner::Closed(Cause::EndStream)
                } else {
                    Inner::HalfClosedLocal(OpenPeer::Streaming)
                },
            ),
            _ => None,
        }
    }

    /// Whether a received header block establishes the stream.
    pub open spec fn is_unopened(self) -> bool {
        self is Idle || self is ReservedRemote
    }

    /// The shape after the remote reserves the stream, or `None` where a
    /// reservation breaks the protocol.
    pub open spec fn after_reserve_remote(self) -> Option<Inner> {
        match self {
            Inner::Idle => Some(Inner::ReservedRemote),
            _ => None,
        }
    }

    /// The shape after the remote ends its direction, or `None` where that
    /// breaks the protocol.
    pub open spec fn after_recv_close(self) -> Option<Inner> {
        match self {
            Inner::Open { local, .. } => Some(Inner::HalfClosedRemote(local)),
            Inner::HalfClosedLocal(_) => Some(Inner::Closed(Cause::EndStream)),
            _ => None,
        }
    }

    /// The shape after the remote resets the stream: a closed stream keeps
    /// its cause.
    pub open spec fn after_recv_reset(self, reason: Reason) -> Inner {
        match self {
            Inner::Closed(_) => self,
            _ => Inner::Closed(Cause::Proto(Peer::Remote, reason)),
        }
    }

    /// The shape after a local fault on the stream: a closed stream keeps its
    /// cause.
    pub open spec fn after_recv_err(self, err: Error) -> Inner {
        match self {
            Inner::Closed(_) => self,
            _ => Inner::Closed(
                match err {
                    Error::Proto(reason) => Cause::Proto(Peer::Local, reason),
                    Error::Io => Cause::Io,
                },
            ),
        }
    }

    /// Whether the local send direction is open, so that it can be closed.
    pub open spec fn can_send_close(self) -> bool {
        self is Open || self is HalfClosedRemote
    }

    /// The shape after the local side ends its direction.
    pub open spec fn after_send_close(self) -> Inner
        recommends
            self.can_send_close(),
    {
        match self {
            Inner::Open { remote, .. } => Inner::HalfClosedLocal(remote),
            _ => Inner::Closed(Cause::EndStream),
        }
    }

    pub open spec fn is_canceled(self) -> bool {
        self matches Inner::Closed(Cause::Canceled)
    }

    pub open spec fn is_local_reset(self) -> bool {
        ||| self matches Inner::Closed(Cause::Proto(Peer::Local, _))
        ||| self matches Inner::Closed(Cause::Canceled)
    }

    pub open spec fn is_reset(self) -> bool {
        self is Closed && !(self matches Inner::Closed(Cause::EndStream))
    }

    pub open spec fn is_at_least_half_open(self) -> bool {
        self is Open || self is HalfClosedLocal || self is HalfClosedRemote
    }

    pub open spec fn is_send_streaming(self) -> bool {
        ||| self matches Inner::Open { local: OpenPeer::Streaming, .. }
        ||| self matches Inner::HalfClosedRemote(OpenPeer::Streaming)
    }

    pub open spec fn is_recv_headers(self) -> bool {
        ||| self is Idle
        ||| self is ReservedRemote
        ||| self matches Inner::Open { remote: OpenPeer::AwaitingHeaders, .. }
        ||| self matches Inner::HalfClosedLocal(OpenPeer::AwaitingHeaders)
    }

    pub open spec fn is_recv_streaming(self) -> bool {
        ||| self matches Inner::Open { remote: OpenPeer::Streaming, .. }
        ||| self matches Inner::HalfClosedLocal(OpenPeer::Streaming)
    }

    pub open spec fn is_closed(self) -> bool {
        self is Closed
    }

    pub open spec fn is_recv_closed(self) -> bool {
        self is Closed || self is HalfClosedRemote
    }

    pub open spec fn is_idle(self) -> bool {
        self is Idle
    }

    /// Whether more can be received: an error for a stream reset or failed,
    /// `false` once the remote direction ended cleanly, `true` otherwise.
    pub open spec fn recv_open_outcome(self) -> Result<bool, Error> {
        match self {
            Inner::Closed(Cause::Proto(_, reason)) => Err(Error::Proto(reason)),
            Inner::Closed(Cause::Canceled) => Err(Error::Proto(Reason { code: CANCEL })),
            Inner::Closed(Cause::Io) => Err(Error::Io),
            Inner::Closed(Cause::EndStream) => Ok(false),
            Inner::HalfClosedRemote(_) => Ok(false),
            _ => Ok(true),
        }
    }
}

impl State {
    /// Opens the send half of the stream when a header block is sent.
    pub fn send_open(&mut self, eos: bool) -> (r: Result<(), UserError>)
        ensures
            match old(self)@.after_send_open(eos) {
                Some(next) => r == Ok::<(), UserError>(()) && final(self)@ == next,
                None => r == Err::<(), UserError>(UserError::UnexpectedFrameType)
                    && final(self)@ == old(self)@,
            },
    {
        let local = OpenPeer::Streaming;

        self.inner = match self.inner {
            Inner::Idle => if eos {
                Inner::HalfClosedLocal(OpenPeer::AwaitingHeaders)
            } else {
                Inner::Open { local, remote: OpenPeer::AwaitingHeaders }
            },
            Inner::Open { local: OpenPeer::AwaitingHeaders, remote } => if eos {
                Inner::HalfClosedLocal(remote)
            } else {
                Inner::Open { local, remote }
            },
            Inner::HalfClosedRemote(OpenPeer::AwaitingHeaders) => if eos {
                Inner::Closed(Cause::EndStream)
            } else {
                Inner::HalfClosedRemote(local)
            },
            _ => {
                // Every other state rejects the header block.
                return Err(UserError::UnexpectedFrameType);
            },
        };

        Ok(())
    }

    /// Opens the receive half of the stream when a header block is received.
    ///
    /// Returns whether this established the stream.
    pub fn recv_open(&mut self, eos: bool) -> (r: Result<bool, RecvError>)
        ensures
            match old(self)@.after_recv_open(eos) {
                Some(next) => r == Ok::<bool, RecvError>(old(self)@.is_unopened())
                    && final(self)@ == next,
                None => r == Err::<bool, RecvError>(
                    RecvError::Connection(Reason { code: PROTOCOL_ERROR }),
                ) && final(self)@ == old(self)@,
            },
    {
        let remote = OpenPeer::Streaming;
        let mut initial = false;

        self.inner = match self.inner {
            Inner::Idle => {
                initial = true;

                if eos {
                    Inner::HalfClosedRemote(OpenPeer::AwaitingHeaders)
                } else {
                    Inner::Open { local: OpenPeer::AwaitingHeaders, remote }
                }
            },
            Inner::ReservedRemote => {
                initial = true;

                if eos {
                    Inner::Closed(Cause::EndStream)
                } else {
                    Inner::Open { local: OpenPeer::AwaitingHeaders, remote }
                }
            },
            Inner::Open { local, remote: OpenPeer::AwaitingHeaders } => if eos {
                Inner::HalfClosedRemote(local)
            } else {
                Inner::Open { local, remote }
            },
            Inner::HalfClosedLocal(OpenPeer::AwaitingHeaders) => if eos {
                Inner::Closed(Cause::EndStream)
            } else {
                Inner::HalfClosedLocal(remote)
            },
            _ => {
                // Every other state rejects the header block.
                return Err(RecvError::Connection(Reason { code: PROTOCOL_ERROR }));
            },
        };

        Ok(initial)
    }
    /// Moves an idle stream to reserved by the remote.
    pub fn reserve_remote(&mut self) -> (r: Result<(), RecvError>)
        ensures
            match old(self)@.after_reserve_remote() {
                Some(next) => r == Ok::<(), RecvError>(()) && final(self)@ == next,
                None => r == Err::<(), RecvError>(
                    RecvError::Connection(Reason { code: PROTOCOL_ERROR }),
                ) && final(self)@ == old(self)@,
            },
    {
        match self.inner {
            Inner::Idle => {
                self.inner = Inner::ReservedRemote;
                Ok(())
            },
            _ => Err(RecvError::Connection(Reason { code: PROTOCOL_ERROR })),
        }
    }

    /// Records that the remote side will send no more data.
    pub fn recv_close(&mut self) -> (r: Result<(), RecvError>)
        ensures
            match old(self)@.after_recv_close() {
                Some(next) => r == Ok::<(), RecvError>(()) && final(self)@ == next,
                None => r == Err::<(), RecvError>(
                    RecvError::Connection(Reason { code: PROTOCOL_ERROR }),
                ) && final(self)@ == old(self)@,
            },
    {
        match self.inner {
            Inner::Open { local, .. } => {
                // The local side may go on sending.
                self.inner = Inner::HalfClosedRemote(local);
                Ok(())
            },
            Inner::HalfClosedLocal(..) => {
                self.inner = Inner::Closed(Cause::EndStream);
                Ok(())
            },
            _ => Err(RecvError::Connection(Reason { code: PROTOCOL_ERROR })),
        }
    }

    /// Records a reset sent by the remote. A closed stream keeps its cause.
    pub fn recv_reset(&mut self, reason: Reason)
        ensures
            final(self)@ == old(self)@.after_recv_reset(reason),
    {
        match self.inner {
            Inner::Closed(..) => {},
            _ => {
                self.inner = Inner::Closed(Cause::Proto(Peer::Remote, reason));
            },
        }
    }

    /// Records a fault found locally while receiving. A closed stream keeps
    /// its cause.
    pub fn recv_err(&mut self, err: &Error)
        ensures
            final(self)@ == old(self)@.after_recv_err(*err),
    {
        match self.inner {
            Inner::Closed(..) => {},
            _ => {
                self.inner = Inner::Closed(
                    match *err {
                        Error::Proto(reason) => Cause::Proto(Peer::Local, reason),
                        Error::Io => Cause::Io,
                    },
                );
            },
        }
    }

    /// Records that the local side will send no more data.
    pub fn send_close(&mut self)
        requires
            old(self)@.can_send_close(),
        ensures
            final(self)@ == old(self)@.after_send_close(),
    {
        match self.inner {
            Inner::Open { remote, .. } => {
                // The remote side may go on sending.
                self.inner = Inner::HalfClosedLocal(remote);
            },
            _ => {
                self.inner = Inner::Closed(Cause::EndStream);
            },
        }
    }

    /// Resets the stream locally, whatever its state.
    pub fn set_reset(&mut self, reason: Reason)
        ensures
            final(self)@ == Inner::Closed(Cause::Proto(Peer::Local, reason)),
    {
        self.inner = Inner::Closed(Cause::Proto(Peer::Local, reason));
    }

    /// Marks a stream that is not closed yet as canceled.
    pub fn set_canceled(&mut self)
        requires
            !old(self)@.is_closed(),
        ensures
            final(self)@ == Inner::Closed(Cause::Canceled),
    {
        self.inner = Inner::Closed(Cause::Canceled);
    }

    pub fn is_canceled(&self) -> (r: bool)
        ensures
            r == self@.is_canceled(),
    {
        match self.inner {
            Inner::Closed(Cause::Canceled) => true,
            _ => false,
        }
    }

    pub fn is_local_reset(&self) -> (r: bool)
        ensures
            r == self@.is_local_reset(),
    {
        match self.inner {
            Inner::Closed(Cause::Proto(Peer::Local, _)) => true,
            Inner::Closed(Cause::Canceled) => true,
            _ => false,
        }
    }

    /// Returns true if the stream is already reset.
    pub fn is_reset(&self) -> (r: bool)
        ensures
            r == self@.is_reset(),
    {
        match self.inner {
            Inner::Closed(Cause::EndStream) => false,
            Inner::Closed(_) => true,
            _ => false,
        }
    }

    /// Returns true if the stream is open or half closed.
    pub fn is_at_least_half_open(&self) -> (r: bool)
        ensures
            r == self@.is_at_least_half_open(),
    {
        match self.inner {
            Inner::Open { .. } => true,
            Inner::HalfClosedLocal(..) => true,
            Inner::HalfClosedRemote(..) => true,
            _ => false,
        }
    }

    pub fn is_send_streaming(&self) -> (r: bool)
        ensures
            r == self@.is_send_streaming(),
    {
        match self.inner {
            Inner::Open { local: OpenPeer::Streaming, .. } => true,
            Inner::HalfClosedRemote(OpenPeer::Streaming) => true,
            _ => false,
        }
    }

    /// Returns true when the stream may still receive a header block.
    pub fn is_recv_headers(&self) -> (r: bool)
        ensures
            r == self@.is_recv_headers(),
    {
        match self.inner {
            Inner::Idle => true,
            Inner::Open { remote: OpenPeer::AwaitingHeaders, .. } => true,
            Inner::HalfClosedLocal(OpenPeer::AwaitingHeaders) => true,
            Inner::ReservedRemote => true,
            _ => false,
        }
    }

    pub fn is_recv_streaming(&self) -> (r: bool)
        ensures
            r == self@.is_recv_streaming(),
    {
        match self.inner {
            Inner::Open { remote: OpenPeer::Streaming, .. } => true,
            Inner::HalfClosedLocal(OpenPeer::Streaming) => true,
            _ => false,
        }
    }

    pub fn is_closed(&self) -> (r: bool)
        ensures
            r == self@.is_closed(),
    {
        match self.inner {
            Inner::Closed(_) => true,
            _ => false,
        }
    }

    pub fn is_recv_closed(&self) -> (r: bool)
        ensures
            r == self@.is_recv_closed(),
    {
        match self.inner {
            Inner::Closed(..) | Inner::HalfClosedRemote(..) => true,
            _ => false,
        }
    }

    pub fn is_idle(&self) -> (r: bool)
        ensures
            r == self@.is_idle(),
    {
        match self.inner {
            Inner::Idle => true,
            _ => false,
        }
    }

    /// Whether the stream may still receive: an error carrying the cause of a
    /// reset or a failure, `false` once the remote side ended its direction.
    pub fn ensure_recv_open(&self) -> (r: Result<bool, Error>)
        ensures
            r == self@.recv_open_outcome(),
    {
        match self.inner {
            Inner::Closed(Cause::Proto(_, reason)) => Err(Error::Proto(reason)),
            Inner::Closed(Cause::Canceled) => Err(Error::Proto(Reason { code: CANCEL })),
            Inner::Closed(Cause::Io) => Err(Error::Io),
            Inner::Closed(Cause::EndStream) | Inner::HalfClosedRemote(..) => Ok(false),
            _ => Ok(true),
        }
    }
}

impl Default for State {
    fn default() -> (r: State)
        ensures
            r@ == Inner::Idle,
    {
        State { inner: Inner::Idle }
    }
}

impl Default for OpenPeer {
    fn default() -> (r: OpenPeer)
        ensures
            r == OpenPeer::AwaitingHeaders,
    {
        OpenPeer::AwaitingHeaders
    }
}

} // verus!
