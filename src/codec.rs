use vstd::prelude::*;
use crate::frame::Reason;

verus! {

/// An error found while processing an inbound frame.
#[derive(Debug, Clone, Copy, PartialEq, Eq, Structural)]
pub enum RecvError {
    /// The peer broke the protocol; the whole connection is at fault.
    Connection(Reason),
}

/// A misuse of the stream by the local side.
#[derive(Debug, Clone, Copy, PartialEq, Eq, Structural)]
pub enum UserError {
    /// A frame was sent that the stream's current state does not allow.
    UnexpectedFrameType,
}

} // verus!
