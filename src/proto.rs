use vstd::prelude::*;
use crate::frame::Reason;

verus! {

/// A fault met on a stream or a connection.
#[derive(Debug, Clone, Copy, PartialEq, Eq, Structural)]
pub enum Error {
    /// A protocol violation, with its reason code.
    Proto(Reason),
    /// A transport failure.
    Io,
}

} // verus!
