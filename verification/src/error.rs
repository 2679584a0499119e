use vstd::prelude::*;

verus! {

/// Main library error type.
#[derive(Debug, PartialEq, Eq)]
pub enum Error {
    /// The device or its queue could not be created.
    RequestDevice,
    /// The backend rejected the request to map a buffer for host reads.
    BufferAsync,
    /// The completion signal was dropped without ever firing.
    ReceiverReturnedNone,
    /// No adapter available.
    NoAdapter,
    /// Dimension mismatch in a binary operator.
    DimensionMismatchBinaryOp { op: &'static str, lhs: Vec<usize>, rhs: Vec<usize> },
    /// Internal error: a size that cannot be represented, or a binding list
    /// that does not match its pipeline.
    InternalError(String),
}

impl Error {
    /// Whether this is a dimension mismatch of operator `op` between the
    /// dimension vectors `lhs` and `rhs`.
    pub open spec fn is_mismatch(self, op: Seq<char>, lhs: Seq<usize>, rhs: Seq<usize>) -> bool {
        match self {
            Error::DimensionMismatchBinaryOp { op: o, lhs: l, rhs: r } => o@ == op && l@ == lhs
                && r@ == rhs,
            _ => false,
        }
    }

    /// Whether this is an internal error, whatever its message.
    pub open spec fn is_internal(self) -> bool {
        self is InternalError
    }
}

} // verus!
