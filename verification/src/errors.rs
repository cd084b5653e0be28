use vstd::prelude::*;

verus! {

/// Every way a pool operation can be refused. A failed operation has no
/// effect: each mutating function either performs its whole effect or
/// returns one of these and leaves every record as it was.
#[derive(Clone, Copy, Debug, PartialEq, Eq, Structural)]
pub enum ErrorCode {
    /// A participant-state-mutating operation was attempted while the pool
    /// is paused.
    PoolPaused,
    /// The asset's declared creators match no collection in the membership
    /// table, so no reward class can be assigned.
    CandyNotMatch,
    /// An unstake referenced an asset that is not present in the given
    /// ledger segment.
    AssetNotFound,
    /// A checked addition or multiplication would wrap.
    ArithmeticOverflow,
    /// A checked subtraction would wrap.
    ArithmeticUnderflow,
    /// The clock reading is earlier than a stored settlement timestamp.
    InvalidClockReading,
    /// The caller lacks the required role for an authority- or owner-gated
    /// operation.
    Unauthorized,
    /// A structural precondition failed: a pause toggle already in the
    /// target state, or a close of a record that is not empty and settled.
    PreconditionFailed,
}

} // verus!
