//! The failures a pool operation can report.

use vstd::prelude::*;

verus! {

/// Why a pool operation was refused. Every refusal leaves the pool as it was.
#[derive(Debug, Clone, Copy, PartialEq, Eq, Structural)]
pub enum PoolError {
    /// The outcome of the trade violates the bound that the caller gave.
    SlippageExceeded,
    /// The trade asks for more of a reserve than the pool can give.
    InsufficientPoolFunds,
    /// An amount that must be positive was zero.
    InvalidAmount,
    /// A quantity left the range of the pool's integers, or a division had a
    /// zero divisor.
    Overflow,
}

impl PoolError {
    /// The text shown for each failure.
    pub open spec fn message_text(self) -> Seq<char> {
        match self {
            PoolError::SlippageExceeded => "Slippage too high"@,
            PoolError::InsufficientPoolFunds => "Invalid funds in the pool"@,
            PoolError::InvalidAmount => "Invalid amount"@,
            PoolError::Overflow => "Overflow"@,
        }
    }

    /// A short human-readable description of the failure.
    pub fn message(&self) -> (text: &'static str)
        ensures
            text@ == self.message_text(),
    {
        match self {
            PoolError::SlippageExceeded => "Slippage too high",
            PoolError::InsufficientPoolFunds => "Invalid funds in the pool",
            PoolError::InvalidAmount => "Invalid amount",
            PoolError::Overflow => "Overflow",
        }
    }
}

} // verus!
