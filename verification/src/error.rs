//! The settlement error taxonomy.
//!
//! The three guard errors are the stable, caller-visible contract of the
//! component: external tooling matches on their numeric codes and messages,
//! so both are fixed here. A failure of the value-transfer primitive itself
//! is kept apart, since it is propagated from the environment rather than
//! raised by the guard's own checks.

use vstd::prelude::*;

verus! {

/// A failure raised by one of the guard's own checks, before any funds move.
#[derive(Clone, Copy, Debug, PartialEq, Eq, Structural)]
pub enum ArbitrageError {
    /// The expected profit does not strictly exceed the total owed.
    UnprofitableArbitrage,
    /// `gas_cost + relayer_bounty` exceeds the 64-bit unsigned range.
    MathOverflow,
    /// The relayer (or the beneficiary) did not co-sign the transaction.
    UnauthorizedRelayer,
}

/// Everything a settlement call can fail with: one of the guard's own checks,
/// or the value-transfer primitive (insufficient funds at transfer time).
#[derive(Clone, Copy, Debug, PartialEq, Eq, Structural)]
pub enum SettlementError {
    Arbitrage(ArbitrageError),
    TransferFailed,
}

impl ArbitrageError {
    /// The stable numeric code of this error on the wire.
    pub open spec fn code_spec(self) -> u32 {
        match self {
            ArbitrageError::UnprofitableArbitrage => 6000,
            ArbitrageError::MathOverflow => 6001,
            ArbitrageError::UnauthorizedRelayer => 6002,
        }
    }

    /// The stable human-readable message of this error on the wire.
    pub open spec fn message_spec(self) -> Seq<char> {
        match self {
            ArbitrageError::UnprofitableArbitrage => {
                "The expected profit is less than the gas cost plus bounty."@
            },
            ArbitrageError::MathOverflow => "Math overflow occurred calculating costs."@,
            ArbitrageError::UnauthorizedRelayer => "Signer is not an authorized relayer."@,
        }
    }

    /// The numeric error code reported to external observers.
    pub fn code(&self) -> (c: u32)
        ensures
            c == self.code_spec(),
    {
        match self {
            ArbitrageError::UnprofitableArbitrage => 6000,
            ArbitrageError::MathOverflow => 6001,
            ArbitrageError::UnauthorizedRelayer => 6002,
        }
    }

    /// The error message reported to external observers.
    pub fn message(&self) -> (m: &'static str)
        ensures
            m@ == self.message_spec(),
    {
        match self {
            ArbitrageError::UnprofitableArbitrage => {
                "The expected profit is less than the gas cost plus bounty."
            },
            ArbitrageError::MathOverflow => "Math overflow occurred calculating costs.",
            ArbitrageError::UnauthorizedRelayer => "Signer is not an authorized relayer.",
        }
    }
}

} // verus!
