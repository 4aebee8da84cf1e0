//! Settlement guard for an atomic, single-transaction arbitrage.
//!
//! After a sequence of token swaps has run earlier in the same atomic
//! transaction, this library validates that the operation was profitable and
//! settles with the third-party relayer that paid the network fees: it
//! computes the total owed with overflow detection, gates on strict
//! profitability, checks that both parties authorized the transaction, and
//! transfers the owed amount from the beneficiary to the relayer as a single
//! indivisible step. Any failure leaves every balance unchanged, so the
//! enclosing transaction can roll back as if nothing had executed.

pub mod account;
pub mod error;
pub mod laws;
pub mod settlement;
