//! The account model the settlement guard operates on.
//!
//! The hosting execution environment owns the real accounts; the guard only
//! reads and writes the few plain values that settlement touches: each
//! party's native balance, whether each party cryptographically co-signed the
//! enclosing transaction, and the post-swap token balance observed for the
//! settlement record.

use vstd::prelude::*;

verus! {

/// One party to the settlement: its native balance, in the smallest
/// indivisible unit of the settlement currency, and whether it
/// cryptographically co-signed the enclosing transaction.
#[derive(Clone, Copy, Debug, PartialEq, Eq, Structural)]
pub struct SignerAccount {
    pub lamports: u64,
    pub is_signer: bool,
}

/// The beneficiary's post-swap token balance, read once at settlement time
/// and reported on the receipt for auditability.
#[derive(Clone, Copy, Debug, PartialEq, Eq, Structural)]
pub struct TokenAccountState {
    pub amount: u64,
}

/// The accounts touched by one settlement call: the beneficiary (`user`)
/// whose post-swap funds are settled, the fee-paying `relayer` to be
/// reimbursed, and the beneficiary's token account holding the swap proceeds.
#[derive(Clone, Copy, Debug, PartialEq, Eq, Structural)]
pub struct ReimburseRelayer {
    pub user: SignerAccount,
    pub relayer: SignerAccount,
    pub user_token_account: TokenAccountState,
}

/// The (empty) account set of the bootstrap call, which needs no on-chain
/// state.
#[derive(Clone, Copy, Debug, PartialEq, Eq, Structural)]
pub struct Initialize {}

} // verus!
