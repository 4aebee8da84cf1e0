//! The settlement guard itself.
//!
//! Control flow is linear: authorize, account, gate, transfer, record. All
//! three guard checks run before any mutation, so every guard failure is
//! side-effect-free; the transfer either moves exactly the owed amount from
//! the beneficiary to the relayer or fails leaving both balances unchanged.
//!
//! `settle_result_spec` and `settle_post_spec` pin down the outcome of a
//! settlement call completely, as a pure function of the starting accounts
//! and the three caller-supplied quantities; `reimburse_relayer` is proved
//! to return and to mutate exactly what they say.

use vstd::prelude::*;

use crate::account::Initialize;
use crate::account::ReimburseRelayer;
use crate::account::SignerAccount;
use crate::error::ArbitrageError;
use crate::error::SettlementError;

verus! {

/// The total owed to the relayer, as an unbounded integer: network fees
/// actually paid plus the agreed bounty.
pub open spec fn total_cost(gas_cost: u64, relayer_bounty: u64) -> int {
    gas_cost + relayer_bounty
}

/// Whether the total owed exceeds the 64-bit unsigned range.
pub open spec fn cost_overflows(gas_cost: u64, relayer_bounty: u64) -> bool {
    total_cost(gas_cost, relayer_bounty) > u64::MAX
}

/// Whether both parties cryptographically co-signed the enclosing
/// transaction. Both must have: the beneficiary's funds and the relayer's
/// fee liability both move.
pub open spec fn authorized(accounts: ReimburseRelayer) -> bool {
    accounts.relayer.is_signer && accounts.user.is_signer
}

/// The profitability gate: the claimed profit must strictly exceed the total
/// owed, so that the beneficiary retains a positive residual. Break-even is
/// not sufficient.
pub open spec fn profitable(expected_profit: u64, gas_cost: u64, relayer_bounty: u64) -> bool {
    expected_profit > total_cost(gas_cost, relayer_bounty)
}

/// Whether the value-transfer primitive can move `amount` from the
/// beneficiary to the relayer: the beneficiary must hold at least that much,
/// and the relayer's balance must not leave the 64-bit range.
pub open spec fn transfer_possible(accounts: ReimburseRelayer, amount: int) -> bool {
    &&& accounts.user.lamports >= amount
    &&& accounts.relayer.lamports + amount <= u64::MAX
}

/// The auditable record emitted on success: the amount reimbursed and the
/// beneficiary's post-swap token balance observed at settlement time (the
/// latter is informational only and is not validated by the guard).
#[derive(Clone, Copy, Debug, PartialEq, Eq, Structural)]
pub struct SettlementReceipt {
    pub total_cost: u64,
    pub observed_balance: u64,
}

/// What a settlement call returns, as a pure function of the starting
/// accounts and the three caller-supplied quantities. The checks run in a
/// fixed order: authorization, overflow, profitability, then the transfer.
pub open spec fn settle_result_spec(
    pre: ReimburseRelayer,
    expected_profit: u64,
    gas_cost: u64,
    relayer_bounty: u64,
) -> Result<SettlementReceipt, SettlementError> {
    if !authorized(pre) {
        Err(SettlementError::Arbitrage(ArbitrageError::UnauthorizedRelayer))
    } else if cost_overflows(gas_cost, relayer_bounty) {
        Err(SettlementError::Arbitrage(ArbitrageError::MathOverflow))
    } else if !profitable(expected_profit, gas_cost, relayer_bounty) {
        Err(SettlementError::Arbitrage(ArbitrageError::UnprofitableArbitrage))
    } else if !transfer_possible(pre, total_cost(gas_cost, relayer_bounty)) {
        Err(SettlementError::TransferFailed)
    } else {
        Ok(
            SettlementReceipt {
                total_cost: total_cost(gas_cost, relayer_bounty) as u64,
                observed_balance: pre.user_token_account.amount,
            },
        )
    }
}

/// The accounts after a settlement call, as a pure function of the starting
/// accounts and the three caller-supplied quantities: on success exactly the
/// total owed has moved from the beneficiary to the relayer; on any failure
/// nothing has changed.
pub open spec fn settle_post_spec(
    pre: ReimburseRelayer,
    expected_profit: u64,
    gas_cost: u64,
    relayer_bounty: u64,
) -> ReimburseRelayer {
    if settle_result_spec(pre, expected_profit, gas_cost, relayer_bounty) is Ok {
        ReimburseRelayer {
            user: SignerAccount {
                lamports: (pre.user.lamports - total_cost(gas_cost, relayer_bounty)) as u64,
                is_signer: pre.user.is_signer,
            },
            relayer: SignerAccount {
                lamports: (pre.relayer.lamports + total_cost(gas_cost, relayer_bounty)) as u64,
                is_signer: pre.relayer.is_signer,
            },
            user_token_account: pre.user_token_account,
        }
    } else {
        pre
    }
}

/// The overflow-checked accounting step: the total owed to the relayer, or
/// `None` when the sum leaves the 64-bit range. The sum must never wrap or
/// saturate silently, since wraparound could make an unprofitable trade
/// appear profitable.
pub fn checked_total_cost(gas_cost: u64, relayer_bounty: u64) -> (r: Option<u64>)
    ensures
        r is Some <==> !cost_overflows(gas_cost, relayer_bounty),
        r matches Some(t) ==> t == total_cost(gas_cost, relayer_bounty),
{
    gas_cost.checked_add(relayer_bounty)
}

/// The value-transfer primitive over the account model: moves exactly
/// `amount` from `from` to `to` as one indivisible step, or fails leaving
/// both balances unchanged. There is no partial transfer.
pub fn transfer_lamports(from: &mut SignerAccount, to: &mut SignerAccount, amount: u64) -> (result:
    Result<(), SettlementError>)
    ensures
        result is Ok <==> old(from).lamports >= amount && old(to).lamports + amount <= u64::MAX,
        result is Ok ==> final(from).lamports == old(from).lamports - amount,
        result is Ok ==> final(to).lamports == old(to).lamports + amount,
        result is Err ==> result == Err::<(), SettlementError>(SettlementError::TransferFailed),
        result is Err ==> *final(from) == *old(from) && *final(to) == *old(to),
        final(from).is_signer == old(from).is_signer,
        final(to).is_signer == old(to).is_signer,
{
    if from.lamports < amount {
        return Err(SettlementError::TransferFailed);
    }
    match to.lamports.checked_add(amount) {
        Some(credited) => {
            from.lamports = from.lamports - amount;
            to.lamports = credited;
            Ok(())
        },
        None => Err(SettlementError::TransferFailed),
    }
}

/// The settlement guard. Validates that the arbitrage was profitable and
/// reimburses the relayer out of the realized profit:
///
/// 1. fails with `UnauthorizedRelayer` unless both parties co-signed;
/// 2. computes `gas_cost + relayer_bounty` with checked addition, failing
///    with `MathOverflow` on wraparound;
/// 3. fails with `UnprofitableArbitrage` unless `expected_profit` strictly
///    exceeds the total owed;
/// 4. observes the beneficiary's post-swap token balance for the receipt;
/// 5. transfers the total owed from the beneficiary to the relayer, as one
///    indivisible step that fails without effect if the beneficiary's
///    balance is insufficient.
///
/// Every failure is side-effect-free: the accounts are exactly as before, so
/// the enclosing transaction rolls back as if nothing had executed.
pub fn reimburse_relayer(
    accounts: &mut ReimburseRelayer,
    expected_profit: u64,
    gas_cost: u64,
    relayer_bounty: u64,
) -> (result: Result<SettlementReceipt, SettlementError>)
    ensures
        result == settle_result_spec(*old(accounts), expected_profit, gas_cost, relayer_bounty),
        *final(accounts) == settle_post_spec(
            *old(accounts),
            expected_profit,
            gas_cost,
            relayer_bounty,
        ),
        result is Err ==> *final(accounts) == *old(accounts),
        result is Ok ==> final(accounts).user.lamports + final(accounts).relayer.lamports == old(
            accounts,
        ).user.lamports + old(accounts).relayer.lamports,
{
    if !(accounts.relayer.is_signer && accounts.user.is_signer) {
        return Err(SettlementError::Arbitrage(ArbitrageError::UnauthorizedRelayer));
    }
    let owed: u64 = match checked_total_cost(gas_cost, relayer_bounty) {
        Some(t) => t,
        None => {
            return Err(SettlementError::Arbitrage(ArbitrageError::MathOverflow));
        },
    };
    if expected_profit <= owed {
        return Err(SettlementError::Arbitrage(ArbitrageError::UnprofitableArbitrage));
    }
    let observed_balance: u64 = accounts.user_token_account.amount;
    match transfer_lamports(&mut accounts.user, &mut accounts.relayer, owed) {
        Ok(()) => Ok(SettlementReceipt { total_cost: owed, observed_balance }),
        Err(e) => Err(e),
    }
}

/// The bootstrap call: needs no on-chain state and succeeds unconditionally.
pub fn initialize(_accounts: &Initialize) -> (result: Result<(), SettlementError>)
    ensures
        result == Ok::<(), SettlementError>(()),
{
    Ok(())
}

} // verus!
