//! The guarantees of the settlement guard, stated on their own.
//!
//! Each proof function below states one guarantee of a settlement call over
//! `settle_result_spec` and `settle_post_spec`, the two spec functions that
//! the contract of `reimburse_relayer` pins its result and its mutation to.

use vstd::prelude::*;

use crate::account::ReimburseRelayer;
use crate::error::ArbitrageError;
use crate::error::SettlementError;
use crate::settlement::SettlementReceipt;
use crate::settlement::authorized;
use crate::settlement::cost_overflows;
use crate::settlement::profitable;
use crate::settlement::settle_post_spec;
use crate::settlement::settle_result_spec;
use crate::settlement::total_cost;

verus! {

/// When the cost sum leaves the 64-bit range, settlement fails with
/// `MathOverflow` and performs no transfer. Stated for authorized parties:
/// an unauthorized relayer is rejected before the accounting step.
pub proof fn lemma_overflow_rejected(
    pre: ReimburseRelayer,
    expected_profit: u64,
    gas_cost: u64,
    relayer_bounty: u64,
)
    requires
        authorized(pre),
        cost_overflows(gas_cost, relayer_bounty),
    ensures
        settle_result_spec(pre, expected_profit, gas_cost, relayer_bounty)
            == Err::<SettlementReceipt, SettlementError>(
            SettlementError::Arbitrage(ArbitrageError::MathOverflow),
        ),
        settle_post_spec(pre, expected_profit, gas_cost, relayer_bounty) == pre,
{
}

/// When the claimed profit does not strictly exceed the total owed,
/// settlement fails with `UnprofitableArbitrage` and performs no transfer.
/// Break-even (`expected_profit == gas_cost + relayer_bounty`) is rejected
/// too. Stated for authorized parties and a cost sum in range, the inputs on
/// which the earlier checks pass.
pub proof fn lemma_unprofitable_rejected(
    pre: ReimburseRelayer,
    expected_profit: u64,
    gas_cost: u64,
    relayer_bounty: u64,
)
    requires
        authorized(pre),
        !cost_overflows(gas_cost, relayer_bounty),
        expected_profit <= total_cost(gas_cost, relayer_bounty),
    ensures
        settle_result_spec(pre, expected_profit, gas_cost, relayer_bounty)
            == Err::<SettlementReceipt, SettlementError>(
            SettlementError::Arbitrage(ArbitrageError::UnprofitableArbitrage),
        ),
        settle_post_spec(pre, expected_profit, gas_cost, relayer_bounty) == pre,
{
}

/// When the relayer did not co-sign the enclosing transaction, settlement
/// fails with `UnauthorizedRelayer` and performs no transfer — regardless of
/// how profitable the trade is claimed to be, and of every other parameter.
pub proof fn lemma_unauthorized_rejected(
    pre: ReimburseRelayer,
    expected_profit: u64,
    gas_cost: u64,
    relayer_bounty: u64,
)
    requires
        !pre.relayer.is_signer,
    ensures
        settle_result_spec(pre, expected_profit, gas_cost, relayer_bounty)
            == Err::<SettlementReceipt, SettlementError>(
            SettlementError::Arbitrage(ArbitrageError::UnauthorizedRelayer),
        ),
        settle_post_spec(pre, expected_profit, gas_cost, relayer_bounty) == pre,
{
}

/// On success the relayer's balance increases by exactly
/// `gas_cost + relayer_bounty`, the beneficiary's balance decreases by
/// exactly the same amount, and the total value held by the two parties is
/// conserved.
pub proof fn lemma_success_conserves_value(
    pre: ReimburseRelayer,
    expected_profit: u64,
    gas_cost: u64,
    relayer_bounty: u64,
)
    requires
        settle_result_spec(pre, expected_profit, gas_cost, relayer_bounty) is Ok,
    ensures
        settle_post_spec(pre, expected_profit, gas_cost, relayer_bounty).relayer.lamports
            == pre.relayer.lamports + total_cost(gas_cost, relayer_bounty),
        settle_post_spec(pre, expected_profit, gas_cost, relayer_bounty).user.lamports
            == pre.user.lamports - total_cost(gas_cost, relayer_bounty),
        settle_post_spec(pre, expected_profit, gas_cost, relayer_bounty).user.lamports
            + settle_post_spec(pre, expected_profit, gas_cost, relayer_bounty).relayer.lamports
            == pre.user.lamports + pre.relayer.lamports,
{
}

/// When every guard check passes but the beneficiary's balance is below the
/// total owed at transfer time, the call fails and leaves both balances
/// unchanged: there is no partial transfer.
pub proof fn lemma_insufficient_balance_rejected(
    pre: ReimburseRelayer,
    expected_profit: u64,
    gas_cost: u64,
    relayer_bounty: u64,
)
    requires
        authorized(pre),
        !cost_overflows(gas_cost, relayer_bounty),
        profitable(expected_profit, gas_cost, relayer_bounty),
        pre.user.lamports < total_cost(gas_cost, relayer_bounty),
    ensures
        settle_result_spec(pre, expected_profit, gas_cost, relayer_bounty)
            == Err::<SettlementReceipt, SettlementError>(SettlementError::TransferFailed),
        settle_post_spec(pre, expected_profit, gas_cost, relayer_bounty) == pre,
{
}

/// The guard holds no state across calls: two calls with identical inputs
/// and identical starting accounts produce identical outcomes, both in what
/// they return and in how they leave the accounts.
pub proof fn lemma_settle_deterministic(
    pre1: ReimburseRelayer,
    pre2: ReimburseRelayer,
    expected_profit: u64,
    gas_cost: u64,
    relayer_bounty: u64,
)
    requires
        pre1 == pre2,
    ensures
        settle_result_spec(pre1, expected_profit, gas_cost, relayer_bounty) == settle_result_spec(
            pre2,
            expected_profit,
            gas_cost,
            relayer_bounty,
        ),
        settle_post_spec(pre1, expected_profit, gas_cost, relayer_bounty) == settle_post_spec(
            pre2,
            expected_profit,
            gas_cost,
            relayer_bounty,
        ),
{
}

/// A failed call leaves the accounts exactly as they were, so running the
/// same call again from the state it left behind fails in exactly the same
/// way: failures repeat.
pub proof fn lemma_failed_settle_repeats(
    pre: ReimburseRelayer,
    expected_profit: u64,
    gas_cost: u64,
    relayer_bounty: u64,
)
    requires
        settle_result_spec(pre, expected_profit, gas_cost, relayer_bounty) is Err,
    ensures
        settle_post_spec(pre, expected_profit, gas_cost, relayer_bounty) == pre,
        settle_result_spec(
            settle_post_spec(pre, expected_profit, gas_cost, relayer_bounty),
            expected_profit,
            gas_cost,
            relayer_bounty,
        ) == settle_result_spec(pre, expected_profit, gas_cost, relayer_bounty),
{
}

} // verus!
