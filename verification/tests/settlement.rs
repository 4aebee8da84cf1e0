use flash_loan_arbitrage::account::Initialize;
use flash_loan_arbitrage::account::ReimburseRelayer;
use flash_loan_arbitrage::account::SignerAccount;
use flash_loan_arbitrage::account::TokenAccountState;
use flash_loan_arbitrage::error::ArbitrageError;
use flash_loan_arbitrage::error::SettlementError;
use flash_loan_arbitrage::settlement::checked_total_cost;
use flash_loan_arbitrage::settlement::initialize;
use flash_loan_arbitrage::settlement::reimburse_relayer;
use flash_loan_arbitrage::settlement::transfer_lamports;

fn accounts(user_lamports: u64, relayer_lamports: u64, token_amount: u64) -> ReimburseRelayer {
    ReimburseRelayer {
        user: SignerAccount {
            lamports: user_lamports,
            is_signer: true,
        },
        relayer: SignerAccount {
            lamports: relayer_lamports,
            is_signer: true,
        },
        user_token_account: TokenAccountState {
            amount: token_amount,
        },
    }
}

#[test]
fn profitable_settlement_succeeds() {
    let mut a = accounts(10_000, 500, 42_000);
    let receipt = reimburse_relayer(&mut a, 1000, 100, 50).unwrap();
    assert_eq!(receipt.total_cost, 150);
    assert_eq!(receipt.observed_balance, 42_000);
    assert_eq!(a.user.lamports, 10_000 - 150);
    assert_eq!(a.relayer.lamports, 500 + 150);
    assert_eq!(a.user_token_account.amount, 42_000);
}

#[test]
fn success_conserves_total_value() {
    let mut a = accounts(777, 333, 0);
    let before = a.user.lamports + a.relayer.lamports;
    let receipt = reimburse_relayer(&mut a, 600, 400, 100).unwrap();
    assert_eq!(receipt.total_cost, 500);
    assert_eq!(a.user.lamports + a.relayer.lamports, before);
}

#[test]
fn break_even_is_unprofitable() {
    // 150 is not strictly greater than 100 + 50: strict inequality required.
    let mut a = accounts(10_000, 500, 0);
    let r = reimburse_relayer(&mut a, 150, 100, 50);
    assert_eq!(
        r,
        Err(SettlementError::Arbitrage(
            ArbitrageError::UnprofitableArbitrage
        ))
    );
    assert_eq!(a, accounts(10_000, 500, 0));
}

#[test]
fn below_cost_is_unprofitable() {
    let mut a = accounts(10_000, 500, 0);
    let r = reimburse_relayer(&mut a, 149, 100, 50);
    assert_eq!(
        r,
        Err(SettlementError::Arbitrage(
            ArbitrageError::UnprofitableArbitrage
        ))
    );
    assert_eq!(a, accounts(10_000, 500, 0));
}

#[test]
fn overflowing_cost_sum_is_rejected() {
    let mut a = accounts(10_000, 500, 0);
    let r = reimburse_relayer(&mut a, 1000, u64::MAX, 1);
    assert_eq!(r, Err(SettlementError::Arbitrage(ArbitrageError::MathOverflow)));
    assert_eq!(a, accounts(10_000, 500, 0));
}

#[test]
fn unsigned_relayer_is_rejected_regardless_of_profit() {
    let mut a = accounts(10_000, 500, 0);
    a.relayer.is_signer = false;
    let r = reimburse_relayer(&mut a, u64::MAX, 0, 0);
    assert_eq!(
        r,
        Err(SettlementError::Arbitrage(
            ArbitrageError::UnauthorizedRelayer
        ))
    );
    assert_eq!(a.user.lamports, 10_000);
    assert_eq!(a.relayer.lamports, 500);

    // The authorization check also precedes the accounting and gate checks.
    let mut b = accounts(10_000, 500, 0);
    b.relayer.is_signer = false;
    let r = reimburse_relayer(&mut b, 0, u64::MAX, u64::MAX);
    assert_eq!(
        r,
        Err(SettlementError::Arbitrage(
            ArbitrageError::UnauthorizedRelayer
        ))
    );
}

#[test]
fn unsigned_beneficiary_is_rejected() {
    let mut a = accounts(10_000, 500, 0);
    a.user.is_signer = false;
    let r = reimburse_relayer(&mut a, 1000, 100, 50);
    assert_eq!(
        r,
        Err(SettlementError::Arbitrage(
            ArbitrageError::UnauthorizedRelayer
        ))
    );
    assert_eq!(a.user.lamports, 10_000);
    assert_eq!(a.relayer.lamports, 500);
}

#[test]
fn insufficient_balance_fails_without_partial_transfer() {
    // Balance 120 cannot cover the 150 owed: both balances stay untouched.
    let mut a = accounts(120, 500, 0);
    let r = reimburse_relayer(&mut a, 1000, 100, 50);
    assert_eq!(r, Err(SettlementError::TransferFailed));
    assert_eq!(a, accounts(120, 500, 0));
}

#[test]
fn relayer_balance_overflow_fails_without_partial_transfer() {
    let mut a = accounts(10_000, u64::MAX - 100, 0);
    let r = reimburse_relayer(&mut a, 1000, 100, 50);
    assert_eq!(r, Err(SettlementError::TransferFailed));
    assert_eq!(a, accounts(10_000, u64::MAX - 100, 0));
}

#[test]
fn identical_inputs_and_balances_settle_identically() {
    let mut first = accounts(10_000, 500, 7);
    let mut second = accounts(10_000, 500, 7);
    let r1 = reimburse_relayer(&mut first, 1000, 100, 50);
    let r2 = reimburse_relayer(&mut second, 1000, 100, 50);
    assert_eq!(r1, r2);
    assert_eq!(first, second);
}

#[test]
fn failed_settlement_repeats_identically() {
    let mut a = accounts(120, 500, 0);
    let r1 = reimburse_relayer(&mut a, 1000, 100, 50);
    let r2 = reimburse_relayer(&mut a, 1000, 100, 50);
    assert_eq!(r1, Err(SettlementError::TransferFailed));
    assert_eq!(r1, r2);
    assert_eq!(a, accounts(120, 500, 0));
}

#[test]
fn checked_total_cost_adds_or_reports_overflow() {
    assert_eq!(checked_total_cost(100, 50), Some(150));
    assert_eq!(checked_total_cost(u64::MAX, 0), Some(u64::MAX));
    assert_eq!(checked_total_cost(u64::MAX, 1), None);
    assert_eq!(checked_total_cost(u64::MAX / 2 + 1, u64::MAX / 2 + 1), None);
}

#[test]
fn transfer_moves_exactly_the_amount() {
    let mut from = SignerAccount {
        lamports: 300,
        is_signer: true,
    };
    let mut to = SignerAccount {
        lamports: 10,
        is_signer: false,
    };
    assert_eq!(transfer_lamports(&mut from, &mut to, 300), Ok(()));
    assert_eq!(from.lamports, 0);
    assert_eq!(to.lamports, 310);
}

#[test]
fn transfer_with_insufficient_funds_changes_nothing() {
    let mut from = SignerAccount {
        lamports: 299,
        is_signer: true,
    };
    let mut to = SignerAccount {
        lamports: 10,
        is_signer: true,
    };
    assert_eq!(
        transfer_lamports(&mut from, &mut to, 300),
        Err(SettlementError::TransferFailed)
    );
    assert_eq!(from.lamports, 299);
    assert_eq!(to.lamports, 10);
}

#[test]
fn error_codes_and_messages_are_stable() {
    assert_eq!(ArbitrageError::UnprofitableArbitrage.code(), 6000);
    assert_eq!(ArbitrageError::MathOverflow.code(), 6001);
    assert_eq!(ArbitrageError::UnauthorizedRelayer.code(), 6002);
    assert_eq!(
        ArbitrageError::UnprofitableArbitrage.message(),
        "The expected profit is less than the gas cost plus bounty."
    );
    assert_eq!(
        ArbitrageError::MathOverflow.message(),
        "Math overflow occurred calculating costs."
    );
    assert_eq!(
        ArbitrageError::UnauthorizedRelayer.message(),
        "Signer is not an authorized relayer."
    );
}

#[test]
fn initialize_always_succeeds() {
    assert_eq!(initialize(&Initialize {}), Ok(()));
}
