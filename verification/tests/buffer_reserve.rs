use normal_contracts::buffer::Buffer;
use normal_contracts::buffer::BufferError;
use normal_contracts::buffer::Reserve;

const MIN_RESERVE_RATIO: u32 = 1000;
const ONE_HOUR: u64 = 3_600;

fn funded(amount: u128, now: u64) -> Reserve {
    Buffer::deposit(false, Reserve::new(0), amount, now).unwrap()
}

fn books_balance(r: &Reserve) -> bool {
    r.balance + r.total_outflow == r.total_inflow
}

#[test]
fn test_request_payout() {
    let amount_to_deposit = 100_0000000_u128;
    let reserve_before = funded(amount_to_deposit, 10);
    let desired_payout = 50_0000000_u128;
    let now = 10_000u64;
    let reserve = Buffer::resolve_liquidity_deficit(false, 0, ONE_HOUR, reserve_before, desired_payout, now).unwrap();
    assert_eq!(
        reserve,
        Reserve {
            balance: reserve_before.balance - desired_payout,
            max_balance: reserve_before.max_balance,
            total_inflow: reserve_before.total_inflow,
            total_outflow: reserve_before.total_outflow + desired_payout,
            total_withdraw: reserve_before.total_withdraw,
            last_payout: desired_payout,
            last_payout_ts: now,
            last_update_ts: now,
        }
    );
}

#[test]
fn test_withdraw_surplus() {
    let amount_to_deposit = 100_0000000_u128;
    let amount_to_withdraw = 10_0000000_u128;
    let reserve_before = funded(amount_to_deposit, 10);
    let now = 20u64;
    let reserve = Buffer::withdraw_surplus(reserve_before, MIN_RESERVE_RATIO, amount_to_withdraw, now).unwrap();
    assert_eq!(
        reserve,
        Reserve {
            balance: reserve_before.balance - amount_to_withdraw,
            max_balance: reserve_before.max_balance,
            total_inflow: reserve_before.total_inflow,
            total_outflow: reserve_before.total_outflow + amount_to_withdraw,
            total_withdraw: reserve_before.total_withdraw + amount_to_withdraw,
            last_payout: reserve_before.last_payout,
            last_payout_ts: reserve_before.last_payout_ts,
            last_update_ts: now,
        }
    );
}

#[test]
fn test_sync() {
    let amount_to_deposit = 100_0000000_u128;
    let reserve_before = funded(amount_to_deposit, 10);
    let excess_token_amount = 10_0000000_u128;
    let now = 30u64;
    let reserve = Buffer::sync(reserve_before, amount_to_deposit + excess_token_amount, now);
    assert_eq!(
        reserve,
        Reserve {
            balance: reserve_before.balance + excess_token_amount,
            max_balance: reserve_before.max_balance,
            total_inflow: reserve_before.total_inflow,
            total_outflow: reserve_before.total_outflow,
            total_withdraw: reserve_before.total_withdraw,
            last_payout: reserve_before.last_payout,
            last_payout_ts: reserve_before.last_payout_ts,
            last_update_ts: now,
        }
    );
}

#[test]
fn test_skim() {
    let amount_to_deposit = 100_0000000_u128;
    let reserve_before = funded(amount_to_deposit, 10);
    let excess_token_amount = 10_0000000_u128;
    let skimmed = Buffer::skim(reserve_before, amount_to_deposit + excess_token_amount).unwrap();
    assert_eq!(skimmed, excess_token_amount as i128);
    assert_eq!(Buffer::skim(reserve_before, amount_to_deposit - 1), Err(BufferError::MathError));
}

#[test]
fn deposit_respects_the_kill_switch_and_the_cap() {
    let capped = Buffer::set_reserve_max_balance(Reserve::new(0), 99_0000000, 5);
    assert_eq!(capped.max_balance, 99_0000000);
    assert_eq!(
        Buffer::deposit(false, capped, 100_0000000, 6),
        Err(BufferError::ReserveMaxBalanceThreshold)
    );
    assert_eq!(Buffer::deposit(true, Reserve::new(0), 1, 6), Err(BufferError::BufferDepositKilled));
    let at_cap = Buffer::deposit(false, capped, 99_0000000, 6).unwrap();
    assert_eq!(at_cap.balance, 99_0000000);
    assert_eq!(Buffer::deposit(false, Reserve::new(0), u128::MAX, 1).unwrap().balance, u128::MAX);
    let full = Buffer::deposit(false, Reserve::new(0), u128::MAX, 1).unwrap();
    assert_eq!(Buffer::deposit(false, full, 1, 2), Err(BufferError::MathError));
}

#[test]
fn payout_errors() {
    let reserve = funded(100, 1);
    assert_eq!(
        Buffer::resolve_liquidity_deficit(true, 0, ONE_HOUR, reserve, 10, 10_000),
        Err(BufferError::BufferRequestPayoutKilled)
    );
    assert_eq!(
        Buffer::resolve_liquidity_deficit(false, 10_000, ONE_HOUR, reserve, 10, 10_000 + ONE_HOUR - 1),
        Err(BufferError::PayoutTooSoon)
    );
    assert!(Buffer::resolve_liquidity_deficit(false, 10_000, ONE_HOUR, reserve, 10, 10_000 + ONE_HOUR).is_ok());
    assert_eq!(
        Buffer::resolve_liquidity_deficit(false, 0, ONE_HOUR, reserve, 101, 10_000),
        Err(BufferError::InsufficentFunds)
    );
    assert!(Buffer::resolve_liquidity_deficit(false, 10_000, ONE_HOUR, reserve, 100, 10_001 + ONE_HOUR).is_ok());
}

#[test]
fn surplus_withdrawal_keeps_the_minimum_reserve() {
    let reserve = funded(1_000, 1);
    assert_eq!(Buffer::withdraw_surplus(reserve, MIN_RESERVE_RATIO, 1_001, 2), Err(BufferError::InsufficentFunds));
    assert_eq!(
        Buffer::withdraw_surplus(reserve, MIN_RESERVE_RATIO, 901, 2),
        Err(BufferError::WithdrawalOverMinimumReserve)
    );
    let left = Buffer::withdraw_surplus(reserve, MIN_RESERVE_RATIO, 900, 2).unwrap();
    assert_eq!(left.balance, 100);
    assert_eq!(left.total_withdraw, 900);
}

#[test]
fn flows_keep_the_books_balanced_and_payout_undoes_deposit() {
    let mut reserve = Reserve::new(0);
    assert!(books_balance(&reserve));
    reserve = reserve.deposit(500, 1).unwrap();
    assert!(books_balance(&reserve));
    let before = reserve.balance;
    reserve = reserve.deposit(70, 2).unwrap();
    reserve = reserve.payout(70, 3).unwrap();
    assert_eq!(reserve.balance, before);
    assert!(books_balance(&reserve));
    reserve = reserve.withdraw(200, 4).unwrap();
    assert!(books_balance(&reserve));
    assert_eq!(reserve.payout(1_000, 5), Err(BufferError::MathError));
    assert_eq!(reserve.withdraw(1_000, 5), Err(BufferError::MathError));
}

#[test]
fn buffer_error_codes() {
    assert_eq!(BufferError::ReserveMaxBalanceThreshold.code(), 2);
    assert_eq!(BufferError::PayoutTooSoon.code(), 3);
    assert_eq!(BufferError::InsufficentFunds.code(), 4);
    assert_eq!(BufferError::WithdrawalOverMinimumReserve.code(), 5);
    assert_eq!(BufferError::MathError.code(), 511);
}

#[test]
fn test_test_deposit() {
    let amount_to_deposit = 100_0000000_u128;
    let now = 77u64;
    let reserve = Buffer::deposit(false, Reserve::new(now), amount_to_deposit, now).unwrap();
    assert_eq!(
        reserve,
        Reserve {
            balance: amount_to_deposit,
            max_balance: 0,
            total_inflow: amount_to_deposit,
            total_outflow: 0,
            total_withdraw: 0,
            last_payout: 0,
            last_payout_ts: 0,
            last_update_ts: now,
        }
    );
}

#[test]
fn test_multiple_request_payouts() {
    let deposit_amount = 100_0000000_u128;
    let payout_amount_1 = 50_0000000_u128;
    let payout_amount_2 = 10_0000000_u128;
    let time = 60_u64;
    let start = 10_000u64;
    let reserve = funded(deposit_amount, start);
    let reserve = Buffer::resolve_liquidity_deficit(false, 0, time, reserve, payout_amount_1, start).unwrap();
    let later = start + time;
    let reserve = Buffer::resolve_liquidity_deficit(false, start, time, reserve, payout_amount_2, later).unwrap();
    assert_eq!(reserve.balance, deposit_amount - payout_amount_1 - payout_amount_2);
    assert_eq!(reserve.total_outflow, payout_amount_1 + payout_amount_2);
    assert_eq!(reserve.last_payout, payout_amount_2);
    assert_eq!(reserve.last_payout_ts, later);
}

#[test]
fn test_test_deposit_killed() {
    let desired_amount = 1_0000000;
    let killed = Buffer::deposit(true, Reserve::new(0), desired_amount, 5);
    assert_eq!(killed.err().unwrap().code(), 6);
    assert!(Buffer::deposit(false, Reserve::new(0), desired_amount, 5).is_ok());
}

#[test]
fn test_request_payout_killed() {
    let desired_amount = 1_0000000;
    let reserve = funded(desired_amount, 1);
    let killed = Buffer::resolve_liquidity_deficit(true, 0, ONE_HOUR, reserve, desired_amount, 10_000);
    assert_eq!(killed.err().unwrap().code(), 7);
    let paid = Buffer::resolve_liquidity_deficit(false, 0, ONE_HOUR, reserve, desired_amount, 10_000).unwrap();
    assert_eq!(paid.balance, 0);
}
