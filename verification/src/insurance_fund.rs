use vstd::prelude::*;
use crate::insurance::InsuranceFundReserve;
use crate::insurance::Stake;
use crate::insurance::sat_add;
use crate::insurance::sat_sub;
use crate::insurance_errors::InsuranceFundError;
use crate::math::pow10;
use crate::stake::amount_to_shares_fits;
use crate::stake::amount_to_shares_spec;
use crate::stake::apply_rebase_to_insurance_fund;
use crate::stake::apply_rebase_to_stake;
use crate::stake::fund_rebase_fits;
use crate::stake::stake_rebase_expo;
use crate::stake::calculate_shares_lost;
use crate::stake::fund_shares_after_rebase;
use crate::stake::rebased_shares_base;
use crate::stake::reserve_amount_to_shares;
use crate::stake::shares_lost_fits;
use crate::stake::shares_lost_spec;
use crate::stake::shares_to_amount_spec;
use crate::stake::shares_to_reserve_amount;
use crate::constants::PERCENTAGE_PER_BASIS_POINT;
use crate::interest::ReserveValuation;
use crate::interest::calculate_rate;
use crate::interest::calculate_total_reserve_value;
use crate::interest::calculate_utilization;
use crate::interest::rate_spec;
use crate::interest::total_value_spec;
use crate::interest::utilization_spec;

verus! {

/// The insurance fund contract: a backstop that covers pool liquidity deficits from staked
/// deposits. Its entry points are written here as transitions from the stored state and the
/// request to the new state (or the error that aborts the call).
pub struct InsuranceFund;

/// A token accepted by the fund, with the oracle symbol that prices it.
pub struct WhitelistToken {
    pub address: soroban_sdk::Address,
    pub symbol: soroban_sdk::Symbol,
    pub active: bool,
}

/// What a stake record event reports.
#[derive(Clone, Copy, Debug, PartialEq, Eq, Structural)]
pub enum StakeAction {
    Deposit,
    WithdrawRequest,
    WithdrawCancelRequest,
    Withdraw,
}

/// The contents of a stake record event.
#[derive(Clone, Copy, Debug, PartialEq, Eq, Structural)]
pub struct StakeRecord {
    pub action: StakeAction,
    pub amount: u128,
    pub reserve_balance_before: u128,
    pub stake_shares_before: u128,
    pub total_shares_before: u128,
    pub stake_shares_after: u128,
    pub total_shares_after: u128,
}

/// The reserve and stake to store after a staking operation, and the event to emit.
pub struct StakeUpdate {
    pub reserve: InsuranceFundReserve,
    pub stake: Stake,
    pub record: StakeRecord,
}

/// The reserve after `apply_rebase_to_insurance_fund`.
pub open spec fn rebased_fund(reserve: InsuranceFundReserve) -> InsuranceFundReserve {
    InsuranceFundReserve {
        total_shares: fund_shares_after_rebase(reserve.total_shares, reserve.balance) as u128,
        shares_base: rebased_shares_base(
            reserve.shares_base,
            reserve.total_shares,
            reserve.balance,
        ) as u128,
        ..reserve
    }
}

/// The stake after `apply_rebase_to_stake` against the stored share base.
pub open spec fn rebased_stake(stake: Stake, shares_base: u128) -> Result<Stake, InsuranceFundError> {
    if shares_base == stake.base {
        Ok(stake)
    } else if shares_base < stake.base {
        Err(InsuranceFundError::InvalidIFRebase)
    } else if stake_rebase_expo(shares_base, stake.base) > 38 {
        Err(InsuranceFundError::MathError)
    } else {
        let divisor = pow10(stake_rebase_expo(shares_base, stake.base)) as int;
        Ok(
            Stake {
                base: shares_base,
                shares: (stake.shares as int / divisor) as u128,
                last_withdraw_request_shares: (stake.last_withdraw_request_shares as int / divisor)
                    as u128,
                ..stake
            },
        )
    }
}

/// A deposit of `amount`: refused while deposits are killed, for tokens off the whitelist, past
/// the optimal insurance, or with a withdrawal request pending; otherwise both sides are
/// rebased, the stake receives the shares that the amount buys (priced against the balance
/// before the deposit), its cost basis grows (or restarts at the amount when it held no shares),
/// and the amount is booked into the reserve's balance and deposit total.
pub open spec fn deposit_spec(
    amount: u128,
    is_killed_deposit: bool,
    token_whitelisted: bool,
    optimal_insurance: u128,
    reserve: InsuranceFundReserve,
    stake: Stake,
    now: u64,
) -> Result<(InsuranceFundReserve, Stake, StakeRecord), InsuranceFundError> {
    if amount == 0 {
        Err(InsuranceFundError::ZeroAmount)
    } else if is_killed_deposit {
        Err(InsuranceFundError::FundDepositKilled)
    } else if !token_whitelisted {
        Err(InsuranceFundError::UnsupportedToken)
    } else if reserve.balance + amount > optimal_insurance {
        Err(InsuranceFundError::TooMuchInsurance)
    } else if stake.last_withdraw_request_shares != 0 || stake.last_withdraw_request_value != 0 {
        Err(InsuranceFundError::IFWithdrawRequestInProgress)
    } else if !fund_rebase_fits(reserve.shares_base, reserve.total_shares, reserve.balance) {
        Err(InsuranceFundError::MathError)
    } else {
        let r1 = rebased_fund(reserve);
        match rebased_stake(stake, reserve.shares_base) {
            Err(e) => Err(e),
            Ok(s1) => match amount_to_shares_spec(amount, r1.total_shares, r1.balance) {
                Err(e) => Err(e),
                Ok(n) => {
                    let cost_basis = if s1.shares == 0 {
                        amount as int
                    } else {
                        s1.cost_basis + amount
                    };
                    if cost_basis > u128::MAX {
                        Err(InsuranceFundError::MathError)
                    } else {
                        let s2 = Stake {
                            cost_basis: cost_basis as u128,
                            shares: sat_add(s1.shares, n as u128),
                            ..s1
                        };
                        let r2 = InsuranceFundReserve {
                            total_shares: sat_add(r1.total_shares, n as u128),
                            balance: sat_add(r1.balance, amount),
                            total_deposits: sat_add(r1.total_deposits, amount),
                            last_update_ts: now,
                            ..r1
                        };
                        Ok(
                            (
                                r2,
                                s2,
                                StakeRecord {
                                    action: StakeAction::Deposit,
                                    amount,
                                    reserve_balance_before: reserve.balance,
                                    stake_shares_before: s1.shares,
                                    total_shares_before: r1.total_shares,
                                    stake_shares_after: s2.shares,
                                    total_shares_after: r2.total_shares,
                                },
                            ),
                        )
                    }
                },
            },
        }
    }
}

/// A withdrawal request for `amount`: refused while requests are killed, for tokens never
/// whitelisted, with a request already pending, for amounts worth no share, for stakes off the
/// share base, or beyond the stake's shares; otherwise the shares that `amount` buys are locked
/// at a value capped one unit below the balance, and the request is stamped with `now`.
pub open spec fn request_withdraw_spec(
    amount: u128,
    is_killed_request_withdraw: bool,
    token_listed: bool,
    reserve: InsuranceFundReserve,
    stake: Stake,
    now: u64,
) -> Result<(InsuranceFundReserve, Stake, StakeRecord), InsuranceFundError> {
    if amount == 0 {
        Err(InsuranceFundError::IFWithdrawRequestTooSmall)
    } else if is_killed_request_withdraw {
        Err(InsuranceFundError::FundRequestWithdrawKilled)
    } else if !token_listed {
        Err(InsuranceFundError::ValueNotInitialized)
    } else if stake.last_withdraw_request_shares != 0 {
        Err(InsuranceFundError::IFWithdrawRequestInProgress)
    } else {
        match amount_to_shares_spec(amount, reserve.total_shares, reserve.balance) {
            Err(e) => Err(e),
            Ok(n) => if n == 0 {
                Err(InsuranceFundError::IFWithdrawRequestTooSmall)
            } else if stake.base != reserve.shares_base {
                Err(InsuranceFundError::InvalidIFRebase)
            } else if stake.shares < n {
                Err(InsuranceFundError::InsufficientIFShares)
            } else if !fund_rebase_fits(reserve.shares_base, reserve.total_shares, reserve.balance) {
                Err(InsuranceFundError::MathError)
            } else {
                let r1 = rebased_fund(reserve);
                let s1 = Stake { last_withdraw_request_shares: n as u128, ..stake };
                if s1.base != r1.shares_base {
                    Err(InsuranceFundError::InvalidIFRebase)
                } else {
                    match shares_to_amount_spec(n as u128, r1.total_shares, r1.balance) {
                        Err(e) => Err(e),
                        Ok(a) => if r1.balance == 0 {
                            Err(InsuranceFundError::MathError)
                        } else {
                            let value = if a <= r1.balance - 1 {
                                a
                            } else {
                                r1.balance - 1
                            };
                            let s2 = Stake {
                                last_withdraw_request_value: value as u128,
                                last_withdraw_request_ts: now,
                                ..s1
                            };
                            Ok(
                                (
                                    r1,
                                    s2,
                                    StakeRecord {
                                        action: StakeAction::WithdrawRequest,
                                        amount: value as u128,
                                        reserve_balance_before: reserve.balance,
                                        stake_shares_before: s1.shares,
                                        total_shares_before: r1.total_shares,
                                        stake_shares_after: s2.shares,
                                        total_shares_after: r1.total_shares,
                                    },
                                ),
                            )
                        },
                    }
                }
            },
        }
    }
}

/// Cancelling a pending withdrawal request: the stake forfeits the shares lost to any gain in
/// the request's value (burned from the supply as well), and the request is cleared.
pub open spec fn cancel_request_withdraw_spec(
    token_listed: bool,
    reserve: InsuranceFundReserve,
    stake: Stake,
    now: u64,
) -> Result<(InsuranceFundReserve, Stake, StakeRecord), InsuranceFundError> {
    if !token_listed {
        Err(InsuranceFundError::ValueNotInitialized)
    } else if stake.last_withdraw_request_shares == 0 {
        Err(InsuranceFundError::NoIFWithdrawRequestInProgress)
    } else if !fund_rebase_fits(reserve.shares_base, reserve.total_shares, reserve.balance) {
        Err(InsuranceFundError::MathError)
    } else {
        let r1 = rebased_fund(reserve);
        match rebased_stake(stake, reserve.shares_base) {
            Err(e) => Err(e),
            Ok(s1) => if s1.base != r1.shares_base {
                Err(InsuranceFundError::InvalidIFRebase)
            } else {
                match shares_lost_spec(
                    s1.last_withdraw_request_shares,
                    s1.last_withdraw_request_value,
                    r1.total_shares,
                    r1.balance,
                ) {
                    Err(e) => Err(e),
                    Ok(lost) => if r1.total_shares < lost {
                        Err(InsuranceFundError::InsufficientIFShares)
                    } else {
                        let s2 = Stake {
                            shares: sat_sub(s1.shares, lost as u128),
                            last_withdraw_request_shares: 0,
                            last_withdraw_request_value: 0,
                            last_withdraw_request_ts: now,
                            ..s1
                        };
                        let r2 = InsuranceFundReserve {
                            total_shares: sat_sub(r1.total_shares, lost as u128),
                            last_update_ts: now,
                            ..r1
                        };
                        Ok(
                            (
                                r2,
                                s2,
                                StakeRecord {
                                    action: StakeAction::WithdrawCancelRequest,
                                    amount: 0,
                                    reserve_balance_before: reserve.balance,
                                    stake_shares_before: s1.shares,
                                    total_shares_before: r1.total_shares,
                                    stake_shares_after: s2.shares,
                                    total_shares_after: r2.total_shares,
                                },
                            ),
                        )
                    },
                }
            },
        }
    }
}

/// Completing a withdrawal request once the unstaking period has passed: the requested shares
/// leave the stake and the supply, the payout is the smaller of their current value and the
/// requested value; it comes off the cost basis and out of the reserve's balance (booked as a
/// withdrawal), and a payout that would empty the reserve balance aborts the call.
pub open spec fn withdraw_spec(
    is_killed_withdraw: bool,
    token_listed: bool,
    unstaking_period: u64,
    reserve: InsuranceFundReserve,
    stake: Stake,
    now: u64,
) -> Result<(InsuranceFundReserve, Stake, StakeRecord), InsuranceFundError> {
    if is_killed_withdraw {
        Err(InsuranceFundError::FundWithdrawKilled)
    } else if !token_listed {
        Err(InsuranceFundError::ValueNotInitialized)
    } else if now < stake.last_withdraw_request_ts {
        Err(InsuranceFundError::InvalidTimestamp)
    } else if now - stake.last_withdraw_request_ts < unstaking_period {
        Err(InsuranceFundError::TryingToRemoveLiquidityTooFast)
    } else if !fund_rebase_fits(reserve.shares_base, reserve.total_shares, reserve.balance) {
        Err(InsuranceFundError::MathError)
    } else {
        let r1 = rebased_fund(reserve);
        match rebased_stake(stake, reserve.shares_base) {
            Err(e) => Err(e),
            Ok(s1) => {
                let n = s1.last_withdraw_request_shares;
                if n == 0 {
                    Err(InsuranceFundError::InvalidIFUnstake)
                } else if s1.shares < n {
                    Err(InsuranceFundError::InsufficientIFShares)
                } else {
                    match shares_to_amount_spec(n, r1.total_shares, r1.balance) {
                        Err(e) => Err(e),
                        Ok(amount) => match shares_lost_spec(
                            n,
                            s1.last_withdraw_request_value,
                            r1.total_shares,
                            r1.balance,
                        ) {
                            Err(e) => Err(e),
                            Ok(_) => {
                                let paid = if amount <= s1.last_withdraw_request_value {
                                    amount
                                } else {
                                    s1.last_withdraw_request_value as int
                                };
                                if s1.cost_basis < paid {
                                    Err(InsuranceFundError::CostBasisUnderflow)
                                } else if r1.total_shares < n {
                                    Err(InsuranceFundError::InsufficientIFShares)
                                } else if sat_sub(r1.balance, paid as u128) == 0 {
                                    Err(InsuranceFundError::InvalidIFDetected)
                                } else {
                                    let s2 = Stake {
                                        shares: sat_sub(s1.shares, n),
                                        cost_basis: (s1.cost_basis - paid) as u128,
                                        last_withdraw_request_shares: 0,
                                        last_withdraw_request_value: 0,
                                        last_withdraw_request_ts: now,
                                        ..s1
                                    };
                                    let r2 = InsuranceFundReserve {
                                        total_shares: sat_sub(r1.total_shares, n),
                                        balance: sat_sub(r1.balance, paid as u128),
                                        total_withdrawals: sat_add(
                                            r1.total_withdrawals,
                                            paid as u128,
                                        ),
                                        last_update_ts: now,
                                        ..r1
                                    };
                                    Ok(
                                        (
                                            r2,
                                            s2,
                                            StakeRecord {
                                                action: StakeAction::Withdraw,
                                                amount: paid as u128,
                                                reserve_balance_before: reserve.balance,
                                                stake_shares_before: s1.shares,
                                                total_shares_before: r1.total_shares,
                                                stake_shares_after: s2.shares,
                                                total_shares_after: r2.total_shares,
                                            },
                                        ),
                                    )
                                }
                            },
                        },
                    }
                }
            },
        }
    }
}

/// The share conversions of a cancel or a withdrawal stay within a `u128` once both rebases
/// have succeeded.
pub open spec fn settlement_fits(reserve: InsuranceFundReserve, stake: Stake) -> bool {
    fund_rebase_fits(reserve.shares_base, reserve.total_shares, reserve.balance) ==> (rebased_stake(
        stake,
        reserve.shares_base,
    ) matches Ok(s1) ==> shares_lost_fits(s1, rebased_fund(reserve)))
}

/// The deposit's minting fits a `u128` whenever the deposit gets that far.
pub open spec fn deposit_fits(
    amount: u128,
    is_killed_deposit: bool,
    token_whitelisted: bool,
    optimal_insurance: u128,
    reserve: InsuranceFundReserve,
    stake: Stake,
) -> bool {
    amount != 0 && !is_killed_deposit && token_whitelisted && reserve.balance + amount
        <= optimal_insurance && stake.last_withdraw_request_shares == 0
        && stake.last_withdraw_request_value == 0 && fund_rebase_fits(
        reserve.shares_base,
        reserve.total_shares,
        reserve.balance,
    ) && rebased_stake(stake, reserve.shares_base) is Ok ==> amount_to_shares_fits(
        amount,
        rebased_fund(reserve).total_shares,
        reserve.balance,
    )
}

/// Whether a result carries exactly the state and event that a transition spec gives.
pub open spec fn update_matches(
    r: Result<StakeUpdate, InsuranceFundError>,
    s: Result<(InsuranceFundReserve, Stake, StakeRecord), InsuranceFundError>,
) -> bool {
    match r {
        Ok(u) => s == Ok::<(InsuranceFundReserve, Stake, StakeRecord), InsuranceFundError>(
            (u.reserve, u.stake, u.record),
        ),
        Err(e) => s == Err::<(InsuranceFundReserve, Stake, StakeRecord), InsuranceFundError>(e),
    }
}

impl InsuranceFund {
    /// Deposits `amount` into the fund for a staker (the token transfer happens outside).
    pub fn deposit(
        e: &soroban_sdk::Env,
        amount: u128,
        is_killed_deposit: bool,
        token_whitelisted: bool,
        optimal_insurance: u128,
        reserve: InsuranceFundReserve,
        stake: Stake,
        now: u64,
    ) -> (r: Result<StakeUpdate, InsuranceFundError>)
        requires
            deposit_fits(
                amount,
                is_killed_deposit,
                token_whitelisted,
                optimal_insurance,
                reserve,
                stake,
            ),
        ensures
            update_matches(
                r,
                deposit_spec(
                    amount,
                    is_killed_deposit,
                    token_whitelisted,
                    optimal_insurance,
                    reserve,
                    stake,
                    now,
                ),
            ),
    {
        let mut reserve = reserve;
        let mut stake = stake;
        if amount == 0 {
            return Err(InsuranceFundError::ZeroAmount);
        }
        if is_killed_deposit {
            return Err(InsuranceFundError::FundDepositKilled);
        }
        if !token_whitelisted {
            return Err(InsuranceFundError::UnsupportedToken);
        }
        let reserve_balance_before = reserve.balance;
        if reserve_balance_before > optimal_insurance || amount > optimal_insurance
            - reserve_balance_before {
            return Err(InsuranceFundError::TooMuchInsurance);
        }
        if !(stake.last_withdraw_request_shares == 0 && stake.last_withdraw_request_value == 0) {
            return Err(InsuranceFundError::IFWithdrawRequestInProgress);
        }
        let stored_shares_base = reserve.shares_base;
        apply_rebase_to_insurance_fund(&mut reserve)?;
        apply_rebase_to_stake(&mut stake, stored_shares_base)?;
        let stake_shares_before = stake.checked_shares(stored_shares_base)?;
        let total_shares_before = reserve.total_shares;
        let n_shares = reserve_amount_to_shares(e, amount, &reserve)?;
        stake.cost_basis = if stake_shares_before == 0 {
            amount
        } else {
            match stake.cost_basis.checked_add(amount) {
                Some(v) => v,
                None => {
                    return Err(InsuranceFundError::MathError);
                },
            }
        };
        stake.increase_shares(stored_shares_base, n_shares)?;
        reserve.add_total_shares(n_shares, now);
        reserve.deposit(amount, now);
        let record = StakeRecord {
            action: StakeAction::Deposit,
            amount,
            reserve_balance_before,
            stake_shares_before,
            total_shares_before,
            stake_shares_after: stake.shares,
            total_shares_after: reserve.total_shares,
        };
        Ok(StakeUpdate { reserve, stake, record })
    }
    /// Locks shares for a later withdrawal of `amount`.
    pub fn request_withdraw(
        e: &soroban_sdk::Env,
        amount: u128,
        is_killed_request_withdraw: bool,
        token_listed: bool,
        reserve: InsuranceFundReserve,
        stake: Stake,
        now: u64,
    ) -> (r: Result<StakeUpdate, InsuranceFundError>)
        requires
            amount != 0 && !is_killed_request_withdraw && token_listed
                && stake.last_withdraw_request_shares == 0 ==> amount_to_shares_fits(
                amount,
                reserve.total_shares,
                reserve.balance,
            ),
        ensures
            update_matches(
                r,
                request_withdraw_spec(
                    amount,
                    is_killed_request_withdraw,
                    token_listed,
                    reserve,
                    stake,
                    now,
                ),
            ),
    {
        let mut reserve = reserve;
        let mut stake = stake;
        if amount == 0 {
            return Err(InsuranceFundError::IFWithdrawRequestTooSmall);
        }
        if is_killed_request_withdraw {
            return Err(InsuranceFundError::FundRequestWithdrawKilled);
        }
        if !token_listed {
            return Err(InsuranceFundError::ValueNotInitialized);
        }
        if stake.last_withdraw_request_shares != 0 {
            return Err(InsuranceFundError::IFWithdrawRequestInProgress);
        }
        let reserve_balance_before = reserve.balance;
        let stored_shares_base = reserve.shares_base;
        let n_shares = reserve_amount_to_shares(e, amount, &reserve)?;
        if n_shares == 0 {
            return Err(InsuranceFundError::IFWithdrawRequestTooSmall);
        }
        let stake_shares = stake.checked_shares(stored_shares_base)?;
        if stake_shares < n_shares {
            return Err(InsuranceFundError::InsufficientIFShares);
        }
        stake.last_withdraw_request_shares = n_shares;
        apply_rebase_to_insurance_fund(&mut reserve)?;
        apply_rebase_to_stake(&mut stake, stored_shares_base)?;
        let stake_shares_before = stake.checked_shares(stored_shares_base)?;
        let total_shares_before = reserve.total_shares;
        if !(stake.last_withdraw_request_shares <= stake_shares_before) {
            return Err(InsuranceFundError::InvalidInsuranceUnstakeSize);
        }
        if stake.base != reserve.shares_base {
            return Err(InsuranceFundError::InvalidIFRebase);
        }
        let value = shares_to_reserve_amount(e, stake.last_withdraw_request_shares, &reserve)?;
        if reserve.balance == 0 {
            return Err(InsuranceFundError::MathError);
        }
        let cap = reserve.balance - 1;
        stake.last_withdraw_request_value = if value <= cap {
            value
        } else {
            cap
        };
        if !(stake.last_withdraw_request_value == 0 || stake.last_withdraw_request_value
            < reserve.balance) {
            return Err(InsuranceFundError::InvalidIFUnstakeSize);
        }
        stake.last_withdraw_request_ts = now;
        let record = StakeRecord {
            action: StakeAction::WithdrawRequest,
            amount: stake.last_withdraw_request_value,
            reserve_balance_before,
            stake_shares_before,
            total_shares_before,
            stake_shares_after: stake.shares,
            total_shares_after: reserve.total_shares,
        };
        Ok(StakeUpdate { reserve, stake, record })
    }

    /// Cancels a pending withdrawal request, forfeiting the shares lost to value gains.
    pub fn cancel_request_withdraw(
        e: &soroban_sdk::Env,
        token_listed: bool,
        reserve: InsuranceFundReserve,
        stake: Stake,
        now: u64,
    ) -> (r: Result<StakeUpdate, InsuranceFundError>)
        requires
            token_listed && stake.last_withdraw_request_shares != 0 ==> settlement_fits(
                reserve,
                stake,
            ),
        ensures
            update_matches(r, cancel_request_withdraw_spec(token_listed, reserve, stake, now)),
    {
        let mut reserve = reserve;
        let mut stake = stake;
        if !token_listed {
            return Err(InsuranceFundError::ValueNotInitialized);
        }
        if stake.last_withdraw_request_shares == 0 {
            return Err(InsuranceFundError::NoIFWithdrawRequestInProgress);
        }
        let reserve_balance_before = reserve.balance;
        let stored_shares_base = reserve.shares_base;
        apply_rebase_to_insurance_fund(&mut reserve)?;
        apply_rebase_to_stake(&mut stake, stored_shares_base)?;
        let stake_shares_before = stake.checked_shares(stored_shares_base)?;
        let total_shares_before = reserve.total_shares;
        if stake.base != reserve.shares_base {
            return Err(InsuranceFundError::InvalidIFRebase);
        }
        let stake_shares_lost = calculate_shares_lost(e, &stake, &reserve)?;
        stake.decrease_shares(stored_shares_base, stake_shares_lost)?;
        if !(reserve.total_shares >= stake_shares_lost) {
            return Err(InsuranceFundError::InsufficientIFShares);
        }
        reserve.remove_total_shares(stake_shares_lost, now);
        stake.last_withdraw_request_shares = 0;
        stake.last_withdraw_request_value = 0;
        stake.last_withdraw_request_ts = now;
        let record = StakeRecord {
            action: StakeAction::WithdrawCancelRequest,
            amount: 0,
            reserve_balance_before,
            stake_shares_before,
            total_shares_before,
            stake_shares_after: stake.shares,
            total_shares_after: reserve.total_shares,
        };
        Ok(StakeUpdate { reserve, stake, record })
    }

    /// Completes a withdrawal request after the unstaking period; the record's amount is what
    /// the staker is paid.
    pub fn withdraw(
        e: &soroban_sdk::Env,
        is_killed_withdraw: bool,
        token_listed: bool,
        unstaking_period: u64,
        reserve: InsuranceFundReserve,
        stake: Stake,
        now: u64,
    ) -> (r: Result<StakeUpdate, InsuranceFundError>)
        requires
            !is_killed_withdraw && token_listed && now >= stake.last_withdraw_request_ts && now
                - stake.last_withdraw_request_ts >= unstaking_period ==> settlement_fits(
                reserve,
                stake,
            ),
        ensures
            update_matches(
                r,
                withdraw_spec(
                    is_killed_withdraw,
                    token_listed,
                    unstaking_period,
                    reserve,
                    stake,
                    now,
                ),
            ),
    {
        let mut reserve = reserve;
        let mut stake = stake;
        if is_killed_withdraw {
            return Err(InsuranceFundError::FundWithdrawKilled);
        }
        if !token_listed {
            return Err(InsuranceFundError::ValueNotInitialized);
        }
        if !(now >= stake.last_withdraw_request_ts) {
            return Err(InsuranceFundError::InvalidTimestamp);
        }
        let time_since_withdraw_request = now - stake.last_withdraw_request_ts;
        if !(time_since_withdraw_request >= unstaking_period) {
            return Err(InsuranceFundError::TryingToRemoveLiquidityTooFast);
        }
        let reserve_balance_before = reserve.balance;
        let stored_shares_base = reserve.shares_base;
        apply_rebase_to_insurance_fund(&mut reserve)?;
        apply_rebase_to_stake(&mut stake, stored_shares_base)?;
        let stake_shares_before = stake.checked_shares(stored_shares_base)?;
        let total_shares_before = reserve.total_shares;
        let n_shares = stake.last_withdraw_request_shares;
        if n_shares == 0 {
            return Err(InsuranceFundError::InvalidIFUnstake);
        }
        if !(stake_shares_before >= n_shares) {
            return Err(InsuranceFundError::InsufficientIFShares);
        }
        let amount = shares_to_reserve_amount(e, n_shares, &reserve)?;
        let _if_shares_lost = calculate_shares_lost(e, &stake, &reserve)?;
        let withdraw_amount = if amount <= stake.last_withdraw_request_value {
            amount
        } else {
            stake.last_withdraw_request_value
        };
        stake.decrease_shares(stored_shares_base, n_shares)?;
        if !(stake.cost_basis >= withdraw_amount) {
            return Err(InsuranceFundError::CostBasisUnderflow);
        }
        stake.cost_basis = stake.cost_basis - withdraw_amount;
        if !(reserve.total_shares >= n_shares) {
            return Err(InsuranceFundError::InsufficientIFShares);
        }
        reserve.remove_total_shares(n_shares, now);
        reserve.withdraw(withdraw_amount, now);
        stake.last_withdraw_request_shares = 0;
        stake.last_withdraw_request_value = 0;
        stake.last_withdraw_request_ts = now;
        if !(reserve.balance > 0) {
            return Err(InsuranceFundError::InvalidIFDetected);
        }
        let record = StakeRecord {
            action: StakeAction::Withdraw,
            amount: withdraw_amount,
            reserve_balance_before,
            stake_shares_before,
            total_shares_before,
            stake_shares_after: stake.shares,
            total_shares_after: reserve.total_shares,
        };
        Ok(StakeUpdate { reserve, stake, record })
    }
    /// A premium payment: refused for a zero amount or a sender that is not an approved payer.
    pub fn pay_premium(amount: u128, is_premium_payer: bool) -> (r: Result<(), InsuranceFundError>)
        ensures
            r == (if amount == 0 {
                Err(InsuranceFundError::ZeroAmount)
            } else if !is_premium_payer {
                Err(InsuranceFundError::NotAuthorized)
            } else {
                Ok(())
            }),
    {
        if amount == 0 {
            return Err(InsuranceFundError::ZeroAmount);
        }
        if !is_premium_payer {
            return Err(InsuranceFundError::NotAuthorized);
        }
        Ok(())
    }

    /// Aligns a reserve with the token balance the fund actually holds; refused for tokens never
    /// whitelisted.
    pub fn sync(token_listed: bool, reserve: InsuranceFundReserve, balance: u128, now: u64) -> (r:
        Result<InsuranceFundReserve, InsuranceFundError>)
        ensures
            !token_listed ==> r == Err::<InsuranceFundReserve, InsuranceFundError>(
                InsuranceFundError::ValueNotInitialized,
            ),
            token_listed ==> r == Ok::<InsuranceFundReserve, InsuranceFundError>(
                InsuranceFundReserve { balance, last_update_ts: now, ..reserve },
            ),
    {
        if !token_listed {
            return Err(InsuranceFundError::ValueNotInitialized);
        }
        let mut reserve = reserve;
        reserve.update_balance(balance, now);
        Ok(reserve)
    }

    /// The excess of the held token balance over the booked balance (the booked balance read as
    /// an `i128`), to be handed to the caller when positive; `MathError` when the difference
    /// leaves an `i128`.
    pub fn skim(token_listed: bool, reserve_balance: u128, token_balance: i128) -> (r: Result<
        i128,
        InsuranceFundError,
    >)
        ensures
            ({
                let booked = if reserve_balance <= i128::MAX {
                    reserve_balance as int
                } else {
                    reserve_balance - 0x1_0000_0000_0000_0000_0000_0000_0000_0000int
                };
                let diff = token_balance - booked;
                r == (if !token_listed {
                    Err(InsuranceFundError::ValueNotInitialized)
                } else if i128::MIN <= diff <= i128::MAX {
                    Ok(diff as i128)
                } else {
                    Err(InsuranceFundError::MathError)
                })
            }),
    {
        if !token_listed {
            return Err(InsuranceFundError::ValueNotInitialized);
        }
        let booked: i128 = if reserve_balance <= 170141183460469231731687303715884105727u128 {
            reserve_balance as i128
        } else {
            let low: u128 = reserve_balance - 170141183460469231731687303715884105728u128;
            (low as i128) + i128::MIN
        };
        match token_balance.checked_sub(booked) {
            Some(v) => Ok(v),
            None => Err(InsuranceFundError::MathError),
        }
    }

    /// The fund's utilization: the value of its reserves against the optimal insurance.
    pub fn get_utilization(
        e: &soroban_sdk::Env,
        valuations: &Vec<ReserveValuation>,
        optimal_insurance: u128,
    ) -> (r: Result<u32, InsuranceFundError>)
        ensures
            r matches Ok(u) ==> (total_value_spec(valuations@) matches Ok(v) && u
                == utilization_spec(v as u128, optimal_insurance)),
            r matches Err(err) ==> total_value_spec(valuations@) == Err::<int, InsuranceFundError>(
                err,
            ),
    {
        let total_reserve_value = calculate_total_reserve_value(valuations)?;
        Ok(calculate_utilization(e, total_reserve_value, optimal_insurance))
    }

    /// The staking interest rate at the fund's current utilization. The utilization and the
    /// stored optimal utilization are in percentage precision (100% is `PERCENTAGE_PRECISION`);
    /// both are brought to basis points, the scale of the rate curve, before the curve is read.
    pub fn get_rate(
        e: &soroban_sdk::Env,
        valuations: &Vec<ReserveValuation>,
        optimal_insurance: u128,
        optimal_utilization: u32,
        base_rate: i32,
        slope1: u32,
        slope2: u32,
    ) -> (r: Result<i32, InsuranceFundError>)
        ensures
            r matches Ok(rate) ==> (total_value_spec(valuations@) matches Ok(v) && rate_spec(
                (utilization_spec(v as u128, optimal_insurance) / PERCENTAGE_PER_BASIS_POINT as int)
                    as u32,
                optimal_utilization / PERCENTAGE_PER_BASIS_POINT,
                base_rate,
                slope1,
                slope2,
            ) == Ok::<int, InsuranceFundError>(rate as int)),
            r matches Err(err) ==> (total_value_spec(valuations@) == Err::<int, InsuranceFundError>(
                err,
            ) || (total_value_spec(valuations@) matches Ok(v) && rate_spec(
                (utilization_spec(v as u128, optimal_insurance) / PERCENTAGE_PER_BASIS_POINT as int)
                    as u32,
                optimal_utilization / PERCENTAGE_PER_BASIS_POINT,
                base_rate,
                slope1,
                slope2,
            ) == Err::<int, InsuranceFundError>(err))),
    {
        let total_reserve_value = calculate_total_reserve_value(valuations)?;
        let utilization = calculate_utilization(e, total_reserve_value, optimal_insurance);
        calculate_rate(
            utilization / PERCENTAGE_PER_BASIS_POINT,
            optimal_utilization / PERCENTAGE_PER_BASIS_POINT,
            base_rate,
            slope1,
            slope2,
        )
    }

    /// The new optimal insurance: the system-wide liquidity imbalance, or zero when there is
    /// none.
    pub fn sync_optimal_insurance(total_liquidity_imbalance: i128) -> (r: u128)
        ensures
            r == (if total_liquidity_imbalance <= 0 {
                0
            } else {
                total_liquidity_imbalance as int
            }),
    {
        if total_liquidity_imbalance <= 0 {
            0
        } else {
            total_liquidity_imbalance as u128
        }
    }

    /// The outcome of a claim filed for a pool: the pool must be found and must accept the
    /// claim call (`paid` is what it took, offered the whole reserve balance); a non-zero
    /// payment must stay below the reserve balance, and must leave the stored balance positive.
    pub fn file_claim(pool_found: bool, paid: Option<u128>, reserve_balance: u128) -> (r: Result<
        (),
        InsuranceFundError,
    >)
        ensures
            r == (if !pool_found {
                Err(InsuranceFundError::QueryPoolFailed)
            } else {
                match paid {
                    None => Err(InsuranceFundError::PayInsuranceClaimFailed),
                    Some(p) => if p > 0 && !(p < reserve_balance) {
                        Err(InsuranceFundError::InsufficientCollateral)
                    } else if p > 0 && reserve_balance == 0 {
                        Err(InsuranceFundError::InvalidIFDetected)
                    } else {
                        Ok(())
                    },
                }
            }),
    {
        if !pool_found {
            return Err(InsuranceFundError::QueryPoolFailed);
        }
        match paid {
            None => Err(InsuranceFundError::PayInsuranceClaimFailed),
            Some(p) => {
                if p > 0 {
                    if !(p < reserve_balance) {
                        return Err(InsuranceFundError::InsufficientCollateral);
                    }
                    if !(reserve_balance > 0) {
                        return Err(InsuranceFundError::InvalidIFDetected);
                    }
                }
                Ok(())
            },
        }
    }

    /// Whitelisting a token: refused (as `AdminNotSet`) when the token is already active.
    pub fn add_token_whitelist(already_active: bool) -> (r: Result<(), InsuranceFundError>)
        ensures
            r == (if already_active {
                Err(InsuranceFundError::AdminNotSet)
            } else {
                Ok(())
            }),
    {
        if already_active {
            return Err(InsuranceFundError::AdminNotSet);
        }
        Ok(())
    }

    /// Activates or deactivates a whitelisted token.
    pub fn set_token_whitelist_status(token: Option<WhitelistToken>, status: bool) -> (r: Result<
        WhitelistToken,
        InsuranceFundError,
    >)
        ensures
            token is None ==> r is Err && r->Err_0 == InsuranceFundError::ValueNotInitialized,
            token matches Some(t) ==> r matches Ok(u) && u.address == t.address && u.symbol
                == t.symbol && u.active == status,
    {
        match token {
            None => Err(InsuranceFundError::ValueNotInitialized),
            Some(t) => Ok(WhitelistToken { active: status, ..t }),
        }
    }

    /// Removing a token from the whitelist: it must be listed, inactive (else `AdminNotSet`),
    /// and its reserve drained (else `AdminNotSet`).
    pub fn remove_whitelist_token(token: Option<&WhitelistToken>, reserve_balance: u128) -> (r:
        Result<(), InsuranceFundError>)
        ensures
            r == (match token {
                None => Err(InsuranceFundError::ValueNotInitialized),
                Some(t) => if t.active || reserve_balance != 0 {
                    Err(InsuranceFundError::AdminNotSet)
                } else {
                    Ok(())
                },
            }),
    {
        match token {
            None => Err(InsuranceFundError::ValueNotInitialized),
            Some(t) => {
                if t.active {
                    return Err(InsuranceFundError::AdminNotSet);
                }
                if reserve_balance != 0 {
                    return Err(InsuranceFundError::AdminNotSet);
                }
                Ok(())
            },
        }
    }
}


/// A fund that holds a balance but no shares seeds its share supply with that balance, one
/// share per unit.
pub proof fn lemma_unowned_balance_seeds_the_supply(balance: u128)
    requires
        balance > 0,
    ensures
        fund_shares_after_rebase(0, balance) == balance,
{
}

/// A deposit into a funded reserve that has no shares yet buys exactly one share per unit
/// deposited: the stake gains `amount` shares, and the supply becomes the seeded balance plus
/// `amount`, as does the balance.
pub proof fn lemma_deposit_into_unowned_fund_mints_one_for_one(
    amount: u128,
    optimal_insurance: u128,
    reserve: InsuranceFundReserve,
    stake: Stake,
    now: u64,
)
    requires
        amount > 0,
        reserve.balance > 0,
        reserve.total_shares == 0,
        reserve.balance + amount <= optimal_insurance,
        stake.base == reserve.shares_base,
        stake.last_withdraw_request_shares == 0,
        stake.last_withdraw_request_value == 0,
        stake.shares + amount <= u128::MAX,
        stake.shares == 0 || stake.cost_basis + amount <= u128::MAX,
    ensures
        deposit_spec(amount, false, true, optimal_insurance, reserve, stake, now) matches Ok(
            (r2, s2, _),
        ) && s2.shares == stake.shares + amount && r2.total_shares == reserve.balance + amount
            && r2.balance == reserve.balance + amount,
{
    let b = reserve.balance as int;
    assert((amount * b) / b == amount) by {
        vstd::arithmetic::div_mod::lemma_div_by_multiple(amount as int, b);
        assert(amount * b == b * amount) by (nonlinear_arith);
    }
}

/// A deposit books the whole amount into the balance, gives the depositor every share it mints,
/// and prices those shares against the balance before the deposit, rounding down: the
/// minted shares are the most whose value at that price does not exceed the amount.
pub proof fn lemma_deposit_mints_a_fair_share(
    amount: u128,
    is_killed_deposit: bool,
    token_whitelisted: bool,
    optimal_insurance: u128,
    reserve: InsuranceFundReserve,
    stake: Stake,
    now: u64,
)
    ensures
        deposit_spec(
            amount,
            is_killed_deposit,
            token_whitelisted,
            optimal_insurance,
            reserve,
            stake,
            now,
        ) matches Ok((r2, s2, rec)) ==> {
            let minted = r2.total_shares - rec.total_shares_before;
            let fits = amount_to_shares_fits(amount, rec.total_shares_before, reserve.balance);
            &&& r2.balance == reserve.balance + amount
            &&& fits && r2.total_shares < u128::MAX && s2.shares < u128::MAX ==> s2.shares
                - rec.stake_shares_before == minted
            &&& fits && reserve.balance > 0 && r2.total_shares < u128::MAX ==> minted
                * reserve.balance <= amount * rec.total_shares_before < (minted + 1)
                * reserve.balance
        },
{
    let r1 = rebased_fund(reserve);
    if deposit_spec(
        amount,
        is_killed_deposit,
        token_whitelisted,
        optimal_insurance,
        reserve,
        stake,
        now,
    ) is Ok {
        let s1 = rebased_stake(stake, reserve.shares_base)->Ok_0;
        let n = amount_to_shares_spec(amount, r1.total_shares, r1.balance)->Ok_0;
        assert(r1.balance == reserve.balance);
        if reserve.balance > 0 {
            let t = r1.total_shares as int;
            let b = reserve.balance as int;
            let x = amount * t;
            assert(n == x / b);
            vstd::arithmetic::div_mod::lemma_fundamental_div_mod(x, b);
            let rem = x % b;
            assert(n * b <= x < (n + 1) * b) by (nonlinear_arith)
                requires
                    x == b * n + rem,
                    0 <= rem < b,
            ;
        }
        let (r2, s2, rec) = deposit_spec(
            amount,
            is_killed_deposit,
            token_whitelisted,
            optimal_insurance,
            reserve,
            stake,
            now,
        )->Ok_0;
        assert(rec.total_shares_before == r1.total_shares);
        assert(rec.stake_shares_before == s1.shares);
    }
}

/// A deposit is refused while the staker has a withdrawal request pending.
pub proof fn lemma_no_deposit_during_withdraw_request(
    amount: u128,
    is_killed_deposit: bool,
    token_whitelisted: bool,
    optimal_insurance: u128,
    reserve: InsuranceFundReserve,
    stake: Stake,
    now: u64,
)
    requires
        stake.last_withdraw_request_shares != 0 || stake.last_withdraw_request_value != 0,
    ensures
        deposit_spec(
            amount,
            is_killed_deposit,
            token_whitelisted,
            optimal_insurance,
            reserve,
            stake,
            now,
        ) is Err,
{
}

/// A withdrawal request is refused while another one is pending.
pub proof fn lemma_one_request_at_a_time(
    amount: u128,
    is_killed_request_withdraw: bool,
    token_listed: bool,
    reserve: InsuranceFundReserve,
    stake: Stake,
    now: u64,
)
    requires
        stake.last_withdraw_request_shares != 0,
    ensures
        request_withdraw_spec(amount, is_killed_request_withdraw, token_listed, reserve, stake, now)
            is Err,
{
}

/// A completed withdrawal pays no more than the value locked when it was requested, and no more
/// than the staker's cost basis; it clears the request, and the payout leaves the reserve's
/// balance, which stays positive.
pub proof fn lemma_withdraw_pays_at_most_requested(
    is_killed_withdraw: bool,
    token_listed: bool,
    unstaking_period: u64,
    reserve: InsuranceFundReserve,
    stake: Stake,
    now: u64,
)
    ensures
        withdraw_spec(is_killed_withdraw, token_listed, unstaking_period, reserve, stake, now)
            matches Ok((r2, s2, rec)) ==> {
            &&& rec.amount <= stake.last_withdraw_request_value
            &&& rec.amount <= stake.cost_basis
            &&& s2.cost_basis == stake.cost_basis - rec.amount
            &&& s2.last_withdraw_request_shares == 0
            &&& s2.last_withdraw_request_value == 0
            &&& r2.balance == reserve.balance - rec.amount
            &&& r2.balance > 0
        },
{
    let r1 = rebased_fund(reserve);
    if let Ok(s1) = rebased_stake(stake, reserve.shares_base) {
        let n = s1.last_withdraw_request_shares;
        if 0 < n && n <= r1.total_shares {
            crate::stake::lemma_pro_rata_le(r1.balance as int, n as int, r1.total_shares as int);
        }
    }
}

/// Cancelling a withdrawal request never adds shares: neither the stake nor the supply grows
/// past its value after the rebase, and the request is cleared.
pub proof fn lemma_cancel_never_adds_shares(
    token_listed: bool,
    reserve: InsuranceFundReserve,
    stake: Stake,
    now: u64,
)
    ensures
        cancel_request_withdraw_spec(token_listed, reserve, stake, now) matches Ok((r2, s2, _))
            ==> {
            &&& rebased_stake(stake, reserve.shares_base) matches Ok(s1)
            &&& s2.shares <= s1.shares
            &&& r2.total_shares <= rebased_fund(reserve).total_shares
            &&& s2.last_withdraw_request_shares == 0
            &&& s2.last_withdraw_request_value == 0
            &&& r2.balance == reserve.balance
        },
{
}

} // verus!
