use vstd::prelude::*;
use crate::constants::BASIS_POINTS;

verus! {

/// Errors raised by the buffer.
#[derive(Clone, Copy, Debug, PartialEq, Eq, Structural)]
pub enum BufferError {
    ReserveMaxBalanceThreshold,
    PayoutTooSoon,
    InsufficentFunds,
    WithdrawalOverMinimumReserve,
    ZeroAmount,
    AlreadyInitialized,
    BufferDepositKilled,
    BufferRequestPayoutKilled,
    MathError,
}

impl BufferError {
    /// The contract error number under which the error is reported on chain.
    pub fn code(&self) -> (c: u32)
        ensures
            c == match self {
                BufferError::ReserveMaxBalanceThreshold => 2u32,
                BufferError::PayoutTooSoon => 3,
                BufferError::InsufficentFunds => 4,
                BufferError::WithdrawalOverMinimumReserve => 5,
                BufferError::ZeroAmount => 8,
                BufferError::AlreadyInitialized => 15,
                BufferError::BufferDepositKilled => 6,
                BufferError::BufferRequestPayoutKilled => 7,
                BufferError::MathError => 511,
            },
    {
        match self {
            BufferError::ReserveMaxBalanceThreshold => 2,
            BufferError::PayoutTooSoon => 3,
            BufferError::InsufficentFunds => 4,
            BufferError::WithdrawalOverMinimumReserve => 5,
            BufferError::ZeroAmount => 8,
            BufferError::AlreadyInitialized => 15,
            BufferError::BufferDepositKilled => 6,
            BufferError::BufferRequestPayoutKilled => 7,
            BufferError::MathError => 511,
        }
    }
}

/// The buffer's books for one token.
#[derive(Clone, Copy, Debug, PartialEq, Eq, Structural)]
pub struct Reserve {
    pub balance: u128,
    pub max_balance: u128,
    pub total_inflow: u128,
    pub total_outflow: u128,
    pub total_withdraw: u128,
    pub last_payout: u128,
    pub last_payout_ts: u64,
    pub last_update_ts: u64,
}

/// A booked deposit: balance and inflow grow; `MathError` when either overflows.
pub open spec fn reserve_deposit_spec(r: Reserve, amount: u128, now: u64) -> Result<Reserve, BufferError> {
    if r.balance + amount > u128::MAX || r.total_inflow + amount > u128::MAX {
        Err(BufferError::MathError)
    } else {
        Ok(
            Reserve {
                balance: (r.balance + amount) as u128,
                total_inflow: (r.total_inflow + amount) as u128,
                last_update_ts: now,
                ..r
            },
        )
    }
}

/// A booked payout: balance shrinks, outflow grows, and the payout is recorded as the last one;
/// `MathError` when the balance is short or the outflow overflows.
pub open spec fn reserve_payout_spec(r: Reserve, amount: u128, now: u64) -> Result<Reserve, BufferError> {
    if r.balance < amount || r.total_outflow + amount > u128::MAX {
        Err(BufferError::MathError)
    } else {
        Ok(
            Reserve {
                balance: (r.balance - amount) as u128,
                total_outflow: (r.total_outflow + amount) as u128,
                last_payout: amount,
                last_payout_ts: now,
                last_update_ts: now,
                ..r
            },
        )
    }
}

/// A booked withdrawal: balance shrinks, outflow and withdrawal totals grow; `MathError` when
/// the balance is short or a total overflows.
pub open spec fn reserve_withdraw_spec(r: Reserve, amount: u128, now: u64) -> Result<Reserve, BufferError> {
    if r.balance < amount || r.total_outflow + amount > u128::MAX || r.total_withdraw + amount
        > u128::MAX {
        Err(BufferError::MathError)
    } else {
        Ok(
            Reserve {
                balance: (r.balance - amount) as u128,
                total_outflow: (r.total_outflow + amount) as u128,
                total_withdraw: (r.total_withdraw + amount) as u128,
                last_update_ts: now,
                ..r
            },
        )
    }
}

impl Reserve {
    /// An empty reserve stamped with `now`.
    pub fn new(now: u64) -> (r: Self)
        ensures
            r == (Reserve {
                balance: 0,
                max_balance: 0,
                total_inflow: 0,
                total_outflow: 0,
                total_withdraw: 0,
                last_payout: 0,
                last_payout_ts: 0,
                last_update_ts: now,
            }),
    {
        Reserve {
            balance: 0,
            max_balance: 0,
            total_inflow: 0,
            total_outflow: 0,
            total_withdraw: 0,
            last_payout: 0,
            last_payout_ts: 0,
            last_update_ts: now,
        }
    }

    /// Sets the cap on the balance (zero means no cap).
    pub fn update_max_balance(self, max_balance: u128, now: u64) -> (r: Self)
        ensures
            r == (Reserve { max_balance, last_update_ts: now, ..self }),
    {
        Reserve { max_balance, last_update_ts: now, ..self }
    }

    /// Books a deposit.
    pub fn deposit(self, amount: u128, now: u64) -> (r: Result<Self, BufferError>)
        ensures
            r == reserve_deposit_spec(self, amount, now),
    {
        let balance = match self.balance.checked_add(amount) {
            Some(v) => v,
            None => {
                return Err(BufferError::MathError);
            },
        };
        let total_inflow = match self.total_inflow.checked_add(amount) {
            Some(v) => v,
            None => {
                return Err(BufferError::MathError);
            },
        };
        Ok(Reserve { balance, total_inflow, last_update_ts: now, ..self })
    }

    /// Books a payout to a pool.
    pub fn payout(self, amount: u128, now: u64) -> (r: Result<Self, BufferError>)
        ensures
            r == reserve_payout_spec(self, amount, now),
    {
        let balance = match self.balance.checked_sub(amount) {
            Some(v) => v,
            None => {
                return Err(BufferError::MathError);
            },
        };
        let total_outflow = match self.total_outflow.checked_add(amount) {
            Some(v) => v,
            None => {
                return Err(BufferError::MathError);
            },
        };
        Ok(
            Reserve {
                balance,
                total_outflow,
                last_payout: amount,
                last_payout_ts: now,
                last_update_ts: now,
                ..self
            },
        )
    }

    /// Books a surplus withdrawal.
    pub fn withdraw(self, amount: u128, now: u64) -> (r: Result<Self, BufferError>)
        ensures
            r == reserve_withdraw_spec(self, amount, now),
    {
        let balance = match self.balance.checked_sub(amount) {
            Some(v) => v,
            None => {
                return Err(BufferError::MathError);
            },
        };
        let total_outflow = match self.total_outflow.checked_add(amount) {
            Some(v) => v,
            None => {
                return Err(BufferError::MathError);
            },
        };
        let total_withdraw = match self.total_withdraw.checked_add(amount) {
            Some(v) => v,
            None => {
                return Err(BufferError::MathError);
            },
        };
        Ok(Reserve { balance, total_outflow, total_withdraw, last_update_ts: now, ..self })
    }

    /// Sets the balance to a measured amount.
    pub fn update_balance(self, amount: u128, now: u64) -> (r: Self)
        ensures
            r == (Reserve { balance: amount, last_update_ts: now, ..self }),
    {
        Reserve { balance: amount, last_update_ts: now, ..self }
    }
}

/// The books balance: what came in equals what went out plus what is held.
pub open spec fn books_balance(r: Reserve) -> bool {
    r.balance + r.total_outflow == r.total_inflow
}

/// A new reserve balances its books, and deposits, payouts and withdrawals keep them balanced.
pub proof fn lemma_flows_keep_books_balanced(r: Reserve, amount: u128, now: u64)
    requires
        books_balance(r),
    ensures
        books_balance(
            Reserve {
                balance: 0,
                max_balance: 0,
                total_inflow: 0,
                total_outflow: 0,
                total_withdraw: 0,
                last_payout: 0,
                last_payout_ts: 0,
                last_update_ts: now,
            },
        ),
        reserve_deposit_spec(r, amount, now) matches Ok(d) ==> books_balance(d),
        reserve_payout_spec(r, amount, now) matches Ok(p) ==> books_balance(p),
        reserve_withdraw_spec(r, amount, now) matches Ok(w) ==> books_balance(w),
{
}

/// A payout that follows a deposit of the same amount restores the balance.
pub proof fn lemma_payout_undoes_deposit(r: Reserve, amount: u128, now: u64, later: u64)
    requires
        reserve_deposit_spec(r, amount, now) is Ok,
        reserve_payout_spec(reserve_deposit_spec(r, amount, now)->Ok_0, amount, later) is Ok,
    ensures
        reserve_payout_spec(reserve_deposit_spec(r, amount, now)->Ok_0, amount, later)->Ok_0.balance
            == r.balance,
{
}

/// The buffer contract: a reserve of protocol revenue that covers short-term pool deficits. Its
/// entry points are written here as transitions from the stored state and the request to the
/// new state (or the error that aborts the call).
pub struct Buffer;

/// The floor that a surplus withdrawal must leave: the reserve ratio (in basis points) of the
/// balance.
pub open spec fn min_reserve_spec(balance: u128, min_reserve_ratio: u32) -> int {
    (balance * min_reserve_ratio) / (BASIS_POINTS as int)
}

impl Buffer {
    /// A deposit of protocol revenue: refused while deposits are killed, or when a capped
    /// reserve would pass its cap.
    pub fn deposit(is_killed_deposit: bool, reserve: Reserve, amount: u128, now: u64) -> (r: Result<
        Reserve,
        BufferError,
    >)
        requires
            reserve.max_balance > 0 ==> reserve.balance + amount <= u128::MAX,
        ensures
            r == (if is_killed_deposit {
                Err(BufferError::BufferDepositKilled)
            } else if reserve.max_balance > 0 && reserve.balance + amount > reserve.max_balance {
                Err(BufferError::ReserveMaxBalanceThreshold)
            } else {
                reserve_deposit_spec(reserve, amount, now)
            }),
    {
        if is_killed_deposit {
            return Err(BufferError::BufferDepositKilled);
        }
        if reserve.max_balance > 0 && reserve.balance + amount > reserve.max_balance {
            return Err(BufferError::ReserveMaxBalanceThreshold);
        }
        reserve.deposit(amount, now)
    }

    /// Aligns the reserve with the token balance that the buffer actually holds.
    pub fn sync(reserve: Reserve, balance: u128, now: u64) -> (r: Reserve)
        ensures
            r == (Reserve { balance, last_update_ts: now, ..reserve }),
    {
        reserve.update_balance(balance, now)
    }

    /// The excess of the held token balance over the booked balance, to be handed to the caller
    /// when positive (reinterpreted as an `i128`); `MathError` when the booked balance is larger.
    pub fn skim(reserve: Reserve, balance: u128) -> (r: Result<i128, BufferError>)
        ensures
            balance < reserve.balance ==> r == Err::<i128, BufferError>(BufferError::MathError),
            balance >= reserve.balance ==> (r matches Ok(v) && v as int == (if balance
                - reserve.balance <= i128::MAX {
                balance - reserve.balance
            } else {
                balance - reserve.balance - 0x1_0000_0000_0000_0000_0000_0000_0000_0000int
            })),
    {
        if balance < reserve.balance {
            return Err(BufferError::MathError);
        }
        let skimmed: u128 = balance - reserve.balance;
        if skimmed <= 170141183460469231731687303715884105727u128 {
            Ok(skimmed as i128)
        } else {
            let low: u128 = skimmed - 170141183460469231731687303715884105728u128;
            Ok((low as i128) + i128::MIN)
        }
    }

    /// A payout toward a pool's deficit: refused while payouts are killed, before the minimum
    /// time since the last payout has fully passed, or beyond the balance; the new last payout time is
    /// `now`.
    pub fn resolve_liquidity_deficit(
        is_killed_resolve_liquidity_deficit: bool,
        last_payout_ts: u64,
        min_time_between_payouts: u64,
        reserve: Reserve,
        amount: u128,
        now: u64,
    ) -> (r: Result<Reserve, BufferError>)
        requires
            !is_killed_resolve_liquidity_deficit ==> last_payout_ts <= now,
        ensures
            r == (if is_killed_resolve_liquidity_deficit {
                Err(BufferError::BufferRequestPayoutKilled)
            } else if now - last_payout_ts < min_time_between_payouts {
                Err(BufferError::PayoutTooSoon)
            } else if amount > reserve.balance {
                Err(BufferError::InsufficentFunds)
            } else {
                reserve_payout_spec(reserve, amount, now)
            }),
    {
        if is_killed_resolve_liquidity_deficit {
            return Err(BufferError::BufferRequestPayoutKilled);
        }
        if now - last_payout_ts < min_time_between_payouts {
            return Err(BufferError::PayoutTooSoon);
        }
        if amount > reserve.balance {
            return Err(BufferError::InsufficentFunds);
        }
        reserve.payout(amount, now)
    }

    /// A surplus withdrawal: refused beyond the balance, or when it would leave less than the
    /// minimum reserve ratio of the balance.
    pub fn withdraw_surplus(reserve: Reserve, min_reserve_ratio: u32, amount: u128, now: u64) -> (r:
        Result<Reserve, BufferError>)
        requires
            reserve.balance * min_reserve_ratio <= u128::MAX,
        ensures
            r == (if amount > reserve.balance {
                Err(BufferError::InsufficentFunds)
            } else if reserve.balance - amount < min_reserve_spec(
                reserve.balance,
                min_reserve_ratio,
            ) {
                Err(BufferError::WithdrawalOverMinimumReserve)
            } else {
                reserve_withdraw_spec(reserve, amount, now)
            }),
            r matches Ok(w) ==> w.balance >= min_reserve_spec(reserve.balance, min_reserve_ratio),
    {
        if amount > reserve.balance {
            return Err(BufferError::InsufficentFunds);
        }
        let min_reserve = (reserve.balance * (min_reserve_ratio as u128)) / BASIS_POINTS;
        if reserve.balance - amount < min_reserve {
            return Err(BufferError::WithdrawalOverMinimumReserve);
        }
        reserve.withdraw(amount, now)
    }

    /// Sets a reserve's cap on the balance.
    pub fn set_reserve_max_balance(reserve: Reserve, max_balance: u128, now: u64) -> (r: Reserve)
        ensures
            r == (Reserve { max_balance, last_update_ts: now, ..reserve }),
    {
        reserve.update_max_balance(max_balance, now)
    }
}

} // verus!
