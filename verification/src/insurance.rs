use vstd::prelude::*;
use crate::insurance_errors::InsuranceFundError;
use crate::math::log10_floor;
use crate::math::pow10;
use crate::math::log10_iter;
use crate::math::pow10_u128;
use crate::math::lemma_log10_bracket;
use crate::math::lemma_pow10_monotone;
use crate::fixed_point::soroban_mul_floor_u128;

verus! {

/// `a + b`, held at `u128::MAX`.
pub open spec fn sat_add(a: u128, b: u128) -> u128 {
    if a + b > u128::MAX {
        u128::MAX
    } else {
        (a + b) as u128
    }
}

/// `a - b`, held at zero.
pub open spec fn sat_sub(a: u128, b: u128) -> u128 {
    if a >= b {
        (a - b) as u128
    } else {
        0
    }
}

/// The insurance fund's books for one token: its balance, flows, and the share supply that
/// stakers hold against it.
pub struct InsuranceFundReserve {
    pub token: soroban_sdk::Address,
    pub balance: u128,
    pub total_deposits: u128,
    pub total_withdrawals: u128,
    pub total_claims: u128,
    pub total_shares: u128,
    pub shares_base: u128,
    pub last_claim: u128,
    pub last_claim_ts: u64,
    pub last_update_ts: u64,
}

impl InsuranceFundReserve {
    /// An empty reserve for `token`, stamped with `now`.
    pub fn new(token: soroban_sdk::Address, now: u64) -> (r: Self)
        ensures
            r.token == token,
            r.balance == 0,
            r.total_deposits == 0,
            r.total_withdrawals == 0,
            r.total_claims == 0,
            r.total_shares == 0,
            r.shares_base == 0,
            r.last_claim == 0,
            r.last_claim_ts == 0,
            r.last_update_ts == now,
    {
        InsuranceFundReserve {
            token,
            balance: 0,
            total_deposits: 0,
            total_withdrawals: 0,
            total_claims: 0,
            total_shares: 0,
            shares_base: 0,
            last_claim: 0,
            last_claim_ts: 0,
            last_update_ts: now,
        }
    }

    /// Books a deposit: the balance and the deposit total grow (saturating).
    pub fn deposit(&mut self, amount: u128, now: u64)
        ensures
            *final(self) == (InsuranceFundReserve {
                balance: sat_add(old(self).balance, amount),
                total_deposits: sat_add(old(self).total_deposits, amount),
                last_update_ts: now,
                ..*old(self)
            }),
    {
        self.balance = self.balance.saturating_add(amount);
        self.total_deposits = self.total_deposits.saturating_add(amount);
        self.last_update_ts = now;
    }

    /// Books a withdrawal: the balance shrinks (held at zero), the withdrawal total grows.
    pub fn withdraw(&mut self, amount: u128, now: u64)
        ensures
            *final(self) == (InsuranceFundReserve {
                balance: sat_sub(old(self).balance, amount),
                total_withdrawals: sat_add(old(self).total_withdrawals, amount),
                last_update_ts: now,
                ..*old(self)
            }),
    {
        self.balance = self.balance.saturating_sub(amount);
        self.total_withdrawals = self.total_withdrawals.saturating_add(amount);
        self.last_update_ts = now;
    }

    /// Books a paid claim: the balance shrinks, the claim total grows, and the claim is recorded
    /// as the last one.
    pub fn claim(&mut self, amount: u128, now: u64)
        ensures
            *final(self) == (InsuranceFundReserve {
                balance: sat_sub(old(self).balance, amount),
                total_claims: sat_add(old(self).total_claims, amount),
                last_claim: amount,
                last_claim_ts: now,
                last_update_ts: now,
                ..*old(self)
            }),
    {
        self.balance = self.balance.saturating_sub(amount);
        self.total_claims = self.total_claims.saturating_add(amount);
        self.last_claim = amount;
        self.last_claim_ts = now;
        self.last_update_ts = now;
    }

    /// Sets the balance to a measured amount.
    pub fn update_balance(&mut self, amount: u128, now: u64)
        ensures
            *final(self) == (InsuranceFundReserve {
                balance: amount,
                last_update_ts: now,
                ..*old(self)
            }),
    {
        self.balance = amount;
        self.last_update_ts = now;
    }

    /// Mints shares into the supply (saturating).
    pub fn add_total_shares(&mut self, amount: u128, now: u64)
        ensures
            *final(self) == (InsuranceFundReserve {
                total_shares: sat_add(old(self).total_shares, amount),
                last_update_ts: now,
                ..*old(self)
            }),
    {
        self.total_shares = self.total_shares.saturating_add(amount);
        self.last_update_ts = now;
    }

    /// Burns shares from the supply (held at zero).
    pub fn remove_total_shares(&mut self, amount: u128, now: u64)
        ensures
            *final(self) == (InsuranceFundReserve {
                total_shares: sat_sub(old(self).total_shares, amount),
                last_update_ts: now,
                ..*old(self)
            }),
    {
        self.total_shares = self.total_shares.saturating_sub(amount);
        self.last_update_ts = now;
    }
}

/// A staker's position in the insurance fund for one token, with any pending withdrawal request.
pub struct Stake {
    pub user: soroban_sdk::Address,
    pub token: soroban_sdk::Address,
    pub last_withdraw_request_shares: u128,
    pub last_withdraw_request_value: u128,
    pub last_withdraw_request_ts: u64,
    pub cost_basis: u128,
    pub base: u128,
    pub shares: u128,
}

impl Stake {
    /// An empty stake of `user` in `token`.
    pub fn new(user: soroban_sdk::Address, token: soroban_sdk::Address) -> (r: Self)
        ensures
            r.user == user,
            r.token == token,
            r.last_withdraw_request_shares == 0,
            r.last_withdraw_request_value == 0,
            r.last_withdraw_request_ts == 0,
            r.cost_basis == 0,
            r.base == 0,
            r.shares == 0,
    {
        Stake {
            user,
            token,
            last_withdraw_request_shares: 0,
            last_withdraw_request_value: 0,
            last_withdraw_request_ts: 0,
            cost_basis: 0,
            base: 0,
            shares: 0,
        }
    }

    /// The stake's shares, provided the stake is on the reserve's share base
    /// (`reserve_shares_base`, as stored for the token); otherwise `InvalidIFRebase`.
    pub fn checked_shares(&self, reserve_shares_base: u128) -> (r: Result<u128, InsuranceFundError>)
        ensures
            r == (if self.base == reserve_shares_base {
                Ok(self.shares)
            } else {
                Err(InsuranceFundError::InvalidIFRebase)
            }),
    {
        if self.base != reserve_shares_base {
            return Err(InsuranceFundError::InvalidIFRebase);
        }
        Ok(self.shares)
    }

    /// The stake's shares, without looking at the share base.
    pub fn unchecked_shares(&self) -> (r: u128)
        ensures
            r == self.shares,
    {
        self.shares
    }

    /// Adds `delta` shares (saturating) once the share base is confirmed.
    pub fn increase_shares(&mut self, reserve_shares_base: u128, delta: u128) -> (r: Result<
        (),
        InsuranceFundError,
    >)
        ensures
            old(self).base == reserve_shares_base ==> r is Ok && *final(self) == (Stake {
                shares: sat_add(old(self).shares, delta),
                ..*old(self)
            }),
            old(self).base != reserve_shares_base ==> r == Err::<(), InsuranceFundError>(
                InsuranceFundError::InvalidIFRebase,
            ) && *final(self) == *old(self),
    {
        if self.base != reserve_shares_base {
            return Err(InsuranceFundError::InvalidIFRebase);
        }
        self.shares = self.shares.saturating_add(delta);
        Ok(())
    }

    /// Removes `delta` shares (held at zero) once the share base is confirmed.
    pub fn decrease_shares(&mut self, reserve_shares_base: u128, delta: u128) -> (r: Result<
        (),
        InsuranceFundError,
    >)
        ensures
            old(self).base == reserve_shares_base ==> r is Ok && *final(self) == (Stake {
                shares: sat_sub(old(self).shares, delta),
                ..*old(self)
            }),
            old(self).base != reserve_shares_base ==> r == Err::<(), InsuranceFundError>(
                InsuranceFundError::InvalidIFRebase,
            ) && *final(self) == *old(self),
    {
        if self.base != reserve_shares_base {
            return Err(InsuranceFundError::InvalidIFRebase);
        }
        self.shares = self.shares.saturating_sub(delta);
        Ok(())
    }

    /// Sets the share count once the share base is confirmed.
    pub fn update_shares(&mut self, reserve_shares_base: u128, new_shares: u128) -> (r: Result<
        (),
        InsuranceFundError,
    >)
        ensures
            old(self).base == reserve_shares_base ==> r is Ok && *final(self) == (Stake {
                shares: new_shares,
                ..*old(self)
            }),
            old(self).base != reserve_shares_base ==> r == Err::<(), InsuranceFundError>(
                InsuranceFundError::InvalidIFRebase,
            ) && *final(self) == *old(self),
    {
        if self.base != reserve_shares_base {
            return Err(InsuranceFundError::InvalidIFRebase);
        }
        self.shares = new_shares;
        Ok(())
    }
}

} // verus!
