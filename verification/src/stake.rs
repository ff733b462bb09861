use vstd::prelude::*;
use crate::insurance_errors::InsuranceFundError;
use crate::insurance::InsuranceFundReserve;
use crate::insurance::Stake;
use crate::insurance::sat_sub;
use crate::math::log10_floor;
use crate::math::pow10;
use crate::math::log10_iter;
use crate::math::pow10_u128;
use crate::math::lemma_log10_bracket;
use crate::math::lemma_pow10_monotone;
use crate::fixed_point::soroban_mul_floor_u128;

verus! {

/// Exponent of the rebase that brings `total_shares` back near `balance`: the base-ten
/// logarithm of `total_shares / 10 / balance`.
pub open spec fn rebase_expo(total_shares: u128, balance: u128) -> nat {
    log10_floor(((total_shares as int / 10) / (balance as int)) as nat)
}

/// Share supply after a fund rebase, when the balance has fallen below the supply.
pub open spec fn rebased_total_shares(total_shares: u128, balance: u128) -> int {
    if balance != 0 && balance < total_shares {
        total_shares as int / pow10(rebase_expo(total_shares, balance)) as int
    } else {
        total_shares as int
    }
}

/// Share base after a fund rebase.
pub open spec fn rebased_shares_base(shares_base: u128, total_shares: u128, balance: u128) -> int {
    if balance != 0 && balance < total_shares {
        shares_base + rebase_expo(total_shares, balance)
    } else {
        shares_base as int
    }
}

/// Share supply after `apply_rebase_to_insurance_fund`: rebased, then seeded with the balance
/// when the supply is empty.
pub open spec fn fund_shares_after_rebase(total_shares: u128, balance: u128) -> int {
    if balance != 0 && rebased_total_shares(total_shares, balance) == 0 {
        balance as int
    } else {
        rebased_total_shares(total_shares, balance)
    }
}

/// Shares minted for `amount`: pro rata against the balance, one for one on an empty reserve
/// that has no shares, and `InvalidIFSharesDetected` for an empty reserve that still has shares.
pub open spec fn amount_to_shares_spec(amount: u128, total_shares: u128, balance: u128) -> Result<
    int,
    InsuranceFundError,
> {
    if balance > 0 {
        Ok((amount * total_shares) / (balance as int))
    } else if total_shares == 0 {
        Ok(amount as int)
    } else {
        Err(InsuranceFundError::InvalidIFSharesDetected)
    }
}

/// Value of `n_shares`: their pro-rata part of the balance, zero without shares, and
/// `InvalidIFSharesDetected` for more shares than exist.
pub open spec fn shares_to_amount_spec(n_shares: u128, total_shares: u128, balance: u128) -> Result<
    int,
    InsuranceFundError,
> {
    if n_shares > total_shares {
        Err(InsuranceFundError::InvalidIFSharesDetected)
    } else if total_shares > 0 {
        Ok((balance * n_shares) / (total_shares as int))
    } else {
        Ok(0)
    }
}

/// Shares a staker forfeits when the value of a pending withdrawal request has grown since the
/// request: the requested shares minus those that the requested value buys from the rest of
/// the fund.
pub open spec fn shares_lost_spec(n_shares: u128, value: u128, total_shares: u128, balance: u128) -> Result<
    int,
    InsuranceFundError,
> {
    match shares_to_amount_spec(n_shares, total_shares, balance) {
        Err(e) => Err(e),
        Ok(amount) => if amount > value {
            match amount_to_shares_spec(
                value,
                sat_sub(total_shares, n_shares),
                sat_sub(balance, value),
            ) {
                Err(e) => Err(e),
                Ok(new_n) => if new_n <= n_shares {
                    Ok(n_shares - new_n)
                } else {
                    Err(InsuranceFundError::InvalidIFSharesDetected)
                },
            }
        } else {
            Ok(0)
        },
    }
}

/// The minting in `amount_to_shares_spec` fits a `u128`.
pub open spec fn amount_to_shares_fits(amount: u128, total_shares: u128, balance: u128) -> bool {
    balance > 0 ==> (amount * total_shares) / (balance as int) <= u128::MAX
}

/// Exponent and divisor (`10^exponent`) of the rebase that scales `total_if_shares` back near
/// `insurance_vault_amount`.
pub fn calculate_rebase_info(total_if_shares: u128, insurance_vault_amount: u128) -> (r: (u32, u128))
    requires
        insurance_vault_amount != 0,
    ensures
        r.0 == rebase_expo(total_if_shares, insurance_vault_amount),
        r.1 == pow10(r.0 as nat),
        r.0 <= 38,
{
    let rebase_divisor_full = total_if_shares / 10 / insurance_vault_amount;
    let expo = log10_iter(rebase_divisor_full);
    proof {
        if rebase_divisor_full >= 1 {
            lemma_log10_bracket(rebase_divisor_full as nat);
            crate::math::lemma_log10_bound(rebase_divisor_full as nat);
        }
    }
    let expo_diff: u32 = expo as u32;
    let rebase_divisor = pow10_u128(expo_diff);
    (expo_diff, rebase_divisor)
}

/// After a rebase the supply sits between ten and a hundred times the balance.
pub proof fn lemma_rebase_bounds(total_shares: u128, balance: u128)
    requires
        balance != 0,
        balance < total_shares,
    ensures
        total_shares >= 10 * balance ==> 10 * balance <= rebased_total_shares(
            total_shares,
            balance,
        ) < 100 * balance,
        total_shares < 10 * balance ==> rebased_total_shares(total_shares, balance)
            == total_shares,
{
    let full = (total_shares as int / 10) / (balance as int);
    let k = rebase_expo(total_shares, balance);
    if total_shares >= 10 * balance {
        assert(full >= 1) by (nonlinear_arith)
            requires
                total_shares >= 10 * balance,
                balance > 0,
                full == (total_shares as int / 10) / (balance as int),
        ;
        lemma_log10_bracket(full as nat);
        let p = pow10(k) as int;
        lemma_pow10_monotone(0, k);
        assert(pow10(k + 1) == 10 * pow10(k));
        assert(pow10(k + 2) == 10 * pow10(k + 1));
        // p <= full < 10 p, with full = floor(floor(T / 10) / B).
        assert(10 * balance * p <= total_shares) by (nonlinear_arith)
            requires
                p <= full,
                full == (total_shares as int / 10) / (balance as int),
                balance > 0,
                p >= 1,
        ;
        assert(total_shares < 100 * balance * p) by (nonlinear_arith)
            requires
                full < 10 * p,
                full == (total_shares as int / 10) / (balance as int),
                balance > 0,
                p >= 1,
        ;
        assert(total_shares <= 100 * balance * p) by (nonlinear_arith)
            requires
                total_shares < 100 * balance * p,
        ;
        crate::math::lemma_div_between(total_shares as int, p, 10 * balance, 100 * balance);
        vstd::arithmetic::div_mod::lemma_fundamental_div_mod(total_shares as int, p);
        let q = total_shares as int / p;
        assert(q < 100 * balance) by (nonlinear_arith)
            requires
                total_shares == p * q + total_shares as int % p,
                total_shares as int % p >= 0,
                total_shares < 100 * balance * p,
                p >= 1,
        ;
    } else {
        assert(full == 0) by (nonlinear_arith)
            requires
                total_shares < 10 * balance,
                balance > 0,
                full == (total_shares as int / 10) / (balance as int),
        ;
        assert(log10_floor(0) == 0);
        assert(pow10(0) == 1);
    }
}

/// The fund's share base can take the exponent of a pending rebase without overflowing.
pub open spec fn fund_rebase_fits(shares_base: u128, total_shares: u128, balance: u128) -> bool {
    balance != 0 && balance < total_shares ==> shares_base + rebase_expo(total_shares, balance)
        <= u128::MAX
}

/// Rebases the fund's share supply when the balance has fallen below it, dividing the supply
/// by a power of ten and raising the share base by the exponent; an empty supply on a funded
/// reserve is seeded one share per unit of balance. A share base that would overflow is a
/// `MathError`, and the reserve is left as it was.
pub fn apply_rebase_to_insurance_fund(reserve: &mut InsuranceFundReserve) -> (r: Result<
    (),
    InsuranceFundError,
>)
    ensures
        fund_rebase_fits(old(reserve).shares_base, old(reserve).total_shares, old(reserve).balance)
            ==> r is Ok && final(reserve).total_shares == fund_shares_after_rebase(
            old(reserve).total_shares,
            old(reserve).balance,
        ) && final(reserve).shares_base == rebased_shares_base(
            old(reserve).shares_base,
            old(reserve).total_shares,
            old(reserve).balance,
        ) && *final(reserve) == (InsuranceFundReserve {
            total_shares: final(reserve).total_shares,
            shares_base: final(reserve).shares_base,
            ..*old(reserve)
        }),
        !fund_rebase_fits(old(reserve).shares_base, old(reserve).total_shares, old(reserve).balance)
            ==> r == Err::<(), InsuranceFundError>(InsuranceFundError::MathError) && *final(reserve)
            == *old(reserve),
{
    if reserve.balance != 0 && reserve.balance < reserve.total_shares {
        let (expo_diff, rebase_divisor) = calculate_rebase_info(
            reserve.total_shares,
            reserve.balance,
        );
        if reserve.shares_base > u128::MAX - (expo_diff as u128) {
            return Err(InsuranceFundError::MathError);
        }
        proof {
            lemma_pow10_monotone(0, expo_diff as nat);
        }
        reserve.total_shares = reserve.total_shares / rebase_divisor;
        reserve.shares_base = reserve.shares_base + (expo_diff as u128);
    }
    if reserve.balance != 0 && reserve.total_shares == 0 {
        reserve.total_shares = reserve.balance;
    }
    Ok(())
}

/// Exponent of a stake's rebase: the gap between the fund's share base and the stake's, cut to
/// 32 bits.
pub open spec fn stake_rebase_expo(reserve_shares_base: u128, stake_base: u128) -> nat {
    ((reserve_shares_base - stake_base) % 0x1_0000_0000) as nat
}

/// Brings a stake onto the fund's share base (`reserve_shares_base`, as stored for the token):
/// its shares and requested shares are divided by `10^e`, `e` being the base gap cut to 32 bits.
/// A stake ahead of the fund is an `InvalidIFRebase`; a power of ten beyond a `u128` is a
/// `MathError`. The stake is left as it was on either error.
pub fn apply_rebase_to_stake(stake: &mut Stake, reserve_shares_base: u128) -> (r: Result<
    (),
    InsuranceFundError,
>)
    ensures
        reserve_shares_base == old(stake).base ==> r is Ok && *final(stake) == *old(stake),
        reserve_shares_base < old(stake).base ==> r == Err::<(), InsuranceFundError>(
            InsuranceFundError::InvalidIFRebase,
        ) && *final(stake) == *old(stake),
        reserve_shares_base > old(stake).base && stake_rebase_expo(reserve_shares_base, old(stake).base)
            > 38 ==> r == Err::<(), InsuranceFundError>(InsuranceFundError::MathError)
            && *final(stake) == *old(stake),
        reserve_shares_base > old(stake).base && stake_rebase_expo(reserve_shares_base, old(stake).base)
            <= 38 ==> r is Ok && *final(stake) == (Stake {
            base: reserve_shares_base,
            shares: (old(stake).shares as int / pow10(
                stake_rebase_expo(reserve_shares_base, old(stake).base),
            ) as int) as u128,
            last_withdraw_request_shares: (old(stake).last_withdraw_request_shares as int / pow10(
                stake_rebase_expo(reserve_shares_base, old(stake).base),
            ) as int) as u128,
            ..*old(stake)
        }),
{
    if reserve_shares_base != stake.base {
        if !(reserve_shares_base > stake.base) {
            return Err(InsuranceFundError::InvalidIFRebase);
        }
        let gap: u128 = (reserve_shares_base - stake.base) % 0x1_0000_0000u128;
        if gap > 38 {
            return Err(InsuranceFundError::MathError);
        }
        let expo_diff: u32 = gap as u32;
        proof {
            lemma_pow10_monotone(expo_diff as nat, 38);
            lemma_pow10_monotone(0, expo_diff as nat);
            crate::math::lemma_pow10_38_fits();
        }
        let rebase_divisor = pow10_u128(expo_diff);
        stake.base = reserve_shares_base;
        let old_shares = stake.unchecked_shares();
        let new_shares = old_shares / rebase_divisor;
        let updated = stake.update_shares(reserve_shares_base, new_shares);
        stake.last_withdraw_request_shares = stake.last_withdraw_request_shares / rebase_divisor;
    }
    Ok(())
}

/// Converts a token amount into insurance fund shares at the reserve's current rate.
pub fn reserve_amount_to_shares(
    e: &soroban_sdk::Env,
    amount: u128,
    reserve: &InsuranceFundReserve,
) -> (r: Result<u128, InsuranceFundError>)
    requires
        amount_to_shares_fits(amount, reserve.total_shares, reserve.balance),
    ensures
        r matches Ok(n) ==> amount_to_shares_spec(amount, reserve.total_shares, reserve.balance)
            == Ok::<int, InsuranceFundError>(n as int),
        r matches Err(err) ==> amount_to_shares_spec(
            amount,
            reserve.total_shares,
            reserve.balance,
        ) == Err::<int, InsuranceFundError>(err),
{
    if reserve.balance > 0 {
        Ok(soroban_mul_floor_u128(e, amount, reserve.total_shares, reserve.balance))
    } else {
        if reserve.total_shares != 0 {
            return Err(InsuranceFundError::InvalidIFSharesDetected);
        }
        Ok(amount)
    }
}

/// Converts insurance fund shares into their token value at the reserve's current rate.
pub fn shares_to_reserve_amount(
    e: &soroban_sdk::Env,
    n_shares: u128,
    reserve: &InsuranceFundReserve,
) -> (r: Result<u128, InsuranceFundError>)
    ensures
        r matches Ok(a) ==> shares_to_amount_spec(n_shares, reserve.total_shares, reserve.balance)
            == Ok::<int, InsuranceFundError>(a as int),
        r matches Err(err) ==> shares_to_amount_spec(
            n_shares,
            reserve.total_shares,
            reserve.balance,
        ) == Err::<int, InsuranceFundError>(err),
        r matches Ok(a) ==> a <= reserve.balance,
{
    if n_shares > reserve.total_shares {
        return Err(InsuranceFundError::InvalidIFSharesDetected);
    }
    if reserve.total_shares > 0 {
        proof {
            lemma_pro_rata_le(reserve.balance as int, n_shares as int, reserve.total_shares as int);
        }
        Ok(soroban_mul_floor_u128(e, reserve.balance, n_shares, reserve.total_shares))
    } else {
        Ok(0)
    }
}

/// `floor(b * n / t) <= b` for `n <= t`.
pub proof fn lemma_pro_rata_le(b: int, n: int, t: int)
    requires
        b >= 0,
        0 <= n <= t,
        t > 0,
    ensures
        0 <= (b * n) / t <= b,
{
    assert(0 <= b * n <= b * t) by (nonlinear_arith)
        requires
            b >= 0,
            0 <= n <= t,
    ;
    crate::math::lemma_div_between(b * n, t, 0, b);
}

/// The inner conversion of `calculate_shares_lost`, when it is reached (the requested shares
/// exist and are now worth more than the requested value), fits a `u128`.
pub open spec fn shares_lost_fits(stake: Stake, reserve: InsuranceFundReserve) -> bool {
    shares_to_amount_spec(stake.last_withdraw_request_shares, reserve.total_shares, reserve.balance)
        matches Ok(a) && a > stake.last_withdraw_request_value ==> amount_to_shares_fits(
        stake.last_withdraw_request_value,
        sat_sub(reserve.total_shares, stake.last_withdraw_request_shares),
        sat_sub(reserve.balance, stake.last_withdraw_request_value),
    )
}

/// Shares a staker forfeits on a pending withdrawal request whose value has grown since the
/// request was made.
pub fn calculate_shares_lost(
    e: &soroban_sdk::Env,
    stake: &Stake,
    reserve: &InsuranceFundReserve,
) -> (r: Result<u128, InsuranceFundError>)
    requires
        shares_lost_fits(*stake, *reserve),
    ensures
        r matches Ok(n) ==> shares_lost_spec(
            stake.last_withdraw_request_shares,
            stake.last_withdraw_request_value,
            reserve.total_shares,
            reserve.balance,
        ) == Ok::<int, InsuranceFundError>(n as int),
        r matches Err(err) ==> shares_lost_spec(
            stake.last_withdraw_request_shares,
            stake.last_withdraw_request_value,
            reserve.total_shares,
            reserve.balance,
        ) == Err::<int, InsuranceFundError>(err),
        r matches Ok(n) ==> n <= stake.last_withdraw_request_shares,
{
    let n_shares = stake.last_withdraw_request_shares;
    let amount = shares_to_reserve_amount(e, n_shares, reserve)?;
    if amount > stake.last_withdraw_request_value {
        let rest_shares = reserve.total_shares.saturating_sub(n_shares);
        let rest_balance = reserve.balance.saturating_sub(stake.last_withdraw_request_value);
        let new_n_shares = if rest_balance > 0 {
            soroban_mul_floor_u128(e, stake.last_withdraw_request_value, rest_shares, rest_balance)
        } else {
            if rest_shares != 0 {
                return Err(InsuranceFundError::InvalidIFSharesDetected);
            }
            stake.last_withdraw_request_value
        };
        if !(new_n_shares <= n_shares) {
            return Err(InsuranceFundError::InvalidIFSharesDetected);
        }
        Ok(n_shares - new_n_shares)
    } else {
        Ok(0)
    }
}

/// Minting shares for an amount and valuing them again never returns more than the amount:
/// rounding always favours the fund.
pub proof fn lemma_round_trip_favours_fund(amount: u128, total_shares: u128, balance: u128)
    requires
        balance > 0,
        total_shares > 0,
        (amount * total_shares) / (balance as int) <= total_shares,
    ensures
        ({
            let n = (amount * total_shares) / (balance as int);
            (balance * n) / (total_shares as int) <= amount
        }),
{
    let n = (amount * total_shares) / (balance as int);
    assert(balance * n <= amount * total_shares) by (nonlinear_arith)
        requires
            n == (amount * total_shares) / (balance as int),
            balance > 0,
            amount >= 0,
            total_shares >= 0,
    ;
    assert(balance * n >= 0) by (nonlinear_arith)
        requires
            n >= 0,
            balance > 0,
    ;
    crate::math::lemma_div_between(balance * n, total_shares as int, 0, amount as int);
}

/// Minting never dilutes the stakers already in the fund: once the deposit is in the balance,
/// each share is worth at least what it was worth before (`(B + a) / (T + n) >= B / T`).
pub proof fn lemma_deposit_never_dilutes(amount: u128, total_shares: u128, balance: u128)
    requires
        balance > 0,
    ensures
        amount_to_shares_spec(amount, total_shares, balance) matches Ok(n) ==> (balance + amount)
            * total_shares >= balance * (total_shares + n),
{
    let n = (amount * total_shares) / (balance as int);
    assert(balance * n <= amount * total_shares) by (nonlinear_arith)
        requires
            n == (amount * total_shares) / (balance as int),
            balance > 0,
            amount >= 0,
            total_shares >= 0,
    ;
    assert((balance + amount) * total_shares >= balance * (total_shares + n)) by (nonlinear_arith)
        requires
            balance * n <= amount * total_shares,
    ;
}

/// Redeeming never dilutes the stakers who stay: once the payout leaves the balance, each
/// remaining share is worth at least what it was worth before (`(B - a) / (T - n) >= B / T`).
pub proof fn lemma_redemption_never_dilutes(n_shares: u128, total_shares: u128, balance: u128)
    ensures
        shares_to_amount_spec(n_shares, total_shares, balance) matches Ok(a) ==> a <= balance && (
        balance - a) * total_shares >= balance * (total_shares - n_shares),
{
    if n_shares <= total_shares && total_shares > 0 {
        let a = (balance * n_shares) / (total_shares as int);
        lemma_pro_rata_le(balance as int, n_shares as int, total_shares as int);
        assert(a * total_shares <= balance * n_shares) by (nonlinear_arith)
            requires
                a == (balance * n_shares) / (total_shares as int),
                total_shares > 0,
                balance >= 0,
                n_shares >= 0,
        ;
        assert((balance - a) * total_shares >= balance * (total_shares - n_shares)) by (nonlinear_arith)
            requires
                a * total_shares <= balance * n_shares,
        ;
    }
}

/// Shares are valued pro rata against the balance, rounding down: the value is the largest
/// amount that the shares' part of the balance covers, and a fund with no shares values
/// none.
pub proof fn lemma_share_value_is_floor_pro_rata(n_shares: u128, total_shares: u128, balance: u128)
    ensures
        shares_to_amount_spec(n_shares, total_shares, balance) matches Ok(a) ==> {
            &&& n_shares <= total_shares
            &&& total_shares > 0 ==> a * total_shares <= balance * n_shares < (a + 1)
                * total_shares
            &&& total_shares == 0 ==> a == 0
        },
        n_shares > total_shares ==> shares_to_amount_spec(n_shares, total_shares, balance) is Err,
{
    if n_shares <= total_shares && total_shares > 0 {
        let x = balance * n_shares;
        let t = total_shares as int;
        vstd::arithmetic::div_mod::lemma_fundamental_div_mod(x, t);
        let a = x / t;
        let rem = x % t;
        assert(a * t <= x < (a + 1) * t) by (nonlinear_arith)
            requires
                x == t * a + rem,
                0 <= rem < t,
        ;
    }
}

} // verus!
