//! The mathematical model of a pool: its state as natural numbers, and the
//! outcome of every operation as a function of that state.

use vstd::prelude::*;
use vstd::arithmetic::div_mod::{
    lemma_div_is_ordered_by_denominator, lemma_div_multiples_vanish, lemma_fundamental_div_mod,
};
use crate::error::PoolError;

verus! {

/// What a pool is: two reserves, the token reserve it started with, and the
/// product that prices every trade.
pub struct PoolState {
    /// The token reserve at creation; the denominator of the reference price.
    pub initial_token_reserve: nat,
    /// The native asset currently held.
    pub native_reserve: nat,
    /// The tokens currently held.
    pub token_reserve: nat,
    /// The product of the two reserves at creation.
    pub constant_product: nat,
}

impl PoolState {
    /// The state of a pool freshly created from two reserves.
    pub open spec fn created(native_reserve: nat, token_reserve: nat) -> PoolState {
        PoolState {
            initial_token_reserve: token_reserve,
            native_reserve,
            token_reserve,
            constant_product: native_reserve * token_reserve,
        }
    }

    /// The native reserve that the pool was created with.
    pub open spec fn initial_native_reserve(self) -> nat {
        self.constant_product / self.initial_token_reserve
    }

    /// The states a pool can be in. Both reserves are positive and fit the
    /// reserve width; the constant product is the product of two such initial
    /// reserves; and the native reserve is the constant product divided by the
    /// token reserve, rounded down.
    pub open spec fn wf(self) -> bool {
        &&& 0 < self.initial_token_reserve <= u64::MAX
        &&& 0 < self.initial_native_reserve() <= u64::MAX
        &&& self.constant_product == self.initial_native_reserve() * self.initial_token_reserve
        &&& 0 < self.token_reserve <= u64::MAX
        &&& 0 < self.native_reserve <= u64::MAX
        &&& self.native_reserve == self.constant_product / self.token_reserve
    }

    /// The product of the current reserves.
    pub open spec fn actual_product(self) -> nat {
        self.native_reserve * self.token_reserve
    }

    /// The pool with its token reserve set to `token_reserve` and its native
    /// reserve repriced: the constant product divided by the new token
    /// reserve, rounded down.
    pub open spec fn repriced(self, token_reserve: nat) -> PoolState {
        PoolState {
            native_reserve: self.constant_product / token_reserve,
            token_reserve,
            ..self
        }
    }

    /// The pool after `amount` tokens have left it.
    pub open spec fn after_buy(self, amount: u64) -> PoolState {
        self.repriced((self.token_reserve - amount) as nat)
    }

    /// The pool after `amount` tokens have entered it.
    pub open spec fn after_sell(self, amount: u64) -> PoolState {
        self.repriced((self.token_reserve + amount) as nat)
    }

    /// The native cost of taking `amount` tokens out of the pool, or why no
    /// price can be given.
    pub open spec fn buy_quote(self, amount: u64) -> Result<u64, PoolError> {
        if amount == 0 {
            Err(PoolError::InvalidAmount)
        } else if amount > self.token_reserve {
            Err(PoolError::InsufficientPoolFunds)
        } else if amount == self.token_reserve {
            Err(PoolError::Overflow)
        } else if self.after_buy(amount).native_reserve > u64::MAX {
            Err(PoolError::Overflow)
        } else {
            Ok((self.after_buy(amount).native_reserve - self.native_reserve) as u64)
        }
    }

    /// The native payout for putting `amount` tokens into the pool, or why no
    /// price can be given.
    pub open spec fn sell_quote(self, amount: u64) -> Result<u64, PoolError> {
        if amount == 0 {
            Err(PoolError::InvalidAmount)
        } else if amount > self.token_reserve {
            Err(PoolError::InsufficientPoolFunds)
        } else if self.token_reserve + amount > u64::MAX {
            Err(PoolError::Overflow)
        } else {
            Ok((self.native_reserve - self.after_sell(amount).native_reserve) as u64)
        }
    }

    /// What a simulated buy reports: the quoted cost, unless it is below the
    /// caller's minimum.
    pub open spec fn simulate_buy(self, amount: u64, min_native: Option<u64>) -> Result<
        u64,
        PoolError,
    > {
        match self.buy_quote(amount) {
            Err(e) => Err(e),
            Ok(cost) => if min_native is Some && cost < min_native->Some_0 {
                Err(PoolError::SlippageExceeded)
            } else {
                Ok(cost)
            },
        }
    }

    /// What a simulated sell reports: the quoted payout, unless it is above
    /// the caller's maximum.
    pub open spec fn simulate_sell(self, amount: u64, max_native: Option<u64>) -> Result<
        u64,
        PoolError,
    > {
        match self.sell_quote(amount) {
            Err(e) => Err(e),
            Ok(payout) => if max_native is Some && payout > max_native->Some_0 {
                Err(PoolError::SlippageExceeded)
            } else {
                Ok(payout)
            },
        }
    }

    /// What a buy returns: the quoted cost, unless it is above the caller's
    /// spending cap.
    pub open spec fn buy(self, amount: u64, max_native: Option<u64>) -> Result<u64, PoolError> {
        match self.buy_quote(amount) {
            Err(e) => Err(e),
            Ok(cost) => if max_native is Some && cost > max_native->Some_0 {
                Err(PoolError::SlippageExceeded)
            } else {
                Ok(cost)
            },
        }
    }

    /// What a sell returns: the quoted payout, unless it is below the caller's
    /// minimum, or paying it would leave the pool without native reserve.
    pub open spec fn sell(self, amount: u64, min_native: Option<u64>) -> Result<u64, PoolError> {
        match self.sell_quote(amount) {
            Err(e) => Err(e),
            Ok(payout) => if min_native is Some && payout < min_native->Some_0 {
                Err(PoolError::SlippageExceeded)
            } else if self.after_sell(amount).native_reserve == 0 {
                Err(PoolError::InsufficientPoolFunds)
            } else {
                Ok(payout)
            },
        }
    }

    /// The token reserve at which the pool would hold `native_amount` more of
    /// the native asset: the constant product divided by that native reserve,
    /// rounded down.
    pub open spec fn tokens_left(self, native_amount: u64) -> nat {
        self.constant_product / ((self.native_reserve + native_amount) as nat)
    }

    /// The tokens that `native_amount` of the native asset buys.
    pub open spec fn tokens_received(self, native_amount: u64) -> Result<u64, PoolError> {
        if native_amount == 0 {
            Err(PoolError::InvalidAmount)
        } else if self.native_reserve + native_amount > u64::MAX {
            Err(PoolError::Overflow)
        } else {
            Ok((self.token_reserve - self.tokens_left(native_amount)) as u64)
        }
    }

    /// What buying with `native_amount` returns: the tokens it buys, if the
    /// pool can then sell that many without a spending cap.
    pub open spec fn buy_with_native(self, native_amount: u64) -> Result<u64, PoolError> {
        match self.tokens_received(native_amount) {
            Err(e) => Err(e),
            Ok(tokens) => match self.buy(tokens, None) {
                Err(e) => Err(e),
                Ok(_) => Ok(tokens),
            },
        }
    }

    /// The payout for selling `sell_tokens` right after `bought` tokens have
    /// been bought without a spending cap.
    pub open spec fn payout_after_buy(self, bought: u64, sell_tokens: u64) -> Result<
        u64,
        PoolError,
    > {
        match self.buy(bought, None) {
            Err(e) => Err(e),
            Ok(_) => self.after_buy(bought).simulate_sell(sell_tokens, None),
        }
    }

    /// The midpoint probed for the bracket from `low` to `high`.
    pub open spec fn midpoint(low: u64, high: u64) -> u64 {
        (low + (high - low) / 2) as u64
    }

    /// The bisection over buy sizes from `low` to `high`, with `best` the
    /// smallest size seen so far whose payout was above `desired_native`.
    /// Each step probes the midpoint. A payout equal to the target ends the
    /// search with the midpoint; a smaller one moves `low` above the midpoint;
    /// a larger one records the midpoint and moves `high` below it. The search
    /// ends with the recorded size once the bracket is at most one wide, and
    /// with the probe's error if a probe fails.
    pub open spec fn search(
        self,
        sell_tokens: u64,
        desired_native: u64,
        low: u64,
        high: u64,
        best: u64,
    ) -> Result<u64, PoolError>
        decreases high - low,
    {
        let mid = Self::midpoint(low, high);
        if low > high {
            Ok(best)
        } else {
            match self.payout_after_buy(mid, sell_tokens) {
                Err(e) => Err(e),
                Ok(payout) => if payout == desired_native {
                    Ok(mid)
                } else if payout < desired_native {
                    if high - (mid + 1) <= 1 {
                        Ok(best)
                    } else {
                        self.search(sell_tokens, desired_native, (mid + 1) as u64, high, best)
                    }
                } else {
                    if (mid - 1) - low <= 1 {
                        Ok(mid)
                    } else {
                        self.search(sell_tokens, desired_native, low, (mid - 1) as u64, mid)
                    }
                },
            }
        }
    }

    /// The number of tokens to buy first so that selling `sell_tokens`
    /// afterwards pays `desired_native`: the bisection over all buy sizes up
    /// to the token reserve.
    pub open spec fn additional_tokens(self, sell_tokens: u64, desired_native: u64) -> Result<
        u64,
        PoolError,
    > {
        if sell_tokens == 0 || desired_native == 0 {
            Err(PoolError::InvalidAmount)
        } else {
            self.search(
                sell_tokens,
                desired_native,
                0,
                self.token_reserve as u64,
                self.token_reserve as u64,
            )
        }
    }
}

/// The product of two reserves fits twice the reserve width.
pub proof fn lemma_product_fits(a: nat, b: nat)
    requires
        a <= u64::MAX,
        b <= u64::MAX,
    ensures
        a * b <= u128::MAX,
{
    assert(a * b <= 0xffff_ffff_ffff_ffff * 0xffff_ffff_ffff_ffff) by (nonlinear_arith)
        requires
            a <= 0xffff_ffff_ffff_ffff,
            b <= 0xffff_ffff_ffff_ffff,
    ;
}

/// A pool created from two positive reserves is in a valid state.
pub proof fn lemma_created_wf(native_reserve: nat, token_reserve: nat)
    requires
        0 < native_reserve <= u64::MAX,
        0 < token_reserve <= u64::MAX,
    ensures
        PoolState::created(native_reserve, token_reserve).wf(),
{
    let n = native_reserve as int;
    let t = token_reserve as int;
    lemma_div_multiples_vanish(n, t);
    assert(n * t == t * n) by (nonlinear_arith);
    assert((t * n) / t == n);
}

/// Rounding down never gives more than was there: the quotient times the
/// divisor is at most the dividend, and one more would exceed it.
pub proof fn lemma_floor_bounds(k: nat, d: nat)
    requires
        d > 0,
    ensures
        (k / d) * d <= k < (k / d + 1) * d,
{
    lemma_fundamental_div_mod(k as int, d as int);
    let q = (k as int) / (d as int);
    let r = (k as int) % (d as int);
    assert(0 <= r < d) by (nonlinear_arith)
        requires
            d > 0,
            r == (k as int) % (d as int),
    ;
    assert(q * d == d * q) by (nonlinear_arith);
    assert((q + 1) * d == d * q + d) by (nonlinear_arith);
}

/// In a valid pool the reserves' product is at most the constant product, and
/// one more unit of native reserve would exceed it.
pub proof fn lemma_wf_product(s: PoolState)
    requires
        s.wf(),
    ensures
        s.actual_product() <= s.constant_product < (s.native_reserve + 1) * s.token_reserve,
        s.constant_product <= u128::MAX,
{
    lemma_floor_bounds(s.constant_product, s.token_reserve);
    lemma_product_fits(s.initial_native_reserve(), s.initial_token_reserve);
}

/// A smaller divisor gives a quotient at least as large.
pub proof fn lemma_smaller_divisor(k: nat, small: nat, large: nat)
    requires
        0 < small <= large,
    ensures
        k / large <= k / small,
{
    lemma_div_is_ordered_by_denominator(k as int, small as int, large as int);
}

/// Taking tokens out of a valid pool never lowers the native reserve, and
/// leaves a valid pool whenever the new native reserve fits the reserve width.
pub proof fn lemma_after_buy(s: PoolState, amount: u64)
    requires
        s.wf(),
        0 < amount < s.token_reserve,
    ensures
        s.after_buy(amount).native_reserve >= s.native_reserve,
        s.after_buy(amount).token_reserve == s.token_reserve - amount,
        s.after_buy(amount).actual_product() <= s.constant_product,
        s.after_buy(amount).native_reserve <= u64::MAX ==> s.after_buy(amount).wf(),
{
    let left = (s.token_reserve - amount) as nat;
    lemma_smaller_divisor(s.constant_product, left, s.token_reserve);
    lemma_floor_bounds(s.constant_product, left);
}

/// Putting tokens into a valid pool never raises the native reserve, and
/// leaves a valid pool whenever some native reserve remains.
pub proof fn lemma_after_sell(s: PoolState, amount: u64)
    requires
        s.wf(),
        s.token_reserve + amount <= u64::MAX,
    ensures
        s.after_sell(amount).native_reserve <= s.native_reserve,
        s.after_sell(amount).token_reserve == s.token_reserve + amount,
        s.after_sell(amount).actual_product() <= s.constant_product,
        s.after_sell(amount).native_reserve > 0 ==> s.after_sell(amount).wf(),
{
    let more = (s.token_reserve + amount) as nat;
    lemma_smaller_divisor(s.constant_product, s.token_reserve, more);
    lemma_floor_bounds(s.constant_product, more);
}

/// Adding native asset to a valid pool prices it at fewer tokens than the pool
/// holds.
pub proof fn lemma_tokens_received(s: PoolState, native_amount: u64)
    requires
        s.wf(),
        native_amount > 0,
    ensures
        s.tokens_left(native_amount) < s.token_reserve,
{
    let k = s.constant_product as int;
    let d = (s.native_reserve + native_amount) as int;
    let n = s.native_reserve as int;
    let t = s.token_reserve as int;
    lemma_wf_product(s);
    lemma_floor_bounds(s.constant_product, d as nat);
    assert(k / d < t) by (nonlinear_arith)
        requires
            k < (n + 1) * t,
            d >= n + 1,
            t > 0,
            d > 0,
            (k / d) * d <= k,
    ;
}

} // verus!
