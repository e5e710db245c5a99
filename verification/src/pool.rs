//! The pool itself: creation, readers, quotes and trades.

use vstd::prelude::*;
use crate::error::PoolError;
use crate::model::{
    lemma_after_buy, lemma_after_sell, lemma_created_wf, lemma_product_fits,
    lemma_tokens_received, PoolState,
};

verus! {

/// A constant-product pool of a native asset and a token.
#[derive(Debug)]
pub struct LiquidityPool {
    initial_token_reserve: u64,
    native_reserve: u64,
    token_reserve: u64,
    constant_product: u128,
}

impl View for LiquidityPool {
    type V = PoolState;

    closed spec fn view(&self) -> PoolState {
        PoolState {
            initial_token_reserve: self.initial_token_reserve as nat,
            native_reserve: self.native_reserve as nat,
            token_reserve: self.token_reserve as nat,
            constant_product: self.constant_product as nat,
        }
    }
}

impl LiquidityPool {
    #[verifier::type_invariant]
    closed spec fn valid(&self) -> bool {
        self@.wf()
    }

    /// Creates a pool from two positive reserves. The constant product is
    /// their exact product.
    pub fn new(native_reserve: u64, token_reserve: u64) -> (res: Result<Self, PoolError>)
        ensures
            native_reserve == 0 || token_reserve == 0 ==> res == Err::<Self, PoolError>(
                PoolError::InvalidAmount,
            ),
            native_reserve > 0 && token_reserve > 0 ==> res is Ok && res->Ok_0@
                == PoolState::created(native_reserve as nat, token_reserve as nat),
            res is Ok ==> res->Ok_0@.wf() && res->Ok_0@.constant_product == native_reserve
                * token_reserve,
    {
        if native_reserve == 0 || token_reserve == 0 {
            return Err(PoolError::InvalidAmount);
        }
        proof {
            lemma_product_fits(native_reserve as nat, token_reserve as nat);
            lemma_created_wf(native_reserve as nat, token_reserve as nat);
        }
        let constant_product = native_reserve as u128 * token_reserve as u128;
        Ok(
            Self {
                initial_token_reserve: token_reserve,
                native_reserve,
                token_reserve,
                constant_product,
            },
        )
    }

    /// The native asset currently held.
    pub fn get_native_reserve(&self) -> (r: u64)
        ensures
            r == self@.native_reserve,
            r > 0,
            self@.wf(),
    {
        proof {
            use_type_invariant(self);
        }
        self.native_reserve
    }

    /// The tokens currently held.
    pub fn get_token_reserve(&self) -> (r: u64)
        ensures
            r == self@.token_reserve,
            r > 0,
            self@.wf(),
    {
        proof {
            use_type_invariant(self);
        }
        self.token_reserve
    }

    /// The token reserve that the pool was created with.
    pub fn get_initial_token_reserve(&self) -> (r: u64)
        ensures
            r == self@.initial_token_reserve,
            r > 0,
            self@.wf(),
    {
        proof {
            use_type_invariant(self);
        }
        self.initial_token_reserve
    }

    /// The product of the reserves that the pool was created with.
    pub fn get_constant_product(&self) -> (r: u128)
        ensures
            r == self@.constant_product,
            r == self@.initial_native_reserve() * self@.initial_token_reserve,
            self@.wf(),
    {
        proof {
            use_type_invariant(self);
        }
        self.constant_product
    }

    /// Prices a buy of `token_amount` tokens: the reserves after it, native
    /// first.
    fn price_buy(&self, token_amount: u64) -> (res: Result<(u64, u64), PoolError>)
        ensures
            self@.wf(),
            res is Err ==> self@.buy_quote(token_amount) == Err::<u64, PoolError>(res->Err_0),
            res is Ok ==> self@.buy_quote(token_amount) == Ok::<u64, PoolError>(
                (res->Ok_0.0 - self@.native_reserve) as u64,
            ),
            res is Ok ==> res->Ok_0.0 == self@.after_buy(token_amount).native_reserve,
            res is Ok ==> res->Ok_0.1 == self@.after_buy(token_amount).token_reserve,
            res is Ok ==> res->Ok_0.0 >= self@.native_reserve,
            res is Ok ==> self@.after_buy(token_amount).wf(),
            res is Ok ==> self@.after_buy(token_amount).actual_product()
                <= self@.constant_product,
    {
        proof {
            use_type_invariant(self);
        }
        if token_amount == 0 {
            return Err(PoolError::InvalidAmount);
        }
        let new_token_reserve = match self.token_reserve.checked_sub(token_amount) {
            Some(left) => left,
            None => {
                return Err(PoolError::InsufficientPoolFunds);
            },
        };
        let quotient = match self.constant_product.checked_div(new_token_reserve as u128) {
            Some(q) => q,
            None => {
                return Err(PoolError::Overflow);
            },
        };
        proof {
            lemma_after_buy(self@, token_amount);
        }
        if quotient > u64::MAX as u128 {
            return Err(PoolError::Overflow);
        }
        Ok((quotient as u64, new_token_reserve))
    }

    /// Prices a sale of `token_amount` tokens: the reserves after it, native
    /// first.
    fn price_sell(&self, token_amount: u64) -> (res: Result<(u64, u64), PoolError>)
        ensures
            self@.wf(),
            res is Err ==> self@.sell_quote(token_amount) == Err::<u64, PoolError>(res->Err_0),
            res is Ok ==> self@.sell_quote(token_amount) == Ok::<u64, PoolError>(
                (self@.native_reserve - res->Ok_0.0) as u64,
            ),
            res is Ok ==> res->Ok_0.0 == self@.after_sell(token_amount).native_reserve,
            res is Ok ==> res->Ok_0.1 == self@.after_sell(token_amount).token_reserve,
            res is Ok ==> res->Ok_0.0 <= self@.native_reserve,
            res is Ok && res->Ok_0.0 > 0 ==> self@.after_sell(token_amount).wf(),
            res is Ok ==> self@.after_sell(token_amount).actual_product()
                <= self@.constant_product,
    {
        proof {
            use_type_invariant(self);
        }
        if token_amount == 0 {
            return Err(PoolError::InvalidAmount);
        }
        if token_amount > self.token_reserve {
            return Err(PoolError::InsufficientPoolFunds);
        }
        let new_token_reserve = match self.token_reserve.checked_add(token_amount) {
            Some(more) => more,
            None => {
                return Err(PoolError::Overflow);
            },
        };
        let quotient = match self.constant_product.checked_div(new_token_reserve as u128) {
            Some(q) => q,
            None => {
                return Err(PoolError::Overflow);
            },
        };
        proof {
            lemma_after_sell(self@, token_amount);
        }
        Ok((quotient as u64, new_token_reserve))
    }

    /// Buys `token_amount` tokens from the pool. With a `max_native`, the buy
    /// is refused when it would cost more than that. On success the reserves
    /// move to the new price and the cost is returned; on failure the pool is
    /// unchanged.
    pub fn buy(&mut self, token_amount: u64, max_native: Option<u64>) -> (res: Result<
        u64,
        PoolError,
    >)
        ensures
            res == old(self)@.buy(token_amount, max_native),
            res is Err ==> final(self)@ == old(self)@,
            res is Ok ==> final(self)@ == old(self)@.after_buy(token_amount),
            res is Ok ==> final(self)@.token_reserve == old(self)@.token_reserve - token_amount,
            res is Ok ==> final(self)@.native_reserve == old(self)@.native_reserve + res->Ok_0,
            res is Ok ==> final(self)@.actual_product() <= final(self)@.constant_product,
            final(self)@.constant_product == old(self)@.constant_product,
            final(self)@.initial_token_reserve == old(self)@.initial_token_reserve,
            final(self)@.wf(),
    {
        let (new_native_reserve, new_token_reserve) = match self.price_buy(token_amount) {
            Ok(reserves) => reserves,
            Err(e) => {
                return Err(e);
            },
        };
        let native_spent = new_native_reserve - self.native_reserve;
        if let Some(cap) = max_native {
            if native_spent > cap {
                return Err(PoolError::SlippageExceeded);
            }
        }
        *self = LiquidityPool {
            initial_token_reserve: self.initial_token_reserve,
            native_reserve: new_native_reserve,
            token_reserve: new_token_reserve,
            constant_product: self.constant_product,
        };
        Ok(native_spent)
    }

    /// Sells `token_amount` tokens to the pool. With a `min_native`, the sale
    /// is refused when it would pay less than that; it is also refused when
    /// it would take the last of the native reserve. On success the reserves
    /// move to the new price and the payout is returned; on failure the pool
    /// is unchanged.
    pub fn sell(&mut self, token_amount: u64, min_native: Option<u64>) -> (res: Result<
        u64,
        PoolError,
    >)
        ensures
            res == old(self)@.sell(token_amount, min_native),
            res is Err ==> final(self)@ == old(self)@,
            res is Ok ==> final(self)@ == old(self)@.after_sell(token_amount),
            res is Ok ==> final(self)@.token_reserve == old(self)@.token_reserve + token_amount,
            res is Ok ==> final(self)@.native_reserve == old(self)@.native_reserve - res->Ok_0,
            res is Ok ==> final(self)@.actual_product() <= final(self)@.constant_product,
            final(self)@.constant_product == old(self)@.constant_product,
            final(self)@.initial_token_reserve == old(self)@.initial_token_reserve,
            final(self)@.wf(),
    {
        let (new_native_reserve, new_token_reserve) = match self.price_sell(token_amount) {
            Ok(reserves) => reserves,
            Err(e) => {
                return Err(e);
            },
        };
        let native_received = self.native_reserve - new_native_reserve;
        if let Some(floor) = min_native {
            if native_received < floor {
                return Err(PoolError::SlippageExceeded);
            }
        }
        if new_native_reserve == 0 {
            return Err(PoolError::InsufficientPoolFunds);
        }
        *self = LiquidityPool {
            initial_token_reserve: self.initial_token_reserve,
            native_reserve: new_native_reserve,
            token_reserve: new_token_reserve,
            constant_product: self.constant_product,
        };
        Ok(native_received)
    }

    /// Quotes a buy of `token_amount` tokens: what it would cost. With a
    /// `min_native`, a cost below it is reported as slippage. The pool is only
    /// read.
    pub fn simulate_buy(&self, token_amount: u64, min_native: Option<u64>) -> (res: Result<
        u64,
        PoolError,
    >)
        ensures
            res == self@.simulate_buy(token_amount, min_native),
            self@.wf(),
            res is Ok ==> self@.native_reserve + res->Ok_0 == self@.after_buy(
                token_amount,
            ).native_reserve,
    {
        let (new_native_reserve, _) = match self.price_buy(token_amount) {
            Ok(reserves) => reserves,
            Err(e) => {
                return Err(e);
            },
        };
        let native_cost = new_native_reserve - self.native_reserve;
        if let Some(floor) = min_native {
            if native_cost < floor {
                return Err(PoolError::SlippageExceeded);
            }
        }
        Ok(native_cost)
    }

    /// Quotes a sale of `token_amount` tokens: what it would pay. With a
    /// `max_native`, a payout above it is reported as slippage. The pool is
    /// only read.
    pub fn simulate_sell(&self, token_amount: u64, max_native: Option<u64>) -> (res: Result<
        u64,
        PoolError,
    >)
        ensures
            res == self@.simulate_sell(token_amount, max_native),
            self@.wf(),
            res is Ok ==> self@.native_reserve - res->Ok_0 == self@.after_sell(
                token_amount,
            ).native_reserve,
    {
        let (new_native_reserve, _) = match self.price_sell(token_amount) {
            Ok(reserves) => reserves,
            Err(e) => {
                return Err(e);
            },
        };
        let native_payout = self.native_reserve - new_native_reserve;
        if let Some(cap) = max_native {
            if native_payout > cap {
                return Err(PoolError::SlippageExceeded);
            }
        }
        Ok(native_payout)
    }

    /// The tokens that `native_amount` of the native asset would buy: the
    /// token reserve less the reserve at which the pool would hold that much
    /// more native asset.
    pub fn calculate_tokens_received(&self, native_amount: u64) -> (res: Result<u64, PoolError>)
        ensures
            res == self@.tokens_received(native_amount),
            self@.wf(),
            res is Ok ==> 0 < res->Ok_0 <= self@.token_reserve,
            res is Ok ==> res->Ok_0 == self@.token_reserve - self@.tokens_left(native_amount),
    {
        proof {
            use_type_invariant(self);
        }
        if native_amount == 0 {
            return Err(PoolError::InvalidAmount);
        }
        let new_native_reserve = match self.native_reserve.checked_add(native_amount) {
            Some(more) => more,
            None => {
                return Err(PoolError::Overflow);
            },
        };
        let quotient = match self.constant_product.checked_div(new_native_reserve as u128) {
            Some(q) => q,
            None => {
                return Err(PoolError::Overflow);
            },
        };
        proof {
            lemma_tokens_received(self@, native_amount);
        }
        Ok(self.token_reserve - quotient as u64)
    }

    /// Buys as many tokens as `native_amount` of the native asset pays for,
    /// and returns how many that was.
    pub fn buy_tokens_with_native(&mut self, native_amount: u64) -> (res: Result<u64, PoolError>)
        ensures
            res == old(self)@.buy_with_native(native_amount),
            res is Err ==> final(self)@ == old(self)@,
            res is Ok ==> final(self)@ == old(self)@.after_buy(res->Ok_0),
            res is Ok ==> final(self)@.token_reserve == old(self)@.tokens_left(native_amount),
            final(self)@.constant_product == old(self)@.constant_product,
            final(self)@.initial_token_reserve == old(self)@.initial_token_reserve,
            final(self)@.wf(),
    {
        proof {
            use_type_invariant(&*self);
        }
        if native_amount == 0 {
            return Err(PoolError::InvalidAmount);
        }
        let token_amount = match self.calculate_tokens_received(native_amount) {
            Ok(tokens) => tokens,
            Err(e) => {
                return Err(e);
            },
        };
        match self.buy(token_amount, None) {
            Ok(_) => Ok(token_amount),
            Err(e) => Err(e),
        }
    }

    /// Finds how many tokens to buy first so that selling `sell_tokens`
    /// afterwards pays `desired_native`. It bisects the buy sizes up to the
    /// token reserve, trying each on a copy of the pool, and returns the size
    /// whose payout is exactly the target, or else the smallest size tried
    /// whose payout was above it. When no size tried paid more than the
    /// target, the whole token reserve is returned. The pool is unchanged.
    pub fn calculate_additional_tokens_for_desired_native(
        &mut self,
        sell_tokens: u64,
        desired_native: u64,
    ) -> (res: Result<u64, PoolError>)
        ensures
            final(self)@ == old(self)@,
            final(self)@.wf(),
            res == old(self)@.additional_tokens(sell_tokens, desired_native),
            sell_tokens == 0 || desired_native == 0 ==> res == Err::<u64, PoolError>(
                PoolError::InvalidAmount,
            ),
            res is Ok ==> res->Ok_0 <= old(self)@.token_reserve,
            res is Ok && res->Ok_0 < old(self)@.token_reserve ==> {
                let payout = old(self)@.payout_after_buy(res->Ok_0, sell_tokens);
                payout is Ok && payout->Ok_0 >= desired_native
            },
    {
        proof {
            use_type_invariant(&*self);
        }
        if sell_tokens == 0 || desired_native == 0 {
            return Err(PoolError::InvalidAmount);
        }
        let mut low: u64 = 0;
        let mut high: u64 = self.token_reserve;
        let mut best_guess: u64 = high;
        while low <= high
            invariant
                *self == *old(self),
                self@.wf(),
                low < high <= self@.token_reserve,
                low == 0 || high - low >= 2,
                best_guess <= self@.token_reserve,
                best_guess < self@.token_reserve ==> {
                    let payout = self@.payout_after_buy(best_guess, sell_tokens);
                    payout is Ok && payout->Ok_0 > desired_native
                },
                self@.search(sell_tokens, desired_native, low, high, best_guess)
                    == self@.additional_tokens(sell_tokens, desired_native),
            decreases high - low,
        {
            let mid: u64 = low + (high - low) / 2;
            let mut trial = self.clone();
            match trial.buy(mid, None) {
                Ok(_) => {},
                Err(e) => {
                    return Err(e);
                },
            }
            let native_received = match trial.simulate_sell(sell_tokens, None) {
                Ok(payout) => payout,
                Err(e) => {
                    return Err(e);
                },
            };
            if native_received == desired_native {
                return Ok(mid);
            } else if native_received < desired_native {
                low = mid + 1;
            } else {
                best_guess = mid;
                high = mid - 1;
            }
            if high - low <= 1 {
                return Ok(best_guess);
            }
        }
        Ok(best_guess)
    }

    /// The reserves that a buy of `token_amount` tokens would be priced at:
    /// the native reserve at full width, then the token reserve. This is what
    /// a price-impact figure compares against the reference price.
    pub fn reserves_after_buy(&self, token_amount: u64) -> (reserves: (u128, u64))
        requires
            token_amount < self@.token_reserve,
        ensures
            reserves.0 == self@.after_buy(token_amount).native_reserve,
            reserves.1 == self@.after_buy(token_amount).token_reserve,
            reserves.1 > 0,
    {
        proof {
            use_type_invariant(self);
        }
        let new_token_reserve = self.token_reserve - token_amount;
        let new_native_reserve = self.constant_product / new_token_reserve as u128;
        (new_native_reserve, new_token_reserve)
    }
}

impl Clone for LiquidityPool {
    /// An independent copy of the pool.
    fn clone(&self) -> (copy: Self)
        ensures
            copy@ == self@,
    {
        proof {
            use_type_invariant(self);
        }
        LiquidityPool {
            initial_token_reserve: self.initial_token_reserve,
            native_reserve: self.native_reserve,
            token_reserve: self.token_reserve,
            constant_product: self.constant_product,
        }
    }
}

} // verus!
