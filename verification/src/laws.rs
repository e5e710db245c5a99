//! What holds of every pool and every trade, stated over the model.

use vstd::prelude::*;
use crate::error::PoolError;
use crate::model::{
    lemma_after_buy, lemma_after_sell, lemma_created_wf, lemma_tokens_received, PoolState,
};

verus! {

/// A pool created from two positive reserves has exactly their product as its
/// constant product, and neither a buy nor a sell changes it, nor the token
/// reserve recorded at creation.
pub proof fn law_constant_product_is_fixed(
    native_reserve: u64,
    token_reserve: u64,
    s: PoolState,
    amount: u64,
)
    requires
        native_reserve > 0,
        token_reserve > 0,
    ensures
        PoolState::created(native_reserve as nat, token_reserve as nat).wf(),
        PoolState::created(native_reserve as nat, token_reserve as nat).constant_product
            == native_reserve * token_reserve,
        s.after_buy(amount).constant_product == s.constant_product,
        s.after_sell(amount).constant_product == s.constant_product,
        s.after_buy(amount).initial_token_reserve == s.initial_token_reserve,
        s.after_sell(amount).initial_token_reserve == s.initial_token_reserve,
{
    lemma_created_wf(native_reserve as nat, token_reserve as nat);
}

/// A successful buy takes exactly the amount out of the token reserve, adds
/// exactly the returned cost to the native reserve, and leaves a valid pool
/// whose reserves multiply to at most the constant product.
pub proof fn law_buy_moves_reserves(s: PoolState, amount: u64, max_native: Option<u64>)
    requires
        s.wf(),
        s.buy(amount, max_native) is Ok,
    ensures
        s.after_buy(amount).token_reserve == s.token_reserve - amount,
        s.after_buy(amount).native_reserve == s.native_reserve + s.buy(amount, max_native)->Ok_0,
        s.after_buy(amount).actual_product() <= s.constant_product,
        s.after_buy(amount).wf(),
{
    lemma_after_buy(s, amount);
}

/// A successful sell adds exactly the amount to the token reserve, takes
/// exactly the returned payout out of the native reserve, and leaves a valid
/// pool whose reserves multiply to at most the constant product.
pub proof fn law_sell_moves_reserves(s: PoolState, amount: u64, min_native: Option<u64>)
    requires
        s.wf(),
        s.sell(amount, min_native) is Ok,
    ensures
        s.after_sell(amount).token_reserve == s.token_reserve + amount,
        s.after_sell(amount).native_reserve == s.native_reserve - s.sell(amount, min_native)->Ok_0,
        s.after_sell(amount).actual_product() <= s.constant_product,
        s.after_sell(amount).wf(),
{
    lemma_after_sell(s, amount);
}

/// A buy capped at the cost that a simulation quoted succeeds with exactly
/// that cost, and a buy capped one below it is refused for slippage.
pub proof fn law_buy_cap_matches_quote(s: PoolState, amount: u64, cost: u64)
    requires
        s.simulate_buy(amount, None) == Ok::<u64, PoolError>(cost),
    ensures
        s.buy(amount, Some(cost)) == Ok::<u64, PoolError>(cost),
        cost > 0 ==> s.buy(amount, Some((cost - 1) as u64)) == Err::<u64, PoolError>(
            PoolError::SlippageExceeded,
        ),
{
}

/// A sell that asks for one more than the payout that a simulation quoted is
/// refused for slippage, and a sell that asks for exactly the quoted payout
/// succeeds with it whenever the payout leaves some native reserve.
pub proof fn law_sell_floor_matches_quote(s: PoolState, amount: u64, payout: u64)
    requires
        s.simulate_sell(amount, None) == Ok::<u64, PoolError>(payout),
    ensures
        payout < u64::MAX ==> s.sell(amount, Some((payout + 1) as u64)) == Err::<u64, PoolError>(
            PoolError::SlippageExceeded,
        ),
        s.after_sell(amount).native_reserve > 0 ==> s.sell(amount, Some(payout)) == Ok::<
            u64,
            PoolError,
        >(payout),
{
}

/// A quote without a bound and a trade without a bound agree on a buy, and on
/// every sell that leaves some native reserve.
pub proof fn law_quote_matches_trade(s: PoolState, amount: u64)
    ensures
        s.simulate_buy(amount, None) == s.buy(amount, None),
        s.after_sell(amount).native_reserve > 0 ==> s.simulate_sell(amount, None) == s.sell(
            amount,
            None,
        ),
        s.sell(amount, None) is Ok ==> s.simulate_sell(amount, None) == s.sell(amount, None),
{
}

/// Buying with an amount of the native asset, when it succeeds, raises the
/// native reserve by at least that amount.
pub proof fn law_buy_with_native_pays_in_full(s: PoolState, native_amount: u64)
    requires
        s.wf(),
        s.buy_with_native(native_amount) is Ok,
    ensures
        s.after_buy(s.buy_with_native(native_amount)->Ok_0).token_reserve == s.tokens_left(
            native_amount,
        ),
        s.after_buy(s.buy_with_native(native_amount)->Ok_0).native_reserve >= s.native_reserve
            + native_amount,
{
    let k = s.constant_product as int;
    let d = (s.native_reserve + native_amount) as int;
    let q = s.tokens_left(native_amount) as int;
    let tokens = s.buy_with_native(native_amount)->Ok_0;
    lemma_tokens_received(s, native_amount);
    assert(s.tokens_received(native_amount) == Ok::<u64, PoolError>(tokens));
    assert(s.buy(tokens, None) is Ok);
    assert(q == k / d);
    assert(s.after_buy(tokens).token_reserve == q);
    assert(q > 0);
    assert(k / q >= d) by (nonlinear_arith)
        requires
            q == k / d,
            q > 0,
            d > 0,
            k >= 0,
    ;
}

/// Whatever size the bisection returns is either the size recorded before
/// or lies within the bracket, and in the latter case selling after buying it
/// pays at least the target.
pub proof fn law_search_meets_target(
    s: PoolState,
    sell_tokens: u64,
    desired_native: u64,
    low: u64,
    high: u64,
    best: u64,
)
    requires
        s.search(sell_tokens, desired_native, low, high, best) is Ok,
    ensures
        ({
            let found = s.search(sell_tokens, desired_native, low, high, best)->Ok_0;
            let payout = s.payout_after_buy(found, sell_tokens);
            found == best || (low <= found <= high && payout is Ok && payout->Ok_0
                >= desired_native)
        }),
    decreases high - low,
{
    let mid = PoolState::midpoint(low, high);
    if low <= high {
        let payout = s.payout_after_buy(mid, sell_tokens);
        if payout->Ok_0 < desired_native {
            if high - (mid + 1) > 1 {
                law_search_meets_target(
                    s,
                    sell_tokens,
                    desired_native,
                    (mid + 1) as u64,
                    high,
                    best,
                );
            }
        } else if payout->Ok_0 > desired_native {
            if (mid - 1) - low > 1 {
                law_search_meets_target(
                    s,
                    sell_tokens,
                    desired_native,
                    low,
                    (mid - 1) as u64,
                    mid,
                );
            }
        }
    }
}

/// The size that the solver returns is at most the token reserve, and unless
/// it is the whole reserve, selling after buying it pays at least the target.
pub proof fn law_solver_meets_target(s: PoolState, sell_tokens: u64, desired_native: u64)
    requires
        s.wf(),
        s.additional_tokens(sell_tokens, desired_native) is Ok,
    ensures
        ({
            let found = s.additional_tokens(sell_tokens, desired_native)->Ok_0;
            let payout = s.payout_after_buy(found, sell_tokens);
            found <= s.token_reserve && (found < s.token_reserve ==> payout is Ok && payout->Ok_0
                >= desired_native)
        }),
{
    law_search_meets_target(
        s,
        sell_tokens,
        desired_native,
        0,
        s.token_reserve as u64,
        s.token_reserve as u64,
    );
}

} // verus!
