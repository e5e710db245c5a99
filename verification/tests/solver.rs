use liquidity_pool::{LiquidityPool, PoolError};

fn pool_of(native_reserve: u64, token_reserve: u64) -> LiquidityPool {
    LiquidityPool::new(native_reserve, token_reserve).unwrap()
}

fn solve(pool: &mut LiquidityPool, sell_tokens: u64, desired_native: u64) -> Result<u64, PoolError> {
    pool.calculate_additional_tokens_for_desired_native(sell_tokens, desired_native)
}

#[test]
fn solver_rejects_zero_inputs() {
    let mut pool = pool_of(1000, 1000);
    assert_eq!(solve(&mut pool, 0, 5), Err(PoolError::InvalidAmount));
    assert_eq!(solve(&mut pool, 5, 0), Err(PoolError::InvalidAmount));
    assert_eq!(solve(&mut pool, 0, 0), Err(PoolError::InvalidAmount));
}

#[test]
fn solver_returns_exact_match() {
    let mut pool = pool_of(1000, 1000);
    // Buying 500 leaves (2000, 500); selling 1 then pays 2000 - 1996 = 4.
    assert_eq!(solve(&mut pool, 1, 4), Ok(500));
    let mut trial = pool.clone();
    trial.buy(500, None).unwrap();
    assert_eq!(trial.simulate_sell(1, None), Ok(4));
}

#[test]
fn solver_returns_smallest_overshoot_tried() {
    let mut pool = pool_of(1000, 1000);
    assert_eq!(solve(&mut pool, 100, 120), Ok(135));
    assert_eq!(solve(&mut pool, 100, 95), Ok(22));
    assert_eq!(solve(&mut pool, 100, 112), Ok(104));
    assert_eq!(solve(&mut pool, 50, 60), Ok(108));
    assert_eq!(solve(&mut pool, 1, 5), Ok(531));
    assert_eq!(solve(&mut pool, 1, 3), Ok(374));
    for (sell_tokens, desired, bought) in [(100u64, 120u64, 135u64), (100, 95, 22), (50, 60, 108)] {
        let mut trial = pool.clone();
        trial.buy(bought, None).unwrap();
        assert!(trial.simulate_sell(sell_tokens, None).unwrap() >= desired);
    }
}

#[test]
fn solver_leaves_the_pool_alone() {
    let mut pool = pool_of(1000, 1000);
    assert_eq!(solve(&mut pool, 100, 91), Ok(2));
    assert_eq!(pool.get_native_reserve(), 1000);
    assert_eq!(pool.get_token_reserve(), 1000);
    assert_eq!(pool.get_constant_product(), 1_000_000);
    assert_eq!(solve(&mut pool, 100, 100_000), Err(PoolError::InsufficientPoolFunds));
    assert_eq!(pool.get_native_reserve(), 1000);
    assert_eq!(pool.get_token_reserve(), 1000);
}

#[test]
fn solver_returns_whole_reserve_when_nothing_overshoots() {
    let mut pool = pool_of(1000, 1000);
    assert_eq!(solve(&mut pool, 1, 1_000_000), Ok(1000));
    assert_eq!(solve(&mut pool, 1, 2_000_000), Ok(1000));
}

#[test]
fn solver_passes_on_probe_errors() {
    // With one token the first probe buys nothing.
    let mut single = pool_of(5, 1);
    assert_eq!(solve(&mut single, 1, 1), Err(PoolError::InvalidAmount));
    // The probe's sale is larger than what the trial pool holds.
    let mut pool = pool_of(1000, 1000);
    assert_eq!(solve(&mut pool, 600, 500), Err(PoolError::InsufficientPoolFunds));
    let mut pair = pool_of(5, 2);
    assert_eq!(solve(&mut pair, 3, 3), Err(PoolError::InsufficientPoolFunds));
    // The probe's buy prices the native reserve beyond its width.
    let mut wide = pool_of(u64::MAX, u64::MAX);
    assert_eq!(solve(&mut wide, 1, 1), Err(PoolError::Overflow));
}

#[test]
fn solver_on_two_tokens() {
    let mut pair = pool_of(5, 2);
    assert_eq!(solve(&mut pair, 1, 1), Ok(1));
    assert_eq!(solve(&mut pair, 1, 3), Ok(1));
}

#[test]
fn solver_on_large_pool() {
    let mut pool = pool_of(10u64.pow(9), 10u64.pow(15));
    assert_eq!(pool.buy(50_000_000_000_000, None), Ok(52_631_578));
    assert_eq!(
        solve(&mut pool, 50_000_000_000_000, 1_052_631_578),
        Ok(755_625_890_253_575)
    );
}
