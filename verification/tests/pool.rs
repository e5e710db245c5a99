use liquidity_pool::{LiquidityPool, PoolError};

fn default_pool() -> LiquidityPool {
    let native_reserve = 10u64.pow(9);
    let token_reserve = 1_000_000_000 * 10u64.pow(6);
    LiquidityPool::new(native_reserve, token_reserve).unwrap()
}

/// The relative distance of the reserves' product from the constant product.
fn check_pool_integrity(pool: &LiquidityPool) -> Result<f64, PoolError> {
    if pool.get_native_reserve() == 0 || pool.get_token_reserve() == 0 {
        return Err(PoolError::InvalidAmount);
    }
    let k = pool.get_native_reserve() as u128 * pool.get_token_reserve() as u128;
    Ok((k as f64 - pool.get_constant_product() as f64) / pool.get_constant_product() as f64)
}

#[test]
fn test_buy() {
    let mut pool = default_pool();
    let native_reserve = pool.get_native_reserve();
    let token_reserve = pool.get_token_reserve();
    let token_amount = 1_000_000 * 10u64.pow(6);
    let native = pool.buy(token_amount, None).unwrap();
    println!(
        "Get {} tokens by paying {:.6} NATIVE",
        token_amount / 10u64.pow(6),
        native as f64 / 10u64.pow(9) as f64
    );
    assert_eq!(pool.get_native_reserve(), native_reserve + native);
    assert_eq!(pool.get_token_reserve(), token_reserve - token_amount);
    println!("Integrity: {}", check_pool_integrity(&pool).unwrap());
    assert!(check_pool_integrity(&pool).unwrap().abs() < 0.000000001);
}

#[test]
fn test_sell() {
    let mut pool = default_pool();
    let native_reserve = pool.get_native_reserve();
    let token_reserve = pool.get_token_reserve();
    let token_amount = 1_000_000 * 10u64.pow(6);
    let native = pool.sell(token_amount, None).unwrap();
    println!(
        "Sell {} tokens and get {:.6} NATIVE",
        token_amount / 10u64.pow(6),
        native as f64 / 10u64.pow(9) as f64
    );
    assert_eq!(pool.get_native_reserve(), native_reserve - native);
    assert_eq!(pool.get_token_reserve(), token_reserve + token_amount);
    println!("Integrity: {}", check_pool_integrity(&pool).unwrap());
    assert!(check_pool_integrity(&pool).unwrap().abs() < 0.000000001);
}

#[test]
fn test_simulate_buy() {
    let pool = default_pool();
    let token_amount = 1_000_000 * 10u64.pow(6);
    let native = pool.simulate_buy(token_amount, None).unwrap();
    let new_k = (pool.get_native_reserve() + native) as u128
        * (pool.get_token_reserve() - token_amount) as u128;
    let difference = (new_k as f64 - pool.get_constant_product() as f64)
        / pool.get_constant_product() as f64;
    assert!(difference.abs() < 0.000000001);
}

#[test]
fn test_simulate_sell() {
    let pool = default_pool();
    let token_amount = 1_000_000 * 10u64.pow(6);
    let native = pool.simulate_sell(token_amount, None).unwrap();
    println!(
        "Simulate sell {} tokens and get {:.6} NATIVE",
        token_amount / 10u64.pow(6),
        native as f64 / 10u64.pow(9) as f64
    );
    let new_k = (pool.get_native_reserve() - native) as u128
        * (pool.get_token_reserve() + token_amount) as u128;
    let difference = (new_k as f64 - pool.get_constant_product() as f64)
        / pool.get_constant_product() as f64;
    println!("Integrity: {}", difference);
    assert!(difference.abs() < 0.000000001);
}

#[test]
fn test_calculate_tokens_received() {
    let mut pool = default_pool();
    let native_amount = 10u64.pow(9);
    let token_amount = pool.calculate_tokens_received(native_amount).unwrap();
    println!(
        "Should get {:.6} tokens by paying {:.6} NATIVE",
        token_amount as f64 / 10u64.pow(6) as f64,
        native_amount as f64 / 10u64.pow(9) as f64
    );
    let native = pool.buy(token_amount, None).unwrap();
    assert_eq!(native, native_amount);
}

#[test]
fn test_buy_tokens_with_native() {
    let mut pool = default_pool();
    let native_amount = 10u64.pow(9);
    let initial_native_reserve = pool.get_native_reserve();
    let token_amount = pool.buy_tokens_with_native(native_amount).unwrap();
    println!(
        "Get {} tokens by paying {:.6} NATIVE",
        token_amount / 10u64.pow(6),
        native_amount as f64 / 10u64.pow(9) as f64
    );
    assert_eq!(
        pool.get_native_reserve(),
        initial_native_reserve + native_amount
    );
}

#[test]
fn test_buy_invalid_slippage() {
    let mut pool = default_pool();
    let token_amount = 1_000_000 * 10u64.pow(6);
    let native_cost = pool.simulate_buy(token_amount, None).unwrap();
    let result = pool.buy(token_amount, Some(native_cost - 1));
    assert_eq!(result, Err(PoolError::SlippageExceeded));
}

#[test]
fn test_sell_invalid_slippage() {
    let mut pool = default_pool();
    let token_amount = 1_000_000 * 10u64.pow(6);
    let native_gain = pool.simulate_sell(token_amount, None).unwrap();
    let result = pool.sell(token_amount, Some(native_gain + 1));
    assert_eq!(result, Err(PoolError::SlippageExceeded));
}

#[test]
fn test_calculate_missing_tokens() {
    let mut pool = default_pool();
    let tokens_to_buy = 50_000_000 * 10u64.pow(6);
    let native_spent = pool.buy(tokens_to_buy, None).unwrap();

    let additional_native_needed = native_spent + 10u64.pow(9);
    let missing_tokens = pool
        .calculate_additional_tokens_for_desired_native(tokens_to_buy, additional_native_needed)
        .unwrap();

    pool.buy(missing_tokens, None).unwrap();

    let native_received = pool.sell(tokens_to_buy, None).unwrap();

    assert!(native_received >= additional_native_needed);
    assert!(native_received <= additional_native_needed + 1);
}

#[test]
fn test_many_operations() {
    let mut pool = default_pool();
    let token_buy_amouts = [1_000_000, 10_000_000, 3_000_000, 3_000_000, 1_000_000];
    let token_sell_amouts = [1_000_000, 1_000_000, 2_000_000, 1_000_000, 5_000_000];
    for i in 0..5 {
        let token_amount = token_buy_amouts[i] * 10u64.pow(6);
        let _ = pool.buy(token_amount, None).unwrap();
        let token_amount = token_sell_amouts[i] * 10u64.pow(6);
        let _ = pool.sell(token_amount, None).unwrap();
    }

    assert!(check_pool_integrity(&pool).unwrap().abs() < 0.000000001);
}
