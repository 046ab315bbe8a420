//! End-to-end scenarios over the pool lifecycle, and one input for each
//! error the engine can return.

use cpmm::account::AccountId;
use cpmm::amms_config::AmmsConfig;
use cpmm::cp_amm::{CpAmm, CpAmmBuilder, INITIAL_LOCKED_LP_TOKENS};
use cpmm::error::ErrorCode;
use cpmm::q64_64::Q64_64;

/// An initialized, unlaunched pool bound to a config with the given rates.
fn initialized_pool(providers_rate: u16, protocol_rate: u16) -> CpAmm {
    let mut config = AmmsConfig::unset();
    config
        .initialize(AccountId::new([9u8; 32]), protocol_rate, providers_rate, 7, 1)
        .unwrap();
    let mut pool = CpAmmBuilder::new().build();
    pool.initialize(
        AccountId::new([1u8; 32]),
        AccountId::new([2u8; 32]),
        AccountId::new([3u8; 32]),
        &config,
        AccountId::new([4u8; 32]),
        250,
    )
    .unwrap();
    pool
}

/// A launched pool with the given reserves, its caches freshly computed.
fn launched_pool(base: u64, quote: u64, providers_rate: u16, protocol_rate: u16) -> CpAmm {
    let mut pool = initialized_pool(providers_rate, protocol_rate);
    let payload = pool.get_launch_payload(base, quote).unwrap();
    pool.launch(
        payload,
        AccountId::new([5u8; 32]),
        AccountId::new([6u8; 32]),
        AccountId::new([7u8; 32]),
    );
    pool
}

#[test]
fn scenario_launch() {
    let mut pool = initialized_pool(100, 100);
    assert!(pool.is_initialized());
    assert!(!pool.is_launched());

    // A pool whose supply would not reach four times the locked seed is
    // refused.
    assert_eq!(
        pool.get_launch_payload(5500, 1000),
        Err(ErrorCode::LaunchLiquidityTooSmall)
    );

    let payload = pool.get_launch_payload(400_000, 400_000).unwrap();
    assert_eq!(payload.constant_product_sqrt.to_u64(), 400_000);
    assert_eq!(payload.lp_tokens_supply, 400_000);
    assert_eq!(payload.initial_locked_liquidity, INITIAL_LOCKED_LP_TOKENS);
    assert_eq!(payload.initial_locked_liquidity, 100_000);
    assert_eq!(payload.launch_liquidity(), 300_000);
    assert!(payload.base_quote_ratio_sqrt.is_one());

    pool.launch(
        payload,
        AccountId::new([5u8; 32]),
        AccountId::new([6u8; 32]),
        AccountId::new([7u8; 32]),
    );
    assert!(pool.is_launched());
    assert_eq!(pool.base_liquidity(), 400_000);
    assert_eq!(pool.quote_liquidity(), 400_000);
    assert_eq!(pool.lp_tokens_supply(), 400_000);
    assert_eq!(pool.initial_locked_liquidity(), 100_000);

    // Launching twice is refused.
    assert_eq!(
        pool.get_launch_payload(400_000, 400_000),
        Err(ErrorCode::CpAmmAlreadyLaunched)
    );
}

#[test]
fn scenario_provide() {
    let mut pool = launched_pool(4_000_000, 1_000_000, 0, 0);
    pool = {
        // Overwrite the supply so the scenario starts from 2,000,000.
        let p = pool;
        CpAmmBuilder::new()
            .is_initialized(true)
            .is_launched(true)
            .base_liquidity(p.base_liquidity())
            .quote_liquidity(p.quote_liquidity())
            .constant_product_sqrt(p.constant_product_sqrt())
            .base_quote_ratio_sqrt(p.base_quote_ratio_sqrt())
            .lp_tokens_supply(2_000_000)
            .build()
    };

    let payload = pool.get_provide_payload(2_000_000, 500_000).unwrap();
    assert_eq!(payload.base_liquidity, 6_000_000);
    assert_eq!(payload.quote_liquidity, 1_500_000);
    assert_eq!(payload.lp_tokens_to_mint, 1_000_000);
    assert_eq!(payload.lp_tokens_supply, 3_000_000);

    // Provide never decreases reserves or supply.
    assert!(payload.base_liquidity >= pool.base_liquidity());
    assert!(payload.quote_liquidity >= pool.quote_liquidity());
    assert!(payload.lp_tokens_supply >= pool.lp_tokens_supply());

    pool.provide(payload);
    assert_eq!(pool.base_liquidity(), 6_000_000);
    assert_eq!(pool.quote_liquidity(), 1_500_000);
    assert_eq!(pool.lp_tokens_supply(), 3_000_000);
    assert_eq!(pool.constant_product_sqrt(), Q64_64::from_u64(3_000_000));
}

#[test]
fn scenario_withdraw() {
    let mut pool = CpAmmBuilder::new()
        .is_initialized(true)
        .is_launched(true)
        .base_liquidity(6_000_000)
        .quote_liquidity(1_500_000)
        .constant_product_sqrt(Q64_64::from_u64(3_000_000))
        .base_quote_ratio_sqrt(Q64_64::from_u64(2))
        .lp_tokens_supply(3_000_000)
        .build();

    let payload = pool.get_withdraw_payload(1_000_000).unwrap();
    assert_eq!(payload.base_withdraw_amount, 2_000_000);
    assert_eq!(payload.quote_withdraw_amount, 500_000);
    assert_eq!(payload.base_liquidity, 4_000_000);
    assert_eq!(payload.quote_liquidity, 1_000_000);
    assert_eq!(payload.lp_tokens_supply, 2_000_000);

    // Withdraw never increases reserves or supply, and never drains the
    // supply.
    assert!(payload.base_liquidity <= pool.base_liquidity());
    assert!(payload.quote_liquidity <= pool.quote_liquidity());
    assert!(payload.lp_tokens_supply < pool.lp_tokens_supply());
    assert!(payload.lp_tokens_supply > 0);

    pool.withdraw(payload);
    assert_eq!(pool.base_liquidity(), 4_000_000);
    assert_eq!(pool.quote_liquidity(), 1_000_000);
    assert_eq!(pool.lp_tokens_supply(), 2_000_000);
    assert_eq!(pool.constant_product_sqrt(), Q64_64::from_u64(2_000_000));
}

#[test]
fn scenario_swap() {
    let mut pool = CpAmmBuilder::new()
        .is_initialized(true)
        .is_launched(true)
        .base_liquidity(6_000_000)
        .quote_liquidity(1_500_000)
        .constant_product_sqrt(Q64_64::from_u64(3_000_000))
        .base_quote_ratio_sqrt(Q64_64::from_u64(2))
        .lp_tokens_supply(3_000_000)
        .providers_fee_rate_basis_points(100)
        .protocol_fee_rate_basis_points(100)
        .build();

    let amount_in: u64 = 3_061_224;
    let payload = pool.get_base_to_quote_swap_payload(amount_in, 500_000, 0).unwrap();

    // One percent each way, rounded down.
    let provider_fee = 30_612;
    let protocol_fee = 30_612;
    let net_in = amount_in - provider_fee - protocol_fee;
    assert_eq!(net_in, 3_000_000);
    // Fee conservation: the gross amount splits exactly.
    assert_eq!(amount_in, net_in + provider_fee + protocol_fee);

    assert_eq!(payload.amount_to_withdraw, 500_000);
    assert_eq!(payload.base_liquidity, 6_000_000 + net_in + provider_fee);
    assert_eq!(payload.quote_liquidity, 1_000_000);
    assert_eq!(payload.protocol_fees_to_redeem, protocol_fee);

    pool.swap(payload);
    assert_eq!(pool.base_liquidity(), 9_030_612);
    assert_eq!(pool.quote_liquidity(), 1_000_000);
    assert_eq!(pool.protocol_base_fees_to_redeem(), 30_612);
    // The caches are recomputed from the post-fee reserves.
    assert_eq!(pool.constant_product_sqrt().to_u64(), 3_005_097);
    assert_eq!(pool.base_quote_ratio_sqrt().to_u64(), 3);
}

#[test]
fn scenario_collect_fees_is_not_repeatable() {
    let mut pool = launched_pool(400_000, 400_000, 100, 100);
    // A swap accrues protocol fees.
    let payload = pool.get_base_to_quote_swap_payload(10_000, 9_557, 100).unwrap();
    pool.swap(payload);
    assert!(pool.protocol_base_fees_to_redeem() > 0);

    let collect = pool.get_collect_fees_payload().unwrap();
    assert_eq!(collect.protocol_base_fees_to_redeem, pool.protocol_base_fees_to_redeem());
    assert_eq!(collect.new_protocol_base_fees_to_redeem, 0);
    assert_eq!(collect.new_protocol_quote_fees_to_redeem, 0);
    pool.collect_fees(collect);

    // Without an intervening swap, a second collection is refused.
    assert_eq!(pool.get_collect_fees_payload(), Err(ErrorCode::ProvidersFeesIsZero));
}

#[test]
fn lifecycle_errors() {
    let mut config = AmmsConfig::unset();
    config.initialize(AccountId::new([9u8; 32]), 100, 100, 7, 1).unwrap();

    let mut pool = initialized_pool(100, 100);
    // Initializing twice is refused and leaves the record unchanged.
    assert_eq!(
        pool.initialize(
            AccountId::new([1u8; 32]),
            AccountId::new([2u8; 32]),
            AccountId::new([3u8; 32]),
            &config,
            AccountId::new([4u8; 32]),
            250,
        ),
        Err(ErrorCode::CpAmmAlreadyInitialized)
    );
    // Launching an uninitialized pool is refused.
    let unborn = CpAmmBuilder::new().build();
    assert_eq!(
        unborn.get_launch_payload(400_000, 400_000),
        Err(ErrorCode::CpAmmNotInitialized)
    );
    // Zero launch amounts are refused.
    assert_eq!(
        pool.get_launch_payload(0, 400_000),
        Err(ErrorCode::ProvidedBaseLiquidityIsZero)
    );
    assert_eq!(
        pool.get_launch_payload(400_000, 0),
        Err(ErrorCode::ProvidedQuoteLiquidityIsZero)
    );
    // Trading on an unlaunched pool is refused.
    assert_eq!(pool.get_provide_payload(1, 1), Err(ErrorCode::CpAmmNotLaunched));
}

#[test]
fn state_errors() {
    let no_quote = CpAmmBuilder::new()
        .is_launched(true)
        .base_liquidity(1000)
        .quote_liquidity(0)
        .lp_tokens_supply(1000)
        .build();
    assert_eq!(no_quote.check_state(), Err(ErrorCode::QuoteLiquidityIsZero));

    let no_base = CpAmmBuilder::new()
        .is_launched(true)
        .base_liquidity(0)
        .quote_liquidity(1000)
        .lp_tokens_supply(1000)
        .build();
    assert_eq!(no_base.check_state(), Err(ErrorCode::BaseLiquidityIsZero));

    let no_supply = CpAmmBuilder::new()
        .is_launched(true)
        .base_liquidity(1000)
        .quote_liquidity(1000)
        .lp_tokens_supply(0)
        .build();
    assert_eq!(no_supply.check_state(), Err(ErrorCode::LpTokensSupplyIsZero));
}

#[test]
fn provide_errors() {
    let pool = launched_pool(4_000_000, 1_000_000, 0, 0);
    assert_eq!(pool.get_provide_payload(0, 1), Err(ErrorCode::ProvidedBaseLiquidityIsZero));
    assert_eq!(pool.get_provide_payload(1, 0), Err(ErrorCode::ProvidedQuoteLiquidityIsZero));
    // Reserve overflow.
    assert_eq!(
        pool.get_provide_payload(u64::MAX, u64::MAX / 4),
        Err(ErrorCode::ProvideOverflowError)
    );
    // A lopsided deposit moves the ratio out of tolerance.
    assert_eq!(
        pool.get_provide_payload(2_000_000, 100),
        Err(ErrorCode::LiquidityRatioToleranceExceeded)
    );
    // A deposit too small to mint a single liquidity token is refused.
    let big = launched_pool(1_000_000_000_000, 1_000_000_000_000, 0, 0);
    assert_eq!(big.get_provide_payload(1, 1), Err(ErrorCode::LpTokensToMintIsZero));
}

#[test]
fn withdraw_errors() {
    let pool = launched_pool(4_000_000, 1_000_000, 0, 0);
    let supply = pool.lp_tokens_supply();
    assert_eq!(pool.get_withdraw_payload(0), Err(ErrorCode::ProvidedLpTokensIsZero));
    assert_eq!(pool.get_withdraw_payload(supply + 1), Err(ErrorCode::WithdrawOverflowError));
    assert_eq!(pool.get_withdraw_payload(supply), Err(ErrorCode::LpTokensLeftSupplyIsZero));

    // One share of a pool holding a single base token pays out no base.
    let thin_base = launched_pool(1, 1_000_000_000_000, 0, 0);
    assert_eq!(thin_base.get_withdraw_payload(1), Err(ErrorCode::BaseWithdrawAmountIsZero));
    let thin_quote = launched_pool(1_000_000_000_000, 1, 0, 0);
    assert_eq!(thin_quote.get_withdraw_payload(1), Err(ErrorCode::QuoteWithdrawAmountIsZero));
}

#[test]
fn swap_errors() {
    let pool = launched_pool(6_000_000, 1_500_000, 100, 100);
    assert_eq!(
        pool.get_base_to_quote_swap_payload(0, 1, 0),
        Err(ErrorCode::SwapAmountIsZero)
    );
    assert_eq!(
        pool.get_base_to_quote_swap_payload(1, 0, 0),
        Err(ErrorCode::EstimatedResultIsZero)
    );
    assert_eq!(
        pool.get_quote_to_base_swap_payload(0, 1, 0),
        Err(ErrorCode::SwapAmountIsZero)
    );
    // The realized result must stay within the allowed slippage.
    assert_eq!(
        pool.get_base_to_quote_swap_payload(3_061_224, 499_999, 0),
        Err(ErrorCode::SwapSlippageExceeded)
    );

    // Rates summing beyond one hundred percent are refused.  No valid
    // configuration produces them, so the record is assembled directly.
    let greedy = CpAmmBuilder::new()
        .is_launched(true)
        .base_liquidity(6_000_000)
        .quote_liquidity(1_500_000)
        .constant_product_sqrt(Q64_64::from_u64(3_000_000))
        .base_quote_ratio_sqrt(Q64_64::from_u64(2))
        .lp_tokens_supply(3_000_000)
        .providers_fee_rate_basis_points(9000)
        .protocol_fee_rate_basis_points(2000)
        .build();
    assert_eq!(
        greedy.get_base_to_quote_swap_payload(1000, 100, 100),
        Err(ErrorCode::ConfigFeeRateExceeded)
    );

    // A fee rate of one hundred percent leaves nothing to swap.
    let confiscating = launched_pool(6_000_000, 1_500_000, 10_000, 0);

    assert_eq!(
        confiscating.get_base_to_quote_swap_payload(1000, 100, 100),
        Err(ErrorCode::PostfeeSwapAmountIsZero)
    );

    // A full accumulator cannot take another fee.
    let full = CpAmmBuilder::new()
        .is_launched(true)
        .base_liquidity(6_000_000)
        .quote_liquidity(1_500_000)
        .constant_product_sqrt(Q64_64::from_u64(3_000_000))
        .base_quote_ratio_sqrt(Q64_64::from_u64(2))
        .lp_tokens_supply(3_000_000)
        .protocol_fee_rate_basis_points(100)
        .protocol_base_fees_to_redeem(u64::MAX)
        .build();
    assert_eq!(
        full.get_base_to_quote_swap_payload(3_061_224, 500_000, 0),
        Err(ErrorCode::SwapOverflowError)
    );

    // A swap too small to move the opposite reserve is refused.
    let sticky = CpAmmBuilder::new()
        .is_launched(true)
        .base_liquidity(1000)
        .quote_liquidity(1000)
        .constant_product_sqrt(Q64_64::from_bits(1000, 1u64 << 63))
        .base_quote_ratio_sqrt(Q64_64::from_u64(1))
        .lp_tokens_supply(1000)
        .build();
    assert_eq!(
        sticky.get_base_to_quote_swap_payload(1, 1, 10),
        Err(ErrorCode::SwapResultIsZero)
    );
}

#[test]
fn tolerance_boundaries() {
    let pool = CpAmmBuilder::new()
        .is_launched(true)
        .base_liquidity(1_000_000)
        .quote_liquidity(20_000_000)
        .constant_product_sqrt(
            CpAmm::calculate_constant_product_sqrt(1_000_000, 20_000_000).unwrap(),
        )
        .base_quote_ratio_sqrt(
            CpAmm::calculate_base_quote_ratio_sqrt(1_000_000, 20_000_000).unwrap(),
        )
        .lp_tokens_supply(4_472_135)
        .build();

    // Scaling both reserves keeps the ratio exactly.
    let kept = pool.calculate_and_validate_liquidity_ratio(2_000_000, 40_000_000).unwrap();
    assert_eq!(kept, pool.base_quote_ratio_sqrt());
    // A half-percent imbalance exceeds the millionth tolerance.
    assert_eq!(
        pool.calculate_and_validate_liquidity_ratio(1_990_000, 40_000_000),
        Err(ErrorCode::LiquidityRatioToleranceExceeded)
    );
    assert_eq!(
        pool.calculate_and_validate_liquidity_ratio(0, 40_000_000),
        Err(ErrorCode::NewBaseLiquidityIsZero)
    );
    assert_eq!(
        pool.calculate_and_validate_liquidity_ratio(2_000_000, 0),
        Err(ErrorCode::NewQuoteLiquidityIsZero)
    );

    // A product-preserving move keeps the constant product.
    assert!(pool.validate_swap_constant_product(5_000_000, 4_000_000).is_ok());
    // Losing a quarter percent of the product exceeds the tolerance.
    assert_eq!(
        pool.validate_swap_constant_product(4_990_000, 4_000_000),
        Err(ErrorCode::ConstantProductToleranceExceeded)
    );
    assert_eq!(
        pool.validate_swap_constant_product(0, 4_000_000),
        Err(ErrorCode::NewBaseLiquidityIsZero)
    );
    assert_eq!(
        pool.validate_swap_constant_product(5_000_000, 0),
        Err(ErrorCode::NewQuoteLiquidityIsZero)
    );
}

#[test]
fn fee_split_is_exact() {
    let pool = launched_pool(6_000_000, 1_500_000, 137, 263);
    let amounts: [u64; 5] = [1, 9_999, 10_000, 3_061_224, u64::MAX];
    let mut i = 0;
    while i < amounts.len() {
        let amount = amounts[i];
        let provider_fee = pool.calculate_providers_fee_amount(amount);
        let protocol_fee = pool.calculate_protocol_fee_amount(amount);
        assert_eq!(provider_fee, ((amount as u128) * 137 / 10_000) as u64);
        assert_eq!(protocol_fee, ((amount as u128) * 263 / 10_000) as u64);
        assert!(provider_fee as u128 + protocol_fee as u128 <= amount as u128);
        assert_eq!(
            amount,
            (amount - provider_fee - protocol_fee) + provider_fee + protocol_fee
        );
        i += 1;
    }
}
