//! The pool record, its calculation engine, and its state machine.
//!
//! A [`CpAmm`] holds the reserves, liquidity-token supply, fee accumulators
//! and cached square roots of one constant-product pool.  The calculation
//! functions (`get_*_payload`) never mutate: each validates the pool's
//! lifecycle state and the caller's inputs, computes a candidate new state,
//! holds it against the constant-product and ratio tolerances, and returns a
//! payload or the first error whose condition holds.  The apply functions
//! (`launch`, `provide`, `withdraw`, `swap`, `collect_fees`) copy a payload
//! into the record and are the only mutation path; the caller moves tokens
//! between the two steps and must discard the payload when that fails.
//!
//! Every contract is stated over the pool's view, whose fixed-point fields
//! are raw Q64.64 magnitudes, so the arithmetic in the contracts is exact.

use vstd::prelude::*;

verus! {

use crate::account::AccountId;
use crate::amms_config::AmmsConfig;
use crate::error::ErrorCode;
use crate::q64_64::{Q64_64, lemma_spec_square_as_u128_nonneg, spec_as_u64_round, spec_square_as_u128};
use crate::u256::{lemma_sqrt_floor_unique, pow2_64, pow2_128, sqrt_floor, BASE64};
use vstd::arithmetic::div_mod::{
    lemma_div_by_multiple,
    lemma_div_denominator,
    lemma_div_is_ordered,
    lemma_fundamental_div_mod,
    lemma_fundamental_div_mod_converse,
};

/// The number of decimal places of the liquidity token's seed unit.
pub const LP_MINT_INITIAL_DECIMALS: u8 = 5;

/// The liquidity-token amount locked forever at launch: ten to the
/// [`LP_MINT_INITIAL_DECIMALS`]th.
pub const INITIAL_LOCKED_LP_TOKENS: u64 = 100_000;

/// The factor by which the launch supply must exceed the locked seed.
pub const LAUNCH_LIQUIDITY_MULTIPLIER: u64 = 4;

/// The allowed relative drift of the constant product across a swap, as a
/// raw Q64.64 magnitude: one millionth, derived from the intended relative
/// tolerance rather than written as an opaque bit pattern.
pub const SWAP_CONSTANT_PRODUCT_TOLERANCE: u128 = BASE64 / 1_000_000;

/// The allowed relative drift of the reserve ratio across a liquidity
/// change, as a raw Q64.64 magnitude: one millionth.
pub const ADJUST_LIQUIDITY_RATIO_TOLERANCE: u128 = BASE64 / 1_000_000;

/// A constant-product pool.
#[derive(Clone, Copy, Debug)]
pub struct CpAmm {
    is_initialized: bool,
    is_launched: bool,
    initial_locked_liquidity: u64,
    constant_product_sqrt: Q64_64,
    base_quote_ratio_sqrt: Q64_64,
    base_liquidity: u64,
    quote_liquidity: u64,
    lp_tokens_supply: u64,
    providers_fee_rate_basis_points: u16,
    protocol_fee_rate_basis_points: u16,
    protocol_base_fees_to_redeem: u64,
    protocol_quote_fees_to_redeem: u64,
    base_mint: AccountId,
    quote_mint: AccountId,
    lp_mint: AccountId,
    base_vault: AccountId,
    quote_vault: AccountId,
    locked_lp_vault: AccountId,
    amms_config: AccountId,
    bump: u8,
}

/// The pool's state as the contracts see it: the fixed-point caches appear
/// as their raw Q64.64 magnitudes.
pub struct PoolView {
    /// Whether the pool has been initialized.
    pub is_initialized: bool,
    /// Whether the pool has been launched.
    pub is_launched: bool,
    /// The liquidity-token amount locked forever at launch.
    pub initial_locked_liquidity: u64,
    /// The raw magnitude of the cached square root of the constant product.
    pub constant_product_sqrt: int,
    /// The raw magnitude of the cached square root of the base/quote ratio.
    pub base_quote_ratio_sqrt: int,
    /// The base token reserve.
    pub base_liquidity: u64,
    /// The quote token reserve.
    pub quote_liquidity: u64,
    /// The outstanding liquidity-token supply.
    pub lp_tokens_supply: u64,
    /// The providers' fee rate snapshot, in basis points.
    pub providers_fee_rate_basis_points: u16,
    /// The protocol's fee rate snapshot, in basis points.
    pub protocol_fee_rate_basis_points: u16,
    /// Accrued, unredeemed protocol fees in base tokens.
    pub protocol_base_fees_to_redeem: u64,
    /// Accrued, unredeemed protocol fees in quote tokens.
    pub protocol_quote_fees_to_redeem: u64,
    /// The base token's mint.
    pub base_mint: AccountId,
    /// The quote token's mint.
    pub quote_mint: AccountId,
    /// The liquidity token's mint.
    pub lp_mint: AccountId,
    /// The vault holding the base reserve.
    pub base_vault: AccountId,
    /// The vault holding the quote reserve.
    pub quote_vault: AccountId,
    /// The vault holding the locked liquidity tokens.
    pub locked_lp_vault: AccountId,
    /// The fee configuration the pool was initialized against.
    pub amms_config: AccountId,
    /// The address-derivation byte.
    pub bump: u8,
}

impl View for CpAmm {
    type V = PoolView;

    closed spec fn view(&self) -> PoolView {
        PoolView {
            is_initialized: self.is_initialized,
            is_launched: self.is_launched,
            initial_locked_liquidity: self.initial_locked_liquidity,
            constant_product_sqrt: self.constant_product_sqrt@,
            base_quote_ratio_sqrt: self.base_quote_ratio_sqrt@,
            base_liquidity: self.base_liquidity,
            quote_liquidity: self.quote_liquidity,
            lp_tokens_supply: self.lp_tokens_supply,
            providers_fee_rate_basis_points: self.providers_fee_rate_basis_points,
            protocol_fee_rate_basis_points: self.protocol_fee_rate_basis_points,
            protocol_base_fees_to_redeem: self.protocol_base_fees_to_redeem,
            protocol_quote_fees_to_redeem: self.protocol_quote_fees_to_redeem,
            base_mint: self.base_mint,
            quote_mint: self.quote_mint,
            lp_mint: self.lp_mint,
            base_vault: self.base_vault,
            quote_vault: self.quote_vault,
            locked_lp_vault: self.locked_lp_vault,
            amms_config: self.amms_config,
            bump: self.bump,
        }
    }
}

impl CpAmm {
    /// Whether the pool has been initialized.
    pub fn is_initialized(&self) -> (r: bool)
        ensures
            r == self@.is_initialized,
    {
        self.is_initialized
    }

    /// Whether the pool has been launched.
    pub fn is_launched(&self) -> (r: bool)
        ensures
            r == self@.is_launched,
    {
        self.is_launched
    }

    /// The address-derivation byte.
    pub fn bump(&self) -> (r: u8)
        ensures
            r == self@.bump,
    {
        self.bump
    }

    /// The base token's mint.
    pub fn base_mint(&self) -> (r: AccountId)
        ensures
            r == self@.base_mint,
    {
        self.base_mint
    }

    /// The quote token's mint.
    pub fn quote_mint(&self) -> (r: AccountId)
        ensures
            r == self@.quote_mint,
    {
        self.quote_mint
    }

    /// The liquidity token's mint.
    pub fn lp_mint(&self) -> (r: AccountId)
        ensures
            r == self@.lp_mint,
    {
        self.lp_mint
    }

    /// The vault holding the base reserve.
    pub fn base_vault(&self) -> (r: AccountId)
        ensures
            r == self@.base_vault,
    {
        self.base_vault
    }

    /// The vault holding the quote reserve.
    pub fn quote_vault(&self) -> (r: AccountId)
        ensures
            r == self@.quote_vault,
    {
        self.quote_vault
    }

    /// The vault holding the locked liquidity tokens.
    pub fn locked_lp_vault(&self) -> (r: AccountId)
        ensures
            r == self@.locked_lp_vault,
    {
        self.locked_lp_vault
    }

    /// The fee configuration the pool was initialized against.
    pub fn amms_config(&self) -> (r: AccountId)
        ensures
            r == self@.amms_config,
    {
        self.amms_config
    }

    /// The cached square root of the constant product.
    pub fn constant_product_sqrt(&self) -> (r: Q64_64)
        ensures
            r@ == self@.constant_product_sqrt,
    {
        self.constant_product_sqrt
    }

    /// The cached square root of the base/quote ratio.
    pub fn base_quote_ratio_sqrt(&self) -> (r: Q64_64)
        ensures
            r@ == self@.base_quote_ratio_sqrt,
    {
        self.base_quote_ratio_sqrt
    }

    /// The base token reserve.
    pub fn base_liquidity(&self) -> (r: u64)
        ensures
            r == self@.base_liquidity,
    {
        self.base_liquidity
    }

    /// The quote token reserve.
    pub fn quote_liquidity(&self) -> (r: u64)
        ensures
            r == self@.quote_liquidity,
    {
        self.quote_liquidity
    }

    /// The outstanding liquidity-token supply.
    pub fn lp_tokens_supply(&self) -> (r: u64)
        ensures
            r == self@.lp_tokens_supply,
    {
        self.lp_tokens_supply
    }

    /// The liquidity-token amount locked forever at launch.
    pub fn initial_locked_liquidity(&self) -> (r: u64)
        ensures
            r == self@.initial_locked_liquidity,
    {
        self.initial_locked_liquidity
    }

    /// Accrued, unredeemed protocol fees in base tokens.
    pub fn protocol_base_fees_to_redeem(&self) -> (r: u64)
        ensures
            r == self@.protocol_base_fees_to_redeem,
    {
        self.protocol_base_fees_to_redeem
    }

    /// Accrued, unredeemed protocol fees in quote tokens.
    pub fn protocol_quote_fees_to_redeem(&self) -> (r: u64)
        ensures
            r == self@.protocol_quote_fees_to_redeem,
    {
        self.protocol_quote_fees_to_redeem
    }

    /// The providers' fee rate snapshot, in basis points.
    pub fn providers_fee_rate_basis_points(&self) -> (r: u16)
        ensures
            r == self@.providers_fee_rate_basis_points,
    {
        self.providers_fee_rate_basis_points
    }

    /// The protocol's fee rate snapshot, in basis points.
    pub fn protocol_fee_rate_basis_points(&self) -> (r: u16)
        ensures
            r == self@.protocol_fee_rate_basis_points,
    {
        self.protocol_fee_rate_basis_points
    }
}

/// Assembles a pool record field by field, for callers that hold a pool's
/// persisted state.
pub struct CpAmmBuilder {
    /// The fields gathered so far.
    pool: CpAmm,
}

impl View for CpAmmBuilder {
    type V = PoolView;

    closed spec fn view(&self) -> PoolView {
        self.pool@
    }
}

impl CpAmmBuilder {
    /// A builder whose every field starts at zero.
    pub fn new() -> (r: CpAmmBuilder)
        ensures
            !r@.is_initialized,
            !r@.is_launched,
            r@.initial_locked_liquidity == 0,
            r@.constant_product_sqrt == 0,
            r@.base_quote_ratio_sqrt == 0,
            r@.base_liquidity == 0,
            r@.quote_liquidity == 0,
            r@.lp_tokens_supply == 0,
            r@.providers_fee_rate_basis_points == 0,
            r@.protocol_fee_rate_basis_points == 0,
            r@.protocol_base_fees_to_redeem == 0,
            r@.protocol_quote_fees_to_redeem == 0,
            r@.bump == 0,
    {
        CpAmmBuilder {
            pool: CpAmm {
                is_initialized: false,
                is_launched: false,
                initial_locked_liquidity: 0,
                constant_product_sqrt: Q64_64::new(0),
                base_quote_ratio_sqrt: Q64_64::new(0),
                base_liquidity: 0,
                quote_liquidity: 0,
                lp_tokens_supply: 0,
                providers_fee_rate_basis_points: 0,
                protocol_fee_rate_basis_points: 0,
                protocol_base_fees_to_redeem: 0,
                protocol_quote_fees_to_redeem: 0,
                base_mint: AccountId::unset(),
                quote_mint: AccountId::unset(),
                lp_mint: AccountId::unset(),
                base_vault: AccountId::unset(),
                quote_vault: AccountId::unset(),
                locked_lp_vault: AccountId::unset(),
                amms_config: AccountId::unset(),
                bump: 0,
            },
        }
    }

    /// Sets the initialized flag.
    pub fn is_initialized(self, value: bool) -> (r: CpAmmBuilder)
        ensures
            r@ == (PoolView { is_initialized: value, ..self@ }),
    {
        let mut b = self;
        b.pool.is_initialized = value;
        b
    }

    /// Sets the launched flag.
    pub fn is_launched(self, value: bool) -> (r: CpAmmBuilder)
        ensures
            r@ == (PoolView { is_launched: value, ..self@ }),
    {
        let mut b = self;
        b.pool.is_launched = value;
        b
    }

    /// Sets the locked seed liquidity.
    pub fn initial_locked_liquidity(self, value: u64) -> (r: CpAmmBuilder)
        ensures
            r@ == (PoolView { initial_locked_liquidity: value, ..self@ }),
    {
        let mut b = self;
        b.pool.initial_locked_liquidity = value;
        b
    }

    /// Sets the cached square root of the constant product.
    pub fn constant_product_sqrt(self, value: Q64_64) -> (r: CpAmmBuilder)
        ensures
            r@ == (PoolView { constant_product_sqrt: value@, ..self@ }),
    {
        let mut b = self;
        b.pool.constant_product_sqrt = value;
        b
    }

    /// Sets the cached square root of the base/quote ratio.
    pub fn base_quote_ratio_sqrt(self, value: Q64_64) -> (r: CpAmmBuilder)
        ensures
            r@ == (PoolView { base_quote_ratio_sqrt: value@, ..self@ }),
    {
        let mut b = self;
        b.pool.base_quote_ratio_sqrt = value;
        b
    }

    /// Sets the base reserve.
    pub fn base_liquidity(self, value: u64) -> (r: CpAmmBuilder)
        ensures
            r@ == (PoolView { base_liquidity: value, ..self@ }),
    {
        let mut b = self;
        b.pool.base_liquidity = value;
        b
    }

    /// Sets the quote reserve.
    pub fn quote_liquidity(self, value: u64) -> (r: CpAmmBuilder)
        ensures
            r@ == (PoolView { quote_liquidity: value, ..self@ }),
    {
        let mut b = self;
        b.pool.quote_liquidity = value;
        b
    }

    /// Sets the liquidity-token supply.
    pub fn lp_tokens_supply(self, value: u64) -> (r: CpAmmBuilder)
        ensures
            r@ == (PoolView { lp_tokens_supply: value, ..self@ }),
    {
        let mut b = self;
        b.pool.lp_tokens_supply = value;
        b
    }

    /// Sets the providers' fee rate snapshot.
    pub fn providers_fee_rate_basis_points(self, value: u16) -> (r: CpAmmBuilder)
        ensures
            r@ == (PoolView { providers_fee_rate_basis_points: value, ..self@ }),
    {
        let mut b = self;
        b.pool.providers_fee_rate_basis_points = value;
        b
    }

    /// Sets the protocol's fee rate snapshot.
    pub fn protocol_fee_rate_basis_points(self, value: u16) -> (r: CpAmmBuilder)
        ensures
            r@ == (PoolView { protocol_fee_rate_basis_points: value, ..self@ }),
    {
        let mut b = self;
        b.pool.protocol_fee_rate_basis_points = value;
        b
    }

    /// Sets the accrued base-token protocol fees.
    pub fn protocol_base_fees_to_redeem(self, value: u64) -> (r: CpAmmBuilder)
        ensures
            r@ == (PoolView { protocol_base_fees_to_redeem: value, ..self@ }),
    {
        let mut b = self;
        b.pool.protocol_base_fees_to_redeem = value;
        b
    }

    /// Sets the accrued quote-token protocol fees.
    pub fn protocol_quote_fees_to_redeem(self, value: u64) -> (r: CpAmmBuilder)
        ensures
            r@ == (PoolView { protocol_quote_fees_to_redeem: value, ..self@ }),
    {
        let mut b = self;
        b.pool.protocol_quote_fees_to_redeem = value;
        b
    }

    /// Sets the base token's mint.
    pub fn base_mint(self, value: AccountId) -> (r: CpAmmBuilder)
        ensures
            r@ == (PoolView { base_mint: value, ..self@ }),
    {
        let mut b = self;
        b.pool.base_mint = value;
        b
    }

    /// Sets the quote token's mint.
    pub fn quote_mint(self, value: AccountId) -> (r: CpAmmBuilder)
        ensures
            r@ == (PoolView { quote_mint: value, ..self@ }),
    {
        let mut b = self;
        b.pool.quote_mint = value;
        b
    }

    /// Sets the liquidity token's mint.
    pub fn lp_mint(self, value: AccountId) -> (r: CpAmmBuilder)
        ensures
            r@ == (PoolView { lp_mint: value, ..self@ }),
    {
        let mut b = self;
        b.pool.lp_mint = value;
        b
    }

    /// Sets the base reserve's vault.
    pub fn base_vault(self, value: AccountId) -> (r: CpAmmBuilder)
        ensures
            r@ == (PoolView { base_vault: value, ..self@ }),
    {
        let mut b = self;
        b.pool.base_vault = value;
        b
    }

    /// Sets the quote reserve's vault.
    pub fn quote_vault(self, value: AccountId) -> (r: CpAmmBuilder)
        ensures
            r@ == (PoolView { quote_vault: value, ..self@ }),
    {
        let mut b = self;
        b.pool.quote_vault = value;
        b
    }

    /// Sets the locked liquidity tokens' vault.
    pub fn locked_lp_vault(self, value: AccountId) -> (r: CpAmmBuilder)
        ensures
            r@ == (PoolView { locked_lp_vault: value, ..self@ }),
    {
        let mut b = self;
        b.pool.locked_lp_vault = value;
        b
    }

    /// Sets the fee configuration's identity.
    pub fn amms_config(self, value: AccountId) -> (r: CpAmmBuilder)
        ensures
            r@ == (PoolView { amms_config: value, ..self@ }),
    {
        let mut b = self;
        b.pool.amms_config = value;
        b
    }

    /// Sets the address-derivation byte.
    pub fn bump(self, value: u8) -> (r: CpAmmBuilder)
        ensures
            r@ == (PoolView { bump: value, ..self@ }),
    {
        let mut b = self;
        b.pool.bump = value;
        b
    }

    /// The assembled pool.
    pub fn build(self) -> (r: CpAmm)
        ensures
            r@ == self@,
    {
        self.pool
    }
}

/// What launch writes into the pool: the first reserves, caches and supply.
#[derive(Clone, Copy, Debug, PartialEq)]
pub struct LaunchPayload {
    /// The liquidity-token amount minted to a permanently held vault.
    pub initial_locked_liquidity: u64,
    /// The square root of the first constant product.
    pub constant_product_sqrt: Q64_64,
    /// The square root of the first base/quote ratio.
    pub base_quote_ratio_sqrt: Q64_64,
    /// The first base reserve.
    pub base_liquidity: u64,
    /// The first quote reserve.
    pub quote_liquidity: u64,
    /// The whole liquidity-token supply to create.
    pub lp_tokens_supply: u64,
}

impl LaunchPayload {
    /// Gathers the fields of a launch payload.
    pub fn new(
        initial_locked_liquidity: u64,
        constant_product_sqrt: Q64_64,
        base_quote_ratio_sqrt: Q64_64,
        base_liquidity: u64,
        quote_liquidity: u64,
        lp_tokens_supply: u64,
    ) -> (r: LaunchPayload)
        ensures
            r == (LaunchPayload {
                initial_locked_liquidity,
                constant_product_sqrt,
                base_quote_ratio_sqrt,
                base_liquidity,
                quote_liquidity,
                lp_tokens_supply,
            }),
    {
        LaunchPayload {
            initial_locked_liquidity,
            constant_product_sqrt,
            base_quote_ratio_sqrt,
            base_liquidity,
            quote_liquidity,
            lp_tokens_supply,
        }
    }

    /// The liquidity-token amount minted to a permanently held vault.
    pub fn initial_locked_liquidity(&self) -> (r: u64)
        ensures
            r == self.initial_locked_liquidity,
    {
        self.initial_locked_liquidity
    }

    /// The liquidity-token amount minted to the launcher: the supply less
    /// the locked seed.
    pub fn launch_liquidity(&self) -> (r: u64)
        requires
            self.lp_tokens_supply >= self.initial_locked_liquidity,
        ensures
            r == self.lp_tokens_supply - self.initial_locked_liquidity,
    {
        self.lp_tokens_supply - self.initial_locked_liquidity
    }
}

/// What provide writes into the pool, and the amount to mint.
#[derive(Clone, Copy, Debug, PartialEq)]
pub struct ProvidePayload {
    /// The square root of the new base/quote ratio.
    pub base_quote_ratio_sqrt: Q64_64,
    /// The square root of the new constant product.
    pub constant_product_sqrt: Q64_64,
    /// The new base reserve.
    pub base_liquidity: u64,
    /// The new quote reserve.
    pub quote_liquidity: u64,
    /// The new liquidity-token supply.
    pub lp_tokens_supply: u64,
    /// The liquidity-token amount to mint to the provider.
    pub lp_tokens_to_mint: u64,
}

impl ProvidePayload {
    /// Gathers the fields of a provide payload.
    pub fn new(
        base_quote_ratio_sqrt: Q64_64,
        constant_product_sqrt: Q64_64,
        base_liquidity: u64,
        quote_liquidity: u64,
        lp_tokens_supply: u64,
        lp_tokens_to_mint: u64,
    ) -> (r: ProvidePayload)
        ensures
            r == (ProvidePayload {
                base_quote_ratio_sqrt,
                constant_product_sqrt,
                base_liquidity,
                quote_liquidity,
                lp_tokens_supply,
                lp_tokens_to_mint,
            }),
    {
        ProvidePayload {
            base_quote_ratio_sqrt,
            constant_product_sqrt,
            base_liquidity,
            quote_liquidity,
            lp_tokens_supply,
            lp_tokens_to_mint,
        }
    }

    /// The liquidity-token amount to mint to the provider.
    pub fn lp_tokens_to_mint(&self) -> (r: u64)
        ensures
            r == self.lp_tokens_to_mint,
    {
        self.lp_tokens_to_mint
    }
}

/// What withdraw writes into the pool, and the amounts to pay out.
#[derive(Clone, Copy, Debug, PartialEq)]
pub struct WithdrawPayload {
    /// The square root of the new base/quote ratio.
    pub base_quote_ratio_sqrt: Q64_64,
    /// The new base reserve.
    pub base_liquidity: u64,
    /// The new quote reserve.
    pub quote_liquidity: u64,
    /// The new liquidity-token supply.
    pub lp_tokens_supply: u64,
    /// The base tokens to pay out.
    pub base_withdraw_amount: u64,
    /// The quote tokens to pay out.
    pub quote_withdraw_amount: u64,
}

impl WithdrawPayload {
    /// Gathers the fields of a withdraw payload.
    pub fn new(
        base_quote_ratio_sqrt: Q64_64,
        base_liquidity: u64,
        quote_liquidity: u64,
        lp_tokens_supply: u64,
        base_withdraw_amount: u64,
        quote_withdraw_amount: u64,
    ) -> (r: WithdrawPayload)
        ensures
            r == (WithdrawPayload {
                base_quote_ratio_sqrt,
                base_liquidity,
                quote_liquidity,
                lp_tokens_supply,
                base_withdraw_amount,
                quote_withdraw_amount,
            }),
    {
        WithdrawPayload {
            base_quote_ratio_sqrt,
            base_liquidity,
            quote_liquidity,
            lp_tokens_supply,
            base_withdraw_amount,
            quote_withdraw_amount,
        }
    }

    /// The base tokens to pay out.
    pub fn base_withdraw_amount(&self) -> (r: u64)
        ensures
            r == self.base_withdraw_amount,
    {
        self.base_withdraw_amount
    }

    /// The quote tokens to pay out.
    pub fn quote_withdraw_amount(&self) -> (r: u64)
        ensures
            r == self.quote_withdraw_amount,
    {
        self.quote_withdraw_amount
    }
}

/// What swap writes into the pool, and the amount owed to the trader.
///
/// The reserve on the paid-in side already includes the provider fee, which
/// stays in the pool in favour of the liquidity providers.
#[derive(Clone, Copy, Debug, PartialEq)]
pub struct SwapPayload {
    /// The new base reserve.
    pub base_liquidity: u64,
    /// The new quote reserve.
    pub quote_liquidity: u64,
    /// The paid-in side's protocol fee accumulator after the swap.
    pub protocol_fees_to_redeem: u64,
    /// The tokens owed to the trader from the paid-out side.
    pub amount_to_withdraw: u64,
    /// Whether the swap paid base in and quote out.
    pub is_in_out: bool,
}

impl SwapPayload {
    /// Gathers the fields of a swap payload.
    pub fn new(
        base_liquidity: u64,
        quote_liquidity: u64,
        protocol_fees_to_redeem: u64,
        amount_to_withdraw: u64,
        is_in_out: bool,
    ) -> (r: SwapPayload)
        ensures
            r == (SwapPayload {
                base_liquidity,
                quote_liquidity,
                protocol_fees_to_redeem,
                amount_to_withdraw,
                is_in_out,
            }),
    {
        SwapPayload {
            base_liquidity,
            quote_liquidity,
            protocol_fees_to_redeem,
            amount_to_withdraw,
            is_in_out,
        }
    }

    /// The tokens owed to the trader from the paid-out side.
    pub fn amount_to_withdraw(&self) -> (r: u64)
        ensures
            r == self.amount_to_withdraw,
    {
        self.amount_to_withdraw
    }

    /// Whether the swap paid base in and quote out.
    pub fn is_in_out(&self) -> (r: bool)
        ensures
            r == self.is_in_out,
    {
        self.is_in_out
    }
}

/// What collect-fees pays out, and the accumulator values left behind.
#[derive(Clone, Copy, Debug, PartialEq)]
pub struct CollectFeesPayload {
    /// The base-token fees to pay to the fee authority.
    pub protocol_base_fees_to_redeem: u64,
    /// The quote-token fees to pay to the fee authority.
    pub protocol_quote_fees_to_redeem: u64,
    /// The base-token accumulator value after collection.
    pub new_protocol_base_fees_to_redeem: u64,
    /// The quote-token accumulator value after collection.
    pub new_protocol_quote_fees_to_redeem: u64,
}

impl CollectFeesPayload {
    /// Gathers the fields of a collect-fees payload.
    pub fn new(
        protocol_base_fees_to_redeem: u64,
        protocol_quote_fees_to_redeem: u64,
        new_protocol_base_fees_to_redeem: u64,
        new_protocol_quote_fees_to_redeem: u64,
    ) -> (r: CollectFeesPayload)
        ensures
            r == (CollectFeesPayload {
                protocol_base_fees_to_redeem,
                protocol_quote_fees_to_redeem,
                new_protocol_base_fees_to_redeem,
                new_protocol_quote_fees_to_redeem,
            }),
    {
        CollectFeesPayload {
            protocol_base_fees_to_redeem,
            protocol_quote_fees_to_redeem,
            new_protocol_base_fees_to_redeem,
            new_protocol_quote_fees_to_redeem,
        }
    }

    /// The base-token fees to pay to the fee authority.
    pub fn protocol_base_fees_to_redeem(&self) -> (r: u64)
        ensures
            r == self.protocol_base_fees_to_redeem,
    {
        self.protocol_base_fees_to_redeem
    }

    /// The quote-token fees to pay to the fee authority.
    pub fn protocol_quote_fees_to_redeem(&self) -> (r: u64)
        ensures
            r == self.protocol_quote_fees_to_redeem,
    {
        self.protocol_quote_fees_to_redeem
    }
}

/// The raw magnitude of the square root of the constant product of two
/// reserves: the integer square root of their product scaled into Q64.64.
pub open spec fn cp_sqrt_raw(base: int, quote: int) -> int {
    sqrt_floor(base * quote * pow2_128())
}

/// The raw magnitude of the square root of the ratio of two reserves,
/// rounded down at each step; meaningful only for a non-zero quote reserve.
pub open spec fn ratio_sqrt_raw(base: int, quote: int) -> int {
    sqrt_floor((base * pow2_128()) / quote)
}

/// The absolute difference of two integers.
pub open spec fn spec_abs_diff(a: int, b: int) -> int {
    if a >= b {
        a - b
    } else {
        b - a
    }
}

/// Whether a freshly recomputed cache value stays within the relative
/// tolerance of the stored one: their distance may not exceed the stored
/// value times the tolerance, in Q64.64 arithmetic.
pub open spec fn within_tolerance(stored: int, fresh: int, tolerance: u128) -> bool {
    spec_abs_diff(stored, fresh) <= (stored * tolerance) / pow2_64()
}

/// The fee taken from an amount at a basis-point rate, rounded down.
pub open spec fn spec_fee_amount(amount: u64, rate_basis_points: u16) -> int {
    (amount * rate_basis_points) / 10000
}

/// Why the pool would refuse any trading operation, before looking at the
/// operation's inputs: it must be launched with non-zero reserves and
/// supply.
pub open spec fn spec_state_error(pool: PoolView) -> Option<ErrorCode> {
    if !pool.is_launched {
        Some(ErrorCode::CpAmmNotLaunched)
    } else if pool.quote_liquidity == 0 {
        Some(ErrorCode::QuoteLiquidityIsZero)
    } else if pool.base_liquidity == 0 {
        Some(ErrorCode::BaseLiquidityIsZero)
    } else if pool.lp_tokens_supply == 0 {
        Some(ErrorCode::LpTokensSupplyIsZero)
    } else {
        None
    }
}

impl CpAmm {
    /// Refuses any trading operation on a pool that is not launched or
    /// whose reserves or supply are zero.
    pub fn check_state(&self) -> (r: Result<(), ErrorCode>)
        ensures
            spec_state_error(self@) is None ==> r is Ok,
            spec_state_error(self@) matches Some(e) ==> r == Err::<(), ErrorCode>(e),
    {
        if !self.is_launched {
            return Err(ErrorCode::CpAmmNotLaunched);
        }
        if self.quote_liquidity == 0 {
            return Err(ErrorCode::QuoteLiquidityIsZero);
        }
        if self.base_liquidity == 0 {
            return Err(ErrorCode::BaseLiquidityIsZero);
        }
        if self.lp_tokens_supply == 0 {
            return Err(ErrorCode::LpTokensSupplyIsZero);
        }
        Ok(())
    }

    /// Binds the pool to its mints and fee configuration and snapshots the
    /// configuration's rates; refused once the pool is initialized.
    pub fn initialize(
        &mut self,
        base_mint: AccountId,
        quote_mint: AccountId,
        lp_mint: AccountId,
        amms_config: &AmmsConfig,
        amms_config_id: AccountId,
        bump: u8,
    ) -> (r: Result<(), ErrorCode>)
        ensures
            old(self)@.is_initialized ==> r == Err::<(), ErrorCode>(
                ErrorCode::CpAmmAlreadyInitialized,
            ) && final(self)@ == old(self)@,
            !old(self)@.is_initialized ==> r is Ok && final(self)@ == (PoolView {
                is_initialized: true,
                is_launched: false,
                providers_fee_rate_basis_points: amms_config.providers_fee_rate_basis_points,
                protocol_fee_rate_basis_points: amms_config.protocol_fee_rate_basis_points,
                base_mint,
                quote_mint,
                lp_mint,
                amms_config: amms_config_id,
                bump,
                ..old(self)@
            }),
    {
        if self.is_initialized {
            return Err(ErrorCode::CpAmmAlreadyInitialized);
        }
        self.providers_fee_rate_basis_points = amms_config.providers_fee_rate_basis_points;
        self.protocol_fee_rate_basis_points = amms_config.protocol_fee_rate_basis_points;
        self.base_mint = base_mint;
        self.quote_mint = quote_mint;
        self.lp_mint = lp_mint;
        self.amms_config = amms_config_id;
        self.is_launched = false;
        self.is_initialized = true;
        self.bump = bump;
        Ok(())
    }

    /// Applies a launch payload: the first reserves, caches, supply and
    /// vaults enter the record, and the pool becomes launched.
    pub fn launch(
        &mut self,
        launch_payload: LaunchPayload,
        base_vault: AccountId,
        quote_vault: AccountId,
        locked_lp_vault: AccountId,
    )
        ensures
            final(self)@ == (PoolView {
                is_launched: true,
                base_liquidity: launch_payload.base_liquidity,
                quote_liquidity: launch_payload.quote_liquidity,
                initial_locked_liquidity: launch_payload.initial_locked_liquidity,
                lp_tokens_supply: launch_payload.lp_tokens_supply,
                constant_product_sqrt: launch_payload.constant_product_sqrt@,
                base_quote_ratio_sqrt: launch_payload.base_quote_ratio_sqrt@,
                base_vault,
                quote_vault,
                locked_lp_vault,
                ..old(self)@
            }),
    {
        self.base_liquidity = launch_payload.base_liquidity;
        self.quote_liquidity = launch_payload.quote_liquidity;
        self.initial_locked_liquidity = launch_payload.initial_locked_liquidity;
        self.lp_tokens_supply = launch_payload.lp_tokens_supply;
        self.constant_product_sqrt = launch_payload.constant_product_sqrt;
        self.base_quote_ratio_sqrt = launch_payload.base_quote_ratio_sqrt;
        self.base_vault = base_vault;
        self.quote_vault = quote_vault;
        self.locked_lp_vault = locked_lp_vault;
        self.is_launched = true;
    }

    /// Applies a provide payload: reserves, supply and both caches are
    /// overwritten with the payload's values.
    pub fn provide(&mut self, provide_payload: ProvidePayload)
        ensures
            final(self)@ == (PoolView {
                base_liquidity: provide_payload.base_liquidity,
                quote_liquidity: provide_payload.quote_liquidity,
                lp_tokens_supply: provide_payload.lp_tokens_supply,
                constant_product_sqrt: provide_payload.constant_product_sqrt@,
                base_quote_ratio_sqrt: provide_payload.base_quote_ratio_sqrt@,
                ..old(self)@
            }),
    {
        self.base_liquidity = provide_payload.base_liquidity;
        self.quote_liquidity = provide_payload.quote_liquidity;
        self.lp_tokens_supply = provide_payload.lp_tokens_supply;
        self.constant_product_sqrt = provide_payload.constant_product_sqrt;
        self.base_quote_ratio_sqrt = provide_payload.base_quote_ratio_sqrt;
    }

    /// Applies a withdraw payload: reserves, supply and the ratio cache come
    /// from the payload, and the constant-product cache is recomputed from
    /// the new reserves.
    pub fn withdraw(&mut self, withdraw_payload: WithdrawPayload)
        requires
            withdraw_payload.base_liquidity > 0,
            withdraw_payload.quote_liquidity > 0,
        ensures
            final(self)@ == (PoolView {
                base_liquidity: withdraw_payload.base_liquidity,
                quote_liquidity: withdraw_payload.quote_liquidity,
                lp_tokens_supply: withdraw_payload.lp_tokens_supply,
                constant_product_sqrt: cp_sqrt_raw(
                    withdraw_payload.base_liquidity as int,
                    withdraw_payload.quote_liquidity as int,
                ),
                base_quote_ratio_sqrt: withdraw_payload.base_quote_ratio_sqrt@,
                ..old(self)@
            }),
    {
        self.base_liquidity = withdraw_payload.base_liquidity;
        self.quote_liquidity = withdraw_payload.quote_liquidity;
        self.lp_tokens_supply = withdraw_payload.lp_tokens_supply;
        self.constant_product_sqrt = Self::constant_product_sqrt_of(
            self.base_liquidity,
            self.quote_liquidity,
        );
        self.base_quote_ratio_sqrt = withdraw_payload.base_quote_ratio_sqrt;
    }

    /// Applies a swap payload: reserves come from the payload, the paid-in
    /// side's protocol fee accumulator is overwritten, and both caches are
    /// recomputed from the new reserves.
    pub fn swap(&mut self, swap_payload: SwapPayload)
        requires
            swap_payload.base_liquidity > 0,
            swap_payload.quote_liquidity > 0,
        ensures
            final(self)@ == (PoolView {
                base_liquidity: swap_payload.base_liquidity,
                quote_liquidity: swap_payload.quote_liquidity,
                protocol_base_fees_to_redeem: if swap_payload.is_in_out {
                    swap_payload.protocol_fees_to_redeem
                } else {
                    old(self)@.protocol_base_fees_to_redeem
                },
                protocol_quote_fees_to_redeem: if swap_payload.is_in_out {
                    old(self)@.protocol_quote_fees_to_redeem
                } else {
                    swap_payload.protocol_fees_to_redeem
                },
                constant_product_sqrt: cp_sqrt_raw(
                    swap_payload.base_liquidity as int,
                    swap_payload.quote_liquidity as int,
                ),
                base_quote_ratio_sqrt: ratio_sqrt_raw(
                    swap_payload.base_liquidity as int,
                    swap_payload.quote_liquidity as int,
                ),
                ..old(self)@
            }),
    {
        self.base_liquidity = swap_payload.base_liquidity;
        self.quote_liquidity = swap_payload.quote_liquidity;
        if swap_payload.is_in_out {
            self.protocol_base_fees_to_redeem = swap_payload.protocol_fees_to_redeem;
        } else {
            self.protocol_quote_fees_to_redeem = swap_payload.protocol_fees_to_redeem;
        }
        self.constant_product_sqrt = Self::constant_product_sqrt_of(
            self.base_liquidity,
            self.quote_liquidity,
        );
        self.base_quote_ratio_sqrt = Self::base_quote_ratio_sqrt_of(
            self.base_liquidity,
            self.quote_liquidity,
        );
    }

    /// Applies a collect-fees payload: both accumulators take the payload's
    /// left-over values.
    pub fn collect_fees(&mut self, collect_fees_payload: CollectFeesPayload)
        ensures
            final(self)@ == (PoolView {
                protocol_base_fees_to_redeem:
                    collect_fees_payload.new_protocol_base_fees_to_redeem,
                protocol_quote_fees_to_redeem:
                    collect_fees_payload.new_protocol_quote_fees_to_redeem,
                ..old(self)@
            }),
    {
        self.protocol_base_fees_to_redeem = collect_fees_payload.new_protocol_base_fees_to_redeem;
        self.protocol_quote_fees_to_redeem =
            collect_fees_payload.new_protocol_quote_fees_to_redeem;
    }

    /// The amounts a fee collection would pay out: the current accumulators,
    /// to be reset to zero on apply.  Refused when both are zero.
    pub fn get_collect_fees_payload(&self) -> (r: Result<CollectFeesPayload, ErrorCode>)
        ensures
            self@.protocol_base_fees_to_redeem == 0 && self@.protocol_quote_fees_to_redeem == 0
                ==> r == Err::<CollectFeesPayload, ErrorCode>(ErrorCode::ProvidersFeesIsZero),
            self@.protocol_base_fees_to_redeem > 0 || self@.protocol_quote_fees_to_redeem > 0
                ==> (r matches Ok(p) && p == (CollectFeesPayload {
                protocol_base_fees_to_redeem: self@.protocol_base_fees_to_redeem,
                protocol_quote_fees_to_redeem: self@.protocol_quote_fees_to_redeem,
                new_protocol_base_fees_to_redeem: 0u64,
                new_protocol_quote_fees_to_redeem: 0u64,
            })),
    {
        if self.protocol_base_fees_to_redeem > 0 || self.protocol_quote_fees_to_redeem > 0 {
            Ok(
                CollectFeesPayload::new(
                    self.protocol_base_fees_to_redeem,
                    self.protocol_quote_fees_to_redeem,
                    0,
                    0,
                ),
            )
        } else {
            Err(ErrorCode::ProvidersFeesIsZero)
        }
    }

    /// The square root of the constant product of two reserves, or `None`
    /// where either reserve is zero.
    pub fn calculate_constant_product_sqrt(base_liquidity: u64, quote_liquidity: u64) -> (r:
        Option<Q64_64>)
        ensures
            base_liquidity > 0 && quote_liquidity > 0 ==> (r matches Some(v) && v@ == cp_sqrt_raw(
                base_liquidity as int,
                quote_liquidity as int,
            )),
            base_liquidity == 0 || quote_liquidity == 0 ==> r is None,
    {
        proof {
            lemma_u64_product_fits(base_liquidity, quote_liquidity);
        }
        let constant_product_sqrt = Q64_64::sqrt_from_u128(
            (base_liquidity as u128) * (quote_liquidity as u128),
        );
        proof {
            if base_liquidity > 0 && quote_liquidity > 0 {
                lemma_cp_sqrt_raw_positive(base_liquidity, quote_liquidity);
            } else {
                lemma_sqrt_floor_unique(0, 0);
            }
        }
        if constant_product_sqrt.is_zero() {
            None
        } else {
            Some(constant_product_sqrt)
        }
    }

    /// The unchecked square root of the constant product of two positive
    /// reserves.
    fn constant_product_sqrt_of(base_liquidity: u64, quote_liquidity: u64) -> (r: Q64_64)
        requires
            base_liquidity > 0,
            quote_liquidity > 0,
        ensures
            r@ == cp_sqrt_raw(base_liquidity as int, quote_liquidity as int),
    {
        match Self::calculate_constant_product_sqrt(base_liquidity, quote_liquidity) {
            Some(v) => v,
            None => {
                proof {
                    assert(false);
                }
                Q64_64::new(0)
            },
        }
    }

    /// The square root of the ratio of two reserves, or `None` where either
    /// reserve is zero.
    pub fn calculate_base_quote_ratio_sqrt(base_liquidity: u64, quote_liquidity: u64) -> (r:
        Option<Q64_64>)
        ensures
            base_liquidity > 0 && quote_liquidity > 0 ==> (r matches Some(v) && v@
                == ratio_sqrt_raw(base_liquidity as int, quote_liquidity as int)),
            base_liquidity == 0 || quote_liquidity == 0 ==> r is None,
    {
        if quote_liquidity == 0 {
            return None;
        }
        let ratio = match Q64_64::div_sqrt(
            Q64_64::from_u64(base_liquidity),
            Q64_64::from_u64(quote_liquidity),
        ) {
            Some(v) => v,
            None => {
                proof {
                    assert(false);
                }
                Q64_64::new(0)
            },
        };
        proof {
            lemma_ratio_common_factor(base_liquidity, quote_liquidity);
            if base_liquidity > 0 {
                lemma_ratio_sqrt_raw_positive(base_liquidity, quote_liquidity);
            } else {
                lemma_sqrt_floor_unique(0, 0);
            }
        }
        if ratio.is_zero() {
            None
        } else {
            Some(ratio)
        }
    }

    /// The unchecked square root of the ratio of two positive reserves.
    fn base_quote_ratio_sqrt_of(base_liquidity: u64, quote_liquidity: u64) -> (r: Q64_64)
        requires
            base_liquidity > 0,
            quote_liquidity > 0,
        ensures
            r@ == ratio_sqrt_raw(base_liquidity as int, quote_liquidity as int),
    {
        match Self::calculate_base_quote_ratio_sqrt(base_liquidity, quote_liquidity) {
            Some(v) => v,
            None => {
                proof {
                    assert(false);
                }
                Q64_64::new(0)
            },
        }
    }
}

/// The constant product's square root of two positive reserves is at least
/// one whole unit.
proof fn lemma_cp_sqrt_raw_positive(base: u64, quote: u64)
    requires
        base > 0,
        quote > 0,
    ensures
        cp_sqrt_raw(base as int, quote as int) >= pow2_64(),
{
    crate::u256::lemma_sqrt_floor(base * quote * pow2_128());
    let s = cp_sqrt_raw(base as int, quote as int);
    assert(base * quote * pow2_128() >= pow2_64() * pow2_64()) by (nonlinear_arith)
        requires
            base >= 1,
            quote >= 1,
            pow2_128() == pow2_64() * pow2_64(),
    ;
    assert(s >= pow2_64()) by (nonlinear_arith)
        requires
            base * quote * pow2_128() < (s + 1) * (s + 1),
            base * quote * pow2_128() >= pow2_64() * pow2_64(),
            s >= 0,
    ;
}

/// The ratio's square root of two positive reserves is positive.
proof fn lemma_ratio_sqrt_raw_positive(base: u64, quote: u64)
    requires
        base > 0,
        quote > 0,
    ensures
        ratio_sqrt_raw(base as int, quote as int) >= 1,
{
    assert(base * pow2_128() >= quote * 1) by (nonlinear_arith)
        requires
            base >= 1,
            quote < pow2_128(),
    ;
    lemma_div_is_ordered(quote * 1, base * pow2_128(), quote as int);
    lemma_div_by_multiple(1, quote as int);
    assert((base * pow2_128()) / (quote as int) >= 1);
    crate::u256::lemma_sqrt_floor((base * pow2_128()) / (quote as int));
    let s = ratio_sqrt_raw(base as int, quote as int);
    assert(s >= 1) by (nonlinear_arith)
        requires
            (base * pow2_128()) / (quote as int) >= 1,
            (base * pow2_128()) / (quote as int) < (s + 1) * (s + 1),
            s >= 0,
    ;
}

/// The product of two 64-bit reserves fits in 128 bits.
proof fn lemma_u64_product_fits(a: u64, b: u64)
    by (nonlinear_arith)
    ensures
        0 <= a * b,
        a * b <= (0xffff_ffff_ffff_ffffu64) * (0xffff_ffff_ffff_ffffu64),
{
}

/// Scaling the dividend and the divisor by the same factor does not change
/// the rounded-down quotient.
proof fn lemma_div_common_factor(a: int, d: int, c: int)
    requires
        0 <= a,
        0 < d,
        0 < c,
    ensures
        (a * c) / (d * c) == a / d,
{
    lemma_div_denominator(a * c, c, d);
    lemma_div_by_multiple(a, c);
    assert(d * c == c * d) by (nonlinear_arith);
}

/// Scaling the dividend and the divisor by the same power of two does not
/// change the rounded-down ratio handed to the square root.
proof fn lemma_ratio_common_factor(base: u64, quote: u64)
    requires
        quote > 0,
    ensures
        ((base * pow2_64()) * pow2_128()) / (quote * pow2_64()) == (base * pow2_128()) / (quote as int),
{
    assert((base * pow2_64()) * pow2_128() == (base * pow2_128()) * pow2_64())
        by (nonlinear_arith);
    lemma_div_common_factor(base * pow2_128(), quote as int, pow2_64());
    assert(0 <= base * pow2_128()) by (nonlinear_arith);
}

/// The liquidity-token supply created at launch: the integer part of the
/// square root of the first constant product.
pub open spec fn spec_launch_lp_supply(base: u64, quote: u64) -> int {
    cp_sqrt_raw(base as int, quote as int) / pow2_64()
}

/// The first error a launch request runs into, or `None` where it succeeds.
pub open spec fn spec_launch_error(pool: PoolView, base: u64, quote: u64) -> Option<ErrorCode> {
    if pool.is_launched {
        Some(ErrorCode::CpAmmAlreadyLaunched)
    } else if !pool.is_initialized {
        Some(ErrorCode::CpAmmNotInitialized)
    } else if base == 0 {
        Some(ErrorCode::ProvidedBaseLiquidityIsZero)
    } else if quote == 0 {
        Some(ErrorCode::ProvidedQuoteLiquidityIsZero)
    } else if spec_launch_lp_supply(base, quote) == 0 {
        Some(ErrorCode::LpTokensToMintIsZero)
    } else if spec_launch_lp_supply(base, quote) < LAUNCH_LIQUIDITY_MULTIPLIER
        * INITIAL_LOCKED_LP_TOKENS {
        Some(ErrorCode::LaunchLiquidityTooSmall)
    } else {
        None
    }
}

/// The first error a ratio validation runs into, or `None` where the fresh
/// ratio of the two new reserves stays within tolerance of the stored one.
pub open spec fn spec_validate_ratio_error(stored_ratio: int, new_base: u64, new_quote: u64) -> Option<ErrorCode> {
    if new_base == 0 {
        Some(ErrorCode::NewBaseLiquidityIsZero)
    } else if new_quote == 0 {
        Some(ErrorCode::NewQuoteLiquidityIsZero)
    } else if !within_tolerance(
        stored_ratio,
        ratio_sqrt_raw(new_base as int, new_quote as int),
        ADJUST_LIQUIDITY_RATIO_TOLERANCE,
    ) {
        Some(ErrorCode::LiquidityRatioToleranceExceeded)
    } else {
        None
    }
}

/// The first error a constant-product validation runs into, or `None` where
/// the fresh constant product of the two new reserves stays within tolerance
/// of the stored one.
pub open spec fn spec_validate_cp_error(stored_cp: int, new_base: u64, new_quote: u64) -> Option<ErrorCode> {
    if new_base == 0 {
        Some(ErrorCode::NewBaseLiquidityIsZero)
    } else if new_quote == 0 {
        Some(ErrorCode::NewQuoteLiquidityIsZero)
    } else if !within_tolerance(
        stored_cp,
        cp_sqrt_raw(new_base as int, new_quote as int),
        SWAP_CONSTANT_PRODUCT_TOLERANCE,
    ) {
        Some(ErrorCode::ConstantProductToleranceExceeded)
    } else {
        None
    }
}

/// The liquidity tokens minted for provided liquidity: the growth of the
/// constant product's square root, as a share of the old one, applied to the
/// old supply, each step rounded down.  Meaningful only where the stored
/// cache is positive and does not exceed the fresh value.
pub open spec fn spec_provide_mint(pool: PoolView, new_base: int, new_quote: int) -> int {
    let provided = cp_sqrt_raw(new_base, new_quote) - pool.constant_product_sqrt;
    let share = (provided * pow2_64()) / pool.constant_product_sqrt;
    (share * pool.lp_tokens_supply) / pow2_64()
}

/// The first error a provide request runs into, or `None` where it succeeds.
pub open spec fn spec_provide_error(pool: PoolView, base_in: u64, quote_in: u64) -> Option<ErrorCode> {
    if spec_state_error(pool) is Some {
        spec_state_error(pool)
    } else if base_in == 0 {
        Some(ErrorCode::ProvidedBaseLiquidityIsZero)
    } else if quote_in == 0 {
        Some(ErrorCode::ProvidedQuoteLiquidityIsZero)
    } else if pool.base_liquidity + base_in > u64::MAX {
        Some(ErrorCode::ProvideOverflowError)
    } else if pool.quote_liquidity + quote_in > u64::MAX {
        Some(ErrorCode::ProvideOverflowError)
    } else if spec_validate_ratio_error(
        pool.base_quote_ratio_sqrt,
        (pool.base_liquidity + base_in) as u64,
        (pool.quote_liquidity + quote_in) as u64,
    ) is Some {
        spec_validate_ratio_error(
            pool.base_quote_ratio_sqrt,
            (pool.base_liquidity + base_in) as u64,
            (pool.quote_liquidity + quote_in) as u64,
        )
    } else {
        let nb = pool.base_liquidity + base_in;
        let nq = pool.quote_liquidity + quote_in;
        let new_cp = cp_sqrt_raw(nb, nq);
        if new_cp < pool.constant_product_sqrt {
            Some(ErrorCode::ProvideOverflowError)
        } else if pool.constant_product_sqrt == 0 {
            Some(ErrorCode::ProvideOverflowError)
        } else {
            let provided = new_cp - pool.constant_product_sqrt;
            let share = (provided * pow2_64()) / pool.constant_product_sqrt;
            if share >= pow2_128() {
                Some(ErrorCode::ProvideOverflowError)
            } else if share * pool.lp_tokens_supply >= pow2_128() {
                Some(ErrorCode::ProvideOverflowError)
            } else if spec_provide_mint(pool, nb, nq) == 0 {
                Some(ErrorCode::LpTokensToMintIsZero)
            } else if pool.lp_tokens_supply + spec_provide_mint(pool, nb, nq) > u64::MAX {
                Some(ErrorCode::ProvideOverflowError)
            } else {
                None
            }
        }
    }
}

impl CpAmm {
    /// The payload that launches the pool on its first reserves, or the
    /// first error in the way.  The created supply is the integer square
    /// root of the reserve product, and it must reach four times the
    /// permanently locked seed.
    pub fn get_launch_payload(&self, base_liquidity: u64, quote_liquidity: u64) -> (r: Result<
        LaunchPayload,
        ErrorCode,
    >)
        ensures
            match r {
                Ok(p) => spec_launch_error(self@, base_liquidity, quote_liquidity) is None
                    && p.base_liquidity == base_liquidity && p.quote_liquidity == quote_liquidity
                    && p.constant_product_sqrt@ == cp_sqrt_raw(
                    base_liquidity as int,
                    quote_liquidity as int,
                ) && p.base_quote_ratio_sqrt@ == ratio_sqrt_raw(
                    base_liquidity as int,
                    quote_liquidity as int,
                ) && p.lp_tokens_supply == spec_launch_lp_supply(base_liquidity, quote_liquidity)
                    && p.initial_locked_liquidity == INITIAL_LOCKED_LP_TOKENS
                    && p.lp_tokens_supply >= LAUNCH_LIQUIDITY_MULTIPLIER
                    * INITIAL_LOCKED_LP_TOKENS,
                Err(e) => spec_launch_error(self@, base_liquidity, quote_liquidity) == Some(e),
            },
    {
        if self.is_launched {
            return Err(ErrorCode::CpAmmAlreadyLaunched);
        }
        if !self.is_initialized {
            return Err(ErrorCode::CpAmmNotInitialized);
        }
        if base_liquidity == 0 {
            return Err(ErrorCode::ProvidedBaseLiquidityIsZero);
        }
        if quote_liquidity == 0 {
            return Err(ErrorCode::ProvidedQuoteLiquidityIsZero);
        }
        let constant_product_sqrt = Self::constant_product_sqrt_of(base_liquidity, quote_liquidity);
        let lp_tokens_supply: u64 = constant_product_sqrt.to_u64();
        if lp_tokens_supply == 0 {
            return Err(ErrorCode::LpTokensToMintIsZero);
        }
        let initial_locked_liquidity: u64 = INITIAL_LOCKED_LP_TOKENS;
        if lp_tokens_supply < LAUNCH_LIQUIDITY_MULTIPLIER * initial_locked_liquidity {
            return Err(ErrorCode::LaunchLiquidityTooSmall);
        }
        let base_quote_ratio_sqrt = Self::base_quote_ratio_sqrt_of(base_liquidity, quote_liquidity);
        Ok(
            LaunchPayload {
                initial_locked_liquidity,
                constant_product_sqrt,
                base_quote_ratio_sqrt,
                base_liquidity,
                quote_liquidity,
                lp_tokens_supply,
            },
        )
    }

    /// The ratio of the two new reserves, as long as neither is zero and
    /// the fresh ratio stays within tolerance of the stored cache.
    pub fn calculate_and_validate_liquidity_ratio(&self, new_base_liquidity: u64, new_quote_liquidity: u64) -> (r: Result<Q64_64, ErrorCode>)
        ensures
            match r {
                Ok(v) => spec_validate_ratio_error(
                    self@.base_quote_ratio_sqrt,
                    new_base_liquidity,
                    new_quote_liquidity,
                ) is None && v@ == ratio_sqrt_raw(
                    new_base_liquidity as int,
                    new_quote_liquidity as int,
                ),
                Err(e) => spec_validate_ratio_error(
                    self@.base_quote_ratio_sqrt,
                    new_base_liquidity,
                    new_quote_liquidity,
                ) == Some(e),
            },
    {
        if new_base_liquidity == 0 {
            return Err(ErrorCode::NewBaseLiquidityIsZero);
        }
        if new_quote_liquidity == 0 {
            return Err(ErrorCode::NewQuoteLiquidityIsZero);
        }
        let new_base_quote_ratio_sqrt = Self::base_quote_ratio_sqrt_of(
            new_base_liquidity,
            new_quote_liquidity,
        );
        let difference = self.base_quote_ratio_sqrt.abs_diff(new_base_quote_ratio_sqrt);
        proof {
            self.base_quote_ratio_sqrt.lemma_bounds();
            lemma_tolerance_product_fits(
                self@.base_quote_ratio_sqrt,
                ADJUST_LIQUIDITY_RATIO_TOLERANCE,
            );
        }
        let allowed_difference = match self.base_quote_ratio_sqrt.checked_mul(
            Q64_64::new(ADJUST_LIQUIDITY_RATIO_TOLERANCE),
        ) {
            Some(v) => v,
            None => {
                proof {
                    assert(false);
                }
                Q64_64::new(0)
            },
        };
        if difference.le(&allowed_difference) {
            Ok(new_base_quote_ratio_sqrt)
        } else {
            Err(ErrorCode::LiquidityRatioToleranceExceeded)
        }
    }

    /// Checks that the constant product of the two new reserves stays within
    /// tolerance of the stored cache.
    pub fn validate_swap_constant_product(&self, new_base_liquidity: u64, new_quote_liquidity: u64) -> (r: Result<(), ErrorCode>)
        ensures
            match r {
                Ok(_) => spec_validate_cp_error(
                    self@.constant_product_sqrt,
                    new_base_liquidity,
                    new_quote_liquidity,
                ) is None,
                Err(e) => spec_validate_cp_error(
                    self@.constant_product_sqrt,
                    new_base_liquidity,
                    new_quote_liquidity,
                ) == Some(e),
            },
    {
        if new_base_liquidity == 0 {
            return Err(ErrorCode::NewBaseLiquidityIsZero);
        }
        if new_quote_liquidity == 0 {
            return Err(ErrorCode::NewQuoteLiquidityIsZero);
        }
        let new_constant_product_sqrt = Self::constant_product_sqrt_of(
            new_base_liquidity,
            new_quote_liquidity,
        );
        let difference = self.constant_product_sqrt.abs_diff(new_constant_product_sqrt);
        proof {
            self.constant_product_sqrt.lemma_bounds();
            lemma_tolerance_product_fits(
                self@.constant_product_sqrt,
                SWAP_CONSTANT_PRODUCT_TOLERANCE,
            );
        }
        let allowed_difference = match self.constant_product_sqrt.checked_mul(
            Q64_64::new(SWAP_CONSTANT_PRODUCT_TOLERANCE),
        ) {
            Some(v) => v,
            None => {
                proof {
                    assert(false);
                }
                Q64_64::new(0)
            },
        };
        if difference.le(&allowed_difference) {
            Ok(())
        } else {
            Err(ErrorCode::ConstantProductToleranceExceeded)
        }
    }

    /// The payload that adds liquidity to the pool, or the first error in
    /// the way.  Both reserves grow by the amounts paid in; the mint amount
    /// is the supply's share of the constant-product growth; the supply
    /// never shrinks.
    pub fn get_provide_payload(&self, base_liquidity: u64, quote_liquidity: u64) -> (r: Result<
        ProvidePayload,
        ErrorCode,
    >)
        ensures
            match r {
                Ok(p) => {
                    let nb = self@.base_liquidity + base_liquidity;
                    let nq = self@.quote_liquidity + quote_liquidity;
                    spec_provide_error(self@, base_liquidity, quote_liquidity) is None
                        && p.base_liquidity == nb && p.quote_liquidity == nq
                        && p.base_quote_ratio_sqrt@ == ratio_sqrt_raw(nb, nq)
                        && p.constant_product_sqrt@ == cp_sqrt_raw(nb, nq)
                        && p.lp_tokens_to_mint == spec_provide_mint(self@, nb, nq)
                        && p.lp_tokens_supply == self@.lp_tokens_supply + p.lp_tokens_to_mint
                        && p.base_liquidity >= self@.base_liquidity && p.quote_liquidity
                        >= self@.quote_liquidity && p.lp_tokens_supply > self@.lp_tokens_supply
                },
                Err(e) => spec_provide_error(self@, base_liquidity, quote_liquidity) == Some(e),
            },
    {
        match self.check_state() {
            Ok(_) => {},
            Err(e) => {
                return Err(e);
            },
        }
        if base_liquidity == 0 {
            return Err(ErrorCode::ProvidedBaseLiquidityIsZero);
        }
        if quote_liquidity == 0 {
            return Err(ErrorCode::ProvidedQuoteLiquidityIsZero);
        }
        let new_base_liquidity = match self.base_liquidity.checked_add(base_liquidity) {
            Some(v) => v,
            None => {
                return Err(ErrorCode::ProvideOverflowError);
            },
        };
        let new_quote_liquidity = match self.quote_liquidity.checked_add(quote_liquidity) {
            Some(v) => v,
            None => {
                return Err(ErrorCode::ProvideOverflowError);
            },
        };
        let new_base_quote_ratio_sqrt = match self.calculate_and_validate_liquidity_ratio(
            new_base_liquidity,
            new_quote_liquidity,
        ) {
            Ok(v) => v,
            Err(e) => {
                return Err(e);
            },
        };
        let new_constant_product_sqrt = Self::constant_product_sqrt_of(
            new_base_liquidity,
            new_quote_liquidity,
        );
        let provided_liquidity = match new_constant_product_sqrt.checked_sub(
            self.constant_product_sqrt,
        ) {
            Some(v) => v,
            None => {
                return Err(ErrorCode::ProvideOverflowError);
            },
        };
        let share_from_current_liquidity = match provided_liquidity.checked_div(
            self.constant_product_sqrt,
        ) {
            Some(v) => v,
            None => {
                return Err(ErrorCode::ProvideOverflowError);
            },
        };
        let minted_q = match share_from_current_liquidity.checked_mul(
            Q64_64::from_u64(self.lp_tokens_supply),
        ) {
            Some(v) => v,
            None => {
                proof {
                    share_from_current_liquidity.lemma_bounds();
                    lemma_mul_shift_cancel(
                        share_from_current_liquidity@,
                        self@.lp_tokens_supply as int,
                    );
                }
                return Err(ErrorCode::ProvideOverflowError);
            },
        };
        proof {
            share_from_current_liquidity.lemma_bounds();
            lemma_mul_shift_cancel(share_from_current_liquidity@, self@.lp_tokens_supply as int);
        }
        let lp_tokens_to_mint: u64 = minted_q.to_u64();
        if lp_tokens_to_mint == 0 {
            return Err(ErrorCode::LpTokensToMintIsZero);
        }
        let new_lp_tokens_supply = match self.lp_tokens_supply.checked_add(lp_tokens_to_mint) {
            Some(v) => v,
            None => {
                return Err(ErrorCode::ProvideOverflowError);
            },
        };
        Ok(
            ProvidePayload {
                base_quote_ratio_sqrt: new_base_quote_ratio_sqrt,
                constant_product_sqrt: new_constant_product_sqrt,
                base_liquidity: new_base_liquidity,
                quote_liquidity: new_quote_liquidity,
                lp_tokens_supply: new_lp_tokens_supply,
                lp_tokens_to_mint,
            },
        )
    }
}

/// A stored cache value times a tolerance below one stays below the
/// magnitude limit after the fixed-point scaling.
proof fn lemma_tolerance_product_fits(stored: int, tolerance: u128)
    requires
        0 <= stored < pow2_128(),
        tolerance < pow2_64(),
    ensures
        0 <= (stored * tolerance) / pow2_64() < pow2_128(),
{
    assert(stored * tolerance < pow2_128() * pow2_64()) by (nonlinear_arith)
        requires
            0 <= stored < pow2_128(),
            0 <= tolerance < pow2_64(),
    ;
    lemma_div_is_ordered(stored * tolerance, pow2_128() * pow2_64() - 1, pow2_64());
    lemma_fundamental_div_mod_converse(
        pow2_128() * pow2_64() - 1,
        pow2_64(),
        pow2_128() - 1,
        pow2_64() - 1,
    );
}

/// Scaling one factor of a product by two to the 64th and scaling the
/// product back down leaves the plain product.
proof fn lemma_mul_shift_cancel(a: int, b: int)
    requires
        0 <= a,
        0 <= b,
    ensures
        (a * (b * pow2_64())) / pow2_64() == a * b,
{
    assert(a * (b * pow2_64()) == (a * b) * pow2_64()) by (nonlinear_arith);
    lemma_div_by_multiple(a * b, pow2_64());
    assert(0 <= a * b) by (nonlinear_arith)
        requires
            0 <= a,
            0 <= b,
    ;
}

/// The liquidity share redeemed by a withdrawal: the paid-in tokens over
/// the supply, in Q64.64.
pub open spec fn spec_withdraw_share(pool: PoolView, lp_tokens: u64) -> int {
    (lp_tokens * pow2_64()) / (pool.lp_tokens_supply as int)
}

/// The withdrawn share of the constant product's square root.
pub open spec fn spec_withdraw_cp_share(pool: PoolView, lp_tokens: u64) -> int {
    (pool.constant_product_sqrt * spec_withdraw_share(pool, lp_tokens)) / pow2_64()
}

/// The base tokens paid out by a withdrawal: the withdrawn constant-product
/// share times the ratio's square root, rounded to the nearest integer.
pub open spec fn spec_withdraw_base_out(pool: PoolView, lp_tokens: u64) -> int {
    spec_as_u64_round((spec_withdraw_cp_share(pool, lp_tokens) * pool.base_quote_ratio_sqrt) / pow2_64())
}

/// The quote tokens paid out by a withdrawal: the withdrawn constant-product
/// share divided by the ratio's square root, rounded to the nearest integer.
pub open spec fn spec_withdraw_quote_out(pool: PoolView, lp_tokens: u64) -> int {
    spec_as_u64_round((spec_withdraw_cp_share(pool, lp_tokens) * pow2_64()) / pool.base_quote_ratio_sqrt)
}

/// The first error a withdraw request runs into, or `None` where it
/// succeeds.
pub open spec fn spec_withdraw_error(pool: PoolView, lp_tokens: u64) -> Option<ErrorCode> {
    if spec_state_error(pool) is Some {
        spec_state_error(pool)
    } else if lp_tokens == 0 {
        Some(ErrorCode::ProvidedLpTokensIsZero)
    } else if lp_tokens > pool.lp_tokens_supply {
        Some(ErrorCode::WithdrawOverflowError)
    } else if lp_tokens == pool.lp_tokens_supply {
        Some(ErrorCode::LpTokensLeftSupplyIsZero)
    } else {
        let cp_share = spec_withdraw_cp_share(pool, lp_tokens);
        if (cp_share * pool.base_quote_ratio_sqrt) / pow2_64() >= pow2_128() {
            Some(ErrorCode::WithdrawOverflowError)
        } else if pool.base_quote_ratio_sqrt == 0 {
            Some(ErrorCode::WithdrawOverflowError)
        } else if (cp_share * pow2_64()) / pool.base_quote_ratio_sqrt >= pow2_128() {
            Some(ErrorCode::WithdrawOverflowError)
        } else {
            let base_out = spec_withdraw_base_out(pool, lp_tokens);
            let quote_out = spec_withdraw_quote_out(pool, lp_tokens);
            if base_out == 0 {
                Some(ErrorCode::BaseWithdrawAmountIsZero)
            } else if quote_out == 0 {
                Some(ErrorCode::QuoteWithdrawAmountIsZero)
            } else if base_out > pool.base_liquidity {
                Some(ErrorCode::WithdrawOverflowError)
            } else if quote_out > pool.quote_liquidity {
                Some(ErrorCode::WithdrawOverflowError)
            } else {
                spec_validate_ratio_error(
                    pool.base_quote_ratio_sqrt,
                    (pool.base_liquidity - base_out) as u64,
                    (pool.quote_liquidity - quote_out) as u64,
                )
            }
        }
    }
}

impl CpAmm {
    /// The payload that redeems liquidity tokens for a proportional share
    /// of both reserves, or the first error in the way.  The supply must
    /// stay positive, the pay-outs positive, and the new reserve ratio
    /// within tolerance of the cached one; reserves and supply never grow.
    pub fn get_withdraw_payload(&self, lp_tokens: u64) -> (r: Result<WithdrawPayload, ErrorCode>)
        ensures
            match r {
                Ok(p) => {
                    let base_out = spec_withdraw_base_out(self@, lp_tokens);
                    let quote_out = spec_withdraw_quote_out(self@, lp_tokens);
                    spec_withdraw_error(self@, lp_tokens) is None && p.base_withdraw_amount
                        == base_out && p.quote_withdraw_amount == quote_out && p.base_liquidity
                        == self@.base_liquidity - base_out && p.quote_liquidity
                        == self@.quote_liquidity - quote_out && p.lp_tokens_supply
                        == self@.lp_tokens_supply - lp_tokens && p.base_quote_ratio_sqrt@
                        == ratio_sqrt_raw(
                        self@.base_liquidity - base_out,
                        self@.quote_liquidity - quote_out,
                    ) && p.base_liquidity <= self@.base_liquidity && p.quote_liquidity
                        <= self@.quote_liquidity && p.lp_tokens_supply < self@.lp_tokens_supply
                        && p.lp_tokens_supply > 0
                },
                Err(e) => spec_withdraw_error(self@, lp_tokens) == Some(e),
            },
    {
        match self.check_state() {
            Ok(_) => {},
            Err(e) => {
                return Err(e);
            },
        }
        if lp_tokens == 0 {
            return Err(ErrorCode::ProvidedLpTokensIsZero);
        }
        let lp_tokens_left_supply = match self.lp_tokens_supply.checked_sub(lp_tokens) {
            Some(v) => v,
            None => {
                return Err(ErrorCode::WithdrawOverflowError);
            },
        };
        if lp_tokens_left_supply == 0 {
            return Err(ErrorCode::LpTokensLeftSupplyIsZero);
        }
        // The share is below one, so neither quotient below can overflow.
        let liquidity_share = match Q64_64::from_u64(lp_tokens).checked_div(
            Q64_64::from_u64(self.lp_tokens_supply),
        ) {
            Some(v) => v,
            None => {
                proof {
                    lemma_withdraw_share_fits(lp_tokens, self@.lp_tokens_supply);
                }
                return Err(ErrorCode::WithdrawOverflowError);
            },
        };
        proof {
            lemma_withdraw_share_fits(lp_tokens, self@.lp_tokens_supply);
            assert(liquidity_share@ == spec_withdraw_share(self@, lp_tokens));
            self.constant_product_sqrt.lemma_bounds();
            lemma_cp_share_fits(self@.constant_product_sqrt, liquidity_share@);
        }
        let constant_product_sqrt_share = match self.constant_product_sqrt.checked_mul(
            liquidity_share,
        ) {
            Some(v) => v,
            None => {
                proof {
                    assert(false);
                }
                return Err(ErrorCode::WithdrawOverflowError);
            },
        };
        let base_withdraw_q = match constant_product_sqrt_share.checked_mul(
            self.base_quote_ratio_sqrt,
        ) {
            Some(v) => v,
            None => {
                return Err(ErrorCode::WithdrawOverflowError);
            },
        };
        let quote_withdraw_q = match constant_product_sqrt_share.checked_div(
            self.base_quote_ratio_sqrt,
        ) {
            Some(v) => v,
            None => {
                return Err(ErrorCode::WithdrawOverflowError);
            },
        };
        let base_withdraw: u64 = base_withdraw_q.as_u64_round();
        let quote_withdraw: u64 = quote_withdraw_q.as_u64_round();
        if base_withdraw == 0 {
            return Err(ErrorCode::BaseWithdrawAmountIsZero);
        }
        if quote_withdraw == 0 {
            return Err(ErrorCode::QuoteWithdrawAmountIsZero);
        }
        let new_base_liquidity = match self.base_liquidity.checked_sub(base_withdraw) {
            Some(v) => v,
            None => {
                return Err(ErrorCode::WithdrawOverflowError);
            },
        };
        let new_quote_liquidity = match self.quote_liquidity.checked_sub(quote_withdraw) {
            Some(v) => v,
            None => {
                return Err(ErrorCode::WithdrawOverflowError);
            },
        };
        // The ratio validation also keeps the pool from being drained.
        let new_base_quote_ratio_sqrt = match self.calculate_and_validate_liquidity_ratio(
            new_base_liquidity,
            new_quote_liquidity,
        ) {
            Ok(v) => v,
            Err(e) => {
                return Err(e);
            },
        };
        Ok(
            WithdrawPayload {
                base_quote_ratio_sqrt: new_base_quote_ratio_sqrt,
                base_liquidity: new_base_liquidity,
                quote_liquidity: new_quote_liquidity,
                lp_tokens_supply: lp_tokens_left_supply,
                base_withdraw_amount: base_withdraw,
                quote_withdraw_amount: quote_withdraw,
            },
        )
    }
}

/// The Q64.64 share of a strict part of the supply stays below one, so its
/// magnitude fits.
proof fn lemma_withdraw_share_fits(lp_tokens: u64, supply: u64)
    requires
        0 < lp_tokens < supply,
    ensures
        ((lp_tokens * pow2_64()) * pow2_64()) / (supply * pow2_64()) == (lp_tokens * pow2_64())
            / (supply as int),
        0 <= (lp_tokens * pow2_64()) / (supply as int) < pow2_64(),
{
    assert((lp_tokens * pow2_64()) * pow2_64() == (lp_tokens * pow2_64()) * pow2_64());
    lemma_div_common_factor(lp_tokens * pow2_64(), supply as int, pow2_64());
    assert(0 <= lp_tokens * pow2_64());
    assert(lp_tokens * pow2_64() <= (supply - 1) * pow2_64()) by (nonlinear_arith)
        requires
            lp_tokens < supply,
    ;
    lemma_div_is_ordered(lp_tokens * pow2_64(), supply * pow2_64() - 1, supply as int);
    lemma_fundamental_div_mod_converse(
        supply * pow2_64() - 1,
        supply as int,
        pow2_64() - 1,
        supply - 1,
    );
    assert((pow2_64() - 1) * supply == supply * pow2_64() - supply) by (nonlinear_arith);
}

/// Multiplying a magnitude by a share below one keeps it below the
/// magnitude limit.
proof fn lemma_cp_share_fits(cp: int, share: int)
    requires
        0 <= cp < pow2_128(),
        0 <= share < pow2_64(),
    ensures
        0 <= (cp * share) / pow2_64() < pow2_128(),
{
    assert(cp * share < pow2_128() * pow2_64()) by (nonlinear_arith)
        requires
            0 <= cp < pow2_128(),
            0 <= share < pow2_64(),
    ;
    assert(0 <= cp * share) by (nonlinear_arith)
        requires
            0 <= cp,
            0 <= share,
    ;
    lemma_div_is_ordered(cp * share, pow2_128() * pow2_64() - 1, pow2_64());
    lemma_fundamental_div_mod_converse(
        pow2_128() * pow2_64() - 1,
        pow2_64(),
        pow2_128() - 1,
        pow2_64() - 1,
    );
}

/// The base reserve after a base-to-quote swap credits the net amount.
pub open spec fn spec_b2q_new_base(pool: PoolView, amount: u64) -> int {
    pool.base_liquidity + amount - spec_fee_amount(amount, pool.providers_fee_rate_basis_points)
        - spec_fee_amount(amount, pool.protocol_fee_rate_basis_points)
}

/// The quote reserve a base-to-quote swap leaves: the squared constant
/// product over the new base reserve, rounded down.
pub open spec fn spec_b2q_new_quote(pool: PoolView, amount: u64) -> int {
    spec_square_as_u128(pool.constant_product_sqrt) / spec_b2q_new_base(pool, amount)
}

/// The quote reserve after a quote-to-base swap credits the net amount.
pub open spec fn spec_q2b_new_quote(pool: PoolView, amount: u64) -> int {
    pool.quote_liquidity + amount - spec_fee_amount(amount, pool.providers_fee_rate_basis_points)
        - spec_fee_amount(amount, pool.protocol_fee_rate_basis_points)
}

/// The base reserve a quote-to-base swap leaves: the squared constant
/// product over the new quote reserve, rounded down.
pub open spec fn spec_q2b_new_base(pool: PoolView, amount: u64) -> int {
    spec_square_as_u128(pool.constant_product_sqrt) / spec_q2b_new_quote(pool, amount)
}

/// The first error a swap-result check runs into, or `None`: the realized
/// result must be positive and within the allowed slippage of the estimate.
pub open spec fn spec_check_swap_result_error(swap_result: u64, estimated_swap_result: u64, allowed_slippage: u64) -> Option<ErrorCode> {
    if swap_result == 0 {
        Some(ErrorCode::SwapResultIsZero)
    } else if spec_abs_diff(swap_result as int, estimated_swap_result as int)
        > allowed_slippage {
        Some(ErrorCode::SwapSlippageExceeded)
    } else {
        None
    }
}

/// The first error a base-to-quote swap runs into, or `None` where it
/// succeeds.
pub open spec fn spec_b2q_error(pool: PoolView, amount: u64, estimated_result: u64, allowed_slippage: u64) -> Option<ErrorCode> {
    if spec_state_error(pool) is Some {
        spec_state_error(pool)
    } else if amount == 0 {
        Some(ErrorCode::SwapAmountIsZero)
    } else if estimated_result == 0 {
        Some(ErrorCode::EstimatedResultIsZero)
    } else if pool.providers_fee_rate_basis_points + pool.protocol_fee_rate_basis_points
        > 10000 {
        Some(ErrorCode::ConfigFeeRateExceeded)
    } else if pool.protocol_base_fees_to_redeem + spec_fee_amount(
        amount,
        pool.protocol_fee_rate_basis_points,
    ) > u64::MAX {
        Some(ErrorCode::SwapOverflowError)
    } else if amount - spec_fee_amount(amount, pool.providers_fee_rate_basis_points)
        - spec_fee_amount(amount, pool.protocol_fee_rate_basis_points) == 0 {
        Some(ErrorCode::PostfeeSwapAmountIsZero)
    } else if spec_b2q_new_base(pool, amount) > u64::MAX {
        Some(ErrorCode::SwapOverflowError)
    } else if spec_b2q_new_quote(pool, amount) >= pow2_64() {
        Some(ErrorCode::SwapOverflowError)
    } else if spec_validate_cp_error(
        pool.constant_product_sqrt,
        spec_b2q_new_base(pool, amount) as u64,
        spec_b2q_new_quote(pool, amount) as u64,
    ) is Some {
        spec_validate_cp_error(
            pool.constant_product_sqrt,
            spec_b2q_new_base(pool, amount) as u64,
            spec_b2q_new_quote(pool, amount) as u64,
        )
    } else if spec_b2q_new_quote(pool, amount) > pool.quote_liquidity {
        Some(ErrorCode::SwapOverflowError)
    } else if spec_check_swap_result_error(
        (pool.quote_liquidity - spec_b2q_new_quote(pool, amount)) as u64,
        estimated_result,
        allowed_slippage,
    ) is Some {
        spec_check_swap_result_error(
            (pool.quote_liquidity - spec_b2q_new_quote(pool, amount)) as u64,
            estimated_result,
            allowed_slippage,
        )
    } else if spec_b2q_new_base(pool, amount) + spec_fee_amount(
        amount,
        pool.providers_fee_rate_basis_points,
    ) > u64::MAX {
        Some(ErrorCode::SwapOverflowError)
    } else {
        None
    }
}

/// The first error a quote-to-base swap runs into, or `None` where it
/// succeeds.
pub open spec fn spec_q2b_error(pool: PoolView, amount: u64, estimated_result: u64, allowed_slippage: u64) -> Option<ErrorCode> {
    if spec_state_error(pool) is Some {
        spec_state_error(pool)
    } else if amount == 0 {
        Some(ErrorCode::SwapAmountIsZero)
    } else if estimated_result == 0 {
        Some(ErrorCode::EstimatedResultIsZero)
    } else if pool.providers_fee_rate_basis_points + pool.protocol_fee_rate_basis_points
        > 10000 {
        Some(ErrorCode::ConfigFeeRateExceeded)
    } else if pool.protocol_quote_fees_to_redeem + spec_fee_amount(
        amount,
        pool.protocol_fee_rate_basis_points,
    ) > u64::MAX {
        Some(ErrorCode::SwapOverflowError)
    } else if amount - spec_fee_amount(amount, pool.providers_fee_rate_basis_points)
        - spec_fee_amount(amount, pool.protocol_fee_rate_basis_points) == 0 {
        Some(ErrorCode::PostfeeSwapAmountIsZero)
    } else if spec_q2b_new_quote(pool, amount) > u64::MAX {
        Some(ErrorCode::SwapOverflowError)
    } else if spec_q2b_new_base(pool, amount) >= pow2_64() {
        Some(ErrorCode::SwapOverflowError)
    } else if spec_validate_cp_error(
        pool.constant_product_sqrt,
        spec_q2b_new_base(pool, amount) as u64,
        spec_q2b_new_quote(pool, amount) as u64,
    ) is Some {
        spec_validate_cp_error(
            pool.constant_product_sqrt,
            spec_q2b_new_base(pool, amount) as u64,
            spec_q2b_new_quote(pool, amount) as u64,
        )
    } else if spec_q2b_new_base(pool, amount) > pool.base_liquidity {
        Some(ErrorCode::SwapOverflowError)
    } else if spec_check_swap_result_error(
        (pool.base_liquidity - spec_q2b_new_base(pool, amount)) as u64,
        estimated_result,
        allowed_slippage,
    ) is Some {
        spec_check_swap_result_error(
            (pool.base_liquidity - spec_q2b_new_base(pool, amount)) as u64,
            estimated_result,
            allowed_slippage,
        )
    } else if spec_q2b_new_quote(pool, amount) + spec_fee_amount(
        amount,
        pool.providers_fee_rate_basis_points,
    ) > u64::MAX {
        Some(ErrorCode::SwapOverflowError)
    } else {
        None
    }
}

impl CpAmm {
    /// The liquidity providers' fee on a swap amount, rounded down.
    pub fn calculate_providers_fee_amount(&self, swap_amount: u64) -> (r: u64)
        requires
            self@.providers_fee_rate_basis_points <= 10000,
        ensures
            r == spec_fee_amount(swap_amount, self@.providers_fee_rate_basis_points),
    {
        proof {
            lemma_fee_amount_bounds(swap_amount, self@.providers_fee_rate_basis_points);
        }
        (((swap_amount as u128) * (self.providers_fee_rate_basis_points as u128)) / 10000) as u64
    }

    /// The protocol's fee on a swap amount, rounded down.
    pub fn calculate_protocol_fee_amount(&self, swap_amount: u64) -> (r: u64)
        requires
            self@.protocol_fee_rate_basis_points <= 10000,
        ensures
            r == spec_fee_amount(swap_amount, self@.protocol_fee_rate_basis_points),
    {
        proof {
            lemma_fee_amount_bounds(swap_amount, self@.protocol_fee_rate_basis_points);
        }
        (((swap_amount as u128) * (self.protocol_fee_rate_basis_points as u128)) / 10000) as u64
    }

    /// Checks a realized swap result against the caller's estimate and
    /// allowed slippage.
    pub fn check_swap_result(&self, swap_result: u64, estimated_swap_result: u64, allowed_slippage: u64) -> (r: Result<(), ErrorCode>)
        ensures
            match r {
                Ok(_) => spec_check_swap_result_error(
                    swap_result,
                    estimated_swap_result,
                    allowed_slippage,
                ) is None,
                Err(e) => spec_check_swap_result_error(
                    swap_result,
                    estimated_swap_result,
                    allowed_slippage,
                ) == Some(e),
            },
    {
        if swap_result == 0 {
            return Err(ErrorCode::SwapResultIsZero);
        }
        let difference: u64 = if swap_result >= estimated_swap_result {
            swap_result - estimated_swap_result
        } else {
            estimated_swap_result - swap_result
        };
        if difference > allowed_slippage {
            return Err(ErrorCode::SwapSlippageExceeded);
        }
        Ok(())
    }

    /// The payload that swaps base tokens in for quote tokens out, or the
    /// first error in the way.  The gross amount splits exactly into the
    /// provider fee, the protocol fee and the net amount; the net amount
    /// joins the base reserve, the quote reserve follows from the constant
    /// product, and the provider fee then joins the base reserve on top.
    pub fn get_base_to_quote_swap_payload(&self, base_amount: u64, estimated_result: u64, allowed_slippage: u64) -> (r: Result<SwapPayload, ErrorCode>)
        ensures
            match r {
                Ok(p) => {
                    let pf = spec_fee_amount(base_amount, self@.providers_fee_rate_basis_points);
                    let tf = spec_fee_amount(base_amount, self@.protocol_fee_rate_basis_points);
                    let nq = spec_b2q_new_quote(self@, base_amount);
                    spec_b2q_error(self@, base_amount, estimated_result, allowed_slippage)
                        is None && p.base_liquidity == spec_b2q_new_base(self@, base_amount) + pf
                        && p.quote_liquidity == nq && p.protocol_fees_to_redeem
                        == self@.protocol_base_fees_to_redeem + tf && p.amount_to_withdraw
                        == self@.quote_liquidity - nq && p.is_in_out == true
                },
                Err(e) => spec_b2q_error(self@, base_amount, estimated_result, allowed_slippage)
                    == Some(e),
            },
    {
        match self.check_state() {
            Ok(_) => {},
            Err(e) => {
                return Err(e);
            },
        }
        if base_amount == 0 {
            return Err(ErrorCode::SwapAmountIsZero);
        }
        if estimated_result == 0 {
            return Err(ErrorCode::EstimatedResultIsZero);
        }
        if self.providers_fee_rate_basis_points as u32 + self.protocol_fee_rate_basis_points
            as u32 > 10000 {
            return Err(ErrorCode::ConfigFeeRateExceeded);
        }
        let base_fee_amount: u64 = self.calculate_providers_fee_amount(base_amount);
        let base_protocol_fee_amount: u64 = self.calculate_protocol_fee_amount(base_amount);
        let protocol_fees_to_redeem = match self.protocol_base_fees_to_redeem.checked_add(
            base_protocol_fee_amount,
        ) {
            Some(v) => v,
            None => {
                return Err(ErrorCode::SwapOverflowError);
            },
        };
        proof {
            lemma_fee_amounts_leave_net(
                base_amount,
                self@.providers_fee_rate_basis_points,
                self@.protocol_fee_rate_basis_points,
            );
        }
        let base_amount_after_fees: u64 = base_amount - base_fee_amount - base_protocol_fee_amount;
        if base_amount_after_fees == 0 {
            return Err(ErrorCode::PostfeeSwapAmountIsZero);
        }
        let new_base_liquidity = match self.base_liquidity.checked_add(base_amount_after_fees) {
            Some(v) => v,
            None => {
                return Err(ErrorCode::SwapOverflowError);
            },
        };
        let constant_product: u128 = self.constant_product_sqrt.square_as_u128();
        let opposite: u128 = constant_product / (new_base_liquidity as u128);
        if opposite >= BASE64 {
            return Err(ErrorCode::SwapOverflowError);
        }
        let new_quote_liquidity: u64 = opposite as u64;
        match self.validate_swap_constant_product(new_base_liquidity, new_quote_liquidity) {
            Ok(_) => {},
            Err(e) => {
                return Err(e);
            },
        }
        let quote_delta = match self.quote_liquidity.checked_sub(new_quote_liquidity) {
            Some(v) => v,
            None => {
                return Err(ErrorCode::SwapOverflowError);
            },
        };
        match self.check_swap_result(quote_delta, estimated_result, allowed_slippage) {
            Ok(_) => {},
            Err(e) => {
                return Err(e);
            },
        }
        let final_base_liquidity = match new_base_liquidity.checked_add(base_fee_amount) {
            Some(v) => v,
            None => {
                return Err(ErrorCode::SwapOverflowError);
            },
        };
        Ok(
            SwapPayload {
                base_liquidity: final_base_liquidity,
                quote_liquidity: new_quote_liquidity,
                protocol_fees_to_redeem,
                amount_to_withdraw: quote_delta,
                is_in_out: true,
            },
        )
    }

    /// The payload that swaps quote tokens in for base tokens out, or the
    /// first error in the way; the mirror image of the base-to-quote swap.
    pub fn get_quote_to_base_swap_payload(&self, quote_amount: u64, estimated_result: u64, allowed_slippage: u64) -> (r: Result<SwapPayload, ErrorCode>)
        ensures
            match r {
                Ok(p) => {
                    let pf = spec_fee_amount(quote_amount, self@.providers_fee_rate_basis_points);
                    let tf = spec_fee_amount(quote_amount, self@.protocol_fee_rate_basis_points);
                    let nb = spec_q2b_new_base(self@, quote_amount);
                    spec_q2b_error(self@, quote_amount, estimated_result, allowed_slippage)
                        is None && p.quote_liquidity == spec_q2b_new_quote(self@, quote_amount)
                        + pf && p.base_liquidity == nb && p.protocol_fees_to_redeem
                        == self@.protocol_quote_fees_to_redeem + tf && p.amount_to_withdraw
                        == self@.base_liquidity - nb && p.is_in_out == false
                },
                Err(e) => spec_q2b_error(self@, quote_amount, estimated_result, allowed_slippage)
                    == Some(e),
            },
    {
        match self.check_state() {
            Ok(_) => {},
            Err(e) => {
                return Err(e);
            },
        }
        if quote_amount == 0 {
            return Err(ErrorCode::SwapAmountIsZero);
        }
        if estimated_result == 0 {
            return Err(ErrorCode::EstimatedResultIsZero);
        }
        if self.providers_fee_rate_basis_points as u32 + self.protocol_fee_rate_basis_points
            as u32 > 10000 {
            return Err(ErrorCode::ConfigFeeRateExceeded);
        }
        let quote_fee_amount: u64 = self.calculate_providers_fee_amount(quote_amount);
        let quote_protocol_fee_amount: u64 = self.calculate_protocol_fee_amount(quote_amount);
        let protocol_fees_to_redeem = match self.protocol_quote_fees_to_redeem.checked_add(
            quote_protocol_fee_amount,
        ) {
            Some(v) => v,
            None => {
                return Err(ErrorCode::SwapOverflowError);
            },
        };
        proof {
            lemma_fee_amounts_leave_net(
                quote_amount,
                self@.providers_fee_rate_basis_points,
                self@.protocol_fee_rate_basis_points,
            );
        }
        let quote_amount_after_fees: u64 = quote_amount - quote_fee_amount
            - quote_protocol_fee_amount;
        if quote_amount_after_fees == 0 {
            return Err(ErrorCode::PostfeeSwapAmountIsZero);
        }
        let new_quote_liquidity = match self.quote_liquidity.checked_add(quote_amount_after_fees) {
            Some(v) => v,
            None => {
                return Err(ErrorCode::SwapOverflowError);
            },
        };
        let constant_product: u128 = self.constant_product_sqrt.square_as_u128();
        let opposite: u128 = constant_product / (new_quote_liquidity as u128);
        if opposite >= BASE64 {
            return Err(ErrorCode::SwapOverflowError);
        }
        let new_base_liquidity: u64 = opposite as u64;
        match self.validate_swap_constant_product(new_base_liquidity, new_quote_liquidity) {
            Ok(_) => {},
            Err(e) => {
                return Err(e);
            },
        }
        let base_delta = match self.base_liquidity.checked_sub(new_base_liquidity) {
            Some(v) => v,
            None => {
                return Err(ErrorCode::SwapOverflowError);
            },
        };
        match self.check_swap_result(base_delta, estimated_result, allowed_slippage) {
            Ok(_) => {},
            Err(e) => {
                return Err(e);
            },
        }
        let final_quote_liquidity = match new_quote_liquidity.checked_add(quote_fee_amount) {
            Some(v) => v,
            None => {
                return Err(ErrorCode::SwapOverflowError);
            },
        };
        Ok(
            SwapPayload {
                base_liquidity: new_base_liquidity,
                quote_liquidity: final_quote_liquidity,
                protocol_fees_to_redeem,
                amount_to_withdraw: base_delta,
                is_in_out: false,
            },
        )
    }
}

/// A fee at a rate of at most one hundred percent never exceeds the amount
/// it is taken from.
proof fn lemma_fee_amount_bounds(amount: u64, rate: u16)
    requires
        rate <= 10000,
    ensures
        0 <= (amount * rate) / 10000 <= amount,
{
    assert(0 <= amount * rate <= amount * 10000) by (nonlinear_arith)
        requires
            0 <= rate <= 10000,
            0 <= amount,
    ;
    lemma_div_is_ordered(amount * rate, amount * 10000, 10000);
    lemma_div_by_multiple(amount as int, 10000);
}

/// Two fees whose rates sum to at most one hundred percent leave a
/// non-negative net amount: the gross amount splits exactly into the two
/// fees and the net.
pub proof fn lemma_fee_amounts_leave_net(amount: u64, providers_rate: u16, protocol_rate: u16)
    requires
        providers_rate + protocol_rate <= 10000,
    ensures
        0 <= spec_fee_amount(amount, providers_rate),
        0 <= spec_fee_amount(amount, protocol_rate),
        spec_fee_amount(amount, providers_rate) + spec_fee_amount(amount, protocol_rate)
            <= amount,
        amount == (amount - spec_fee_amount(amount, providers_rate) - spec_fee_amount(
            amount,
            protocol_rate,
        )) + spec_fee_amount(amount, providers_rate) + spec_fee_amount(amount, protocol_rate),
{
    lemma_fee_amount_bounds(amount, providers_rate);
    lemma_fee_amount_bounds(amount, protocol_rate);
    let u = amount * providers_rate;
    let v = amount * protocol_rate;
    lemma_fundamental_div_mod(u, 10000);
    lemma_fundamental_div_mod(v, 10000);
    assert(u + v <= amount * 10000) by (nonlinear_arith)
        requires
            u == amount * providers_rate,
            v == amount * protocol_rate,
            providers_rate + protocol_rate <= 10000,
            0 <= amount,
    ;
    assert((u / 10000 + v / 10000) * 10000 <= u + v) by (nonlinear_arith)
        requires
            u == 10000 * (u / 10000) + u % 10000,
            v == 10000 * (v / 10000) + v % 10000,
            0 <= u % 10000,
            0 <= v % 10000,
    ;
    lemma_div_is_ordered((u / 10000 + v / 10000) * 10000, amount * 10000, 10000);
    lemma_div_by_multiple(u / 10000 + v / 10000, 10000);
    lemma_div_by_multiple(amount as int, 10000);
}

/// Why a fee collection would be refused: both accumulators are empty.
pub open spec fn spec_collect_fees_error(pool: PoolView) -> Option<ErrorCode> {
    if pool.protocol_base_fees_to_redeem == 0 && pool.protocol_quote_fees_to_redeem == 0 {
        Some(ErrorCode::ProvidersFeesIsZero)
    } else {
        None
    }
}

/// Collecting fees is not repeatable: applying a collect-fees payload
/// leaves both accumulators empty, so a second collection without an
/// intervening swap is refused.
pub proof fn lemma_collect_fees_idempotent(pool: PoolView)
    ensures
        spec_collect_fees_error(
            PoolView {
                protocol_base_fees_to_redeem: 0u64,
                protocol_quote_fees_to_redeem: 0u64,
                ..pool
            },
        ) == Some(ErrorCode::ProvidersFeesIsZero),
{
}

/// A successful provide keeps the pool's invariants: the new reserve ratio
/// stays within tolerance of the cached one, and the constant-product cache
/// written by the payload is exactly the one recomputed from the payload's
/// reserves, so its drift is zero.
pub proof fn lemma_provide_preserves_invariant(pool: PoolView, base_in: u64, quote_in: u64)
    requires
        spec_provide_error(pool, base_in, quote_in) is None,
    ensures
        ({
            let nb = (pool.base_liquidity + base_in) as u64;
            let nq = (pool.quote_liquidity + quote_in) as u64;
            within_tolerance(
                pool.base_quote_ratio_sqrt,
                ratio_sqrt_raw(nb as int, nq as int),
                ADJUST_LIQUIDITY_RATIO_TOLERANCE,
            ) && within_tolerance(
                cp_sqrt_raw(nb as int, nq as int),
                cp_sqrt_raw(nb as int, nq as int),
                SWAP_CONSTANT_PRODUCT_TOLERANCE,
            )
        }),
{
    let nb = (pool.base_liquidity + base_in) as u64;
    let nq = (pool.quote_liquidity + quote_in) as u64;
    lemma_cp_sqrt_raw_nonneg(nb as int, nq as int);
    lemma_zero_drift_within_tolerance(
        cp_sqrt_raw(nb as int, nq as int),
        SWAP_CONSTANT_PRODUCT_TOLERANCE,
    );
    lemma_cp_sqrt_raw_nonneg(nb as int, nq as int);
}

/// A successful withdraw keeps the pool's invariants: the new reserve ratio
/// stays within tolerance of the cached one, and the constant-product cache
/// is recomputed from the new reserves on apply, so its drift is zero.
pub proof fn lemma_withdraw_preserves_invariant(pool: PoolView, lp_tokens: u64)
    requires
        spec_withdraw_error(pool, lp_tokens) is None,
    ensures
        ({
            let nb = (pool.base_liquidity - spec_withdraw_base_out(pool, lp_tokens)) as u64;
            let nq = (pool.quote_liquidity - spec_withdraw_quote_out(pool, lp_tokens)) as u64;
            within_tolerance(
                pool.base_quote_ratio_sqrt,
                ratio_sqrt_raw(nb as int, nq as int),
                ADJUST_LIQUIDITY_RATIO_TOLERANCE,
            ) && within_tolerance(
                cp_sqrt_raw(nb as int, nq as int),
                cp_sqrt_raw(nb as int, nq as int),
                SWAP_CONSTANT_PRODUCT_TOLERANCE,
            )
        }),
{
    let nb = (pool.base_liquidity - spec_withdraw_base_out(pool, lp_tokens)) as u64;
    let nq = (pool.quote_liquidity - spec_withdraw_quote_out(pool, lp_tokens)) as u64;
    lemma_cp_sqrt_raw_nonneg(nb as int, nq as int);
    lemma_zero_drift_within_tolerance(
        cp_sqrt_raw(nb as int, nq as int),
        SWAP_CONSTANT_PRODUCT_TOLERANCE,
    );
    lemma_cp_sqrt_raw_nonneg(nb as int, nq as int);
}

/// A successful base-to-quote swap keeps the constant product: the value
/// recomputed from the pre-fee reserves stays within tolerance of the
/// cached one.
pub proof fn lemma_b2q_swap_preserves_constant_product(
    pool: PoolView,
    amount: u64,
    estimated_result: u64,
    allowed_slippage: u64,
)
    requires
        spec_b2q_error(pool, amount, estimated_result, allowed_slippage) is None,
    ensures
        within_tolerance(
            pool.constant_product_sqrt,
            cp_sqrt_raw(spec_b2q_new_base(pool, amount), spec_b2q_new_quote(pool, amount)),
            SWAP_CONSTANT_PRODUCT_TOLERANCE,
        ),
{
    lemma_fee_amounts_leave_net(
        amount,
        pool.providers_fee_rate_basis_points,
        pool.protocol_fee_rate_basis_points,
    );
    let nb = spec_b2q_new_base(pool, amount);
    let nq = spec_b2q_new_quote(pool, amount);
    lemma_spec_square_as_u128_nonneg(pool.constant_product_sqrt);
    assert(0 <= nq) by {
        lemma_div_is_ordered(0, spec_square_as_u128(pool.constant_product_sqrt), nb);
    }
    assert((nb as u64) as int == nb);
    assert((nq as u64) as int == nq);
    assert(spec_validate_cp_error(pool.constant_product_sqrt, nb as u64, nq as u64) is None);
}

/// A successful quote-to-base swap keeps the constant product: the value
/// recomputed from the pre-fee reserves stays within tolerance of the
/// cached one.
pub proof fn lemma_q2b_swap_preserves_constant_product(
    pool: PoolView,
    amount: u64,
    estimated_result: u64,
    allowed_slippage: u64,
)
    requires
        spec_q2b_error(pool, amount, estimated_result, allowed_slippage) is None,
    ensures
        within_tolerance(
            pool.constant_product_sqrt,
            cp_sqrt_raw(spec_q2b_new_base(pool, amount), spec_q2b_new_quote(pool, amount)),
            SWAP_CONSTANT_PRODUCT_TOLERANCE,
        ),
{
    lemma_fee_amounts_leave_net(
        amount,
        pool.providers_fee_rate_basis_points,
        pool.protocol_fee_rate_basis_points,
    );
    let nq = spec_q2b_new_quote(pool, amount);
    let nb = spec_q2b_new_base(pool, amount);
    lemma_spec_square_as_u128_nonneg(pool.constant_product_sqrt);
    assert(0 <= nb) by {
        lemma_div_is_ordered(0, spec_square_as_u128(pool.constant_product_sqrt), nq);
    }
    assert((nb as u64) as int == nb);
    assert((nq as u64) as int == nq);
    assert(spec_validate_cp_error(pool.constant_product_sqrt, nb as u64, nq as u64) is None);
}

/// A value never drifts from itself: the allowed band is non-negative.
proof fn lemma_zero_drift_within_tolerance(value: int, tolerance: u128)
    requires
        0 <= value,
    ensures
        within_tolerance(value, value, tolerance),
{
    assert(0 <= value * tolerance) by (nonlinear_arith)
        requires
            0 <= value,
            0 <= tolerance,
    ;
    lemma_div_is_ordered(0, value * tolerance, pow2_64());
}

/// The square root of a reserve product is non-negative.
proof fn lemma_cp_sqrt_raw_nonneg(base: int, quote: int)
    requires
        0 <= base,
        0 <= quote,
    ensures
        0 <= cp_sqrt_raw(base, quote),
{
    assert(0 <= base * quote * pow2_128()) by (nonlinear_arith)
        requires
            0 <= base,
            0 <= quote,
    ;
    crate::u256::lemma_sqrt_floor(base * quote * pow2_128());
}

/// The invariant of a launched pool: both reserves and the supply are
/// positive, and each cached square root lies within its tolerance of the
/// value recomputed from the reserves.
pub open spec fn pool_well_formed(pool: PoolView) -> bool {
    pool.is_launched ==> {
        &&& pool.base_liquidity > 0
        &&& pool.quote_liquidity > 0
        &&& pool.lp_tokens_supply > 0
        &&& within_tolerance(
            pool.constant_product_sqrt,
            cp_sqrt_raw(pool.base_liquidity as int, pool.quote_liquidity as int),
            SWAP_CONSTANT_PRODUCT_TOLERANCE,
        )
        &&& within_tolerance(
            pool.base_quote_ratio_sqrt,
            ratio_sqrt_raw(pool.base_liquidity as int, pool.quote_liquidity as int),
            ADJUST_LIQUIDITY_RATIO_TOLERANCE,
        )
    }
}

/// Applying a successful launch payload leaves a well-formed pool: its
/// caches are the exact square roots of its first reserves, and its supply
/// covers the locked seed four times over.
pub proof fn lemma_launch_establishes_well_formed(
    pool: PoolView,
    base_liquidity: u64,
    quote_liquidity: u64,
)
    requires
        spec_launch_error(pool, base_liquidity, quote_liquidity) is None,
    ensures
        pool_well_formed(
            PoolView {
                is_launched: true,
                base_liquidity,
                quote_liquidity,
                initial_locked_liquidity: INITIAL_LOCKED_LP_TOKENS,
                lp_tokens_supply: spec_launch_lp_supply(base_liquidity, quote_liquidity) as u64,
                constant_product_sqrt: cp_sqrt_raw(base_liquidity as int, quote_liquidity as int),
                base_quote_ratio_sqrt: ratio_sqrt_raw(
                    base_liquidity as int,
                    quote_liquidity as int,
                ),
                ..pool
            },
        ),
{
    lemma_cp_sqrt_raw_nonneg(base_liquidity as int, quote_liquidity as int);
    lemma_zero_drift_within_tolerance(
        cp_sqrt_raw(base_liquidity as int, quote_liquidity as int),
        SWAP_CONSTANT_PRODUCT_TOLERANCE,
    );
    lemma_ratio_sqrt_raw_positive(base_liquidity, quote_liquidity);
    lemma_zero_drift_within_tolerance(
        ratio_sqrt_raw(base_liquidity as int, quote_liquidity as int),
        ADJUST_LIQUIDITY_RATIO_TOLERANCE,
    );
    // The created supply fits in 64 bits: the root of the reserve product
    // stays below two to the 128th.
    let s = cp_sqrt_raw(base_liquidity as int, quote_liquidity as int);
    assert(0 <= base_liquidity as int * quote_liquidity * pow2_128()) by (nonlinear_arith);
    crate::u256::lemma_sqrt_floor(base_liquidity as int * quote_liquidity * pow2_128());
    assert(s < pow2_128()) by (nonlinear_arith)
        requires
            0 <= s,
            s * s <= base_liquidity as int * quote_liquidity * pow2_128(),
            base_liquidity < pow2_64(),
            quote_liquidity < pow2_64(),
            pow2_128() == pow2_64() * pow2_64(),
    ;
    assert(s / pow2_64() < pow2_64()) by {
        lemma_div_is_ordered(s, pow2_128() - 1, pow2_64());
        lemma_fundamental_div_mod_converse(
            pow2_128() - 1,
            pow2_64(),
            pow2_64() - 1,
            pow2_64() - 1,
        );
    }
    assert(0 <= s / pow2_64()) by {
        lemma_div_is_ordered(0, s, pow2_64());
    }
}

/// Applying a successful provide payload preserves well-formedness: the
/// written caches are the exact square roots of the grown reserves.
pub proof fn lemma_provide_apply_preserves_well_formed(
    pool: PoolView,
    base_in: u64,
    quote_in: u64,
)
    requires
        0 <= pool.constant_product_sqrt,
        spec_provide_error(pool, base_in, quote_in) is None,
    ensures
        ({
            let nb = (pool.base_liquidity + base_in) as u64;
            let nq = (pool.quote_liquidity + quote_in) as u64;
            pool_well_formed(
                PoolView {
                    base_liquidity: nb,
                    quote_liquidity: nq,
                    lp_tokens_supply: (pool.lp_tokens_supply + spec_provide_mint(
                        pool,
                        nb as int,
                        nq as int,
                    )) as u64,
                    constant_product_sqrt: cp_sqrt_raw(nb as int, nq as int),
                    base_quote_ratio_sqrt: ratio_sqrt_raw(nb as int, nq as int),
                    ..pool
                },
            )
        }),
{
    let nb = (pool.base_liquidity + base_in) as u64;
    let nq = (pool.quote_liquidity + quote_in) as u64;
    lemma_cp_sqrt_raw_nonneg(nb as int, nq as int);
    lemma_zero_drift_within_tolerance(
        cp_sqrt_raw(nb as int, nq as int),
        SWAP_CONSTANT_PRODUCT_TOLERANCE,
    );
    lemma_ratio_sqrt_raw_positive(nb, nq);
    lemma_zero_drift_within_tolerance(
        ratio_sqrt_raw(nb as int, nq as int),
        ADJUST_LIQUIDITY_RATIO_TOLERANCE,
    );
    // The minted amount is positive and keeps the supply within range.
    let provided = cp_sqrt_raw(nb as int, nq as int) - pool.constant_product_sqrt;
    let share = (provided * pow2_64()) / pool.constant_product_sqrt;
    assert(pool.constant_product_sqrt > 0);
    assert(0 <= provided * pow2_64()) by (nonlinear_arith)
        requires
            0 <= provided,
    ;
    assert(0 <= share) by {
        lemma_div_is_ordered(0, provided * pow2_64(), pool.constant_product_sqrt);
    }
    assert(0 <= share * pool.lp_tokens_supply) by (nonlinear_arith)
        requires
            0 <= share,
    ;
    assert(0 <= spec_provide_mint(pool, nb as int, nq as int)) by {
        lemma_div_is_ordered(0, share * pool.lp_tokens_supply, pow2_64());
    }
}

/// Applying a successful withdraw payload preserves well-formedness: the
/// constant-product cache is recomputed on apply and the ratio cache is the
/// exact square root of the shrunken reserves, which the validation kept
/// positive.
pub proof fn lemma_withdraw_apply_preserves_well_formed(pool: PoolView, lp_tokens: u64)
    requires
        spec_withdraw_error(pool, lp_tokens) is None,
    ensures
        ({
            let nb = (pool.base_liquidity - spec_withdraw_base_out(pool, lp_tokens)) as u64;
            let nq = (pool.quote_liquidity - spec_withdraw_quote_out(pool, lp_tokens)) as u64;
            pool_well_formed(
                PoolView {
                    base_liquidity: nb,
                    quote_liquidity: nq,
                    lp_tokens_supply: (pool.lp_tokens_supply - lp_tokens) as u64,
                    constant_product_sqrt: cp_sqrt_raw(nb as int, nq as int),
                    base_quote_ratio_sqrt: ratio_sqrt_raw(nb as int, nq as int),
                    ..pool
                },
            )
        }),
{
    let nb = (pool.base_liquidity - spec_withdraw_base_out(pool, lp_tokens)) as u64;
    let nq = (pool.quote_liquidity - spec_withdraw_quote_out(pool, lp_tokens)) as u64;
    lemma_cp_sqrt_raw_nonneg(nb as int, nq as int);
    lemma_zero_drift_within_tolerance(
        cp_sqrt_raw(nb as int, nq as int),
        SWAP_CONSTANT_PRODUCT_TOLERANCE,
    );
    lemma_ratio_sqrt_raw_positive(nb, nq);
    lemma_zero_drift_within_tolerance(
        ratio_sqrt_raw(nb as int, nq as int),
        ADJUST_LIQUIDITY_RATIO_TOLERANCE,
    );
}

/// Applying a successful base-to-quote swap payload preserves
/// well-formedness: both caches are recomputed from the post-fee reserves
/// on apply, the paid-in reserve only grows, and the paid-out reserve stays
/// positive.
pub proof fn lemma_b2q_apply_preserves_well_formed(
    pool: PoolView,
    amount: u64,
    estimated_result: u64,
    allowed_slippage: u64,
)
    requires
        spec_state_error(pool) is None,
        spec_b2q_error(pool, amount, estimated_result, allowed_slippage) is None,
    ensures
        ({
            let fb = (spec_b2q_new_base(pool, amount) + spec_fee_amount(
                amount,
                pool.providers_fee_rate_basis_points,
            )) as u64;
            let nq = spec_b2q_new_quote(pool, amount) as u64;
            pool_well_formed(
                PoolView {
                    base_liquidity: fb,
                    quote_liquidity: nq,
                    protocol_base_fees_to_redeem: (pool.protocol_base_fees_to_redeem
                        + spec_fee_amount(amount, pool.protocol_fee_rate_basis_points)) as u64,
                    constant_product_sqrt: cp_sqrt_raw(fb as int, nq as int),
                    base_quote_ratio_sqrt: ratio_sqrt_raw(fb as int, nq as int),
                    ..pool
                },
            )
        }),
{
    lemma_fee_amounts_leave_net(
        amount,
        pool.providers_fee_rate_basis_points,
        pool.protocol_fee_rate_basis_points,
    );
    let fb = (spec_b2q_new_base(pool, amount) + spec_fee_amount(
        amount,
        pool.providers_fee_rate_basis_points,
    )) as u64;
    let nq = spec_b2q_new_quote(pool, amount) as u64;
    lemma_spec_square_as_u128_nonneg(pool.constant_product_sqrt);
    assert(0 <= spec_b2q_new_quote(pool, amount)) by {
        lemma_div_is_ordered(
            0,
            spec_square_as_u128(pool.constant_product_sqrt),
            spec_b2q_new_base(pool, amount),
        );
    }
    lemma_cp_sqrt_raw_nonneg(fb as int, nq as int);
    lemma_zero_drift_within_tolerance(
        cp_sqrt_raw(fb as int, nq as int),
        SWAP_CONSTANT_PRODUCT_TOLERANCE,
    );
    lemma_ratio_sqrt_raw_positive(fb, nq);
    lemma_zero_drift_within_tolerance(
        ratio_sqrt_raw(fb as int, nq as int),
        ADJUST_LIQUIDITY_RATIO_TOLERANCE,
    );
}

/// Applying a successful quote-to-base swap payload preserves
/// well-formedness; the mirror image of the base-to-quote case.
pub proof fn lemma_q2b_apply_preserves_well_formed(
    pool: PoolView,
    amount: u64,
    estimated_result: u64,
    allowed_slippage: u64,
)
    requires
        spec_state_error(pool) is None,
        spec_q2b_error(pool, amount, estimated_result, allowed_slippage) is None,
    ensures
        ({
            let fq = (spec_q2b_new_quote(pool, amount) + spec_fee_amount(
                amount,
                pool.providers_fee_rate_basis_points,
            )) as u64;
            let nb = spec_q2b_new_base(pool, amount) as u64;
            pool_well_formed(
                PoolView {
                    base_liquidity: nb,
                    quote_liquidity: fq,
                    protocol_quote_fees_to_redeem: (pool.protocol_quote_fees_to_redeem
                        + spec_fee_amount(amount, pool.protocol_fee_rate_basis_points)) as u64,
                    constant_product_sqrt: cp_sqrt_raw(nb as int, fq as int),
                    base_quote_ratio_sqrt: ratio_sqrt_raw(nb as int, fq as int),
                    ..pool
                },
            )
        }),
{
    lemma_fee_amounts_leave_net(
        amount,
        pool.providers_fee_rate_basis_points,
        pool.protocol_fee_rate_basis_points,
    );
    let fq = (spec_q2b_new_quote(pool, amount) + spec_fee_amount(
        amount,
        pool.providers_fee_rate_basis_points,
    )) as u64;
    let nb = spec_q2b_new_base(pool, amount) as u64;
    lemma_spec_square_as_u128_nonneg(pool.constant_product_sqrt);
    assert(0 <= spec_q2b_new_base(pool, amount)) by {
        lemma_div_is_ordered(
            0,
            spec_square_as_u128(pool.constant_product_sqrt),
            spec_q2b_new_quote(pool, amount),
        );
    }
    lemma_cp_sqrt_raw_nonneg(nb as int, fq as int);
    lemma_zero_drift_within_tolerance(
        cp_sqrt_raw(nb as int, fq as int),
        SWAP_CONSTANT_PRODUCT_TOLERANCE,
    );
    lemma_ratio_sqrt_raw_positive(nb, fq);
    lemma_zero_drift_within_tolerance(
        ratio_sqrt_raw(nb as int, fq as int),
        ADJUST_LIQUIDITY_RATIO_TOLERANCE,
    );
}

} // verus!
