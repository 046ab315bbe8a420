//! The fee configuration a pool is created against.
//!
//! A configuration carries a provider fee rate and a protocol fee rate in
//! basis points; their sum may never exceed 10000 (one hundred percent).
//! Pools snapshot these rates when they are initialized.

use vstd::prelude::*;

verus! {

use crate::account::AccountId;
use crate::error::ErrorCode;

/// The highest admissible sum of fee rates: 10000 basis points, one hundred
/// percent.
pub const FEE_MAX_BASIS_POINTS: u16 = 10000;

/// A fee configuration record.
#[derive(Clone, Copy, Debug, PartialEq)]
pub struct AmmsConfig {
    /// An address-derivation byte carried alongside the record.
    pub bump: u8,
    /// The configuration's number in its registry.
    pub id: u64,
    /// Who may redeem accrued protocol fees.
    pub fee_authority: AccountId,
    /// The liquidity providers' fee rate, in basis points.
    pub providers_fee_rate_basis_points: u16,
    /// The protocol's fee rate, in basis points.
    pub protocol_fee_rate_basis_points: u16,
}

/// Whether a pair of fee rates is admissible.
pub open spec fn valid_fee_rates(providers: u16, protocol: u16) -> bool {
    providers + protocol <= FEE_MAX_BASIS_POINTS
}

impl AmmsConfig {
    /// A configuration with everything zero, to be initialized in place.
    pub fn unset() -> (r: AmmsConfig)
        ensures
            r.bump == 0,
            r.id == 0,
            forall|i: int| 0 <= i < 32 ==> r.fee_authority.bytes[i] == 0,
            r.providers_fee_rate_basis_points == 0,
            r.protocol_fee_rate_basis_points == 0,
    {
        AmmsConfig {
            bump: 0,
            id: 0,
            fee_authority: AccountId::unset(),
            providers_fee_rate_basis_points: 0,
            protocol_fee_rate_basis_points: 0,
        }
    }

    /// Fills the record, after checking that the fee rates sum to at most
    /// one hundred percent.
    pub fn initialize(
        &mut self,
        fee_authority: AccountId,
        protocol_fee_rate_basis_points: u16,
        providers_fee_rate_basis_points: u16,
        id: u64,
        bump: u8,
    ) -> (r: Result<(), ErrorCode>)
        ensures
            valid_fee_rates(providers_fee_rate_basis_points, protocol_fee_rate_basis_points) ==> r
                is Ok && *final(self) == (AmmsConfig {
                bump,
                id,
                fee_authority,
                providers_fee_rate_basis_points,
                protocol_fee_rate_basis_points,
            }),
            !valid_fee_rates(providers_fee_rate_basis_points, protocol_fee_rate_basis_points) ==> r
                == Err::<(), ErrorCode>(ErrorCode::ConfigFeeRateExceeded) && *final(self) == *old(
                self,
            ),
    {
        if providers_fee_rate_basis_points as u32 + protocol_fee_rate_basis_points as u32
            > FEE_MAX_BASIS_POINTS as u32 {
            return Err(ErrorCode::ConfigFeeRateExceeded);
        }
        self.bump = bump;
        self.id = id;
        self.protocol_fee_rate_basis_points = protocol_fee_rate_basis_points;
        self.providers_fee_rate_basis_points = providers_fee_rate_basis_points;
        self.update_fee_authority(fee_authority);
        Ok(())
    }

    /// Points fee redemption at a new authority.
    pub fn update_fee_authority(&mut self, fee_authority: AccountId)
        ensures
            *final(self) == (AmmsConfig { fee_authority, ..*old(self) }),
    {
        self.fee_authority = fee_authority;
    }

    /// Changes the providers' fee rate, keeping the sum of rates admissible.
    pub fn update_providers_fee_rate(&mut self, new_providers_fee_rate_basis_points: u16) -> (r:
        Result<(), ErrorCode>)
        ensures
            valid_fee_rates(
                new_providers_fee_rate_basis_points,
                old(self).protocol_fee_rate_basis_points,
            ) ==> r is Ok && *final(self) == (AmmsConfig {
                providers_fee_rate_basis_points: new_providers_fee_rate_basis_points,
                ..*old(self)
            }),
            !valid_fee_rates(
                new_providers_fee_rate_basis_points,
                old(self).protocol_fee_rate_basis_points,
            ) ==> r == Err::<(), ErrorCode>(ErrorCode::ConfigFeeRateExceeded) && *final(self)
                == *old(self),
    {
        if new_providers_fee_rate_basis_points as u32 + self.protocol_fee_rate_basis_points as u32
            > FEE_MAX_BASIS_POINTS as u32 {
            return Err(ErrorCode::ConfigFeeRateExceeded);
        }
        self.providers_fee_rate_basis_points = new_providers_fee_rate_basis_points;
        Ok(())
    }

    /// Changes the protocol's fee rate, keeping the sum of rates admissible.
    pub fn update_protocol_fee_rate(&mut self, new_protocol_fee_rate_basis_points: u16) -> (r:
        Result<(), ErrorCode>)
        ensures
            valid_fee_rates(
                old(self).providers_fee_rate_basis_points,
                new_protocol_fee_rate_basis_points,
            ) ==> r is Ok && *final(self) == (AmmsConfig {
                protocol_fee_rate_basis_points: new_protocol_fee_rate_basis_points,
                ..*old(self)
            }),
            !valid_fee_rates(
                old(self).providers_fee_rate_basis_points,
                new_protocol_fee_rate_basis_points,
            ) ==> r == Err::<(), ErrorCode>(ErrorCode::ConfigFeeRateExceeded) && *final(self)
                == *old(self),
    {
        if self.providers_fee_rate_basis_points as u32 + new_protocol_fee_rate_basis_points as u32
            > FEE_MAX_BASIS_POINTS as u32 {
            return Err(ErrorCode::ConfigFeeRateExceeded);
        }
        self.protocol_fee_rate_basis_points = new_protocol_fee_rate_basis_points;
        Ok(())
    }

    /// The fee-redemption authority.
    pub fn fee_authority(&self) -> (r: AccountId)
        ensures
            r == self.fee_authority,
    {
        self.fee_authority
    }

    /// The address-derivation byte.
    pub fn bump(&self) -> (r: u8)
        ensures
            r == self.bump,
    {
        self.bump
    }
}

} // verus!
