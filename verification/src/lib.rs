//! Calculation core of a constant-product automated market maker for a
//! base/quote token pair.
//!
//! The crate is organised leaves first: [`u256`] provides the 256-bit
//! intermediate arithmetic (products, long division, integer square root)
//! that the fixed-point type needs; [`q64_64`] is the Q64.64 fixed-point
//! scalar in which square roots of reserve products and reserve ratios are
//! stored; [`account`] holds the opaque identities of the surrounding
//! accounts; [`amms_config`] holds the fee configuration; [`error`] the
//! typed errors; and [`cp_amm`] is the pool record together with the
//! calculation engine that produces operation payloads and the state
//! machine that applies them.

pub mod account;
pub mod amms_config;
pub mod cp_amm;
pub mod error;
pub mod q64_64;
pub mod u256;
