//! Version-rolling (header version bits a miner may vary) negotiation.

use sv1_api::server_to_client::VersionRollingParams;
use sv1_api::utils::HexU32Be;
use vstd::prelude::*;

verus! {

/// Header-version bits this server lets a miner roll.
pub const SERVER_VERSION_ROLLING_MASK: u32 = 0x1FFFE000;

/// Number of set bits among the lowest `n` bits of `x`.
pub open spec fn ones_below(x: u32, n: nat) -> nat
    decreases n,
{
    if n == 0 {
        0
    } else {
        ones_below(x, (n - 1) as nat) + if (x >> ((n - 1) as u32)) & 1 == 1 {
            1nat
        } else {
            0nat
        }
    }
}

/// Number of set bits of `x`.
pub open spec fn popcount(x: u32) -> nat {
    ones_below(x, 32)
}

/// The mask granted for a requested one: its bits that the server supports.
pub open spec fn negotiated_mask(requested: u32) -> u32 {
    requested & SERVER_VERSION_ROLLING_MASK
}

/// A mask and a minimum bit count agree when the mask has at least that many bits.
pub open spec fn rolling_consistent(mask: u32, min_bits: u32) -> bool {
    min_bits as nat <= popcount(mask)
}

/// The version-rolling parameters granted to a session.
#[derive(Clone, Copy, Debug, PartialEq, Eq, Structural)]
pub struct RollingGrant {
    pub mask: u32,
    pub min_bit_count: u32,
}

/// Why a configure request's version-rolling shape was refused.
#[derive(Clone, Copy, Debug, PartialEq, Eq, Structural)]
pub enum ConfigurationError {
    /// The minimum bit count exceeds the number of bits of the granted mask.
    MinBitCountExceedsMask,
    /// Rolling was asked for, but the granted mask and the minimum bit count
    /// are both zero.
    NothingToRoll,
}

/// What a configure request with these optional fields is answered: the
/// requested mask restricted to the server's bits (no mask counts as 0) and the
/// requested minimum bit count (0 when absent), unless they disagree, or a
/// mask was asked for and both come out zero.
pub open spec fn negotiation(
    requested_mask: Option<u32>,
    requested_min_bits: Option<u32>,
) -> Result<RollingGrant, ConfigurationError> {
    let mask = negotiated_mask(requested_mask.unwrap_or(0));
    let min_bit_count = requested_min_bits.unwrap_or(0);
    if !rolling_consistent(mask, min_bit_count) {
        Err(ConfigurationError::MinBitCountExceedsMask)
    } else if requested_mask is Some && mask == 0 && min_bit_count == 0 {
        Err(ConfigurationError::NothingToRoll)
    } else {
        Ok(RollingGrant { mask, min_bit_count })
    }
}

/// Negotiates version rolling for a configure request.
pub fn negotiate_rolling(requested_mask: Option<u32>, requested_min_bits: Option<u32>) -> (r:
    Result<RollingGrant, ConfigurationError>)
    ensures
        r == negotiation(requested_mask, requested_min_bits),
{
    let requested = match requested_mask {
        Some(m) => m,
        None => 0,
    };
    let min_bits = match requested_min_bits {
        Some(b) => b,
        None => 0,
    };
    let mask = negotiate_mask(requested);
    let (granted, min_bit_count) = rolling_params(mask, min_bits);
    assert(mask & 0x1FFFFFE0u32 == mask) by (bit_vector)
        requires
            mask == requested & 0x1FFFE000u32,
    ;
    if count_ones(granted) < min_bit_count {
        Err(ConfigurationError::MinBitCountExceedsMask)
    } else if requested_mask.is_some() && granted == 0 && min_bit_count == 0 {
        Err(ConfigurationError::NothingToRoll)
    } else {
        Ok(RollingGrant { mask: granted, min_bit_count })
    }
}

/// Restricts a requested mask to the bits the server supports.
pub fn negotiate_mask(requested: u32) -> (r: u32)
    ensures
        r == negotiated_mask(requested),
{
    requested & SERVER_VERSION_ROLLING_MASK
}

/// Counts the set bits of `x`.
pub fn count_ones(x: u32) -> (r: u32)
    ensures
        r as nat == popcount(x),
{
    let mut c: u32 = 0;
    let mut i: u32 = 0;
    while i < 32
        invariant
            i <= 32,
            c <= i,
            c as nat == ones_below(x, i as nat),
        decreases 32 - i,
    {
        if (x >> i) & 1 == 1 {
            c = c + 1;
        }
        i = i + 1;
    }
    c
}

/// Relies on sv1_api's `VersionRollingParams::new`: it keeps the
/// minimum bit count and ands the mask with sv1_api's `VERSION_ROLLING_MASK`
/// (0x1FFFFFE0). The result is handed back as (mask, min bit count).
#[verifier::external_body]
fn rolling_params(mask: u32, min_bits: u32) -> (r: (u32, u32))
    ensures
        r.0 == mask & 0x1FFFFFE0u32,
        r.1 == min_bits,
{
    let p = VersionRollingParams::new(HexU32Be(mask), HexU32Be(min_bits));
    (p.version_rolling_mask.0, p.version_rolling_min_bit_count.0)
}

} // verus!
