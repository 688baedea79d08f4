//! Decoding of the creation parameter.
//!
//! The parameter is a fixed-layout record: one byte holding `factor`,
//! followed by the cap `max_giveaway` as a 64-bit little-endian integer in
//! the smallest currency unit.  Decoding reads the first nine bytes of the
//! parameter and fails exactly when fewer are present; trailing bytes are
//! ignored, as the host runtime's own decoder would.

use vstd::prelude::*;

use crate::types::Config;

verus! {

/// The unsigned integer held by the eight little-endian bytes of `b`
/// starting at index `i`.
pub open spec fn le_u64_at(b: Seq<u8>, i: int) -> int
    recommends
        0 <= i,
        i + 8 <= b.len(),
{
    b[i] + b[i + 1] * 0x100 + b[i + 2] * 0x1_0000 + b[i + 3] * 0x100_0000 + b[i + 4]
        * 0x1_0000_0000 + b[i + 5] * 0x100_0000_0000 + b[i + 6] * 0x1_0000_0000_0000 + b[i + 7]
        * 0x100_0000_0000_0000
}

/// What a parameter byte string decodes to, if anything.
pub open spec fn spec_parse_config(b: Seq<u8>) -> Option<Config> {
    if b.len() < 9 {
        None
    } else {
        Some(Config { factor: b[0], max_giveaway: le_u64_at(b, 1) as u64 })
    }
}

/// Decodes a `Config` from the start of `param`; returns `None` exactly
/// when `param` is shorter than the nine-byte layout.
pub fn parse_config(param: &[u8]) -> (r: Option<Config>)
    ensures
        r == spec_parse_config(param@),
{
    if param.len() < 9 {
        return None;
    }
    let factor = param[0];
    let max_giveaway: u64 = (param[1] as u64) + (param[2] as u64) * 0x100 + (param[3] as u64)
        * 0x1_0000 + (param[4] as u64) * 0x100_0000 + (param[5] as u64) * 0x1_0000_0000 + (
    param[6] as u64) * 0x100_0000_0000 + (param[7] as u64) * 0x1_0000_0000_0000 + (
    param[8] as u64) * 0x100_0000_0000_0000;
    proof {
        assert(max_giveaway == le_u64_at(param@, 1));
    }
    Some(Config { factor, max_giveaway })
}

} // verus!
