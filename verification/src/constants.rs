use vstd::prelude::*;

verus! {

/// Process-wide immutable configuration of the exchange program.
pub struct LibConstant {}

impl LibConstant {
    /// Fixed conversion rate between native-currency units and token units:
    /// one native unit buys `TRANSFER_RATE` token units.
    pub const TRANSFER_RATE: u64 = 10;

    /// Size in bytes of the persisted vault record: three 32-byte addresses.
    pub const TOKEN_TRANSFER_ACCOUNT_LEN: usize = 32 * 3;
}

} // verus!
