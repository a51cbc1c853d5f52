use vstd::prelude::*;

verus! {

/// Number of indivisible base units in one display unit, of the native currency and of the
/// custodied token alike.
pub const LAMPORTS_PER_SOL: u64 = 1_000_000_000;

/// The cap on one token withdrawal: requests of this many base units or more are refused.
pub const MAX_WITHDRAW_AMOUNT: u64 = 10_000 * LAMPORTS_PER_SOL;

/// The purpose tag under which a vault's signing authority derives: the bytes of `vault_skt`.
pub const VAULT_SKT_SEED_PREFIX: [u8; 9] = [118, 97, 117, 108, 116, 95, 115, 107, 116];

} // verus!
