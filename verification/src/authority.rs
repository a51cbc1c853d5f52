use vstd::prelude::*;
use vstd::slice::slice_to_vec;
use anchor_lang::prelude::Pubkey;
use anchor_lang::solana_program::pubkey::PubkeyError;
use crate::account::AccountId;

verus! {

/// Longest seed that an address derivation accepts, in bytes.
pub const MAX_SEED_LEN: usize = 32;

/// Largest number of seeds that an address derivation accepts.
pub const MAX_SEEDS: usize = 16;

/// Why an address derivation yields no address.
#[derive(Clone, Copy, Debug, PartialEq, Eq, Structural)]
pub enum DerivationError {
    /// There are too many seeds, or one of them is too long.
    MaxSeedLengthExceeded,
    /// The seeds hash to a point on the curve, which no program may sign for.
    InvalidSeeds,
    /// The owner is not allowed.
    IllegalOwner,
}

/// The address that `Pubkey::create_program_address` derives for a program from a list of
/// seeds within the length limits, or `None` where those seeds give no valid address.
pub uninterp spec fn program_address(seeds: Seq<Seq<u8>>, program_id: Seq<u8>) -> Option<Seq<u8>>;

/// A list of seeds as a sequence of byte sequences.
pub open spec fn seeds_view(seeds: Vec<Vec<u8>>) -> Seq<Seq<u8>> {
    Seq::new(seeds@.len(), |i: int| seeds@[i]@)
}

/// There are more seeds than a derivation accepts, or one is longer than it accepts.
pub open spec fn seeds_exceed_limits(seeds: Seq<Seq<u8>>) -> bool {
    seeds.len() > MAX_SEEDS || exists|i: int| 0 <= i < seeds.len() && (#[trigger] seeds[i]).len() > MAX_SEED_LEN
}

/// The bytes of the address that a derivation gave, if it gave one.
pub open spec fn address_bytes(r: Result<AccountId, DerivationError>) -> Option<Seq<u8>> {
    match r {
        Ok(id) => Some(id.bytes@),
        Err(_) => None,
    }
}

/// Calls `Pubkey::create_program_address` of solana-program on the seeds and the program's
/// identifier.
///
/// Trusted: with more than 16 seeds, or a seed of more than 32 bytes, the call fails with
/// `MaxSeedLengthExceeded`. Otherwise its outcome is a function of the seeds and the program
/// identifier alone, named `program_address`: the 32 bytes of the derived address, or
/// `InvalidSeeds` where there is none.
#[verifier::external_body]
fn create_program_address(seeds: &Vec<Vec<u8>>, program_id: &AccountId) -> (r: Result<
    AccountId,
    DerivationError,
>)
    ensures
        seeds_exceed_limits(seeds_view(*seeds)) ==> r is Err && r->Err_0
            == DerivationError::MaxSeedLengthExceeded,
        !seeds_exceed_limits(seeds_view(*seeds)) ==> address_bytes(r) == program_address(
            seeds_view(*seeds),
            program_id.bytes@,
        ),
        !seeds_exceed_limits(seeds_view(*seeds)) && r is Err ==> r->Err_0
            == DerivationError::InvalidSeeds,
{
    let parts: Vec<&[u8]> = seeds.iter().map(|s| s.as_slice()).collect();
    match Pubkey::create_program_address(&parts, &Pubkey::new_from_array(program_id.bytes)) {
        Ok(key) => Ok(AccountId { bytes: key.to_bytes() }),
        Err(PubkeyError::MaxSeedLengthExceeded) => Err(DerivationError::MaxSeedLengthExceeded),
        Err(PubkeyError::InvalidSeeds) => Err(DerivationError::InvalidSeeds),
        Err(PubkeyError::IllegalOwner) => Err(DerivationError::IllegalOwner),
    }
}

/// The seeds that stand for one sub-account: the purpose tag, the identifier of the record that
/// owns the sub-account, and the nonce as a single byte.
pub open spec fn authority_seeds(purpose_tag: Seq<u8>, owner: AccountId, nonce: u8) -> Seq<Seq<u8>> {
    seq![purpose_tag, owner.bytes@, seq![nonce]]
}

/// The outcome of deriving the sub-account of `owner` under `purpose_tag` with `nonce`, for the
/// program `program_id`: the bytes of the sub-account's identifier, or why there is none.
pub open spec fn derive_spec(
    program_id: AccountId,
    purpose_tag: Seq<u8>,
    owner: AccountId,
    nonce: u8,
) -> Result<Seq<u8>, DerivationError> {
    if purpose_tag.len() > MAX_SEED_LEN {
        Err(DerivationError::MaxSeedLengthExceeded)
    } else {
        match program_address(authority_seeds(purpose_tag, owner, nonce), program_id.bytes@) {
            Some(bytes) => Ok(bytes),
            None => Err(DerivationError::InvalidSeeds),
        }
    }
}

/// Builds the signing proof of a sub-account: the seeds from which its identifier derives.
pub fn signer_seeds(purpose_tag: &[u8], owner: &AccountId, nonce: u8) -> (seeds: Vec<Vec<u8>>)
    ensures
        seeds_view(seeds) == authority_seeds(purpose_tag@, *owner, nonce),
{
    let mut seeds: Vec<Vec<u8>> = Vec::new();
    seeds.push(slice_to_vec(purpose_tag));
    seeds.push(slice_to_vec(owner.bytes.as_slice()));
    let mut last: Vec<u8> = Vec::new();
    last.push(nonce);
    seeds.push(last);
    proof {
        assert(seeds@[2]@ =~= seq![nonce]);
        assert(seeds_view(seeds) =~= authority_seeds(purpose_tag@, *owner, nonce));
    }
    seeds
}

/// Derives the program-controlled sub-account of `owner` under `purpose_tag` and `nonce`.
///
/// Returns the sub-account's identifier together with its signing proof, the seeds that
/// reproduce it. The same four inputs always give the same outcome.
pub fn derive(program_id: &AccountId, purpose_tag: &[u8], owner: &AccountId, nonce: u8) -> (r:
    Result<(AccountId, Vec<Vec<u8>>), DerivationError>)
    ensures
        match r {
            Ok((id, proof)) => {
                &&& derive_spec(*program_id, purpose_tag@, *owner, nonce) == Ok::<
                    Seq<u8>,
                    DerivationError,
                >(id.bytes@)
                &&& seeds_view(proof) == authority_seeds(purpose_tag@, *owner, nonce)
            },
            Err(e) => derive_spec(*program_id, purpose_tag@, *owner, nonce) == Err::<
                Seq<u8>,
                DerivationError,
            >(e),
        },
{
    let seeds = signer_seeds(purpose_tag, owner, nonce);
    let ghost all = authority_seeds(purpose_tag@, *owner, nonce);
    proof {
        assert(all[0] == purpose_tag@);
        assert(all[1].len() == 32);
        assert(all[2].len() == 1);
        if purpose_tag@.len() <= MAX_SEED_LEN {
            assert forall|i: int| 0 <= i < all.len() implies (#[trigger] all[i]).len()
                <= MAX_SEED_LEN by {}
        }
    }
    match create_program_address(&seeds, program_id) {
        Ok(id) => Ok((id, seeds)),
        Err(e) => Err(e),
    }
}

} // verus!
