use crate::error::FundErrorCode;
use crate::key::Key;
use solana_program::pubkey::{Pubkey, PubkeyError};
use vstd::prelude::*;

verus! {

#[verifier::external_type_specification]
#[verifier::external_body]
pub struct ExPubkeyError(PubkeyError);

/// The address that the host derives for `program` from `seeds`, or none where
/// the seeds are rejected or the hash lands on the curve.
pub uninterp spec fn program_address_of(seeds: Seq<Seq<u8>>, program: Seq<u8>) -> Option<Seq<u8>>;

/// Relies on solana_program's `Pubkey::create_program_address`: a 32-byte
/// address that depends on the seeds and the program id alone, or an error.
#[verifier::external_body]
fn create_program_address(seeds: &Vec<Vec<u8>>, program_id: &Key) -> (r: Result<Key, PubkeyError>)
    ensures
        match r {
            Ok(k) => program_address_of(seeds@.map_values(|s: Vec<u8>| s@), program_id@) == Some(k@),
            Err(_) => program_address_of(seeds@.map_values(|s: Vec<u8>| s@), program_id@) is None,
        },
{
    let refs: Vec<&[u8]> = seeds.iter().map(|s| s.as_slice()).collect();
    Pubkey::create_program_address(&refs, &Pubkey::new_from_array(program_id.bytes))
        .map(|p| Key { bytes: p.to_bytes() })
}

/// The seeds of a fund's vault authority: the fund's address, then the nonce byte.
pub open spec fn vault_seeds(fund: Seq<u8>, nonce: u8) -> Seq<Seq<u8>> {
    seq![fund, seq![nonce]]
}

/// The derived authority of a fund's vault, or the error that its derivation gives.
pub open spec fn vault_authority_of(fund: Seq<u8>, nonce: u8, program: Seq<u8>) -> Result<Seq<u8>, FundErrorCode> {
    match program_address_of(vault_seeds(fund, nonce), program) {
        Some(a) => Ok(a),
        None => Err(FundErrorCode::InvalidVaultNonce),
    }
}

/// The custody account of a fund, whose authority is derived rather than held.
pub struct TokenVault;

impl TokenVault {
    pub fn signer_seeds(safe_account: &Key, nonce: &u8) -> (r: Vec<Vec<u8>>)
        ensures
            r@.map_values(|s: Vec<u8>| s@) == vault_seeds(safe_account@, *nonce),
    {
        let mut fund_seed: Vec<u8> = Vec::new();
        let mut i: usize = 0;
        while i < 32
            invariant
                0 <= i <= 32,
                safe_account@.len() == 32,
                fund_seed@ == safe_account@.subrange(0, i as int),
            decreases 32 - i,
        {
            fund_seed.push(safe_account.bytes[i]);
            i = i + 1;
        }
        assert(fund_seed@ =~= safe_account@);
        let nonce_seed: Vec<u8> = vec![*nonce];
        assert(nonce_seed@ =~= seq![*nonce]);
        let ghost fs = fund_seed@;
        let ghost ns = nonce_seed@;
        let r: Vec<Vec<u8>> = vec![fund_seed, nonce_seed];
        assert(r@.len() == 2 && r@[0]@ == fs && r@[1]@ == ns);
        assert(r@.map_values(|s: Vec<u8>| s@) =~= vault_seeds(safe_account@, *nonce));
        r
    }

    /// Recomputes the vault authority of `fund` for `program_id`.
    pub fn derive_authority(fund: &Key, nonce: u8, program_id: &Key) -> (r: Result<Key, FundErrorCode>)
        ensures
            match r {
                Ok(k) => vault_authority_of(fund@, nonce, program_id@) == Ok::<Seq<u8>, FundErrorCode>(k@),
                Err(e) => vault_authority_of(fund@, nonce, program_id@) == Err::<Seq<u8>, FundErrorCode>(e),
            },
    {
        let seeds = TokenVault::signer_seeds(fund, &nonce);
        match create_program_address(&seeds, program_id) {
            Ok(k) => Ok(k),
            Err(_) => Err(FundErrorCode::InvalidVaultNonce),
        }
    }
}

} // verus!
