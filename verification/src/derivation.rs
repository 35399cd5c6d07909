use vstd::prelude::*;

use crate::address::Address;
use crate::error::ErrorCode;

verus! {

/// The fixed seed label `"faucet"` from which the signing authority is derived.
pub open spec fn authority_seed() -> Seq<u8> {
    seq![102u8, 97u8, 117u8, 99u8, 101u8, 116u8]
}

/// The fixed seed label `"faucet_mint"` at which the faucet's mint is filed.
pub open spec fn mint_seed() -> Seq<u8> {
    seq![102u8, 97u8, 117u8, 99u8, 101u8, 116u8, 95u8, 109u8, 105u8, 110u8, 116u8]
}

/// The byte string of the authority seed label.
pub fn authority_seed_bytes() -> (r: Vec<u8>)
    ensures
        r@ == authority_seed(),
{
    let mut v: Vec<u8> = Vec::new();
    v.push(102);
    v.push(97);
    v.push(117);
    v.push(99);
    v.push(101);
    v.push(116);
    proof {
        assert(v@ =~= authority_seed());
    }
    v
}

/// The byte string of the mint seed label.
pub fn mint_seed_bytes() -> (r: Vec<u8>)
    ensures
        r@ == mint_seed(),
{
    let mut v: Vec<u8> = Vec::new();
    v.push(102);
    v.push(97);
    v.push(117);
    v.push(99);
    v.push(101);
    v.push(116);
    v.push(95);
    v.push(109);
    v.push(105);
    v.push(110);
    v.push(116);
    proof {
        assert(v@ =~= mint_seed());
    }
    v
}

/// What the canonical derivation search returns for a seed label and a program
/// id: the first (address, proof byte) pair, scanning proof bytes from 255
/// downward, whose address is off the ed25519 curve — or nothing, if the whole
/// search space is exhausted.
pub uninterp spec fn found_derivation(seed: Seq<u8>, program_id: Seq<u8>) -> Option<(Seq<u8>, u8)>;

/// What single-shot derivation returns for a seed label, a proof byte and a
/// program id: the derived address, or nothing when the derived point lies on
/// the ed25519 curve (so the pair is no valid off-curve identity).
pub uninterp spec fn derived_address(seed: Seq<u8>, bump: u8, program_id: Seq<u8>) -> Option<
    Seq<u8>,
>;

/// Relies on `solana_pubkey::Pubkey::try_find_program_address` (the primitive
/// `anchor_lang` re-exports): a deterministic search over proof bytes, from 255
/// downward, for the first off-curve derived address; a pure function of the
/// seed and the program id, and the pair it returns re-derives through
/// `Pubkey::create_program_address` with the returned proof byte.
#[verifier::external_body]
fn try_find_derivation(seed: &Vec<u8>, program_id: &Address) -> (r: Option<(Address, u8)>)
    requires
        program_id.wf(),
    ensures
        r matches Some(p) ==> {
            &&& found_derivation(seed@, program_id@) == Some((p.0@, p.1))
            &&& p.0.wf()
            &&& derived_address(seed@, p.1, program_id@) == Some(p.0@)
        },
        r is None ==> found_derivation(seed@, program_id@) is None,
{
    let pid = solana_pubkey::Pubkey::try_from(program_id.bytes.as_slice()).ok()?;
    let (addr, bump) = solana_pubkey::Pubkey::try_find_program_address(&[seed.as_slice()], &pid)?;
    Some((Address { bytes: addr.to_bytes().to_vec() }, bump))
}

/// Relies on `solana_pubkey::Pubkey::create_program_address` (the primitive
/// `anchor_lang` re-exports): it hashes the seed, the proof byte and the
/// program id into an address, and reports an error exactly when that address
/// lies on the ed25519 curve or a seed exceeds the primitive's length bounds;
/// a pure function of its arguments.
#[verifier::external_body]
fn rederive(seed: &Vec<u8>, bump: u8, program_id: &Address) -> (r: Option<Address>)
    requires
        program_id.wf(),
    ensures
        r matches Some(a) ==> derived_address(seed@, bump, program_id@) == Some(a@) && a.wf(),
        r is None ==> derived_address(seed@, bump, program_id@) is None,
{
    let pid = solana_pubkey::Pubkey::try_from(program_id.bytes.as_slice()).ok()?;
    let addr = solana_pubkey::Pubkey::create_program_address(&[seed.as_slice(), &[bump]], &pid)
        .ok()?;
    Some(Address { bytes: addr.to_bytes().to_vec() })
}

/// What `derive_authority` and `derive_mint_address` promise of their result,
/// for the given seed label.
pub open spec fn derivation_post(
    seed: Seq<u8>,
    program_id: Seq<u8>,
    r: Result<(Address, u8), ErrorCode>,
) -> bool {
    match r {
        Ok(p) => {
            &&& found_derivation(seed, program_id) == Some((p.0@, p.1))
            &&& p.0.wf()
            &&& derived_address(seed, p.1, program_id) == Some(p.0@)
        },
        Err(e) => e == ErrorCode::BumpError && found_derivation(seed, program_id) is None,
    }
}

/// Derives the faucet's signing authority for a program: the canonical
/// (address, proof byte) pair for the fixed authority seed label. Fails with
/// `BumpError` exactly when the search finds no off-curve pair.
pub fn derive_authority(program_id: &Address) -> (r: Result<(Address, u8), ErrorCode>)
    requires
        program_id.wf(),
    ensures
        derivation_post(authority_seed(), program_id@, r),
{
    let seed = authority_seed_bytes();
    match try_find_derivation(&seed, program_id) {
        Some(p) => Ok(p),
        None => Err(ErrorCode::BumpError),
    }
}

/// Derives the address at which the faucet's mint is filed: the canonical
/// (address, proof byte) pair for the fixed mint seed label. Fails with
/// `BumpError` exactly when the search finds no off-curve pair.
pub fn derive_mint_address(program_id: &Address) -> (r: Result<(Address, u8), ErrorCode>)
    requires
        program_id.wf(),
    ensures
        derivation_post(mint_seed(), program_id@, r),
{
    let seed = mint_seed_bytes();
    match try_find_derivation(&seed, program_id) {
        Some(p) => Ok(p),
        None => Err(ErrorCode::BumpError),
    }
}

/// What `rederive_authority` promises of its result.
pub open spec fn rederive_authority_post(
    program_id: Seq<u8>,
    bump: u8,
    r: Result<Address, ErrorCode>,
) -> bool {
    match r {
        Ok(a) => derived_address(authority_seed(), bump, program_id) == Some(a@) && a.wf(),
        Err(e) => e == ErrorCode::BumpError && derived_address(
            authority_seed(),
            bump,
            program_id,
        ) is None,
    }
}

/// Re-derives the authority address from the fixed seed and a stored proof
/// byte, without searching. Fails with `BumpError` exactly when the pair is no
/// valid off-curve identity.
pub fn rederive_authority(program_id: &Address, bump: u8) -> (r: Result<Address, ErrorCode>)
    requires
        program_id.wf(),
    ensures
        rederive_authority_post(program_id@, bump, r),
{
    let seed = authority_seed_bytes();
    match rederive(&seed, bump, program_id) {
        Some(a) => Ok(a),
        None => Err(ErrorCode::BumpError),
    }
}

/// Derivation determinism: any two results that meet the re-derivation
/// contract for the same fixed seed, stored proof byte and program id agree —
/// re-derivation yields the same address no matter how often, or by whom, it
/// is recomputed.
pub proof fn lemma_rederivation_deterministic(
    program_id: Seq<u8>,
    bump: u8,
    r1: Result<Address, ErrorCode>,
    r2: Result<Address, ErrorCode>,
)
    requires
        rederive_authority_post(program_id, bump, r1),
        rederive_authority_post(program_id, bump, r2),
    ensures
        r1 matches Ok(a1) ==> (r2 matches Ok(a2) && a1@ == a2@),
        r1 is Err ==> r2 is Err,
{
}

/// The canonical pair found at initialization stays re-derivable: whenever the
/// search succeeds, single-shot re-derivation from the proof byte it returned
/// yields exactly the address it returned.
pub proof fn lemma_found_pair_rederives(
    seed: Seq<u8>,
    program_id: Seq<u8>,
    r: Result<(Address, u8), ErrorCode>,
)
    requires
        derivation_post(seed, program_id, r),
    ensures
        r matches Ok(p) ==> derived_address(seed, p.1, program_id) == Some(p.0@),
{
}

} // verus!
