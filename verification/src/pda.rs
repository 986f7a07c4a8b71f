//! Program-derived addresses: deterministic, seed-based derivation
//! against a program identifier.
//!
//! Derivation either yields an address or fails outright (a violated
//! seed constraint, or no usable bump seed); a failed derivation never
//! produces a value, so builders abort instead of emitting a wrong
//! address.

use crate::address::Address;
use crate::address::associated_token_program_id;
use crate::address::mayhem_program_id;
use crate::address::mpl_token_metadata_program_id;
use crate::address::pumpfun_program_id;
use crate::address::token_program_id;
use vstd::prelude::*;

verus! {

/// What seed-based derivation returns for a seed list and a program
/// identifier: a 32-byte address with its bump seed, or nothing when a
/// seed constraint is violated or no bump seed works.  The result is a
/// function of the seeds and the identifier alone.
pub uninterp spec fn derived_address(seeds: Seq<Seq<u8>>, program_id: Seq<u8>) -> Option<
    (Seq<u8>, u8),
>;

/// The address part of a derivation, when it succeeds.
pub open spec fn pda_address(seeds: Seq<Seq<u8>>, program_id: Seq<u8>) -> Option<Seq<u8>> {
    match derived_address(seeds, program_id) {
        Some(p) => Some(p.0),
        None => None,
    }
}

/// Relies on `Pubkey::try_find_program_address` of the blockchain SDK:
/// the derivation is a pure function of the seed bytes and the program
/// identifier; it returns a 32-byte address with a bump seed, and
/// returns nothing (rather than panicking) when the seed count or a
/// seed length is over the limit or no bump seed yields an address.
#[verifier::external_body]
fn try_find_program_address(seeds: &Vec<Vec<u8>>, program_id: &Address) -> (r: Option<
    (Address, u8),
>)
    requires
        program_id.wf(),
    ensures
        match r {
            Some(p) => p.0.wf() && derived_address(seeds.deep_view(), program_id@) == Some(
                (p.0@, p.1),
            ),
            None => derived_address(seeds.deep_view(), program_id@) is None,
        },
{
    let mut program_bytes = [0u8; 32];
    program_bytes.copy_from_slice(program_id.bytes.as_slice());
    let program = solana_sdk::pubkey::Pubkey::new_from_array(program_bytes);
    let seed_slices: Vec<&[u8]> = seeds.iter().map(|s| s.as_slice()).collect();
    match solana_sdk::pubkey::Pubkey::try_find_program_address(&seed_slices, &program) {
        Some((pk, bump)) => Some((Address { bytes: pk.to_bytes().to_vec() }, bump)),
        None => None,
    }
}

/// The seed list of an associated token account: the owning wallet,
/// the token program the mint belongs to, then the mint itself.
pub open spec fn associated_token_seeds(
    wallet: Seq<u8>,
    token_program: Seq<u8>,
    mint: Seq<u8>,
) -> Seq<Seq<u8>> {
    seq![wallet, token_program, mint]
}

/// Relies on `get_associated_token_address` of the associated-token
/// crate: its source derives the address by the same seed-based
/// derivation, from the seeds [wallet, classic token program, mint]
/// under the associated-token program, and panics when that derivation
/// fails, so the failing inputs are excluded here.
#[verifier::external_body]
pub(crate) fn spl_associated_token_address(wallet: &Address, mint: &Address) -> (r: Address)
    requires
        wallet.wf(),
        mint.wf(),
        derived_address(
            associated_token_seeds(wallet@, token_program_id(), mint@),
            associated_token_program_id(),
        ) is Some,
    ensures
        r.wf(),
        Some(r@) == pda_address(
            associated_token_seeds(wallet@, token_program_id(), mint@),
            associated_token_program_id(),
        ),
{
    let mut wallet_bytes = [0u8; 32];
    wallet_bytes.copy_from_slice(wallet.bytes.as_slice());
    let mut mint_bytes = [0u8; 32];
    mint_bytes.copy_from_slice(mint.bytes.as_slice());
    let r = spl_associated_token_account::get_associated_token_address(
        &solana_sdk::pubkey::Pubkey::new_from_array(wallet_bytes),
        &solana_sdk::pubkey::Pubkey::new_from_array(mint_bytes),
    );
    Address { bytes: r.to_bytes().to_vec() }
}

/// Derives the address and bump seed for a seed list under a program
/// identifier.  Identical inputs always yield the identical result.
pub fn derive_address(seeds: &Vec<Vec<u8>>, program_id: &Address) -> (r: Option<(Address, u8)>)
    requires
        program_id.wf(),
    ensures
        match r {
            Some(p) => p.0.wf() && derived_address(seeds.deep_view(), program_id@) == Some(
                (p.0@, p.1),
            ),
            None => derived_address(seeds.deep_view(), program_id@) is None,
        },
{
    try_find_program_address(seeds, program_id)
}

/// Deeply viewing a vector of byte vectors yields exactly the views
/// of its elements.
pub(crate) proof fn lemma_deep_view_bytes(v: &Vec<Vec<u8>>)
    ensures
        v.deep_view().len() == v@.len(),
        forall|i: int| #![auto] 0 <= i < v@.len() ==> v.deep_view()[i] == v@[i]@,
{
    assert forall|i: int| #![auto] 0 <= i < v@.len() implies v.deep_view()[i] == v@[i]@ by {
        assert(v@[i].deep_view() =~= v@[i]@);
    }
}

/// The seed string "global".
pub open spec fn global_seed() -> Seq<u8> {
    seq![103u8, 108, 111, 98, 97, 108]
}

/// The seed string "mint-authority".
pub open spec fn mint_authority_seed() -> Seq<u8> {
    seq![109u8, 105, 110, 116, 45, 97, 117, 116, 104, 111, 114, 105, 116, 121]
}

/// The seed string "bonding-curve".
pub open spec fn bonding_curve_seed() -> Seq<u8> {
    seq![98u8, 111, 110, 100, 105, 110, 103, 45, 99, 117, 114, 118, 101]
}

/// The seed string "metadata".
pub open spec fn metadata_seed() -> Seq<u8> {
    seq![109u8, 101, 116, 97, 100, 97, 116, 97]
}

/// The seed string "global_params".
pub open spec fn global_params_seed() -> Seq<u8> {
    seq![103u8, 108, 111, 98, 97, 108, 95, 112, 97, 114, 97, 109, 115]
}

/// The seed string "sol_vault".
pub open spec fn sol_vault_seed() -> Seq<u8> {
    seq![115u8, 111, 108, 95, 118, 97, 117, 108, 116]
}

/// The seed string "mayhem_state".
pub open spec fn mayhem_state_seed() -> Seq<u8> {
    seq![109u8, 97, 121, 104, 101, 109, 95, 115, 116, 97, 116, 101]
}

/// The seed string "token_vault".
pub open spec fn token_vault_seed() -> Seq<u8> {
    seq![116u8, 111, 107, 101, 110, 95, 118, 97, 117, 108, 116]
}

fn global_seed_bytes() -> (r: Vec<u8>)
    ensures
        r@ == global_seed(),
{
    let r: Vec<u8> = vec![103u8, 108, 111, 98, 97, 108];
    proof {
        assert(r@ =~= global_seed());
    }
    r
}

fn mint_authority_seed_bytes() -> (r: Vec<u8>)
    ensures
        r@ == mint_authority_seed(),
{
    let r: Vec<u8> = vec![109u8, 105, 110, 116, 45, 97, 117, 116, 104, 111, 114, 105, 116, 121];
    proof {
        assert(r@ =~= mint_authority_seed());
    }
    r
}

fn bonding_curve_seed_bytes() -> (r: Vec<u8>)
    ensures
        r@ == bonding_curve_seed(),
{
    let r: Vec<u8> = vec![98u8, 111, 110, 100, 105, 110, 103, 45, 99, 117, 114, 118, 101];
    proof {
        assert(r@ =~= bonding_curve_seed());
    }
    r
}

fn metadata_seed_bytes() -> (r: Vec<u8>)
    ensures
        r@ == metadata_seed(),
{
    let r: Vec<u8> = vec![109u8, 101, 116, 97, 100, 97, 116, 97];
    proof {
        assert(r@ =~= metadata_seed());
    }
    r
}

fn global_params_seed_bytes() -> (r: Vec<u8>)
    ensures
        r@ == global_params_seed(),
{
    let r: Vec<u8> = vec![103u8, 108, 111, 98, 97, 108, 95, 112, 97, 114, 97, 109, 115];
    proof {
        assert(r@ =~= global_params_seed());
    }
    r
}

fn sol_vault_seed_bytes() -> (r: Vec<u8>)
    ensures
        r@ == sol_vault_seed(),
{
    let r: Vec<u8> = vec![115u8, 111, 108, 95, 118, 97, 117, 108, 116];
    proof {
        assert(r@ =~= sol_vault_seed());
    }
    r
}

fn mayhem_state_seed_bytes() -> (r: Vec<u8>)
    ensures
        r@ == mayhem_state_seed(),
{
    let r: Vec<u8> = vec![109u8, 97, 121, 104, 101, 109, 95, 115, 116, 97, 116, 101];
    proof {
        assert(r@ =~= mayhem_state_seed());
    }
    r
}

fn token_vault_seed_bytes() -> (r: Vec<u8>)
    ensures
        r@ == token_vault_seed(),
{
    let r: Vec<u8> = vec![116u8, 111, 107, 101, 110, 95, 118, 97, 117, 108, 116];
    proof {
        assert(r@ =~= token_vault_seed());
    }
    r
}

/// The seed list of: the global-configuration account of the program.
pub open spec fn global_pda_seeds() -> Seq<Seq<u8>> {
    seq![global_seed()]
}

/// The global-configuration account of the program, derived from its fixed seeds.  `None` exactly when the
/// derivation fails, in which case construction must abort.
pub fn get_global_pda() -> (r: Option<Address>)
    ensures
        match r {
            Some(a) => a.wf() && Some(a@) == pda_address(global_pda_seeds(), pumpfun_program_id()),
            None => pda_address(global_pda_seeds(), pumpfun_program_id()) is None,
        },
{
    let seeds: Vec<Vec<u8>> = vec![global_seed_bytes()];
    proof {
        lemma_deep_view_bytes(&seeds);
        assert(seeds.deep_view() =~= global_pda_seeds());
    }
    let program = crate::address::pumpfun_program();
    match try_find_program_address(&seeds, &program) {
        Some(p) => Some(p.0),
        None => None,
    }
}

/// The seed list of: the mint-authority account of the program.
pub open spec fn mint_authority_pda_seeds() -> Seq<Seq<u8>> {
    seq![mint_authority_seed()]
}

/// The mint-authority account of the program, derived from its fixed seeds.  `None` exactly when the
/// derivation fails, in which case construction must abort.
pub fn get_mint_authority_pda() -> (r: Option<Address>)
    ensures
        match r {
            Some(a) => a.wf() && Some(a@) == pda_address(mint_authority_pda_seeds(), pumpfun_program_id()),
            None => pda_address(mint_authority_pda_seeds(), pumpfun_program_id()) is None,
        },
{
    let seeds: Vec<Vec<u8>> = vec![mint_authority_seed_bytes()];
    proof {
        lemma_deep_view_bytes(&seeds);
        assert(seeds.deep_view() =~= mint_authority_pda_seeds());
    }
    let program = crate::address::pumpfun_program();
    match try_find_program_address(&seeds, &program) {
        Some(p) => Some(p.0),
        None => None,
    }
}

/// The seed list of: the bonding-curve account of a mint.
pub open spec fn bonding_curve_pda_seeds(mint: Seq<u8>) -> Seq<Seq<u8>> {
    seq![bonding_curve_seed(), mint]
}

/// The bonding-curve account of a mint, derived from its fixed seeds.  `None` exactly when the
/// derivation fails, in which case construction must abort.
pub fn get_bonding_curve_pda(mint: &Address) -> (r: Option<Address>)
    requires
        mint.wf(),
    ensures
        match r {
            Some(a) => a.wf() && Some(a@) == pda_address(bonding_curve_pda_seeds(mint@), pumpfun_program_id()),
            None => pda_address(bonding_curve_pda_seeds(mint@), pumpfun_program_id()) is None,
        },
{
    let seeds: Vec<Vec<u8>> = vec![bonding_curve_seed_bytes(), mint.to_bytes_vec()];
    proof {
        lemma_deep_view_bytes(&seeds);
        assert(seeds.deep_view() =~= bonding_curve_pda_seeds(mint@));
    }
    let program = crate::address::pumpfun_program();
    match try_find_program_address(&seeds, &program) {
        Some(p) => Some(p.0),
        None => None,
    }
}

/// The seed list of: the metadata account of a mint, owned by the token-metadata program.
pub open spec fn metadata_pda_seeds(mint: Seq<u8>) -> Seq<Seq<u8>> {
    seq![metadata_seed(), mpl_token_metadata_program_id(), mint]
}

/// The metadata account of a mint, owned by the token-metadata program, derived from its fixed seeds.  `None` exactly when the
/// derivation fails, in which case construction must abort.
pub fn get_metadata_pda(mint: &Address) -> (r: Option<Address>)
    requires
        mint.wf(),
    ensures
        match r {
            Some(a) => a.wf() && Some(a@) == pda_address(metadata_pda_seeds(mint@), mpl_token_metadata_program_id()),
            None => pda_address(metadata_pda_seeds(mint@), mpl_token_metadata_program_id()) is None,
        },
{
    let seeds: Vec<Vec<u8>> = vec![metadata_seed_bytes(), crate::address::mpl_token_metadata_program().bytes, mint.to_bytes_vec()];
    proof {
        lemma_deep_view_bytes(&seeds);
        assert(seeds.deep_view() =~= metadata_pda_seeds(mint@));
    }
    let program = crate::address::mpl_token_metadata_program();
    match try_find_program_address(&seeds, &program) {
        Some(p) => Some(p.0),
        None => None,
    }
}

/// The seed list of: the global-parameters account of the auxiliary program.
pub open spec fn global_params_pda_seeds() -> Seq<Seq<u8>> {
    seq![global_params_seed()]
}

/// The global-parameters account of the auxiliary program, derived from its fixed seeds.  `None` exactly when the
/// derivation fails, in which case construction must abort.
pub fn get_global_params_pda() -> (r: Option<Address>)
    ensures
        match r {
            Some(a) => a.wf() && Some(a@) == pda_address(global_params_pda_seeds(), mayhem_program_id()),
            None => pda_address(global_params_pda_seeds(), mayhem_program_id()) is None,
        },
{
    let seeds: Vec<Vec<u8>> = vec![global_params_seed_bytes()];
    proof {
        lemma_deep_view_bytes(&seeds);
        assert(seeds.deep_view() =~= global_params_pda_seeds());
    }
    let program = crate::address::mayhem_program();
    match try_find_program_address(&seeds, &program) {
        Some(p) => Some(p.0),
        None => None,
    }
}

/// The seed list of: the native-token vault account of the auxiliary program.
pub open spec fn sol_vault_pda_seeds() -> Seq<Seq<u8>> {
    seq![sol_vault_seed()]
}

/// The native-token vault account of the auxiliary program, derived from its fixed seeds.  `None` exactly when the
/// derivation fails, in which case construction must abort.
pub fn get_sol_vault_pda() -> (r: Option<Address>)
    ensures
        match r {
            Some(a) => a.wf() && Some(a@) == pda_address(sol_vault_pda_seeds(), mayhem_program_id()),
            None => pda_address(sol_vault_pda_seeds(), mayhem_program_id()) is None,
        },
{
    let seeds: Vec<Vec<u8>> = vec![sol_vault_seed_bytes()];
    proof {
        lemma_deep_view_bytes(&seeds);
        assert(seeds.deep_view() =~= sol_vault_pda_seeds());
    }
    let program = crate::address::mayhem_program();
    match try_find_program_address(&seeds, &program) {
        Some(p) => Some(p.0),
        None => None,
    }
}

/// The seed list of: the per-mint state account of the auxiliary program.
pub open spec fn mayhem_state_pda_seeds(mint: Seq<u8>) -> Seq<Seq<u8>> {
    seq![mayhem_state_seed(), mint]
}

/// The per-mint state account of the auxiliary program, derived from its fixed seeds.  `None` exactly when the
/// derivation fails, in which case construction must abort.
pub fn get_mayhem_state_pda(mint: &Address) -> (r: Option<Address>)
    requires
        mint.wf(),
    ensures
        match r {
            Some(a) => a.wf() && Some(a@) == pda_address(mayhem_state_pda_seeds(mint@), mayhem_program_id()),
            None => pda_address(mayhem_state_pda_seeds(mint@), mayhem_program_id()) is None,
        },
{
    let seeds: Vec<Vec<u8>> = vec![mayhem_state_seed_bytes(), mint.to_bytes_vec()];
    proof {
        lemma_deep_view_bytes(&seeds);
        assert(seeds.deep_view() =~= mayhem_state_pda_seeds(mint@));
    }
    let program = crate::address::mayhem_program();
    match try_find_program_address(&seeds, &program) {
        Some(p) => Some(p.0),
        None => None,
    }
}

/// The seed list of: the per-mint token vault account of the auxiliary program.
pub open spec fn token_vault_pda_seeds(mint: Seq<u8>) -> Seq<Seq<u8>> {
    seq![token_vault_seed(), mint]
}

/// The per-mint token vault account of the auxiliary program, derived from its fixed seeds.  `None` exactly when the
/// derivation fails, in which case construction must abort.
pub fn get_token_vault_pda(mint: &Address) -> (r: Option<Address>)
    requires
        mint.wf(),
    ensures
        match r {
            Some(a) => a.wf() && Some(a@) == pda_address(token_vault_pda_seeds(mint@), mayhem_program_id()),
            None => pda_address(token_vault_pda_seeds(mint@), mayhem_program_id()) is None,
        },
{
    let seeds: Vec<Vec<u8>> = vec![token_vault_seed_bytes(), mint.to_bytes_vec()];
    proof {
        lemma_deep_view_bytes(&seeds);
        assert(seeds.deep_view() =~= token_vault_pda_seeds(mint@));
    }
    let program = crate::address::mayhem_program();
    match try_find_program_address(&seeds, &program) {
        Some(p) => Some(p.0),
        None => None,
    }
}



/// The associated token account of a wallet for a mint under the
/// given token-standard program, derived from the seeds [wallet,
/// token program, mint] under the associated-token program.  `None`
/// exactly when the derivation fails.
pub fn get_associated_token_address_with_program(
    wallet: &Address,
    mint: &Address,
    token_program: &Address,
) -> (r: Option<Address>)
    requires
        wallet.wf(),
        mint.wf(),
        token_program.wf(),
    ensures
        match r {
            Some(a) => a.wf() && Some(a@) == pda_address(
                associated_token_seeds(wallet@, token_program@, mint@),
                associated_token_program_id(),
            ),
            None => pda_address(
                associated_token_seeds(wallet@, token_program@, mint@),
                associated_token_program_id(),
            ) is None,
        },
{
    let seeds: Vec<Vec<u8>> = vec![
        wallet.to_bytes_vec(),
        token_program.to_bytes_vec(),
        mint.to_bytes_vec(),
    ];
    proof {
        lemma_deep_view_bytes(&seeds);
        assert(seeds.deep_view() =~= associated_token_seeds(wallet@, token_program@, mint@));
    }
    let program = crate::address::associated_token_program();
    match try_find_program_address(&seeds, &program) {
        Some(p) => Some(p.0),
        None => None,
    }
}

/// Derivation is deterministic: for one seed list and one program
/// identifier there is one outcome, so repeated derivations with
/// identical inputs yield the identical address and bump seed.
pub proof fn lemma_derivation_deterministic(
    seeds: Seq<Seq<u8>>,
    program_id: Seq<u8>,
    r1: Option<(Seq<u8>, u8)>,
    r2: Option<(Seq<u8>, u8)>,
)
    requires
        r1 == derived_address(seeds, program_id),
        r2 == derived_address(seeds, program_id),
    ensures
        r1 == r2,
{
}

} // verus!
