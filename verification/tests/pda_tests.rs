use pumpfun::address::Address;
use pumpfun::address::associated_token_program;
use pumpfun::address::pumpfun_program;
use pumpfun::address::token_program;
use pumpfun::instructions::create::Create;
use pumpfun::instructions::create::create;
use pumpfun::pda::derive_address;
use pumpfun::address::event_authority;
use pumpfun::pda::get_bonding_curve_pda;
use pumpfun::pda::get_global_pda;
use pumpfun::pda::get_mint_authority_pda;

fn addr(byte: u8) -> Address {
    Address::from_bytes(vec![byte; 32])
}

#[test]
fn derivation_is_deterministic() {
    let seeds = vec![b"bonding-curve".to_vec(), vec![2u8; 32]];
    let first = derive_address(&seeds, &pumpfun_program()).unwrap();
    let second = derive_address(&seeds, &pumpfun_program()).unwrap();
    assert_eq!(first.0.bytes, second.0.bytes);
    assert_eq!(first.1, second.1);
}

#[test]
fn changing_the_program_changes_the_address() {
    let seeds = vec![b"bonding-curve".to_vec(), vec![2u8; 32]];
    let under_program = derive_address(&seeds, &pumpfun_program()).unwrap();
    let under_other = derive_address(&seeds, &token_program()).unwrap();
    assert_ne!(under_program.0.bytes, under_other.0.bytes);
}

#[test]
fn derived_address_differs_from_its_seed() {
    let seeds = vec![vec![2u8; 32]];
    let derived = derive_address(&seeds, &pumpfun_program()).unwrap();
    assert_ne!(derived.0.bytes, vec![2u8; 32]);
    assert_eq!(derived.0.bytes.len(), 32);
}

#[test]
fn overlong_seed_fails_derivation() {
    let seeds = vec![vec![0u8; 33]];
    assert!(derive_address(&seeds, &pumpfun_program()).is_none());
}

#[test]
fn too_many_seeds_fail_derivation() {
    let seeds = vec![vec![1u8; 4]; 16];
    assert!(derive_address(&seeds, &pumpfun_program()).is_none());
}

#[test]
fn named_pdas_derive() {
    assert!(get_global_pda().is_some());
    assert!(get_mint_authority_pda().is_some());
    let mint = addr(2);
    let a = get_bonding_curve_pda(&mint).unwrap();
    let b = get_bonding_curve_pda(&mint).unwrap();
    assert_eq!(a.bytes, b.bytes);
}

#[test]
fn associated_account_matches_direct_derivation() {
    // The fourth account of the create instruction comes from the
    // associated-token crate; deriving the same seeds directly must
    // give the same address.
    let payer = addr(1);
    let mint = addr(2);
    let args = Create {
        name: String::from("T"),
        symbol: String::from("T"),
        uri: String::new(),
        creator: addr(3),
    };
    let ins = create(&payer, &mint, args).unwrap();
    let bonding_curve = get_bonding_curve_pda(&mint).unwrap();
    let seeds = vec![
        bonding_curve.bytes.clone(),
        token_program().bytes,
        mint.bytes.clone(),
    ];
    let direct = derive_address(&seeds, &associated_token_program()).unwrap();
    assert_eq!(ins.accounts[3].pubkey.bytes, direct.0.bytes);
    assert_ne!(ins.accounts[3].pubkey.bytes, bonding_curve.bytes);
}

#[test]
fn event_authority_is_the_programs_event_pda() {
    // The event-authority constant must be the address derived from
    // the seed "__event_authority" under the program's own id, which
    // ties the two constants to each other.
    let seeds = vec![b"__event_authority".to_vec()];
    let derived = derive_address(&seeds, &pumpfun_program()).unwrap();
    assert_eq!(derived.0.bytes, event_authority().bytes);
    assert_eq!(derived.1, 255);
}
