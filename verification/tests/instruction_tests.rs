use pumpfun::address::Address;
use pumpfun::address::mayhem_program;
use pumpfun::address::pumpfun_program;
use pumpfun::address::token_2022_program;
use pumpfun::address::token_program;
use pumpfun::instructions::create::Create;
use pumpfun::instructions::create::CreateV2;
use pumpfun::instructions::create::create;
use pumpfun::instructions::create::create_v2;
use pumpfun::instructions::create::parse_create;
use pumpfun::instructions::create::parse_create_v2;
use pumpfun::instructions::extend_account::extend_account;

fn addr(byte: u8) -> Address {
    Address::from_bytes(vec![byte; 32])
}

fn sample_create(creator: u8) -> Create {
    Create {
        name: String::from("My Token"),
        symbol: String::from("MT"),
        uri: String::from("https://example.com/meta.json"),
        creator: addr(creator),
    }
}

fn sample_create_v2(creator: u8, mayhem: bool) -> CreateV2 {
    CreateV2 {
        name: String::from("My Token"),
        symbol: String::from("MT"),
        uri: String::from("https://example.com/meta.json"),
        creator: addr(creator),
        is_mayhem_mode: mayhem,
    }
}

#[test]
fn create_payload_starts_with_its_discriminator() {
    let a = sample_create(7).data().unwrap();
    let b = Create {
        name: String::from("Other"),
        symbol: String::from("OTR"),
        uri: String::new(),
        creator: addr(9),
    }
    .data()
    .unwrap();
    assert_eq!(&a[..8], &[24, 30, 200, 40, 5, 28, 7, 119]);
    assert_eq!(&b[..8], &[24, 30, 200, 40, 5, 28, 7, 119]);
}

#[test]
fn create_v2_payload_starts_with_its_discriminator() {
    let a = sample_create_v2(7, true).data().unwrap();
    let b = sample_create_v2(1, false).data().unwrap();
    assert_eq!(&a[..8], &[214, 144, 76, 236, 95, 139, 49, 180]);
    assert_eq!(&b[..8], &[214, 144, 76, 236, 95, 139, 49, 180]);
}

#[test]
fn create_payload_field_layout() {
    let args = Create {
        name: String::from("ab"),
        symbol: String::from("c"),
        uri: String::new(),
        creator: addr(5),
    };
    let d = args.data().unwrap();
    let mut expected = vec![24, 30, 200, 40, 5, 28, 7, 119];
    expected.extend_from_slice(&[2, 0, 0, 0]);
    expected.extend_from_slice(b"ab");
    expected.extend_from_slice(&[1, 0, 0, 0]);
    expected.extend_from_slice(b"c");
    expected.extend_from_slice(&[0, 0, 0, 0]);
    expected.extend_from_slice(&[5u8; 32]);
    assert_eq!(d, expected);
}

#[test]
fn create_v2_payload_carries_mode_flag() {
    let on = sample_create_v2(5, true).data().unwrap();
    let off = sample_create_v2(5, false).data().unwrap();
    assert_eq!(*on.last().unwrap(), 1);
    assert_eq!(*off.last().unwrap(), 0);
    assert_eq!(on[..on.len() - 1], off[..off.len() - 1]);
}

#[test]
fn create_round_trip() {
    let args = sample_create(7);
    let d = args.data().unwrap();
    let back = parse_create(&d).unwrap();
    assert_eq!(back.name, "My Token");
    assert_eq!(back.symbol, "MT");
    assert_eq!(back.uri, "https://example.com/meta.json");
    assert_eq!(back.creator.bytes, vec![7u8; 32]);
}

#[test]
fn create_v2_round_trip() {
    let args = sample_create_v2(3, true);
    let d = args.data().unwrap();
    let back = parse_create_v2(&d).unwrap();
    assert_eq!(back.name, "My Token");
    assert_eq!(back.symbol, "MT");
    assert_eq!(back.uri, "https://example.com/meta.json");
    assert_eq!(back.creator.bytes, vec![3u8; 32]);
    assert!(back.is_mayhem_mode);
}

#[test]
fn parse_create_rejects_wrong_discriminator() {
    let mut d = sample_create(7).data().unwrap();
    d[0] ^= 0xff;
    assert!(parse_create(&d).is_none());
}

#[test]
fn parse_create_rejects_truncated_payload() {
    let d = sample_create(7).data().unwrap();
    let cut = d[..d.len() - 1].to_vec();
    assert!(parse_create(&cut).is_none());
}

#[test]
fn create_token_scenario() {
    let payer = addr(1);
    let mint = addr(2);
    let ins = create(&payer, &mint, sample_create(7)).unwrap();
    assert_eq!(ins.accounts.len(), 14);
    let first = &ins.accounts[0];
    assert_eq!(first.pubkey.bytes, mint.bytes);
    assert!(first.is_signer);
    assert!(first.is_writable);
    assert_eq!(ins.program_id.bytes, pumpfun_program().bytes);
}

#[test]
fn create_account_flags_are_fixed() {
    let ins_a = create(&addr(1), &addr(2), sample_create(7)).unwrap();
    let ins_b = create(&addr(8), &addr(9), sample_create(4)).unwrap();
    let expected = [
        (true, true),
        (false, true),
        (false, true),
        (false, true),
        (false, false),
        (false, false),
        (false, true),
        (true, true),
        (false, false),
        (false, false),
        (false, false),
        (false, false),
        (false, false),
        (false, false),
    ];
    for (i, (signer, writable)) in expected.iter().enumerate() {
        assert_eq!(ins_a.accounts[i].is_signer, *signer, "signer flag at {}", i);
        assert_eq!(ins_a.accounts[i].is_writable, *writable, "writable flag at {}", i);
        assert_eq!(ins_b.accounts[i].is_signer, *signer);
        assert_eq!(ins_b.accounts[i].is_writable, *writable);
    }
    assert_eq!(ins_a.accounts[7].pubkey.bytes, vec![1u8; 32]);
    assert_eq!(ins_b.accounts[7].pubkey.bytes, vec![8u8; 32]);
    assert_eq!(ins_a.accounts[9].pubkey.bytes, token_program().bytes);
}

#[test]
fn create_v2_account_table() {
    let payer = addr(1);
    let mint = addr(2);
    let ins = create_v2(&payer, &mint, sample_create_v2(7, false)).unwrap();
    assert_eq!(ins.accounts.len(), 16);
    assert_eq!(ins.accounts[0].pubkey.bytes, mint.bytes);
    assert!(ins.accounts[0].is_signer && ins.accounts[0].is_writable);
    assert_eq!(ins.accounts[5].pubkey.bytes, payer.bytes);
    assert!(ins.accounts[5].is_signer && ins.accounts[5].is_writable);
    assert_eq!(ins.accounts[7].pubkey.bytes, token_2022_program().bytes);
    assert!(!ins.accounts[7].is_writable);
    assert_eq!(ins.accounts[9].pubkey.bytes, mayhem_program().bytes);
    assert!(ins.accounts[9].is_writable && !ins.accounts[9].is_signer);
    assert_eq!(ins.program_id.bytes, pumpfun_program().bytes);
}

#[test]
fn create_and_create_v2_use_different_associated_accounts() {
    // The associated account is derived under the token program the
    // variant targets, so the two variants must disagree on it.
    let payer = addr(1);
    let mint = addr(2);
    let v1 = create(&payer, &mint, sample_create(7)).unwrap();
    let v2 = create_v2(&payer, &mint, sample_create_v2(7, false)).unwrap();
    assert_eq!(v1.accounts[2].pubkey.bytes, v2.accounts[2].pubkey.bytes);
    assert_ne!(v1.accounts[3].pubkey.bytes, v2.accounts[3].pubkey.bytes);
}

#[test]
fn extend_account_table() {
    let payer = addr(1);
    let account = addr(2);
    let ins = extend_account(&payer, &account);
    assert_eq!(ins.data, vec![234, 102, 194, 203, 150, 72, 62, 229]);
    assert_eq!(ins.accounts.len(), 5);
    assert_eq!(ins.accounts[0].pubkey.bytes, account.bytes);
    assert!(!ins.accounts[0].is_signer && ins.accounts[0].is_writable);
    assert_eq!(ins.accounts[1].pubkey.bytes, payer.bytes);
    assert!(ins.accounts[1].is_signer && ins.accounts[1].is_writable);
    assert!(!ins.accounts[2].is_writable);
    assert!(!ins.accounts[3].is_writable);
    assert!(!ins.accounts[4].is_writable);
    assert_eq!(ins.program_id.bytes, pumpfun_program().bytes);
}
