//! The token-creation operations: the classic variant and the extended
//! token-standard variant.
//!
//! Each variant is a fixed table: an 8-byte discriminator, a field list
//! serialized in declared order, an account list in a fixed order with
//! fixed signer/writable flags, and the derivation rules for every
//! address the operation depends on but is not handed directly.

use crate::address::Address;
use crate::address::associated_token_program;
use crate::address::associated_token_program_id;
use crate::address::event_authority;
use crate::address::event_authority_id;
use crate::address::mpl_token_metadata_program;
use crate::address::mpl_token_metadata_program_id;
use crate::address::pumpfun_program;
use crate::address::pumpfun_program_id;
use crate::address::rent_sysvar;
use crate::address::rent_sysvar_id;
use crate::address::system_program;
use crate::address::system_program_id;
use crate::address::mayhem_program;
use crate::address::mayhem_program_id;
use crate::address::token_2022_program;
use crate::address::token_2022_program_id;
use crate::address::token_program;
use crate::address::token_program_id;
use crate::encode::lemma_length_prefixed_len;
use crate::encode::lemma_parse_length_prefixed;
use crate::encode::length_prefixed;
use crate::encode::parse_length_prefixed;
use crate::encode::push_length_prefixed;
use crate::encode::read_length_prefixed;
use crate::encode::string_from_utf8;
use crate::error::BuildError;
use crate::instructions::AccountMeta;
use crate::instructions::Instruction;
use crate::instructions::accounts_view;
use crate::pda::associated_token_seeds;
use crate::pda::bonding_curve_pda_seeds;
use crate::pda::get_associated_token_address_with_program;
use crate::pda::get_bonding_curve_pda;
use crate::pda::get_global_pda;
use crate::pda::get_metadata_pda;
use crate::pda::get_global_params_pda;
use crate::pda::get_mayhem_state_pda;
use crate::pda::get_mint_authority_pda;
use crate::pda::get_sol_vault_pda;
use crate::pda::get_token_vault_pda;
use crate::pda::global_params_pda_seeds;
use crate::pda::global_pda_seeds;
use crate::pda::mayhem_state_pda_seeds;
use crate::pda::metadata_pda_seeds;
use crate::pda::mint_authority_pda_seeds;
use crate::pda::pda_address;
use crate::pda::sol_vault_pda_seeds;
use crate::pda::spl_associated_token_address;
use crate::pda::token_vault_pda_seeds;
use vstd::prelude::*;
use vstd::string::StrSliceExecFns;
use vstd::utf8::decode_utf8;
use vstd::utf8::encode_utf8;
use vstd::utf8::valid_utf8;

verus! {

/// The discriminator of the classic create operation.
pub open spec fn create_discriminator() -> Seq<u8> {
    seq![24u8, 30, 200, 40, 5, 28, 7, 119]
}

/// The payload of the classic create operation: the discriminator,
/// then the three length-prefixed strings in declared order, then the
/// raw 32 creator bytes.
pub open spec fn create_payload(
    name: Seq<u8>,
    symbol: Seq<u8>,
    uri: Seq<u8>,
    creator: Seq<u8>,
) -> Seq<u8> {
    create_discriminator() + length_prefixed(name) + length_prefixed(symbol) + length_prefixed(uri)
        + creator
}

/// Typed arguments of the classic create operation.
#[derive(Clone, Debug)]
pub struct Create {
    /// Name of the token to be created.
    pub name: String,
    /// Symbol of the token to be created.
    pub symbol: String,
    /// Metadata location for the token.
    pub uri: String,
    /// Address of the token creator.
    pub creator: Address,
}

impl Create {
    /// The creator address holds its 32 bytes.
    pub open spec fn wf(&self) -> bool {
        self.creator.wf()
    }

    /// Every string field fits its 32-bit length prefix.
    pub open spec fn encodable(&self) -> bool {
        &&& encode_utf8(self.name@).len() <= u32::MAX
        &&& encode_utf8(self.symbol@).len() <= u32::MAX
        &&& encode_utf8(self.uri@).len() <= u32::MAX
    }

    /// The exact payload bytes of this record.
    pub open spec fn payload(&self) -> Seq<u8> {
        create_payload(
            encode_utf8(self.name@),
            encode_utf8(self.symbol@),
            encode_utf8(self.uri@),
            self.creator@,
        )
    }

    /// Serializes the discriminator and the fields in declared order.
    /// A string too long for its length prefix is reported, never
    /// partially written.
    pub fn data(&self) -> (r: Result<Vec<u8>, BuildError>)
        ensures
            r is Ok <==> self.encodable(),
            r matches Ok(d) ==> d@ == self.payload(),
            r matches Err(e) ==> e == BuildError::StringTooLong,
    {
        let mut out: Vec<u8> = vec![24u8, 30, 200, 40, 5, 28, 7, 119];
        proof {
            assert(out@ =~= create_discriminator());
        }
        let name_bytes = self.name.as_str().as_bytes_vec();
        if !push_length_prefixed(&mut out, &name_bytes) {
            return Err(BuildError::StringTooLong);
        }
        let symbol_bytes = self.symbol.as_str().as_bytes_vec();
        if !push_length_prefixed(&mut out, &symbol_bytes) {
            return Err(BuildError::StringTooLong);
        }
        let uri_bytes = self.uri.as_str().as_bytes_vec();
        if !push_length_prefixed(&mut out, &uri_bytes) {
            return Err(BuildError::StringTooLong);
        }
        let mut creator_bytes = self.creator.to_bytes_vec();
        out.append(&mut creator_bytes);
        proof {
            assert(out@ =~= self.payload());
        }
        Ok(out)
    }
}

/// The derived mint-authority address, where derivation succeeds.
pub open spec fn mint_authority_address() -> Seq<u8> {
    pda_address(mint_authority_pda_seeds(), pumpfun_program_id())->0
}

/// The derived bonding-curve address of a mint, where derivation
/// succeeds.
pub open spec fn bonding_curve_address(mint: Seq<u8>) -> Seq<u8> {
    pda_address(bonding_curve_pda_seeds(mint), pumpfun_program_id())->0
}

/// The associated token account of the bonding curve for a mint under
/// the given token program, where derivation succeeds.
pub open spec fn associated_bonding_curve_address(mint: Seq<u8>, token_prog: Seq<u8>) -> Seq<u8> {
    pda_address(
        associated_token_seeds(bonding_curve_address(mint), token_prog, mint),
        associated_token_program_id(),
    )->0
}

/// The derived global-configuration address, where derivation
/// succeeds.
pub open spec fn global_address() -> Seq<u8> {
    pda_address(global_pda_seeds(), pumpfun_program_id())->0
}

/// The derived metadata address of a mint, where derivation succeeds.
pub open spec fn metadata_address(mint: Seq<u8>) -> Seq<u8> {
    pda_address(metadata_pda_seeds(mint), mpl_token_metadata_program_id())->0
}

/// Whether every address the classic create operation derives can be
/// derived for this mint.
pub open spec fn create_derivations_ok(mint: Seq<u8>) -> bool {
    &&& pda_address(mint_authority_pda_seeds(), pumpfun_program_id()) is Some
    &&& pda_address(bonding_curve_pda_seeds(mint), pumpfun_program_id()) is Some
    &&& pda_address(
        associated_token_seeds(bonding_curve_address(mint), token_program_id(), mint),
        associated_token_program_id(),
    ) is Some
    &&& pda_address(global_pda_seeds(), pumpfun_program_id()) is Some
    &&& pda_address(metadata_pda_seeds(mint), mpl_token_metadata_program_id()) is Some
}

/// The full account table of the classic create operation: exact
/// addresses, exact order, exact signer/writable flags.
pub open spec fn create_accounts_spec(payer: Seq<u8>, mint: Seq<u8>) -> Seq<(Seq<u8>, bool, bool)> {
    seq![
        (mint, true, true),
        (mint_authority_address(), false, true),
        (bonding_curve_address(mint), false, true),
        (associated_bonding_curve_address(mint, token_program_id()), false, true),
        (global_address(), false, false),
        (mpl_token_metadata_program_id(), false, false),
        (metadata_address(mint), false, true),
        (payer, true, true),
        (system_program_id(), false, false),
        (token_program_id(), false, false),
        (associated_token_program_id(), false, false),
        (rent_sysvar_id(), false, false),
        (event_authority_id(), false, false),
        (pumpfun_program_id(), false, false),
    ]
}

/// Builds the classic create instruction for a payer and a fresh mint.
/// On success the descriptor addresses the program, carries the exact
/// payload of `args`, and lists exactly the documented fourteen
/// accounts in order; on failure nothing is returned.
pub fn create(payer: &Address, mint: &Address, args: Create) -> (r: Result<Instruction, BuildError>)
    requires
        payer.wf(),
        mint.wf(),
        args.wf(),
    ensures
        r is Ok <==> args.encodable() && create_derivations_ok(mint@),
        r matches Ok(ins) ==> {
            &&& ins.wf()
            &&& ins.program_id@ == pumpfun_program_id()
            &&& ins.data@ == args.payload()
            &&& accounts_view(ins.accounts@) == create_accounts_spec(payer@, mint@)
        },
        r matches Err(e) ==> (e == BuildError::StringTooLong && !args.encodable() || e
            == BuildError::DerivationFailed && !create_derivations_ok(mint@)),
{
    let data = match args.data() {
        Ok(d) => d,
        Err(e) => {
            return Err(e);
        },
    };
    let mint_authority = match get_mint_authority_pda() {
        Some(a) => a,
        None => {
            return Err(BuildError::DerivationFailed);
        },
    };
    let bonding_curve = match get_bonding_curve_pda(mint) {
        Some(a) => a,
        None => {
            return Err(BuildError::DerivationFailed);
        },
    };
    if get_associated_token_address_with_program(&bonding_curve, mint, &token_program()).is_none() {
        return Err(BuildError::DerivationFailed);
    }
    let associated_bonding_curve = spl_associated_token_address(&bonding_curve, mint);
    let global = match get_global_pda() {
        Some(a) => a,
        None => {
            return Err(BuildError::DerivationFailed);
        },
    };
    let metadata = match get_metadata_pda(mint) {
        Some(a) => a,
        None => {
            return Err(BuildError::DerivationFailed);
        },
    };
    let accounts: Vec<AccountMeta> = vec![
        AccountMeta::new(mint.dup(), true),
        AccountMeta::new(mint_authority, false),
        AccountMeta::new(bonding_curve, false),
        AccountMeta::new(associated_bonding_curve, false),
        AccountMeta::new_readonly(global, false),
        AccountMeta::new_readonly(mpl_token_metadata_program(), false),
        AccountMeta::new(metadata, false),
        AccountMeta::new(payer.dup(), true),
        AccountMeta::new_readonly(system_program(), false),
        AccountMeta::new_readonly(token_program(), false),
        AccountMeta::new_readonly(associated_token_program(), false),
        AccountMeta::new_readonly(rent_sysvar(), false),
        AccountMeta::new_readonly(event_authority(), false),
        AccountMeta::new_readonly(pumpfun_program(), false),
    ];
    let ins = Instruction { program_id: pumpfun_program(), accounts, data };
    proof {
        assert(accounts_view(ins.accounts@) =~= create_accounts_spec(payer@, mint@));
        assert(ins.wf());
    }
    Ok(ins)
}

/// The payload of every classic create call begins with the fixed
/// discriminator, whatever the field values.
pub proof fn lemma_create_payload_discriminator(
    name: Seq<u8>,
    symbol: Seq<u8>,
    uri: Seq<u8>,
    creator: Seq<u8>,
)
    ensures
        create_payload(name, symbol, uri, creator).len() >= 8,
        create_payload(name, symbol, uri, creator).take(8) == create_discriminator(),
{
    crate::encode::lemma_length_prefixed_len(name);
    crate::encode::lemma_length_prefixed_len(symbol);
    crate::encode::lemma_length_prefixed_len(uri);
    assert(create_payload(name, symbol, uri, creator).take(8) =~= create_discriminator());
}

/// The account table of the classic create operation has the same
/// length and the same signer/writable flags at every position,
/// whatever the concrete addresses.
pub proof fn lemma_create_account_shape(p1: Seq<u8>, m1: Seq<u8>, p2: Seq<u8>, m2: Seq<u8>)
    ensures
        create_accounts_spec(p1, m1).len() == 14,
        create_accounts_spec(p2, m2).len() == 14,
        forall|i: int|
            0 <= i < 14 ==> (#[trigger] create_accounts_spec(p1, m1)[i]).1
                == create_accounts_spec(p2, m2)[i].1 && create_accounts_spec(p1, m1)[i].2
                == create_accounts_spec(p2, m2)[i].2,
{
}


/// What decoding a classic create payload yields: the three strings'
/// bytes and the creator bytes, or nothing when the bytes do not
/// follow the field-order schema exactly.
pub open spec fn parse_create_payload(d: Seq<u8>) -> Option<(Seq<u8>, Seq<u8>, Seq<u8>, Seq<u8>)> {
    if d.len() >= 8 && d.take(8) == create_discriminator() {
        match parse_length_prefixed(d, 8) {
            Some(name_p) => match parse_length_prefixed(d, name_p.1) {
                Some(symbol_p) => match parse_length_prefixed(d, symbol_p.1) {
                    Some(uri_p) => if uri_p.1 + 32 == d.len() {
                        Some((name_p.0, symbol_p.0, uri_p.0, d.subrange(uri_p.1, uri_p.1 + 32)))
                    } else {
                        None
                    },
                    None => None,
                },
                None => None,
            },
            None => None,
        }
    } else {
        None
    }
}

/// Decodes a classic create payload back into its typed arguments.
/// Nothing is returned exactly when the bytes do not follow the schema
/// or a string field does not decode as text.
pub fn parse_create(data: &Vec<u8>) -> (r: Option<Create>)
    ensures
        match r {
            Some(c) => {
                &&& c.wf()
                &&& parse_create_payload(data@) matches Some(p)
                &&& encode_utf8(c.name@) == p.0
                &&& encode_utf8(c.symbol@) == p.1
                &&& encode_utf8(c.uri@) == p.2
                &&& c.creator@ == p.3
            },
            None => parse_create_payload(data@) is None || (parse_create_payload(data@)
                matches Some(p) && !(valid_utf8(p.0) && valid_utf8(p.1) && valid_utf8(p.2))),
        },
{
    broadcast use vstd::utf8::decode_utf8_encode_utf8;

    if data.len() < 8 {
        return None;
    }
    let disc_ok = data[0] == 24 && data[1] == 30 && data[2] == 200 && data[3] == 40 && data[4] == 5
        && data[5] == 28 && data[6] == 7 && data[7] == 119;
    proof {
        assert forall|i: int| 0 <= i < 8 implies data@.take(8)[i] == data@[i] by {}
    }
    if !disc_ok {
        proof {
            if data@.take(8) == create_discriminator() {
                assert(data@[0] == 24 && data@[1] == 30 && data@[2] == 200 && data@[3] == 40
                    && data@[4] == 5 && data@[5] == 28 && data@[6] == 7 && data@[7] == 119);
            }
        }
        return None;
    }
    proof {
        assert(data@.take(8) =~= create_discriminator());
    }
    let name_part = match read_length_prefixed(data, 8) {
        Some(p) => p,
        None => {
            return None;
        },
    };
    let symbol_part = match read_length_prefixed(data, name_part.1) {
        Some(p) => p,
        None => {
            return None;
        },
    };
    let uri_part = match read_length_prefixed(data, symbol_part.1) {
        Some(p) => p,
        None => {
            return None;
        },
    };
    let pos = uri_part.1;
    if data.len() - pos != 32 {
        return None;
    }
    let creator_bytes = vstd::slice::slice_to_vec(
        vstd::slice::slice_subrange(data.as_slice(), pos, pos + 32),
    );
    let name = match string_from_utf8(name_part.0) {
        Some(s) => s,
        None => {
            return None;
        },
    };
    let symbol = match string_from_utf8(symbol_part.0) {
        Some(s) => s,
        None => {
            return None;
        },
    };
    let uri = match string_from_utf8(uri_part.0) {
        Some(s) => s,
        None => {
            return None;
        },
    };
    Some(Create { name, symbol, uri, creator: Address::from_bytes(creator_bytes) })
}

/// Decoding the payload produced for any field values recovers those
/// values exactly: the string bytes with their lengths, and the
/// creator bytes.
pub proof fn lemma_create_round_trip(name: Seq<u8>, symbol: Seq<u8>, uri: Seq<u8>, creator: Seq<u8>)
    requires
        name.len() <= u32::MAX,
        symbol.len() <= u32::MAX,
        uri.len() <= u32::MAX,
        creator.len() == 32,
    ensures
        parse_create_payload(create_payload(name, symbol, uri, creator)) == Some(
            (name, symbol, uri, creator),
        ),
{
    let d = create_payload(name, symbol, uri, creator);
    lemma_length_prefixed_len(name);
    lemma_length_prefixed_len(symbol);
    lemma_length_prefixed_len(uri);
    lemma_create_payload_discriminator(name, symbol, uri, creator);
    let rest1 = length_prefixed(symbol) + length_prefixed(uri) + creator;
    assert(d =~= create_discriminator() + length_prefixed(name) + rest1);
    lemma_parse_length_prefixed(create_discriminator(), name, rest1);
    let prefix2 = create_discriminator() + length_prefixed(name);
    let rest2 = length_prefixed(uri) + creator;
    assert(d =~= prefix2 + length_prefixed(symbol) + rest2);
    lemma_parse_length_prefixed(prefix2, symbol, rest2);
    let prefix3 = prefix2 + length_prefixed(symbol);
    assert(d =~= prefix3 + length_prefixed(uri) + creator);
    lemma_parse_length_prefixed(prefix3, uri, creator);
    let pos3 = prefix3.len() + 4 + uri.len();
    assert(d.subrange(pos3 as int, pos3 as int + 32) =~= creator);
}

/// Decoding the payload built from a create record recovers the
/// record: the same strings and the same creator address bytes.
pub proof fn lemma_create_data_round_trip(c: Create)
    requires
        c.wf(),
        c.encodable(),
    ensures
        parse_create_payload(c.payload()) matches Some(p) && decode_utf8(p.0) == c.name@
            && decode_utf8(p.1) == c.symbol@ && decode_utf8(p.2) == c.uri@ && p.3 == c.creator@,
{
    lemma_create_round_trip(
        encode_utf8(c.name@),
        encode_utf8(c.symbol@),
        encode_utf8(c.uri@),
        c.creator@,
    );
    vstd::utf8::encode_utf8_decode_utf8(c.name@);
    vstd::utf8::encode_utf8_decode_utf8(c.symbol@);
    vstd::utf8::encode_utf8_decode_utf8(c.uri@);
}


/// The discriminator of the extended create operation.
pub open spec fn create_v2_discriminator() -> Seq<u8> {
    seq![214u8, 144, 76, 236, 95, 139, 49, 180]
}

/// The payload of the extended create operation: the discriminator,
/// the three length-prefixed strings in declared order, the raw 32
/// creator bytes, then one byte holding the mode flag.
pub open spec fn create_v2_payload(
    name: Seq<u8>,
    symbol: Seq<u8>,
    uri: Seq<u8>,
    creator: Seq<u8>,
    is_mayhem_mode: bool,
) -> Seq<u8> {
    create_v2_discriminator() + length_prefixed(name) + length_prefixed(symbol) + length_prefixed(
        uri,
    ) + creator + seq![if is_mayhem_mode { 1u8 } else { 0u8 }]
}

/// Typed arguments of the extended create operation.
#[derive(Clone, Debug)]
pub struct CreateV2 {
    /// Name of the token to be created.
    pub name: String,
    /// Symbol of the token to be created.
    pub symbol: String,
    /// Metadata location for the token.
    pub uri: String,
    /// Address of the token creator.
    pub creator: Address,
    /// Whether the auxiliary mode is enabled for this token.
    pub is_mayhem_mode: bool,
}

impl CreateV2 {
    /// The creator address holds its 32 bytes.
    pub open spec fn wf(&self) -> bool {
        self.creator.wf()
    }

    /// Every string field fits its 32-bit length prefix.
    pub open spec fn encodable(&self) -> bool {
        &&& encode_utf8(self.name@).len() <= u32::MAX
        &&& encode_utf8(self.symbol@).len() <= u32::MAX
        &&& encode_utf8(self.uri@).len() <= u32::MAX
    }

    /// The exact payload bytes of this record.
    pub open spec fn payload(&self) -> Seq<u8> {
        create_v2_payload(
            encode_utf8(self.name@),
            encode_utf8(self.symbol@),
            encode_utf8(self.uri@),
            self.creator@,
            self.is_mayhem_mode,
        )
    }

    /// Serializes the discriminator and the fields in declared order.
    /// A string too long for its length prefix is reported, never
    /// partially written.
    pub fn data(&self) -> (r: Result<Vec<u8>, BuildError>)
        ensures
            r is Ok <==> self.encodable(),
            r matches Ok(d) ==> d@ == self.payload(),
            r matches Err(e) ==> e == BuildError::StringTooLong,
    {
        let mut out: Vec<u8> = vec![214u8, 144, 76, 236, 95, 139, 49, 180];
        proof {
            assert(out@ =~= create_v2_discriminator());
        }
        let name_bytes = self.name.as_str().as_bytes_vec();
        if !push_length_prefixed(&mut out, &name_bytes) {
            return Err(BuildError::StringTooLong);
        }
        let symbol_bytes = self.symbol.as_str().as_bytes_vec();
        if !push_length_prefixed(&mut out, &symbol_bytes) {
            return Err(BuildError::StringTooLong);
        }
        let uri_bytes = self.uri.as_str().as_bytes_vec();
        if !push_length_prefixed(&mut out, &uri_bytes) {
            return Err(BuildError::StringTooLong);
        }
        let mut creator_bytes = self.creator.to_bytes_vec();
        out.append(&mut creator_bytes);
        if self.is_mayhem_mode {
            out.push(1);
        } else {
            out.push(0);
        }
        proof {
            assert(out@ =~= self.payload());
        }
        Ok(out)
    }
}

/// The derived global-parameters address of the auxiliary program,
/// where derivation succeeds.
pub open spec fn global_params_address() -> Seq<u8> {
    pda_address(global_params_pda_seeds(), mayhem_program_id())->0
}

/// The derived native-token vault address of the auxiliary program,
/// where derivation succeeds.
pub open spec fn sol_vault_address() -> Seq<u8> {
    pda_address(sol_vault_pda_seeds(), mayhem_program_id())->0
}

/// The derived per-mint state address of the auxiliary program, where
/// derivation succeeds.
pub open spec fn mayhem_state_address(mint: Seq<u8>) -> Seq<u8> {
    pda_address(mayhem_state_pda_seeds(mint), mayhem_program_id())->0
}

/// The derived per-mint token vault address of the auxiliary program,
/// where derivation succeeds.
pub open spec fn token_vault_address(mint: Seq<u8>) -> Seq<u8> {
    pda_address(token_vault_pda_seeds(mint), mayhem_program_id())->0
}

/// Whether every address the extended create operation derives can be
/// derived for this mint.  The associated account is derived under the
/// extended token-standard program, not the classic one.
pub open spec fn create_v2_derivations_ok(mint: Seq<u8>) -> bool {
    &&& pda_address(mint_authority_pda_seeds(), pumpfun_program_id()) is Some
    &&& pda_address(bonding_curve_pda_seeds(mint), pumpfun_program_id()) is Some
    &&& pda_address(
        associated_token_seeds(bonding_curve_address(mint), token_2022_program_id(), mint),
        associated_token_program_id(),
    ) is Some
    &&& pda_address(global_pda_seeds(), pumpfun_program_id()) is Some
    &&& pda_address(global_params_pda_seeds(), mayhem_program_id()) is Some
    &&& pda_address(sol_vault_pda_seeds(), mayhem_program_id()) is Some
    &&& pda_address(mayhem_state_pda_seeds(mint), mayhem_program_id()) is Some
    &&& pda_address(token_vault_pda_seeds(mint), mayhem_program_id()) is Some
}

/// The full account table of the extended create operation: exact
/// addresses, exact order, exact signer/writable flags.
pub open spec fn create_v2_accounts_spec(payer: Seq<u8>, mint: Seq<u8>) -> Seq<
    (Seq<u8>, bool, bool),
> {
    seq![
        (mint, true, true),
        (mint_authority_address(), false, true),
        (bonding_curve_address(mint), false, true),
        (associated_bonding_curve_address(mint, token_2022_program_id()), false, true),
        (global_address(), false, false),
        (payer, true, true),
        (system_program_id(), false, false),
        (token_2022_program_id(), false, false),
        (associated_token_program_id(), false, false),
        (mayhem_program_id(), false, true),
        (global_params_address(), false, false),
        (sol_vault_address(), false, true),
        (mayhem_state_address(mint), false, true),
        (token_vault_address(mint), false, true),
        (event_authority_id(), false, false),
        (pumpfun_program_id(), false, false),
    ]
}

/// Builds the extended create instruction for a payer and a fresh
/// mint.  On success the descriptor addresses the program, carries the
/// exact payload of `args`, and lists exactly the documented sixteen
/// accounts in order; on failure nothing is returned.
pub fn create_v2(payer: &Address, mint: &Address, args: CreateV2) -> (r: Result<
    Instruction,
    BuildError,
>)
    requires
        payer.wf(),
        mint.wf(),
        args.wf(),
    ensures
        r is Ok <==> args.encodable() && create_v2_derivations_ok(mint@),
        r matches Ok(ins) ==> {
            &&& ins.wf()
            &&& ins.program_id@ == pumpfun_program_id()
            &&& ins.data@ == args.payload()
            &&& accounts_view(ins.accounts@) == create_v2_accounts_spec(payer@, mint@)
        },
        r matches Err(e) ==> (e == BuildError::StringTooLong && !args.encodable() || e
            == BuildError::DerivationFailed && !create_v2_derivations_ok(mint@)),
{
    let data = match args.data() {
        Ok(d) => d,
        Err(e) => {
            return Err(e);
        },
    };
    let mint_authority = match get_mint_authority_pda() {
        Some(a) => a,
        None => {
            return Err(BuildError::DerivationFailed);
        },
    };
    let bonding_curve = match get_bonding_curve_pda(mint) {
        Some(a) => a,
        None => {
            return Err(BuildError::DerivationFailed);
        },
    };
    // The associated account must be derived under the extended
    // token-standard program; the classic program would silently give
    // a wrong address.
    let associated_bonding_curve = match get_associated_token_address_with_program(
        &bonding_curve,
        mint,
        &token_2022_program(),
    ) {
        Some(a) => a,
        None => {
            return Err(BuildError::DerivationFailed);
        },
    };
    let global = match get_global_pda() {
        Some(a) => a,
        None => {
            return Err(BuildError::DerivationFailed);
        },
    };
    let global_params = match get_global_params_pda() {
        Some(a) => a,
        None => {
            return Err(BuildError::DerivationFailed);
        },
    };
    let sol_vault = match get_sol_vault_pda() {
        Some(a) => a,
        None => {
            return Err(BuildError::DerivationFailed);
        },
    };
    let mayhem_state = match get_mayhem_state_pda(mint) {
        Some(a) => a,
        None => {
            return Err(BuildError::DerivationFailed);
        },
    };
    let token_vault = match get_token_vault_pda(mint) {
        Some(a) => a,
        None => {
            return Err(BuildError::DerivationFailed);
        },
    };
    let accounts: Vec<AccountMeta> = vec![
        AccountMeta::new(mint.dup(), true),
        AccountMeta::new(mint_authority, false),
        AccountMeta::new(bonding_curve, false),
        AccountMeta::new(associated_bonding_curve, false),
        AccountMeta::new_readonly(global, false),
        AccountMeta::new(payer.dup(), true),
        AccountMeta::new_readonly(system_program(), false),
        AccountMeta::new_readonly(token_2022_program(), false),
        AccountMeta::new_readonly(associated_token_program(), false),
        AccountMeta::new(mayhem_program(), false),
        AccountMeta::new_readonly(global_params, false),
        AccountMeta::new(sol_vault, false),
        AccountMeta::new(mayhem_state, false),
        AccountMeta::new(token_vault, false),
        AccountMeta::new_readonly(event_authority(), false),
        AccountMeta::new_readonly(pumpfun_program(), false),
    ];
    let ins = Instruction { program_id: pumpfun_program(), accounts, data };
    proof {
        assert(accounts_view(ins.accounts@) =~= create_v2_accounts_spec(payer@, mint@));
        assert(ins.wf());
    }
    Ok(ins)
}

/// The payload of every extended create call begins with the fixed
/// discriminator, whatever the field values.
pub proof fn lemma_create_v2_payload_discriminator(
    name: Seq<u8>,
    symbol: Seq<u8>,
    uri: Seq<u8>,
    creator: Seq<u8>,
    is_mayhem_mode: bool,
)
    ensures
        create_v2_payload(name, symbol, uri, creator, is_mayhem_mode).len() >= 8,
        create_v2_payload(name, symbol, uri, creator, is_mayhem_mode).take(8)
            == create_v2_discriminator(),
{
    lemma_length_prefixed_len(name);
    lemma_length_prefixed_len(symbol);
    lemma_length_prefixed_len(uri);
    assert(create_v2_payload(name, symbol, uri, creator, is_mayhem_mode).take(8)
        =~= create_v2_discriminator());
}

/// The account table of the extended create operation has the same
/// length and the same signer/writable flags at every position,
/// whatever the concrete addresses.
pub proof fn lemma_create_v2_account_shape(p1: Seq<u8>, m1: Seq<u8>, p2: Seq<u8>, m2: Seq<u8>)
    ensures
        create_v2_accounts_spec(p1, m1).len() == 16,
        create_v2_accounts_spec(p2, m2).len() == 16,
        forall|i: int|
            0 <= i < 16 ==> (#[trigger] create_v2_accounts_spec(p1, m1)[i]).1
                == create_v2_accounts_spec(p2, m2)[i].1 && create_v2_accounts_spec(p1, m1)[i].2
                == create_v2_accounts_spec(p2, m2)[i].2,
{
}

/// What decoding an extended create payload yields: the three strings'
/// bytes, the creator bytes and the mode flag, or nothing when the
/// bytes do not follow the field-order schema exactly.
pub open spec fn parse_create_v2_payload(d: Seq<u8>) -> Option<
    (Seq<u8>, Seq<u8>, Seq<u8>, Seq<u8>, bool),
> {
    if d.len() >= 8 && d.take(8) == create_v2_discriminator() {
        match parse_length_prefixed(d, 8) {
            Some(name_p) => match parse_length_prefixed(d, name_p.1) {
                Some(symbol_p) => match parse_length_prefixed(d, symbol_p.1) {
                    Some(uri_p) => if uri_p.1 + 33 == d.len() && (d.last() == 0 || d.last() == 1) {
                        Some(
                            (
                                name_p.0,
                                symbol_p.0,
                                uri_p.0,
                                d.subrange(uri_p.1, uri_p.1 + 32),
                                d.last() == 1,
                            ),
                        )
                    } else {
                        None
                    },
                    None => None,
                },
                None => None,
            },
            None => None,
        }
    } else {
        None
    }
}

/// Decoding the payload produced for any field values recovers those
/// values exactly: the string bytes with their lengths, the creator
/// bytes, and the mode flag.
pub proof fn lemma_create_v2_round_trip(
    name: Seq<u8>,
    symbol: Seq<u8>,
    uri: Seq<u8>,
    creator: Seq<u8>,
    is_mayhem_mode: bool,
)
    requires
        name.len() <= u32::MAX,
        symbol.len() <= u32::MAX,
        uri.len() <= u32::MAX,
        creator.len() == 32,
    ensures
        parse_create_v2_payload(create_v2_payload(name, symbol, uri, creator, is_mayhem_mode))
            == Some((name, symbol, uri, creator, is_mayhem_mode)),
{
    let flag = seq![if is_mayhem_mode { 1u8 } else { 0u8 }];
    let d = create_v2_payload(name, symbol, uri, creator, is_mayhem_mode);
    lemma_length_prefixed_len(name);
    lemma_length_prefixed_len(symbol);
    lemma_length_prefixed_len(uri);
    lemma_create_v2_payload_discriminator(name, symbol, uri, creator, is_mayhem_mode);
    let rest1 = length_prefixed(symbol) + length_prefixed(uri) + creator + flag;
    assert(d =~= create_v2_discriminator() + length_prefixed(name) + rest1);
    lemma_parse_length_prefixed(create_v2_discriminator(), name, rest1);
    let prefix2 = create_v2_discriminator() + length_prefixed(name);
    let rest2 = length_prefixed(uri) + creator + flag;
    assert(d =~= prefix2 + length_prefixed(symbol) + rest2);
    lemma_parse_length_prefixed(prefix2, symbol, rest2);
    let prefix3 = prefix2 + length_prefixed(symbol);
    assert(d =~= prefix3 + length_prefixed(uri) + (creator + flag));
    lemma_parse_length_prefixed(prefix3, uri, creator + flag);
    let pos3 = prefix3.len() + 4 + uri.len();
    assert(d.subrange(pos3 as int, pos3 as int + 32) =~= creator);
    assert(d.last() == flag[0]);
}

/// Decoding the payload built from an extended create record recovers
/// the record: the same strings, the same creator address bytes, and
/// the same mode flag.
pub proof fn lemma_create_v2_data_round_trip(c: CreateV2)
    requires
        c.wf(),
        c.encodable(),
    ensures
        parse_create_v2_payload(c.payload()) matches Some(p) && decode_utf8(p.0) == c.name@
            && decode_utf8(p.1) == c.symbol@ && decode_utf8(p.2) == c.uri@ && p.3 == c.creator@
            && p.4 == c.is_mayhem_mode,
{
    lemma_create_v2_round_trip(
        encode_utf8(c.name@),
        encode_utf8(c.symbol@),
        encode_utf8(c.uri@),
        c.creator@,
        c.is_mayhem_mode,
    );
    vstd::utf8::encode_utf8_decode_utf8(c.name@);
    vstd::utf8::encode_utf8_decode_utf8(c.symbol@);
    vstd::utf8::encode_utf8_decode_utf8(c.uri@);
}


/// Decodes an extended create payload back into its typed arguments.
/// Nothing is returned exactly when the bytes do not follow the
/// schema or a string field does not decode as text.
pub fn parse_create_v2(data: &Vec<u8>) -> (r: Option<CreateV2>)
    ensures
        match r {
            Some(c) => {
                &&& c.wf()
                &&& parse_create_v2_payload(data@) matches Some(p)
                &&& encode_utf8(c.name@) == p.0
                &&& encode_utf8(c.symbol@) == p.1
                &&& encode_utf8(c.uri@) == p.2
                &&& c.creator@ == p.3
                &&& c.is_mayhem_mode == p.4
            },
            None => parse_create_v2_payload(data@) is None || (parse_create_v2_payload(data@)
                matches Some(p) && !(valid_utf8(p.0) && valid_utf8(p.1) && valid_utf8(p.2))),
        },
{
    broadcast use vstd::utf8::decode_utf8_encode_utf8;

    if data.len() < 8 {
        return None;
    }
    let disc_ok = data[0] == 214 && data[1] == 144 && data[2] == 76 && data[3] == 236 && data[4]
        == 95 && data[5] == 139 && data[6] == 49 && data[7] == 180;
    proof {
        assert forall|i: int| 0 <= i < 8 implies data@.take(8)[i] == data@[i] by {}
    }
    if !disc_ok {
        proof {
            if data@.take(8) == create_v2_discriminator() {
                assert(data@[0] == 214 && data@[1] == 144 && data@[2] == 76 && data@[3] == 236
                    && data@[4] == 95 && data@[5] == 139 && data@[6] == 49 && data@[7] == 180);
            }
        }
        return None;
    }
    proof {
        assert(data@.take(8) =~= create_v2_discriminator());
    }
    let name_part = match read_length_prefixed(data, 8) {
        Some(p) => p,
        None => {
            return None;
        },
    };
    let symbol_part = match read_length_prefixed(data, name_part.1) {
        Some(p) => p,
        None => {
            return None;
        },
    };
    let uri_part = match read_length_prefixed(data, symbol_part.1) {
        Some(p) => p,
        None => {
            return None;
        },
    };
    let pos = uri_part.1;
    if data.len() - pos != 33 {
        return None;
    }
    let flag_byte = data[data.len() - 1];
    proof {
        assert(data@.last() == data@[data@.len() - 1]);
    }
    if flag_byte != 0 && flag_byte != 1 {
        return None;
    }
    let creator_bytes = vstd::slice::slice_to_vec(
        vstd::slice::slice_subrange(data.as_slice(), pos, pos + 32),
    );
    let name = match string_from_utf8(name_part.0) {
        Some(s) => s,
        None => {
            return None;
        },
    };
    let symbol = match string_from_utf8(symbol_part.0) {
        Some(s) => s,
        None => {
            return None;
        },
    };
    let uri = match string_from_utf8(uri_part.0) {
        Some(s) => s,
        None => {
            return None;
        },
    };
    Some(
        CreateV2 {
            name,
            symbol,
            uri,
            creator: Address::from_bytes(creator_bytes),
            is_mayhem_mode: flag_byte == 1,
        },
    )
}

} // verus!
