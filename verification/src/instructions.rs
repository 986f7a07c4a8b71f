//! The instruction builders: the call descriptor types, and one module
//! per operation family.

pub mod create;
pub mod extend_account;

use crate::address::Address;
use vstd::prelude::*;

verus! {

/// One account reference of an instruction: an address and its signer
/// and writable flags.  The position of a reference in the account
/// list is significant: the program indexes accounts positionally, so
/// the order is part of the wire contract.
#[derive(Clone, Debug)]
pub struct AccountMeta {
    /// The referenced account.
    pub pubkey: Address,
    /// Whether the account must sign the transaction.
    pub is_signer: bool,
    /// Whether the program may write to the account.
    pub is_writable: bool,
}

impl AccountMeta {
    /// A writable account reference.
    pub fn new(pubkey: Address, is_signer: bool) -> (r: AccountMeta)
        ensures
            r.pubkey == pubkey,
            r.is_signer == is_signer,
            r.is_writable,
    {
        AccountMeta { pubkey, is_signer, is_writable: true }
    }

    /// A read-only account reference.
    pub fn new_readonly(pubkey: Address, is_signer: bool) -> (r: AccountMeta)
        ensures
            r.pubkey == pubkey,
            r.is_signer == is_signer,
            !r.is_writable,
    {
        AccountMeta { pubkey, is_signer, is_writable: false }
    }
}

/// The mathematical shape of one account reference: address bytes,
/// signer flag, writable flag.
pub open spec fn account_view(a: AccountMeta) -> (Seq<u8>, bool, bool) {
    (a.pubkey@, a.is_signer, a.is_writable)
}

/// The shape of a whole account list.
pub open spec fn accounts_view(s: Seq<AccountMeta>) -> Seq<(Seq<u8>, bool, bool)> {
    s.map_values(|a: AccountMeta| account_view(a))
}

/// One fully assembled call into the program: the program addressed,
/// the ordered account references, and the serialized payload.
#[derive(Clone, Debug)]
pub struct Instruction {
    /// The program that executes the instruction.
    pub program_id: Address,
    /// The ordered account references the instruction touches.
    pub accounts: Vec<AccountMeta>,
    /// The discriminator-prefixed payload bytes.
    pub data: Vec<u8>,
}

impl Instruction {
    /// Every address held by the instruction is well formed.
    pub open spec fn wf(&self) -> bool {
        &&& self.program_id.wf()
        &&& forall|i: int|
            0 <= i < self.accounts@.len() ==> (#[trigger] self.accounts@[i]).pubkey.wf()
    }
}

} // verus!
