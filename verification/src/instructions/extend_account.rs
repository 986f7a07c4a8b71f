//! The account-extension operation: grows a program-owned account.

use crate::address::Address;
use crate::address::event_authority;
use crate::address::event_authority_id;
use crate::address::pumpfun_program;
use crate::address::pumpfun_program_id;
use crate::address::system_program;
use crate::address::system_program_id;
use crate::instructions::AccountMeta;
use crate::instructions::Instruction;
use crate::instructions::accounts_view;
use vstd::prelude::*;

verus! {

/// The discriminator of the account-extension operation.  Its payload
/// is the discriminator alone: the operation has no fields.
pub open spec fn extend_account_discriminator() -> Seq<u8> {
    seq![234u8, 102, 194, 203, 150, 72, 62, 229]
}

/// The full account table of the account-extension operation: exact
/// addresses, exact order, exact signer/writable flags.
pub open spec fn extend_account_accounts_spec(payer: Seq<u8>, account: Seq<u8>) -> Seq<
    (Seq<u8>, bool, bool),
> {
    seq![
        (account, false, true),
        (payer, true, true),
        (system_program_id(), false, false),
        (event_authority_id(), false, false),
        (pumpfun_program_id(), false, false),
    ]
}

/// Builds the instruction that extends a program-owned account.  The
/// descriptor addresses the program, carries the bare discriminator as
/// its payload, and lists exactly the documented five accounts in
/// order.
pub fn extend_account(payer: &Address, account: &Address) -> (r: Instruction)
    requires
        payer.wf(),
        account.wf(),
    ensures
        r.wf(),
        r.program_id@ == pumpfun_program_id(),
        r.data@ == extend_account_discriminator(),
        accounts_view(r.accounts@) == extend_account_accounts_spec(payer@, account@),
{
    let data: Vec<u8> = vec![234u8, 102, 194, 203, 150, 72, 62, 229];
    let accounts: Vec<AccountMeta> = vec![
        AccountMeta::new(account.dup(), false),
        AccountMeta::new(payer.dup(), true),
        AccountMeta::new_readonly(system_program(), false),
        AccountMeta::new_readonly(event_authority(), false),
        AccountMeta::new_readonly(pumpfun_program(), false),
    ];
    let r = Instruction { program_id: pumpfun_program(), accounts, data };
    proof {
        assert(r.data@ =~= extend_account_discriminator());
        assert(accounts_view(r.accounts@) =~= extend_account_accounts_spec(payer@, account@));
        assert(r.wf());
    }
    r
}

/// The account table of the account-extension operation has the same
/// length and the same signer/writable flags at every position,
/// whatever the concrete addresses.
pub proof fn lemma_extend_account_shape(p1: Seq<u8>, a1: Seq<u8>, p2: Seq<u8>, a2: Seq<u8>)
    ensures
        extend_account_accounts_spec(p1, a1).len() == 5,
        extend_account_accounts_spec(p2, a2).len() == 5,
        forall|i: int|
            0 <= i < 5 ==> (#[trigger] extend_account_accounts_spec(p1, a1)[i]).1
                == extend_account_accounts_spec(p2, a2)[i].1 && extend_account_accounts_spec(
                p1,
                a1,
            )[i].2 == extend_account_accounts_spec(p2, a2)[i].2,
{
}

} // verus!
