//! Account addresses as plain 32-byte values, and the fixed program
//! identifiers the instruction builders refer to.

use vstd::prelude::*;

verus! {

/// A 32-byte account address, held as plain bytes.
///
/// Equality and ordering are byte-wise; the derived impls are only for
/// use outside verified code (tests and callers).
#[derive(Clone, Debug, PartialEq, Eq, Hash)]
pub struct Address {
    pub bytes: Vec<u8>,
}

impl View for Address {
    type V = Seq<u8>;

    open spec fn view(&self) -> Seq<u8> {
        self.bytes@
    }
}

impl Address {
    /// A value is well formed when it holds exactly 32 bytes.
    pub open spec fn wf(&self) -> bool {
        self.bytes@.len() == 32
    }

    /// Builds an address from its 32 raw bytes.
    pub fn from_bytes(bytes: Vec<u8>) -> (r: Address)
        requires
            bytes@.len() == 32,
        ensures
            r.wf(),
            r@ == bytes@,
    {
        Address { bytes }
    }

    /// An owned copy holding the same bytes.
    pub fn dup(&self) -> (r: Address)
        ensures
            r@ == self@,
    {
        let bytes = vstd::slice::slice_to_vec(self.bytes.as_slice());
        Address { bytes }
    }

    /// The bytes of the address as an owned vector.
    pub fn to_bytes_vec(&self) -> (r: Vec<u8>)
        ensures
            r@ == self@,
    {
        vstd::slice::slice_to_vec(self.bytes.as_slice())
    }
}

/// The on-chain program all instructions here are addressed to.
pub open spec fn pumpfun_program_id() -> Seq<u8> {
    seq![1u8, 86, 224, 246, 147, 102, 90, 207, 68, 219, 21, 104, 191, 23, 91, 170, 81, 137, 203, 151, 245, 210, 255, 59, 101, 93, 43, 182, 253, 109, 24, 176]
}

/// The on-chain program all instructions here are addressed to.
pub fn pumpfun_program() -> (r: Address)
    ensures
        r.wf(),
        r@ == pumpfun_program_id(),
{
    let bytes: Vec<u8> = vec![1u8, 86, 224, 246, 147, 102, 90, 207, 68, 219, 21, 104, 191, 23, 91, 170, 81, 137, 203, 151, 245, 210, 255, 59, 101, 93, 43, 182, 253, 109, 24, 176];
    let r = Address { bytes };
    proof {
        assert(r@ =~= pumpfun_program_id());
    }
    r
}

/// The token-metadata program that owns metadata accounts.
pub open spec fn mpl_token_metadata_program_id() -> Seq<u8> {
    seq![11u8, 112, 101, 177, 227, 209, 124, 69, 56, 157, 82, 127, 107, 4, 195, 205, 88, 184, 108, 115, 26, 160, 253, 181, 73, 182, 209, 188, 3, 248, 41, 70]
}

/// The token-metadata program that owns metadata accounts.
pub fn mpl_token_metadata_program() -> (r: Address)
    ensures
        r.wf(),
        r@ == mpl_token_metadata_program_id(),
{
    let bytes: Vec<u8> = vec![11u8, 112, 101, 177, 227, 209, 124, 69, 56, 157, 82, 127, 107, 4, 195, 205, 88, 184, 108, 115, 26, 160, 253, 181, 73, 182, 209, 188, 3, 248, 41, 70];
    let r = Address { bytes };
    proof {
        assert(r@ =~= mpl_token_metadata_program_id());
    }
    r
}

/// The system program.
pub open spec fn system_program_id() -> Seq<u8> {
    seq![0u8, 0, 0, 0, 0, 0, 0, 0, 0, 0, 0, 0, 0, 0, 0, 0, 0, 0, 0, 0, 0, 0, 0, 0, 0, 0, 0, 0, 0, 0, 0, 0]
}

/// The system program.
pub fn system_program() -> (r: Address)
    ensures
        r.wf(),
        r@ == system_program_id(),
{
    let bytes: Vec<u8> = vec![0u8, 0, 0, 0, 0, 0, 0, 0, 0, 0, 0, 0, 0, 0, 0, 0, 0, 0, 0, 0, 0, 0, 0, 0, 0, 0, 0, 0, 0, 0, 0, 0];
    let r = Address { bytes };
    proof {
        assert(r@ =~= system_program_id());
    }
    r
}

/// The classic token program.
pub open spec fn token_program_id() -> Seq<u8> {
    seq![6u8, 221, 246, 225, 215, 101, 161, 147, 217, 203, 225, 70, 206, 235, 121, 172, 28, 180, 133, 237, 95, 91, 55, 145, 58, 140, 245, 133, 126, 255, 0, 169]
}

/// The classic token program.
pub fn token_program() -> (r: Address)
    ensures
        r.wf(),
        r@ == token_program_id(),
{
    let bytes: Vec<u8> = vec![6u8, 221, 246, 225, 215, 101, 161, 147, 217, 203, 225, 70, 206, 235, 121, 172, 28, 180, 133, 237, 95, 91, 55, 145, 58, 140, 245, 133, 126, 255, 0, 169];
    let r = Address { bytes };
    proof {
        assert(r@ =~= token_program_id());
    }
    r
}

/// The extended token-standard program.
pub open spec fn token_2022_program_id() -> Seq<u8> {
    seq![6u8, 221, 246, 225, 238, 117, 143, 222, 24, 66, 93, 188, 228, 108, 205, 218, 182, 26, 252, 77, 131, 185, 13, 39, 254, 189, 249, 40, 216, 161, 139, 252]
}

/// The extended token-standard program.
pub fn token_2022_program() -> (r: Address)
    ensures
        r.wf(),
        r@ == token_2022_program_id(),
{
    let bytes: Vec<u8> = vec![6u8, 221, 246, 225, 238, 117, 143, 222, 24, 66, 93, 188, 228, 108, 205, 218, 182, 26, 252, 77, 131, 185, 13, 39, 254, 189, 249, 40, 216, 161, 139, 252];
    let r = Address { bytes };
    proof {
        assert(r@ =~= token_2022_program_id());
    }
    r
}

/// The associated-token-account program.
pub open spec fn associated_token_program_id() -> Seq<u8> {
    seq![140u8, 151, 37, 143, 78, 36, 137, 241, 187, 61, 16, 41, 20, 142, 13, 131, 11, 90, 19, 153, 218, 255, 16, 132, 4, 142, 123, 216, 219, 233, 248, 89]
}

/// The associated-token-account program.
pub fn associated_token_program() -> (r: Address)
    ensures
        r.wf(),
        r@ == associated_token_program_id(),
{
    let bytes: Vec<u8> = vec![140u8, 151, 37, 143, 78, 36, 137, 241, 187, 61, 16, 41, 20, 142, 13, 131, 11, 90, 19, 153, 218, 255, 16, 132, 4, 142, 123, 216, 219, 233, 248, 89];
    let r = Address { bytes };
    proof {
        assert(r@ =~= associated_token_program_id());
    }
    r
}

/// The rent sysvar account.
pub open spec fn rent_sysvar_id() -> Seq<u8> {
    seq![6u8, 167, 213, 23, 25, 44, 92, 81, 33, 140, 201, 76, 61, 74, 241, 127, 88, 218, 238, 8, 155, 161, 253, 68, 227, 219, 217, 138, 0, 0, 0, 0]
}

/// The rent sysvar account.
pub fn rent_sysvar() -> (r: Address)
    ensures
        r.wf(),
        r@ == rent_sysvar_id(),
{
    let bytes: Vec<u8> = vec![6u8, 167, 213, 23, 25, 44, 92, 81, 33, 140, 201, 76, 61, 74, 241, 127, 88, 218, 238, 8, 155, 161, 253, 68, 227, 219, 217, 138, 0, 0, 0, 0];
    let r = Address { bytes };
    proof {
        assert(r@ =~= rent_sysvar_id());
    }
    r
}

/// The event-authority account of the program.
pub open spec fn event_authority_id() -> Seq<u8> {
    seq![172u8, 241, 54, 235, 1, 252, 28, 78, 136, 61, 35, 200, 181, 132, 74, 181, 154, 55, 246, 106, 221, 87, 197, 233, 172, 59, 83, 224, 89, 211, 92, 100]
}

/// The event-authority account of the program.
pub fn event_authority() -> (r: Address)
    ensures
        r.wf(),
        r@ == event_authority_id(),
{
    let bytes: Vec<u8> = vec![172u8, 241, 54, 235, 1, 252, 28, 78, 136, 61, 35, 200, 181, 132, 74, 181, 154, 55, 246, 106, 221, 87, 197, 233, 172, 59, 83, 224, 89, 211, 92, 100];
    let r = Address { bytes };
    proof {
        assert(r@ =~= event_authority_id());
    }
    r
}

/// The auxiliary program the extended create operation touches.
pub open spec fn mayhem_program_id() -> Seq<u8> {
    seq![10u8, 152, 95, 173, 96, 37, 193, 66, 139, 173, 191, 187, 237, 193, 65, 87, 162, 75, 81, 153, 10, 177, 49, 126, 140, 65, 57, 17, 236, 35, 170, 21]
}

/// The auxiliary program the extended create operation touches.
pub fn mayhem_program() -> (r: Address)
    ensures
        r.wf(),
        r@ == mayhem_program_id(),
{
    let bytes: Vec<u8> = vec![10u8, 152, 95, 173, 96, 37, 193, 66, 139, 173, 191, 187, 237, 193, 65, 87, 162, 75, 81, 153, 10, 177, 49, 126, 140, 65, 57, 17, 236, 35, 170, 21];
    let r = Address { bytes };
    proof {
        assert(r@ =~= mayhem_program_id());
    }
    r
}

} // verus!
