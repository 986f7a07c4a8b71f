//! Token-metadata records, the pure parts of the uploader, and the
//! slippage helpers.

pub mod json;
pub mod multipart;
pub mod response;

use vstd::prelude::*;

verus! {

/// A token's display metadata, in the shape the upload endpoint echoes
/// back.
#[derive(Clone, Debug)]
pub struct TokenMetadata {
    /// Name of the token.
    pub name: String,
    /// Token symbol.
    pub symbol: String,
    /// Description of the token.
    pub description: String,
    /// Location of the token's image.
    pub image: String,
    /// Whether to display the token's name.
    pub show_name: bool,
    /// Creation source.
    pub created_on: String,
    /// Optional social handle.
    pub twitter: Option<String>,
    /// Optional social handle.
    pub telegram: Option<String>,
    /// Optional website location.
    pub website: Option<String>,
}

/// What a successful image upload yields.
#[derive(Clone, Debug)]
pub struct ImageUploadResponse {
    /// Location where the image is stored.
    pub image_uri: String,
}

/// What a successful metadata upload yields.
#[derive(Clone, Debug)]
pub struct TokenMetadataResponse {
    /// The uploaded token metadata.
    pub metadata: TokenMetadata,
    /// Location where the metadata is stored.
    pub metadata_uri: String,
}

/// Caller-supplied inputs for creating new token metadata.
#[derive(Clone, Debug)]
pub struct CreateTokenMetadata {
    /// Name of the token.
    pub name: String,
    /// Token symbol.
    pub symbol: String,
    /// Description of the token.
    pub description: String,
    /// Path to the token's image file.
    pub file: String,
    /// Optional social handle.
    pub twitter: Option<String>,
    /// Optional social handle.
    pub telegram: Option<String>,
    /// Optional website location.
    pub website: Option<String>,
}

/// The maximum amount to pay when buying, with a slippage tolerance in
/// basis points added on top.
pub fn calculate_with_slippage_buy(amount: u64, basis_points: u64) -> (r: u64)
    requires
        amount * basis_points <= u64::MAX,
        amount + amount * basis_points / 10000 <= u64::MAX,
    ensures
        r == amount + amount * basis_points / 10000,
{
    amount + (amount * basis_points) / 10000
}

/// The minimum amount to accept when selling, with a slippage tolerance
/// in basis points taken off.  Callers must leave the subtraction
/// non-negative; an input where the tolerance exceeds the amount is a
/// caller validation error, never wrapped arithmetic.
pub fn calculate_with_slippage_sell(amount: u64, basis_points: u64) -> (r: u64)
    requires
        amount * basis_points <= u64::MAX,
        amount * basis_points / 10000 <= amount,
    ensures
        r == amount - amount * basis_points / 10000,
{
    amount - (amount * basis_points) / 10000
}

/// The sell-side slippage calculation with its input validation made
/// explicit: `None` exactly when the product overflows the integer
/// width or the deduction would exceed the amount.
pub fn calculate_with_slippage_sell_checked(amount: u64, basis_points: u64) -> (r: Option<u64>)
    ensures
        r is Some <==> amount * basis_points <= u64::MAX && amount * basis_points / 10000
            <= amount,
        r is Some ==> r->0 == amount - amount * basis_points / 10000,
{
    match amount.checked_mul(basis_points) {
        Some(product) => {
            let deduction = product / 10000;
            if deduction <= amount {
                Some(amount - deduction)
            } else {
                None
            }
        },
        None => None,
    }
}


/// On an input where the truncated deduction exceeds the amount, the
/// explicit sell-side calculation rejects the input: every result it
/// can return there is nothing, never a wrapped value.
pub proof fn lemma_sell_rejects_underflow(amount: u64, basis_points: u64, r: Option<u64>)
    requires
        call_ensures(calculate_with_slippage_sell_checked, (amount, basis_points), r),
        amount * basis_points / 10000 > amount,
    ensures
        r is None,
{
}

/// The bare sell-side calculation never produces a wrapped result:
/// any value it can return is the exact difference, on an input where
/// the truncated deduction does not exceed the amount.  An input where
/// it does is a caller validation error with no result at all.
pub proof fn lemma_sell_no_wrapped_result(amount: u64, basis_points: u64, r: u64)
    requires
        call_ensures(calculate_with_slippage_sell, (amount, basis_points), r),
    ensures
        amount * basis_points / 10000 <= amount,
        r == amount - amount * basis_points / 10000,
{
}

} // verus!
