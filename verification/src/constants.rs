use vstd::prelude::*;

verus! {

/// Longest accepted external reference, in characters.
pub const MAX_ID_LENGTH: usize = 128;

/// Longest accepted post text, in characters.
pub const MAX_TEXT_LENGTH: usize = 499;

/// Exact payment required to create a post, in native units.
pub const CREATE_FEE: u128 = 1_000_000;

/// Exact payment required to edit a post, in native units.
pub const EDIT_FEE: u128 = 2_000_000;

/// Exact payment required to delete a post, in native units.
pub const DELETE_FEE: u128 = 10_000_000;

/// Reward sent to the original author when a post is edited.
pub const AUTHOR_SHARE: u128 = 500_000;

/// Hard cap on the page size of a listing.
pub const MAX_LIMIT: u32 = 30;

/// Page size of a listing when the caller gives none.
pub const DEFAULT_LIMIT: u32 = 10;

/// The administrator identity: the only caller allowed to initialize the
/// system or sweep the treasury.
pub open spec fn spec_admin() -> Seq<char> {
    "juno1w5aespcyddns7y696q9wlch4ehflk2wglu9vv4"@
}

/// The fixed payout address of the treasury sweep.
pub open spec fn spec_payout_address() -> Seq<char> {
    "juno1ggtuwvungvx5t3awqpcqvxxvgt7gvwdkanuwtm"@
}

/// The approved gateway prefix every external reference must start with.
pub open spec fn spec_gateway_prefix() -> Seq<char> {
    "https://alxandria.infura-ipfs.io/ipfs/"@
}

/// The native currency denomination of all fees and payouts.
pub open spec fn spec_denom() -> Seq<char> {
    "ujunox"@
}

/// The fixed notice that replaces the text of a deleted post.
pub open spec fn spec_deletion_notice() -> Seq<char> {
    "This post has been deleted."@
}

/// The single sentinel tag of a deleted post.
pub open spec fn spec_deleted_tag() -> Seq<char> {
    "Deleted"@
}

pub fn admin() -> (r: &'static str)
    ensures
        r@ == spec_admin(),
{
    "juno1w5aespcyddns7y696q9wlch4ehflk2wglu9vv4"
}

pub fn payout_address() -> (r: &'static str)
    ensures
        r@ == spec_payout_address(),
{
    "juno1ggtuwvungvx5t3awqpcqvxxvgt7gvwdkanuwtm"
}

pub fn gateway_prefix() -> (r: &'static str)
    ensures
        r@ == spec_gateway_prefix(),
{
    "https://alxandria.infura-ipfs.io/ipfs/"
}

pub fn denom() -> (r: &'static str)
    ensures
        r@ == spec_denom(),
{
    "ujunox"
}

pub fn deletion_notice() -> (r: &'static str)
    ensures
        r@ == spec_deletion_notice(),
{
    "This post has been deleted."
}

pub fn deleted_tag() -> (r: &'static str)
    ensures
        r@ == spec_deleted_tag(),
{
    "Deleted"
}

} // verus!
