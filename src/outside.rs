//! Outside types that the library carries through its data.

use vstd::prelude::*;

verus! {

/// Makes `Pubkey` (anchor_lang's re-export of the Solana address type) usable
/// in signatures and fields. Values of it are only carried, never inspected.
#[verifier::external_type_specification]
#[verifier::external_body]
pub struct ExPubkey(anchor_lang::prelude::Pubkey);

} // verus!
