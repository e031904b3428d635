//! Bodies of the pairing-code revocation endpoint.

use vstd::prelude::*;

verus! {

/// Revocation of one of the caller's pairing codes.
#[derive(Clone, Debug)]
pub struct ApiChatsCodesDeleteRequest {
    pub code: u16,
}

/// The answer to a code revocation or redemption.
#[derive(Clone, Debug)]
pub struct ApiChatsCodeDeleteResponse {
    pub message: String,
    pub conversation_id: Option<u128>,
}

} // verus!
