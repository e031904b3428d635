//! Bodies of the code revocation and redemption endpoints.

use vstd::prelude::*;

verus! {

/// A pairing code to revoke or to redeem.
#[derive(Clone, Debug)]
pub struct DeleteSubmitCodeRequest {
    pub code: u16,
}

/// The answer to a code revocation or redemption.
#[derive(Clone, Debug)]
pub struct DeleteSubmitCodeResponse {
    pub message: String,
}

} // verus!
