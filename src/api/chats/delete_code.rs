//! Bodies of the code revocation endpoint.

use vstd::prelude::*;

verus! {

/// The answer to a code revocation.
#[derive(Clone, Debug)]
pub struct DeleteCodeResponse {
    pub message: String,
}

} // verus!
