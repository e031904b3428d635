//! Bodies of the code issuing endpoint.

use vstd::prelude::*;

verus! {

/// A newly issued pairing code.
#[derive(Clone, Debug)]
pub struct CreateChatResponse {
    pub message: String,
    pub code: u16,
}

} // verus!
