//! Bodies of the conversation creation endpoint.

use vstd::prelude::*;

verus! {

/// A newly issued pairing code.
#[derive(Clone, Debug)]
pub struct CreateChatResponse {
    pub code: u32,
}

} // verus!
