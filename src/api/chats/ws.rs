//! Bodies of the WebSocket endpoint.

use vstd::prelude::*;

verus! {

/// The conversation that a WebSocket upgrade asks to join.
#[derive(Clone, Debug)]
pub struct ApiChatsWsQuery {
    pub chat_id: Option<u128>,
}

} // verus!
