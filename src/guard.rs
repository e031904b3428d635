//! The participation guard: only the two parties of a conversation read or
//! write its messages.

use vstd::prelude::*;
use crate::error::{ApiError, StoreError};

verus! {

/// A two-party conversation. Its participants are distinct and stored in
/// increasing order.
#[derive(Clone, Copy, Debug, PartialEq, Eq, Structural)]
pub struct Conversation {
    pub id: u128,
    pub user_id_1: i64,
    pub user_id_2: i64,
}

impl Conversation {
    /// The participants are distinct and in increasing order.
    pub open spec fn wf(&self) -> bool {
        self.user_id_1 < self.user_id_2
    }

    /// `user` is one of the two participants.
    pub open spec fn has(&self, user: i64) -> bool {
        user == self.user_id_1 || user == self.user_id_2
    }

    /// The conversation `id` between `a` and `b`, participants in canonical
    /// order; `None` when `a` and `b` are the same user.
    pub fn between(id: u128, a: i64, b: i64) -> (r: Option<Conversation>)
        ensures
            a == b <==> r is None,
            r matches Some(c) ==> c.wf() && c.id == id && c.has(a) && c.has(b),
    {
        if a < b {
            Some(Conversation { id, user_id_1: a, user_id_2: b })
        } else if b < a {
            Some(Conversation { id, user_id_1: b, user_id_2: a })
        } else {
            None
        }
    }

    /// Whether `user` is one of the two participants.
    pub fn is_participant(&self, user: i64) -> (r: bool)
        ensures
            r == self.has(user),
    {
        user == self.user_id_1 || user == self.user_id_2
    }
}

/// The outcome of a participation lookup: a participant passes, anyone else
/// is refused (403), and a failed lookup is an internal error (500), never a
/// refusal.
pub fn participation_gate(lookup: Result<bool, StoreError>) -> (r: Result<(), ApiError>)
    ensures
        lookup == Ok::<bool, StoreError>(true) <==> r is Ok,
        lookup == Ok::<bool, StoreError>(false) ==> r == Err::<(), ApiError>(ApiError::NotParticipant),
        lookup is Err ==> (r matches Err(ApiError::Internal(_))),
{
    match lookup {
        Ok(true) => Ok(()),
        Ok(false) => Err(ApiError::NotParticipant),
        Err(_) => Err(ApiError::Internal("An error occurred while verifying conversation access.".to_string())),
    }
}

} // verus!
