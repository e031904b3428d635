//! Pairing codes: a user issues short numeric codes, and another user redeems
//! one to open a conversation with the issuer.
//!
//! The store runs each statement atomically; this module decides what each
//! statement's result means. `CodeStore` models the two tables so that the
//! rules can be stated over whole flows.

use vstd::prelude::*;
use crate::error::{ApiError, StoreError};

verus! {

/// The most outstanding codes that one user may hold.
pub const MAX_OUTSTANDING_CODES: u64 = 5;

/// Smallest pairing code.
pub const MIN_CODE: u16 = 10000;

/// Relies on `rand::thread_rng` and `Rng::gen_range`, which draws a value of
/// the half-open range `lo..hi` (and panics only on an empty one).
#[verifier::external_body]
fn random_in_range(lo: u16, hi: u16) -> (r: u16)
    requires
        lo < hi,
    ensures
        lo <= r < hi,
{
    rand::Rng::gen_range(&mut rand::thread_rng(), lo..hi)
}

/// A fresh random pairing code, in `[MIN_CODE, u16::MAX)`.
pub fn generate_chat_code() -> (r: u16)
    ensures
        MIN_CODE <= r < u16::MAX,
{
    random_in_range(MIN_CODE, u16::MAX)
}

/// What issuing a code answers when the quota-guarded insert affected
/// `inserted` rows: one row means the code was issued.
pub open spec fn issue_result(code: u16, inserted: u64) -> Result<u16, ApiError> {
    if inserted == 1 {
        Ok(code)
    } else {
        Err(ApiError::CodeQuotaReached)
    }
}

/// The answer to issuing `code`, from the quota-guarded insert.
pub fn issue_outcome(code: u16, inserted: Result<u64, StoreError>) -> (r: Result<u16, ApiError>)
    ensures
        inserted matches Ok(n) ==> r == issue_result(code, n),
        inserted is Err ==> (r matches Err(ApiError::Internal(_))),
{
    match inserted {
        Ok(n) => if n == 1 {
            Ok(code)
        } else {
            Err(ApiError::CodeQuotaReached)
        },
        Err(_) => Err(ApiError::Internal("Failed to create chat code".to_string())),
    }
}

/// What revoking answers when the owner-guarded delete did or did not remove
/// a row.
pub open spec fn revoke_result(deleted: bool) -> Result<(), ApiError> {
    if deleted {
        Ok(())
    } else {
        Err(ApiError::CodeNotFound)
    }
}

/// The answer to revoking a code, from the owner-guarded delete.
pub fn revoke_outcome(deleted: Result<bool, StoreError>) -> (r: Result<(), ApiError>)
    ensures
        deleted matches Ok(d) ==> r == revoke_result(d),
        deleted is Err ==> (r matches Err(ApiError::Internal(_))),
{
    match deleted {
        Ok(true) => Ok(()),
        Ok(false) => Err(ApiError::CodeNotFound),
        Err(_) => Err(
            ApiError::Internal("An error occurred on our end while trying to delete the chat code.".to_string()),
        ),
    }
}

/// What the consume of a code reports: the owner of the code that it
/// removed, if it removed one, and whether the code is the caller's own (the
/// consume leaves the caller's own code alone).
pub type Consumed = (Option<i64>, bool);

/// What redeeming decides from the consume of the code: the canonical pair
/// of the conversation to create, or why there is none.
pub open spec fn redeem_plan(user: i64, consumed: Consumed) -> Result<(i64, i64), ApiError> {
    match consumed.0 {
        None => if consumed.1 {
            Err(ApiError::SelfRedeem)
        } else {
            Err(ApiError::CodeNotFound)
        },
        Some(o) => if o == user {
            Err(ApiError::SelfRedeem)
        } else if o < user {
            Ok((o, user))
        } else {
            Ok((user, o))
        },
    }
}

/// Decides a redemption by `user` from the atomic consume of the code: the
/// participants of the conversation to create, smaller id first. A code
/// that is not outstanding is 404; one's own code is 400 and stays.
pub fn plan_redemption(user: i64, consumed: Result<Consumed, StoreError>) -> (r: Result<(i64, i64), ApiError>)
    ensures
        consumed matches Ok(c) ==> r == redeem_plan(user, c),
        consumed is Err ==> (r matches Err(ApiError::Internal(_))),
        r matches Ok(p) ==> p.0 < p.1,
{
    match consumed {
        Ok((None, true)) => Err(ApiError::SelfRedeem),
        Ok((None, false)) => Err(ApiError::CodeNotFound),
        Ok((Some(o), _)) => if o == user {
            Err(ApiError::SelfRedeem)
        } else if o < user {
            Ok((o, user))
        } else {
            Ok((user, o))
        },
        Err(_) => Err(ApiError::Internal("An error occurred while looking up the chat code.".to_string())),
    }
}

/// What redeeming answers from the insert-if-absent of the conversation: the
/// new conversation's id, or a conflict when the pair already has one.
pub open spec fn redeem_result(created: Option<u128>) -> Result<u128, ApiError> {
    match created {
        Some(id) => Ok(id),
        None => Err(ApiError::ConversationExists),
    }
}

/// The answer to a redemption, from the insert-if-absent of the conversation.
pub fn redemption_outcome(created: Result<Option<u128>, StoreError>) -> (r: Result<u128, ApiError>)
    ensures
        created matches Ok(c) ==> r == redeem_result(c),
        created is Err ==> (r matches Err(ApiError::Internal(_))),
{
    match created {
        Ok(Some(id)) => Ok(id),
        Ok(None) => Err(ApiError::ConversationExists),
        Err(_) => Err(ApiError::Internal("An error occurred while creating the conversation.".to_string())),
    }
}

/// The pairing-code and conversation tables: outstanding codes with their
/// owners (a code is outstanding at most once), and the participant pairs of
/// the conversations (a conversation's id is its position).
pub struct CodeStore {
    pub codes: Seq<(u16, i64)>,
    pub pairs: Seq<(i64, i64)>,
}

/// The owner of an outstanding code.
pub open spec fn code_owner(codes: Seq<(u16, i64)>, code: u16) -> Option<i64>
    decreases codes.len(),
{
    if codes.len() == 0 {
        None
    } else if codes.last().0 == code {
        Some(codes.last().1)
    } else {
        code_owner(codes.drop_last(), code)
    }
}

/// How many outstanding codes `user` holds.
pub open spec fn owned_count(codes: Seq<(u16, i64)>, user: i64) -> nat
    decreases codes.len(),
{
    if codes.len() == 0 {
        0
    } else {
        owned_count(codes.drop_last(), user) + if codes.last().1 == user {
            1nat
        } else {
            0nat
        }
    }
}

/// The quota-guarded insert: the code is added only while its owner holds
/// fewer than `MAX_OUTSTANDING_CODES`; the count of rows added.
pub open spec fn issue_statement(s: CodeStore, user: i64, code: u16) -> (CodeStore, u64) {
    if owned_count(s.codes, user) < MAX_OUTSTANDING_CODES {
        (CodeStore { codes: s.codes.push((code, user)), pairs: s.pairs }, 1)
    } else {
        (s, 0)
    }
}

/// `user` holds `code`.
pub open spec fn holds_code(codes: Seq<(u16, i64)>, code: u16, user: i64) -> bool {
    exists|i: int| 0 <= i < codes.len() && codes[i] == (code, user)
}

/// The outstanding codes without `user`'s `code`.
pub open spec fn without_entry(codes: Seq<(u16, i64)>, code: u16, user: i64) -> Seq<(u16, i64)>
    decreases codes.len(),
{
    if codes.len() == 0 {
        codes
    } else if codes.last() == (code, user) {
        without_entry(codes.drop_last(), code, user)
    } else {
        without_entry(codes.drop_last(), code, user).push(codes.last())
    }
}

/// The owner-guarded delete: removes `code` only where `user` holds it;
/// whether it removed anything.
pub open spec fn revoke_statement(s: CodeStore, user: i64, code: u16) -> (CodeStore, bool) {
    if holds_code(s.codes, code, user) {
        (CodeStore { codes: without_entry(s.codes, code, user), pairs: s.pairs }, true)
    } else {
        (s, false)
    }
}

/// The insert-if-absent of a conversation between a canonical pair.
pub open spec fn insert_pair_statement(s: CodeStore, pair: (i64, i64)) -> (CodeStore, Option<u128>) {
    if s.pairs.contains(pair) {
        (s, None)
    } else {
        (CodeStore { codes: s.codes, pairs: s.pairs.push(pair) }, Some(s.pairs.len() as u128))
    }
}

/// The outstanding codes other than `code`.
pub open spec fn without_code(codes: Seq<(u16, i64)>, code: u16) -> Seq<(u16, i64)>
    decreases codes.len(),
{
    if codes.len() == 0 {
        codes
    } else if codes.last().0 == code {
        without_code(codes.drop_last(), code)
    } else {
        without_code(codes.drop_last(), code).push(codes.last())
    }
}

/// The atomic consume of a code by `user`: one statement that deletes the
/// code unless `user` owns it, and reports the removed code's owner and
/// whether the code is `user`'s own.
pub open spec fn consume_statement(s: CodeStore, user: i64, code: u16) -> (CodeStore, Consumed) {
    match code_owner(s.codes, code) {
        Some(o) => if o != user {
            (CodeStore { codes: without_code(s.codes, code), pairs: s.pairs }, (Some(o), false))
        } else {
            (s, (None, true))
        },
        None => (s, (None, false)),
    }
}

/// Issuing a code, as a whole: the store after it and the answer.
pub open spec fn issue_flow(s: CodeStore, user: i64, code: u16) -> (CodeStore, Result<u16, ApiError>) {
    let (s1, n) = issue_statement(s, user, code);
    (s1, issue_result(code, n))
}

/// Revoking a code, as a whole: the store after it and the answer.
pub open spec fn revoke_flow(s: CodeStore, user: i64, code: u16) -> (CodeStore, Result<(), ApiError>) {
    let (s1, d) = revoke_statement(s, user, code);
    (s1, revoke_result(d))
}

/// Redeeming a code, as a whole: consume the code, decide, and insert the
/// conversation if absent.
pub open spec fn redeem_flow(s: CodeStore, user: i64, code: u16) -> (CodeStore, Result<u128, ApiError>) {
    let (s1, consumed) = consume_statement(s, user, code);
    match redeem_plan(user, consumed) {
        Err(e) => (s1, Err(e)),
        Ok(pair) => {
            let (s2, created) = insert_pair_statement(s1, pair);
            (s2, redeem_result(created))
        },
    }
}

/// No pair has two conversations.
pub open spec fn pairs_unique(pairs: Seq<(i64, i64)>) -> bool {
    forall|i: int, j: int| 0 <= i < j < pairs.len() ==> pairs[i] != pairs[j]
}

/// A code redeemed by its own issuer is refused (400) and changes nothing: no
/// conversation is created and the code stays outstanding.
pub proof fn lemma_self_redeem_refused(s: CodeStore, user: i64, code: u16)
    requires
        code_owner(s.codes, code) == Some(user),
    ensures
        redeem_flow(s, user, code) == (s, Err::<u128, ApiError>(ApiError::SelfRedeem)),
        crate::error::status_of(ApiError::SelfRedeem) == 400,
{
}

/// The insert-if-absent never gives a pair a second conversation, whatever
/// statements of other requests ran before it: concurrent redemptions cannot
/// create two conversations for one pair.
pub proof fn lemma_insert_pair_keeps_pairs_unique(s: CodeStore, pair: (i64, i64))
    requires
        pairs_unique(s.pairs),
    ensures
        pairs_unique(insert_pair_statement(s, pair).0.pairs),
        s.pairs.contains(pair) ==> insert_pair_statement(s, pair).1 is None,
{
    if !s.pairs.contains(pair) {
        let p2 = s.pairs.push(pair);
        assert forall|i: int, j: int| 0 <= i < j < p2.len() implies p2[i] != p2[j] by {
            if j == s.pairs.len() {
                assert(p2[i] == s.pairs[i]);
            }
        }
    }
}

/// A redemption never gives a pair a second conversation.
pub proof fn lemma_redeem_keeps_pairs_unique(s: CodeStore, user: i64, code: u16)
    requires
        pairs_unique(s.pairs),
    ensures
        pairs_unique(redeem_flow(s, user, code).0.pairs),
{
    let (s1, consumed) = consume_statement(s, user, code);
    if let Ok(pair) = redeem_plan(user, consumed) {
        lemma_insert_pair_keeps_pairs_unique(s1, pair);
    }
}

proof fn lemma_owner_gone_after_delete(codes: Seq<(u16, i64)>, code: u16)
    ensures
        code_owner(without_code(codes, code), code) is None,
    decreases codes.len(),
{
    if codes.len() > 0 {
        lemma_owner_gone_after_delete(codes.drop_last(), code);
        let w = without_code(codes.drop_last(), code);
        if codes.last().0 != code {
            assert(w.push(codes.last()).drop_last() =~= w);
        }
    }
}

/// A redemption of another user's code by a user with no conversation yet
/// with the issuer creates it (201) and consumes the code.
pub proof fn lemma_redeem_creates_conversation(s: CodeStore, issuer: i64, user: i64, code: u16)
    requires
        code_owner(s.codes, code) == Some(issuer),
        user != issuer,
        !s.pairs.contains(if issuer < user { (issuer, user) } else { (user, issuer) }),
    ensures
        redeem_flow(s, user, code).1 is Ok,
        code_owner(redeem_flow(s, user, code).0.codes, code) is None,
{
    lemma_owner_gone_after_delete(s.codes, code);
}

/// Two redemptions of one code, interleaved in any way: the consumes are
/// single statements, so one runs first. It takes the code; the other then
/// finds no code (404) and changes nothing, whatever statements ran between
/// the two (only conversations were inserted meanwhile). So at most one of
/// them creates a conversation.
pub proof fn lemma_code_consumed_once(s: CodeStore, issuer: i64, first: i64, second: i64, code: u16, t: CodeStore)
    requires
        code_owner(s.codes, code) == Some(issuer),
        first != issuer,
        t.codes == consume_statement(s, first, code).0.codes,
    ensures
        consume_statement(s, first, code).1 == (Some(issuer), false),
        redeem_flow(t, second, code) == (t, Err::<u128, ApiError>(ApiError::CodeNotFound)),
        crate::error::status_of(ApiError::CodeNotFound) == 404,
{
    lemma_owner_gone_after_delete(s.codes, code);
}

proof fn lemma_revoke_counts(codes: Seq<(u16, i64)>, code: u16, user: i64, other: i64)
    requires
        other != user,
    ensures
        holds_code(codes, code, user) ==> owned_count(without_entry(codes, code, user), user) < owned_count(
            codes,
            user,
        ),
        owned_count(without_entry(codes, code, user), user) <= owned_count(codes, user),
        owned_count(without_entry(codes, code, user), other) == owned_count(codes, other),
    decreases codes.len(),
{
    if codes.len() > 0 {
        let d = codes.drop_last();
        lemma_revoke_counts(d, code, user, other);
        let w = without_entry(d, code, user);
        if codes.last() != (code, user) {
            assert(w.push(codes.last()).drop_last() =~= w);
            if holds_code(codes, code, user) {
                let i = choose|i: int| 0 <= i < codes.len() && codes[i] == (code, user);
                assert(i < d.len());
                assert(d[i] == codes[i]);
            }
        }
    }
}

/// Revocation only touches the caller's own code: revoking a code that the
/// caller does not hold is refused (404) and changes nothing; revoking one
/// it holds succeeds, lowers its count, and leaves every other user's codes.
pub proof fn lemma_revoke_only_own(s: CodeStore, user: i64, code: u16, other: i64)
    requires
        other != user,
    ensures
        !holds_code(s.codes, code, user) ==> revoke_flow(s, user, code) == (s, Err::<(), ApiError>(
            ApiError::CodeNotFound,
        )),
        holds_code(s.codes, code, user) ==> revoke_flow(s, user, code).1 is Ok && owned_count(
            revoke_flow(s, user, code).0.codes,
            user,
        ) < owned_count(s.codes, user),
        owned_count(revoke_flow(s, user, code).0.codes, other) == owned_count(s.codes, other),
{
    lemma_revoke_counts(s.codes, code, user, other);
}

/// A user at the quota is refused a new code (400) with nothing changed;
/// once it revokes one of its codes, issuing a code succeeds again.
pub proof fn lemma_code_quota(s: CodeStore, user: i64, held: u16, code: u16)
    requires
        owned_count(s.codes, user) == MAX_OUTSTANDING_CODES,
        holds_code(s.codes, held, user),
    ensures
        issue_flow(s, user, code) == (s, Err::<u16, ApiError>(ApiError::CodeQuotaReached)),
        crate::error::status_of(ApiError::CodeQuotaReached) == 400,
        revoke_flow(s, user, held).1 is Ok,
        issue_flow(revoke_flow(s, user, held).0, user, code).1 == Ok::<u16, ApiError>(code),
{
    let other: i64 = if user == 0 { 1 } else { 0 };
    lemma_revoke_counts(s.codes, held, user, other);
}

} // verus!
