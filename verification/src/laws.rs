//! Laws of the escrow that relate several operations or hold of every
//! state, stated and proved once for all inputs.

use vstd::prelude::*;

use crate::escrow::entry_wf;
use crate::escrow::unlock_check;
use crate::escrow::Escrow;
use crate::interest::spec_interest;
use crate::interest::INTEREST_RATE_DENOM;
use crate::interest::INTEREST_RATE_NUM;
use crate::types::Error;
use crate::types::LockIdV;

verus! {

/// For every principal whose product with the rate fits in 128 bits, the
/// bonus is exactly `floor(principal * 7770 / 100000)`.
pub proof fn lemma_interest_formula(amount: u128)
    requires
        amount * INTEREST_RATE_NUM <= u128::MAX,
    ensures
        spec_interest(amount) == (amount * INTEREST_RATE_NUM) / (INTEREST_RATE_DENOM as int),
{
}

/// Sequence values are never reused: in a well-formed escrow every stored
/// record carries a sequence value at most the counter, so the value the
/// next lock gets — one past the counter — is carried by no existing record.
pub proof fn lemma_next_sequence_fresh(e: Escrow)
    requires
        e.wf(),
        e.counter() < u64::MAX,
    ensures
        forall|i: int|
            0 <= i < e.records@.len() ==> #[trigger] e.records@[i].1.nonce != e.counter() + 1,
{
    assert forall|i: int|
        0 <= i < e.records@.len() implies #[trigger] e.records@[i].1.nonce != e.counter()
        + 1 by {
        assert(entry_wf(e.records@, e.counter(), i));
    }
}

/// Lock identifiers from the same depositor for the same asset but with
/// different sequence values are distinct, so two such locks create two
/// distinct records.
pub proof fn lemma_lock_id_distinct(a: LockIdV, b: LockIdV)
    requires
        a.owner == b.owner,
        a.token_address == b.token_address,
        a.nonce != b.nonce,
    ensures
        a != b,
{
}

/// Release is terminal: once a record is marked released, the release check
/// answers `AlreadyReleased` for every time and every caller, so a second
/// Unlock on the same identifier always fails that way.
pub proof fn lemma_released_is_terminal(e: Escrow, now: u64, caller: Seq<char>, key: LockIdV)
    requires
        e.lookup(key) matches Some(info) && info.is_unlocked,
    ensures
        unlock_check(e, now, caller, key) == Some(Error::AlreadyReleased),
{
}

} // verus!
