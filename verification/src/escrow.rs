//! The escrow state machine: the lock record store, the reentrancy guard,
//! and the Lock / Unlock operations.

use vstd::prelude::*;

use crate::interest::calculate_interest;
use crate::interest::spec_interest;
use crate::types::Error;
use crate::types::ExecOutcome;
use crate::types::ExecuteMsg;
use crate::types::InstantiateMsg;
use crate::types::LockId;
use crate::types::LockIdV;
use crate::types::LockInfo;
use crate::types::LockInfoV;
use crate::types::LockReceipt;
use crate::types::QueryMsg;
use crate::types::ReceiveMsg;
use crate::types::State;
use crate::types::TransferInstruction;
use crate::types::UnlockReceipt;
use crate::LOCK_PERIOD;

verus! {

/// Identity of the single accepted asset: only deposit notifications sent by
/// this token contract create locks.
pub open spec fn accepted_asset() -> Seq<char> {
    "terra164kf48vusvnmsku8v37uy9ynxpr5u333hvcz0wd6mfr8el56wx9sfzuhxq"@
}

/// The accepted asset identity as an owned string.
pub fn target_address() -> (s: String)
    ensures
        s@ == accepted_asset(),
{
    "terra164kf48vusvnmsku8v37uy9ynxpr5u333hvcz0wd6mfr8el56wx9sfzuhxq".to_owned()
}

/// Looks a key up among the stored entries, scanning from the end.
pub open spec fn lookup_entries(rs: Seq<(LockId, LockInfo)>, key: LockIdV) -> Option<LockInfo>
    decreases rs.len(),
{
    if rs.len() == 0 {
        None
    } else if rs.last().0@ == key {
        Some(rs.last().1)
    } else {
        lookup_entries(rs.drop_last(), key)
    }
}

/// The whole persistent state of the escrow: the global singleton record and
/// the lock record store.
pub struct Escrow {
    /// The global state; `None` models a store where initialization never
    /// wrote it.
    pub state: Option<State>,
    /// The lock records, each under its deterministic identifier.
    pub records: Vec<(LockId, LockInfo)>,
}

impl Escrow {
    /// Current value of the sequence counter; a missing global state reads
    /// as zero.
    pub open spec fn counter(self) -> u64 {
        match self.state {
            Some(s) => s.nonce,
            None => 0,
        }
    }

    /// Whether the reentrancy guard flag is set.
    pub open spec fn guard_active(self) -> bool {
        match self.state {
            Some(s) => s.locked,
            None => false,
        }
    }

    /// The record stored under `key`, if any.
    pub open spec fn lookup(self, key: LockIdV) -> Option<LockInfo> {
        lookup_entries(self.records@, key)
    }

    /// Well-formedness of the whole escrow: every entry is consistent with
    /// the counter and no identifier is stored twice, so a record, once
    /// written, is never overwritten.
    pub open spec fn wf(self) -> bool {
        &&& entries_wf(self.records@, self.counter())
        &&& keys_distinct(self.records@)
    }
}

/// The entry at index `i` is internally consistent: its identifier is
/// derived from the record's own fields, and its sequence value was issued
/// by a counter that never exceeded `cnt`.
pub open spec fn entry_wf(rs: Seq<(LockId, LockInfo)>, cnt: u64, i: int) -> bool {
    &&& rs[i].0@.owner == rs[i].1.owner@
    &&& rs[i].0@.token_address == rs[i].1.token_address@
    &&& rs[i].0@.nonce == rs[i].1.nonce
    &&& 1 <= rs[i].1.nonce
    &&& rs[i].1.nonce <= cnt
}

/// Every stored entry is internally consistent.
pub open spec fn entries_wf(rs: Seq<(LockId, LockInfo)>, cnt: u64) -> bool {
    forall|i: int| 0 <= i < rs.len() ==> entry_wf(rs, cnt, i)
}

/// No two stored entries share an identifier.
pub open spec fn keys_distinct(rs: Seq<(LockId, LockInfo)>) -> bool {
    forall|i: int, j: int|
        0 <= i < rs.len() && 0 <= j < rs.len() && i != j ==> #[trigger] rs[i].0@
            != #[trigger] rs[j].0@
}

/// The precondition check of Lock: deposits are accepted only from the
/// configured asset and only with a non-zero principal.
pub open spec fn lock_check(token_address: Seq<char>, amount: u128) -> Option<Error> {
    if token_address != accepted_asset() {
        Some(Error::UnauthorizedAsset)
    } else if amount == 0 {
        Some(Error::ZeroAmount)
    } else {
        None
    }
}

/// The identifier a new lock gets: the depositor, the asset, and the
/// sequence value `c` the counter was advanced to.
pub open spec fn new_lock_id(sender: Seq<char>, token_address: Seq<char>, c: u64) -> LockIdV {
    LockIdV { owner: sender, token_address: token_address, nonce: c }
}

/// The record a new lock gets: unlock time a fixed period after `now`,
/// interest computed once from the principal, not yet released.
pub open spec fn new_lock_rec(
    sender: Seq<char>,
    token_address: Seq<char>,
    amount: u128,
    now: u64,
    c: u64,
) -> LockInfoV {
    LockInfoV {
        owner: sender,
        token_address: token_address,
        amount: amount,
        unlock_time: (now + LOCK_PERIOD) as u64,
        expected_interest: spec_interest(amount) as u128,
        is_unlocked: false,
        nonce: c,
    }
}

/// The precondition check of Unlock, in the order the failures win: the
/// record must exist, must not have been released, must have matured, the
/// caller must be its owner, and the payout must fit in 128 bits.
pub open spec fn unlock_check(e: Escrow, now: u64, caller: Seq<char>, key: LockIdV) -> Option<
    Error,
> {
    match e.lookup(key) {
        None => Some(Error::NotFound),
        Some(info) => if info.is_unlocked {
            Some(Error::AlreadyReleased)
        } else if now < info.unlock_time {
            Some(Error::TooEarly)
        } else if caller != info.owner@ {
            Some(Error::Unauthorized)
        } else if info.amount + info.expected_interest > u128::MAX {
            Some(Error::ArithmeticOverflow)
        } else {
            None
        },
    }
}

impl Escrow {
    /// Creates the escrow as initialization leaves it: a zeroed global state
    /// and no records.  The message carries no parameters; all configuration
    /// is fixed at build time.
    pub fn instantiate(msg: InstantiateMsg) -> (e: Escrow)
        ensures
            e.wf(),
            e.state == Some(State { nonce: 0, locked: false }),
            e.records@.len() == 0,
    {
        let InstantiateMsg {} = msg;
        Escrow { state: Some(State { nonce: 0, locked: false }), records: Vec::new() }
    }

    /// Acquires the reentrancy guard: fails fatally when the global state is
    /// missing, rejects the call when a mutating operation is already in
    /// progress, and otherwise sets the flag.
    pub fn set_reentrancy_lock(&mut self) -> (r: Result<(), Error>)
        ensures
            old(self).state is None
                ==> r == Err::<(), Error>(Error::NotInitialized) && *final(self) == *old(self),
            (old(self).state matches Some(s) && s.locked)
                ==> r == Err::<(), Error>(Error::Reentrancy) && *final(self) == *old(self),
            (old(self).state matches Some(s) && !s.locked)
                ==> r == Ok::<(), Error>(())
                    && final(self).state == Some(State { nonce: old(self).counter(), locked: true })
                    && final(self).records == old(self).records,
    {
        match self.state {
            None => Err(Error::NotInitialized),
            Some(s) => {
                if s.locked {
                    Err(Error::Reentrancy)
                } else {
                    self.state = Some(State { nonce: s.nonce, locked: true });
                    Ok(())
                }
            },
        }
    }

    /// Releases the reentrancy guard unconditionally, so the flag cannot
    /// stick in the active state after a failed operation.
    pub fn clear_reentrancy_lock(&mut self) -> (r: Result<(), Error>)
        ensures
            old(self).state is None
                ==> r == Err::<(), Error>(Error::NotInitialized) && *final(self) == *old(self),
            old(self).state is Some
                ==> r == Ok::<(), Error>(())
                    && final(self).state == Some(
                    State { nonce: old(self).counter(), locked: false },
                ) && final(self).records == old(self).records,
    {
        match self.state {
            None => Err(Error::NotInitialized),
            Some(s) => {
                self.state = Some(State { nonce: s.nonce, locked: false });
                Ok(())
            },
        }
    }

    /// Finds the index of the entry stored under `id`, if any.
    fn find_index(&self, id: &LockId) -> (r: Option<usize>)
        ensures
            match r {
                Some(i) => i < self.records@.len() && self.records@[i as int].0@ == id@,
                None => forall|i: int|
                    0 <= i < self.records@.len() ==> #[trigger] self.records@[i].0@ != id@,
            },
    {
        let n = self.records.len();
        let mut k: usize = 0;
        while k < n
            invariant
                n == self.records@.len(),
                k <= n,
                forall|i: int| 0 <= i < k ==> #[trigger] self.records@[i].0@ != id@,
            decreases n - k,
        {
            let entry_id = &self.records[k].0;
            if entry_id.owner == id.owner && entry_id.token_address == id.token_address
                && entry_id.nonce == id.nonce {
                return Some(k);
            }
            k = k + 1;
        }
        None
    }

    /// Reads the record stored under a lock identifier.
    pub fn get_lock_info(&self, lock_id: &LockId) -> (r: Result<LockInfo, Error>)
        requires
            self.wf(),
        ensures
            match r {
                Ok(info) => self.lookup(lock_id@) == Some(info),
                Err(e) => e == Error::NotFound && self.lookup(lock_id@) is None,
            },
    {
        match self.find_index(lock_id) {
            Some(i) => {
                proof {
                    lemma_lookup_at(self.records@, i as int, lock_id@);
                }
                Ok(self.records[i].1.clone())
            },
            None => {
                proof {
                    lemma_lookup_absent(self.records@, lock_id@);
                }
                Err(Error::NotFound)
            },
        }
    }

    /// Creates a lock from a deposit notification: `sender` deposited
    /// `amount` of the asset whose token contract is `token_address`.
    /// Advances the sequence counter by exactly one, stores the new record
    /// under its fresh identifier, and returns the record with its
    /// identifier and the echoed memo.  A missing global state is tolerated
    /// here and read as a zeroed one.
    pub fn try_lock(
        &mut self,
        now: u64,
        token_address: &String,
        sender: String,
        amount: u128,
        msg: ReceiveMsg,
    ) -> (r: Result<LockReceipt, Error>)
        requires
            old(self).wf(),
            now <= u64::MAX - LOCK_PERIOD,
            old(self).counter() < u64::MAX,
        ensures
            final(self).wf(),
            lock_check(token_address@, amount) matches Some(e)
                ==> r == Err::<LockReceipt, Error>(e) && *final(self) == *old(self),
            lock_check(token_address@, amount) is None ==> ({
                let c = (old(self).counter() + 1) as u64;
                &&& r matches Ok(receipt)
                &&& receipt.lock_id@ == new_lock_id(sender@, token_address@, c)
                &&& receipt.info@ == new_lock_rec(sender@, token_address@, amount, now, c)
                &&& receipt.memo == (match msg {
                    ReceiveMsg::Lock { memo } => memo,
                })
                &&& final(self).state == Some(
                    State { nonce: c, locked: old(self).guard_active() },
                )
                &&& final(self).records@ == old(self).records@.push(
                    (receipt.lock_id, receipt.info),
                )
                &&& final(self).lookup(receipt.lock_id@) == Some(receipt.info)
                &&& forall|k: LockIdV|
                    k != receipt.lock_id@ ==> #[trigger] final(self).lookup(k) == old(
                        self,
                    ).lookup(k)
            }),
    {
        let ReceiveMsg::Lock { memo } = msg;

        if !(*token_address == target_address()) {
            return Err(Error::UnauthorizedAsset);
        }
        if amount == 0 {
            return Err(Error::ZeroAmount);
        }

        let unlock_time = now + LOCK_PERIOD;
        let expected_interest = calculate_interest(amount);

        let state = match self.state {
            Some(s) => s,
            None => State::default(),
        };
        let c = state.nonce + 1;
        self.state = Some(State { nonce: c, locked: state.locked });

        let info = LockInfo {
            owner: sender.clone(),
            token_address: token_address.clone(),
            amount,
            unlock_time,
            expected_interest,
            is_unlocked: false,
            nonce: c,
        };
        let lock_id = LockId { owner: sender, token_address: token_address.clone(), nonce: c };

        self.records.push((lock_id.clone(), info.clone()));

        proof {
            let rs = old(self).records@;
            let cnt = old(self).counter();
            let n = rs.len() as int;
            assert forall|i: int| 0 <= i < self.records@.len() implies entry_wf(
                self.records@,
                c,
                i,
            ) by {
                if i < n {
                    assert(entry_wf(rs, cnt, i));
                }
            }
            assert forall|i: int, j: int|
                0 <= i < self.records@.len() && 0 <= j < self.records@.len() && i != j implies #[trigger] self.records@[i].0@
                != #[trigger] self.records@[j].0@ by {
                if i < n && j < n {
                    assert(rs[i] == self.records@[i]);
                    assert(rs[j] == self.records@[j]);
                } else if i == n {
                    assert(entry_wf(rs, cnt, j));
                    assert(self.records@[j].0@.nonce < c);
                } else {
                    assert(entry_wf(rs, cnt, i));
                    assert(self.records@[i].0@.nonce < c);
                }
            }
            lemma_lookup_push(rs, self.records@.last());
        }

        Ok(LockReceipt { lock_id, info, memo })
    }

    /// Releases a matured lock.  The checks run in a fixed order and the
    /// first failure wins: the record must exist, must not already be
    /// released, must have matured, the caller must be its owner, and the
    /// payout must fit in 128 bits.  On success the record is marked
    /// released in place — every other field and every other record is
    /// untouched — and the returned instruction sends principal plus bonus
    /// back to the owner.
    pub fn execute_unlock(&mut self, now: u64, sender: &String, lock_id: &LockId) -> (r: Result<
        UnlockReceipt,
        Error,
    >)
        requires
            old(self).wf(),
        ensures
            final(self).wf(),
            r is Ok <==> unlock_check(*old(self), now, sender@, lock_id@) is None,
            unlock_check(*old(self), now, sender@, lock_id@) matches Some(e)
                ==> r == Err::<UnlockReceipt, Error>(e) && *final(self) == *old(self),
            unlock_check(*old(self), now, sender@, lock_id@) is None ==> ({
                let info = old(self).lookup(lock_id@)->Some_0;
                &&& r matches Ok(receipt)
                &&& receipt.transfer.recipient@ == info.owner@
                &&& receipt.transfer.token_address@ == info.token_address@
                &&& receipt.transfer.amount == info.amount + info.expected_interest
                &&& receipt.lock_id@ == lock_id@
                &&& receipt.nonce == info.nonce
                &&& final(self).state == old(self).state
                &&& final(self).records@.len() == old(self).records@.len()
                &&& final(self).lookup(lock_id@) == Some(LockInfo { is_unlocked: true, ..info })
                &&& forall|k: LockIdV|
                    k != lock_id@ ==> #[trigger] final(self).lookup(k) == old(self).lookup(k)
            }),
    {
        let idx = match self.find_index(lock_id) {
            None => {
                proof {
                    lemma_lookup_absent(self.records@, lock_id@);
                }
                return Err(Error::NotFound);
            },
            Some(i) => i,
        };
        proof {
            lemma_lookup_at(self.records@, idx as int, lock_id@);
        }

        let info_ref = &self.records[idx].1;
        if info_ref.is_unlocked {
            return Err(Error::AlreadyReleased);
        }
        if now < info_ref.unlock_time {
            return Err(Error::TooEarly);
        }
        if !(*sender == info_ref.owner) {
            return Err(Error::Unauthorized);
        }
        let total = match info_ref.amount.checked_add(info_ref.expected_interest) {
            None => {
                return Err(Error::ArithmeticOverflow);
            },
            Some(t) => t,
        };
        let recipient = info_ref.owner.clone();
        let token = info_ref.token_address.clone();
        let nonce = info_ref.nonce;

        let (entry_id, old_info) = self.records.remove(idx);
        let entry_info = LockInfo { is_unlocked: true, ..old_info };
        self.records.insert(idx, (entry_id, entry_info));

        proof {
            let rs = old(self).records@;
            let e = self.records@[idx as int];
            assert(self.records@ =~= rs.update(idx as int, e));
            lemma_lookup_update(rs, idx as int, e);
            assert(self.counter() == old(self).counter());
            assert forall|i: int| 0 <= i < self.records@.len() implies entry_wf(
                self.records@,
                self.counter(),
                i,
            ) by {
                assert(entry_wf(rs, old(self).counter(), i));
            }
            assert forall|i: int, j: int|
                0 <= i < self.records@.len() && 0 <= j < self.records@.len() && i != j implies #[trigger] self.records@[i].0@
                != #[trigger] self.records@[j].0@ by {
                assert(rs[i].0 == self.records@[i].0);
                assert(rs[j].0 == self.records@[j].0);
            }
        }

        Ok(
            UnlockReceipt {
                transfer: TransferInstruction {
                    recipient,
                    token_address: token,
                    amount: total,
                },
                lock_id: lock_id.clone(),
                nonce,
            },
        )
    }

    /// The single mutating entry point.  Every call first acquires the
    /// reentrancy guard — a missing global state is fatal, an active guard
    /// rejects the call — then runs Lock or Unlock, and always releases the
    /// guard again on the way out, even when the operation failed.  A failed
    /// call leaves the escrow exactly as it was.
    pub fn execute(&mut self, now: u64, info_sender: String, msg: ExecuteMsg) -> (r: Result<
        ExecOutcome,
        Error,
    >)
        requires
            old(self).wf(),
            msg matches ExecuteMsg::Receive { .. }
                ==> now <= u64::MAX - LOCK_PERIOD && old(self).counter() < u64::MAX,
        ensures
            final(self).wf(),
            old(self).state is None
                ==> r == Err::<ExecOutcome, Error>(Error::NotInitialized),
            old(self).state is Some && old(self).guard_active()
                ==> r == Err::<ExecOutcome, Error>(Error::Reentrancy),
            r is Err ==> *final(self) == *old(self),
            !old(self).guard_active() ==> !final(self).guard_active(),
            old(self).state is Some && !old(self).guard_active() ==> match msg {
                ExecuteMsg::Receive { sender, amount, msg: rmsg } => match lock_check(
                    info_sender@,
                    amount,
                ) {
                    Some(e) => r == Err::<ExecOutcome, Error>(e),
                    None => ({
                        let c = (old(self).counter() + 1) as u64;
                        &&& r matches Ok(ExecOutcome::Locked(receipt))
                        &&& receipt.lock_id@ == new_lock_id(sender@, info_sender@, c)
                        &&& receipt.info@ == new_lock_rec(sender@, info_sender@, amount, now, c)
                        &&& receipt.memo == (match rmsg {
                            ReceiveMsg::Lock { memo } => memo,
                        })
                        &&& final(self).state == Some(State { nonce: c, locked: false })
                        &&& final(self).records@ == old(self).records@.push(
                            (receipt.lock_id, receipt.info),
                        )
                    }),
                },
                ExecuteMsg::Unlock { lock_id } => match unlock_check(
                    *old(self),
                    now,
                    info_sender@,
                    lock_id@,
                ) {
                    Some(e) => r == Err::<ExecOutcome, Error>(e),
                    None => ({
                        let info = old(self).lookup(lock_id@)->Some_0;
                        &&& r matches Ok(ExecOutcome::Unlocked(receipt))
                        &&& receipt.transfer.recipient@ == info.owner@
                        &&& receipt.transfer.token_address@ == info.token_address@
                        &&& receipt.transfer.amount == info.amount + info.expected_interest
                        &&& receipt.lock_id@ == lock_id@
                        &&& receipt.nonce == info.nonce
                        &&& final(self).state == old(self).state
                        &&& final(self).records@.len() == old(self).records@.len()
                        &&& final(self).lookup(lock_id@) == Some(
                            LockInfo { is_unlocked: true, ..info },
                        )
                        &&& forall|k: LockIdV|
                            k != lock_id@ ==> #[trigger] final(self).lookup(k) == old(
                                self,
                            ).lookup(k)
                    }),
                },
            },
    {
        match msg {
            ExecuteMsg::Receive { sender, amount, msg: rmsg } => {
                match self.set_reentrancy_lock() {
                    Err(e) => return Err(e),
                    Ok(()) => {},
                }
                proof {
                    assert(self.counter() == old(self).counter());
                    assert(self.wf());
                }
                let res = self.try_lock(now, &info_sender, sender, amount, rmsg);
                let cleared = self.clear_reentrancy_lock();
                match cleared {
                    Err(e) => return Err(e),
                    Ok(()) => {},
                }
                match res {
                    Ok(receipt) => Ok(ExecOutcome::Locked(receipt)),
                    Err(e) => Err(e),
                }
            },
            ExecuteMsg::Unlock { lock_id } => {
                match self.set_reentrancy_lock() {
                    Err(e) => return Err(e),
                    Ok(()) => {},
                }
                proof {
                    assert(self.counter() == old(self).counter());
                    assert(self.wf());
                }
                let ghost mid = *self;
                let res = self.execute_unlock(now, &info_sender, &lock_id);
                let ghost mid2 = *self;
                let cleared = self.clear_reentrancy_lock();
                proof {
                    if unlock_check(mid, now, info_sender@, lock_id@) is None {
                        assert forall|k: LockIdV| k != lock_id@ implies self.lookup(k) == old(
                            self,
                        ).lookup(k) by {
                            assert(mid2.lookup(k) == mid.lookup(k));
                            assert(self.lookup(k) == mid2.lookup(k));
                            assert(mid.lookup(k) == old(self).lookup(k));
                        }
                    }
                }
                match cleared {
                    Err(e) => return Err(e),
                    Ok(()) => {},
                }
                match res {
                    Ok(receipt) => Ok(ExecOutcome::Unlocked(receipt)),
                    Err(e) => Err(e),
                }
            },
        }
    }

    /// Answers a read-only query; the one supported query returns the full
    /// record under a lock identifier, or `NotFound`.
    pub fn query(&self, msg: &QueryMsg) -> (r: Result<LockInfo, Error>)
        requires
            self.wf(),
        ensures
            msg matches QueryMsg::LockInfo { lock_id } ==> match r {
                Ok(info) => self.lookup(lock_id@) == Some(info),
                Err(e) => e == Error::NotFound && self.lookup(lock_id@) is None,
            },
    {
        match msg {
            QueryMsg::LockInfo { lock_id } => self.get_lock_info(lock_id),
        }
    }
}

/// A stored entry whose identifier matches `key` is what `lookup` returns,
/// provided no identifier is stored twice.
pub proof fn lemma_lookup_at(rs: Seq<(LockId, LockInfo)>, i: int, key: LockIdV)
    requires
        0 <= i < rs.len(),
        rs[i].0@ == key,
        forall|p: int, q: int|
            0 <= p < rs.len() && 0 <= q < rs.len() && p != q
                ==> #[trigger] rs[p].0@ != #[trigger] rs[q].0@,
    ensures
        lookup_entries(rs, key) == Some(rs[i].1),
    decreases rs.len(),
{
    if i == rs.len() - 1 {
        assert(rs.last() == rs[i]);
    } else {
        assert(rs.last().0@ != key);
        assert(rs.drop_last()[i] == rs[i]);
        lemma_lookup_at(rs.drop_last(), i, key);
    }
}

/// A key no stored identifier matches is absent from the store.
pub proof fn lemma_lookup_absent(rs: Seq<(LockId, LockInfo)>, key: LockIdV)
    requires
        forall|i: int| 0 <= i < rs.len() ==> #[trigger] rs[i].0@ != key,
    ensures
        lookup_entries(rs, key) is None,
    decreases rs.len(),
{
    if rs.len() > 0 {
        lemma_lookup_absent(rs.drop_last(), key);
    }
}

/// Appending an entry stores it under its own identifier and leaves every
/// other key unchanged.
pub proof fn lemma_lookup_push(rs: Seq<(LockId, LockInfo)>, e: (LockId, LockInfo))
    ensures
        lookup_entries(rs.push(e), e.0@) == Some(e.1),
        forall|k: LockIdV|
            k != e.0@ ==> #[trigger] lookup_entries(rs.push(e), k) == lookup_entries(rs, k),
{
    assert(rs.push(e).last() == e);
    assert(rs.push(e).drop_last() =~= rs);
}

/// Replacing the entry at index `i` by one with the same identifier stores
/// the new record under that identifier and leaves every other key
/// unchanged.
pub proof fn lemma_lookup_update(rs: Seq<(LockId, LockInfo)>, i: int, e: (LockId, LockInfo))
    requires
        0 <= i < rs.len(),
        rs[i].0@ == e.0@,
        forall|p: int, q: int|
            0 <= p < rs.len() && 0 <= q < rs.len() && p != q
                ==> #[trigger] rs[p].0@ != #[trigger] rs[q].0@,
    ensures
        lookup_entries(rs.update(i, e), e.0@) == Some(e.1),
        forall|k: LockIdV|
            k != e.0@ ==> #[trigger] lookup_entries(rs.update(i, e), k) == lookup_entries(rs, k),
    decreases rs.len(),
{
    let rs2 = rs.update(i, e);
    if i == rs.len() - 1 {
        assert(rs2.last() == e);
        assert(rs2.drop_last() =~= rs.drop_last());
        assert forall|k: LockIdV| k != e.0@ implies #[trigger] lookup_entries(rs2, k)
            == lookup_entries(rs, k) by {
            assert(rs.last() == rs[i]);
        }
    } else {
        assert(rs2.last() == rs.last());
        assert(rs2.drop_last() =~= rs.drop_last().update(i, e));
        assert(rs.drop_last()[i] == rs[i]);
        assert(forall|p: int, q: int|
            0 <= p < rs.drop_last().len() && 0 <= q < rs.drop_last().len() && p != q
                ==> #[trigger] rs.drop_last()[p].0@ != #[trigger] rs.drop_last()[q].0@);
        lemma_lookup_update(rs.drop_last(), i, e);
        assert(rs.last().0@ != e.0@);
        assert forall|k: LockIdV| k != e.0@ implies #[trigger] lookup_entries(rs2, k)
            == lookup_entries(rs, k) by {
            if rs.last().0@ != k {
                assert(lookup_entries(rs2, k) == lookup_entries(rs.drop_last().update(i, e), k));
                assert(lookup_entries(rs.drop_last().update(i, e), k)
                    == lookup_entries(rs.drop_last(), k));
            }
        }
    }
}

} // verus!
