//! Data model of the escrow: the global singleton state, lock records and
//! their deterministic identifiers, messages, receipts, and the error
//! taxonomy.

use vstd::prelude::*;

verus! {

/// The global singleton record: the monotone lock sequence counter and the
/// reentrancy guard flag.
#[derive(Clone, Copy, PartialEq, Eq, Structural, Debug)]
pub struct State {
    /// Sequence counter: the number of locks ever created.
    pub nonce: u64,
    /// Reentrancy guard flag: true while a mutating call is in progress.
    pub locked: bool,
}

impl Default for State {
    /// The zeroed state a missing global record defaults to on Lock.
    fn default() -> (s: State)
        ensures
            s == (State { nonce: 0, locked: false }),
    {
        State { nonce: 0, locked: false }
    }
}

/// The deterministic identifier of a lock record: the exact
/// `(owner, asset, sequence)` triple.  Records can only be addressed by the
/// full triple; there is no index by owner alone.  Keeping the three fields
/// apart makes the encoding unambiguous: no two distinct triples share an
/// identifier.
#[derive(Debug)]
pub struct LockId {
    /// Identity of the depositor.
    pub owner: String,
    /// Identity of the locked asset's token contract.
    pub token_address: String,
    /// Sequence value the global counter had when the lock was created.
    pub nonce: u64,
}

/// Mathematical view of a `LockId`.
pub struct LockIdV {
    pub owner: Seq<char>,
    pub token_address: Seq<char>,
    pub nonce: u64,
}

impl View for LockId {
    type V = LockIdV;

    open spec fn view(&self) -> LockIdV {
        LockIdV {
            owner: self.owner@,
            token_address: self.token_address@,
            nonce: self.nonce,
        }
    }
}

impl Clone for LockId {
    fn clone(&self) -> (r: LockId)
        ensures
            r == *self,
    {
        LockId {
            owner: self.owner.clone(),
            token_address: self.token_address.clone(),
            nonce: self.nonce,
        }
    }
}

/// One lock record, created by Lock and mutated exactly once (release) by a
/// successful Unlock; never deleted.
#[derive(Debug)]
pub struct LockInfo {
    /// Identity of the depositor, the only party allowed to unlock.
    pub owner: String,
    /// Identity of the locked asset's token contract.
    pub token_address: String,
    /// Principal amount deposited; always non-zero.
    pub amount: u128,
    /// Absolute time from which Unlock is allowed.
    pub unlock_time: u64,
    /// Interest bonus computed once at creation, immutable thereafter.
    pub expected_interest: u128,
    /// False at creation; flipped to true exactly once by Unlock.
    pub is_unlocked: bool,
    /// Sequence value of this record, equal to its identifier's.
    pub nonce: u64,
}

/// Mathematical view of a `LockInfo`.
pub struct LockInfoV {
    pub owner: Seq<char>,
    pub token_address: Seq<char>,
    pub amount: u128,
    pub unlock_time: u64,
    pub expected_interest: u128,
    pub is_unlocked: bool,
    pub nonce: u64,
}

impl View for LockInfo {
    type V = LockInfoV;

    open spec fn view(&self) -> LockInfoV {
        LockInfoV {
            owner: self.owner@,
            token_address: self.token_address@,
            amount: self.amount,
            unlock_time: self.unlock_time,
            expected_interest: self.expected_interest,
            is_unlocked: self.is_unlocked,
            nonce: self.nonce,
        }
    }
}

impl Clone for LockInfo {
    fn clone(&self) -> (r: LockInfo)
        ensures
            r == *self,
    {
        LockInfo {
            owner: self.owner.clone(),
            token_address: self.token_address.clone(),
            amount: self.amount,
            unlock_time: self.unlock_time,
            expected_interest: self.expected_interest,
            is_unlocked: self.is_unlocked,
            nonce: self.nonce,
        }
    }
}

/// Everything that can go wrong in the escrow.
#[derive(Clone, Copy, PartialEq, Eq, Structural, Debug)]
pub enum Error {
    /// The global state record is missing: initialization never ran.
    NotInitialized,
    /// A nested mutating call was detected by the reentrancy guard.
    Reentrancy,
    /// Lock was attempted with an asset other than the single accepted one.
    UnauthorizedAsset,
    /// Lock was attempted with a zero principal.
    ZeroAmount,
    /// No record exists under the given lock identifier.
    NotFound,
    /// The record was already released by an earlier Unlock.
    AlreadyReleased,
    /// The unlock time has not yet been reached.
    TooEarly,
    /// The caller is not the owner of the record.
    Unauthorized,
    /// Principal plus bonus does not fit in 128 bits.
    ArithmeticOverflow,
}

/// Message that initializes the escrow.  It carries no parameters: all
/// configuration is fixed at build time.
#[derive(Debug)]
pub struct InstantiateMsg {}

/// Payload of a deposit notification: the only variant asks to lock the
/// transferred amount, carrying a free-text memo echoed in the receipt.
#[derive(Debug)]
pub enum ReceiveMsg {
    Lock { memo: String },
}

/// A mutating call: either a deposit notification (creating a lock) or an
/// unlock request.
#[derive(Debug)]
pub enum ExecuteMsg {
    /// Deposit notification: `sender` deposited `amount` of the calling
    /// token contract's asset.
    Receive { sender: String, amount: u128, msg: ReceiveMsg },
    /// Request to release a matured lock back to its owner.
    Unlock { lock_id: LockId },
}

/// A read-only query.
#[derive(Debug)]
pub enum QueryMsg {
    /// Look up the full record under a lock identifier.
    LockInfo { lock_id: LockId },
}

/// Observable result of a successful Lock.
#[derive(Debug)]
pub struct LockReceipt {
    /// Identifier under which the new record was stored.
    pub lock_id: LockId,
    /// The record as created.
    pub info: LockInfo,
    /// The memo from the deposit payload, echoed back.
    pub memo: String,
}

/// Instruction for the host to move `amount` of `token_address` to
/// `recipient`; the escrow itself never moves value.
#[derive(Debug)]
pub struct TransferInstruction {
    pub recipient: String,
    pub token_address: String,
    pub amount: u128,
}

/// Observable result of a successful Unlock.
#[derive(Debug)]
pub struct UnlockReceipt {
    /// The transfer the host must execute: principal plus bonus to the owner.
    pub transfer: TransferInstruction,
    /// Identifier of the released record.
    pub lock_id: LockId,
    /// Sequence value of the released record.
    pub nonce: u64,
}

/// Result of a successful mutating call.
#[derive(Debug)]
pub enum ExecOutcome {
    Locked(LockReceipt),
    Unlocked(UnlockReceipt),
}

} // verus!
