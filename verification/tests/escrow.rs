use cw20_lock::escrow::target_address;
use cw20_lock::escrow::Escrow;
use cw20_lock::interest::calculate_interest;
use cw20_lock::types::Error;
use cw20_lock::types::ExecOutcome;
use cw20_lock::types::ExecuteMsg;
use cw20_lock::types::InstantiateMsg;
use cw20_lock::types::LockId;
use cw20_lock::types::LockInfo;
use cw20_lock::types::QueryMsg;
use cw20_lock::types::ReceiveMsg;
use cw20_lock::types::State;

fn receive(sender: &str, amount: u128, memo: &str) -> ExecuteMsg {
    ExecuteMsg::Receive {
        sender: sender.to_string(),
        amount,
        msg: ReceiveMsg::Lock { memo: memo.to_string() },
    }
}

fn lock(e: &mut Escrow, now: u64, sender: &str, amount: u128) -> cw20_lock::types::LockReceipt {
    match e.execute(now, target_address(), receive(sender, amount, "memo")) {
        Ok(ExecOutcome::Locked(receipt)) => receipt,
        other => panic!("expected a lock receipt, got {:?}", other),
    }
}

fn unlock(e: &mut Escrow, now: u64, caller: &str, id: &LockId) -> Result<ExecOutcome, Error> {
    e.execute(now, caller.to_string(), ExecuteMsg::Unlock { lock_id: id.clone() })
}

#[test]
fn interest_exact_values() {
    assert_eq!(calculate_interest(100_000), 7770);
    assert_eq!(calculate_interest(1_000_000), 77_700);
    assert_eq!(calculate_interest(13), 1);
    assert_eq!(calculate_interest(12), 0);
    assert_eq!(calculate_interest(1), 0);
    assert_eq!(calculate_interest(0), 0);
}

#[test]
fn interest_overflow_defaults_to_zero() {
    assert_eq!(calculate_interest(u128::MAX), 0);
    assert_eq!(calculate_interest(u128::MAX / 7770 + 1), 0);
    let largest = u128::MAX / 7770;
    assert_eq!(calculate_interest(largest), largest * 7770 / 100_000);
}

#[test]
fn lock_creates_record() {
    let mut e = Escrow::instantiate(InstantiateMsg {});
    let receipt = lock(&mut e, 1_000, "alice", 100_000);
    assert_eq!(receipt.info.owner, "alice");
    assert_eq!(receipt.info.token_address, target_address());
    assert_eq!(receipt.info.amount, 100_000);
    assert_eq!(receipt.info.unlock_time, 1_000 + 605_227);
    assert_eq!(receipt.info.expected_interest, 7_770);
    assert!(!receipt.info.is_unlocked);
    assert_eq!(receipt.info.nonce, 1);
    assert_eq!(receipt.lock_id.owner, "alice");
    assert_eq!(receipt.lock_id.token_address, target_address());
    assert_eq!(receipt.lock_id.nonce, 1);
    assert_eq!(receipt.memo, "memo");
    assert_eq!(e.state, Some(State { nonce: 1, locked: false }));
    let stored = e.get_lock_info(&receipt.lock_id).expect("record must exist");
    assert_eq!(stored.amount, 100_000);
    assert!(!stored.is_unlocked);
}

#[test]
fn lock_increments_sequence_and_keeps_both_records() {
    let mut e = Escrow::instantiate(InstantiateMsg {});
    let r1 = lock(&mut e, 1_000, "alice", 50);
    let r2 = lock(&mut e, 2_000, "alice", 50);
    assert_eq!(r1.info.nonce, 1);
    assert_eq!(r2.info.nonce, 2);
    assert_eq!(r1.lock_id.owner, r2.lock_id.owner);
    assert_eq!(r1.lock_id.token_address, r2.lock_id.token_address);
    assert_ne!(r1.lock_id.nonce, r2.lock_id.nonce);
    assert_eq!(e.records.len(), 2);
    assert_eq!(e.state, Some(State { nonce: 2, locked: false }));
    assert!(e.get_lock_info(&r1.lock_id).is_ok());
    assert!(e.get_lock_info(&r2.lock_id).is_ok());
}

#[test]
fn lock_rejects_unauthorized_asset() {
    let mut e = Escrow::instantiate(InstantiateMsg {});
    let r = e.execute(1_000, "terra1notherightone".to_string(), receive("alice", 100_000, "m"));
    assert_eq!(r.unwrap_err(), Error::UnauthorizedAsset);
    assert_eq!(e.state, Some(State { nonce: 0, locked: false }));
    assert!(e.records.is_empty());
}

#[test]
fn lock_rejects_zero_amount() {
    let mut e = Escrow::instantiate(InstantiateMsg {});
    let r = e.execute(1_000, target_address(), receive("alice", 0, "m"));
    assert_eq!(r.unwrap_err(), Error::ZeroAmount);
    assert_eq!(e.state, Some(State { nonce: 0, locked: false }));
    assert!(e.records.is_empty());
}

#[test]
fn full_scenario_lock_wait_unlock_twice() {
    let mut e = Escrow::instantiate(InstantiateMsg {});
    let t0: u64 = 1_700_000_000;
    let receipt = lock(&mut e, t0, "alice", 100_000);
    assert_eq!(receipt.info.expected_interest, 7_770);
    assert_eq!(receipt.info.unlock_time, t0 + 605_227);

    let too_early = unlock(&mut e, t0 + 605_226, "alice", &receipt.lock_id);
    assert_eq!(too_early.unwrap_err(), Error::TooEarly);

    match unlock(&mut e, t0 + 605_227, "alice", &receipt.lock_id) {
        Ok(ExecOutcome::Unlocked(u)) => {
            assert_eq!(u.transfer.amount, 107_770);
            assert_eq!(u.transfer.recipient, "alice");
            assert_eq!(u.transfer.token_address, target_address());
            assert_eq!(u.nonce, 1);
        },
        other => panic!("expected an unlock receipt, got {:?}", other),
    }
    let stored = e.get_lock_info(&receipt.lock_id).expect("record must survive release");
    assert!(stored.is_unlocked);
    assert_eq!(stored.amount, 100_000);
    assert_eq!(stored.expected_interest, 7_770);
    assert_eq!(stored.owner, "alice");

    let again = unlock(&mut e, t0 + 700_000, "alice", &receipt.lock_id);
    assert_eq!(again.unwrap_err(), Error::AlreadyReleased);
}

#[test]
fn unlock_fails_for_unknown_identifier() {
    let mut e = Escrow::instantiate(InstantiateMsg {});
    let receipt = lock(&mut e, 1_000, "alice", 100_000);
    let wrong = LockId {
        owner: "alice".to_string(),
        token_address: target_address(),
        nonce: receipt.lock_id.nonce + 1,
    };
    let r = unlock(&mut e, 2_000_000, "alice", &wrong);
    assert_eq!(r.unwrap_err(), Error::NotFound);
}

#[test]
fn unlock_fails_for_non_owner() {
    let mut e = Escrow::instantiate(InstantiateMsg {});
    let receipt = lock(&mut e, 1_000, "alice", 100_000);
    let r = unlock(&mut e, 1_000 + 605_227, "bob", &receipt.lock_id);
    assert_eq!(r.unwrap_err(), Error::Unauthorized);
    let stored = e.get_lock_info(&receipt.lock_id).unwrap();
    assert!(!stored.is_unlocked);
}

#[test]
fn unlock_check_order_released_wins_over_timing() {
    let mut e = Escrow::instantiate(InstantiateMsg {});
    let receipt = lock(&mut e, 1_000, "alice", 100_000);
    unlock(&mut e, 1_000 + 605_227, "alice", &receipt.lock_id).expect("release must succeed");
    let r = unlock(&mut e, 0, "bob", &receipt.lock_id);
    assert_eq!(r.unwrap_err(), Error::AlreadyReleased);
}

#[test]
fn reentrancy_is_rejected_and_state_untouched() {
    let mut e = Escrow::instantiate(InstantiateMsg {});
    let receipt = lock(&mut e, 1_000, "alice", 100_000);
    match &mut e.state {
        Some(s) => s.locked = true,
        None => unreachable!(),
    }
    let r = e.execute(2_000, target_address(), receive("alice", 5, "m"));
    assert_eq!(r.unwrap_err(), Error::Reentrancy);
    let r2 = unlock(&mut e, 1_000 + 605_227, "alice", &receipt.lock_id);
    assert_eq!(r2.unwrap_err(), Error::Reentrancy);
    assert_eq!(e.state, Some(State { nonce: 1, locked: true }));
    assert_eq!(e.records.len(), 1);
    let stored = e.get_lock_info(&receipt.lock_id).unwrap();
    assert!(!stored.is_unlocked);
    assert_eq!(stored.amount, 100_000);
}

#[test]
fn missing_global_state_is_fatal_for_execute() {
    let mut e = Escrow { state: None, records: Vec::new() };
    let r = e.execute(1_000, target_address(), receive("alice", 100_000, "m"));
    assert_eq!(r.unwrap_err(), Error::NotInitialized);
    let r2 = e.execute(1_000, "alice".to_string(), ExecuteMsg::Unlock {
        lock_id: LockId { owner: "alice".to_string(), token_address: target_address(), nonce: 1 },
    });
    assert_eq!(r2.unwrap_err(), Error::NotInitialized);
}

#[test]
fn missing_global_state_is_tolerated_by_try_lock() {
    let mut e = Escrow { state: None, records: Vec::new() };
    let r = e.try_lock(
        1_000,
        &target_address(),
        "alice".to_string(),
        100_000,
        ReceiveMsg::Lock { memo: "m".to_string() },
    );
    let receipt = r.expect("a missing state defaults to a zeroed one here");
    assert_eq!(receipt.info.nonce, 1);
    assert_eq!(e.state, Some(State { nonce: 1, locked: false }));
}

#[test]
fn unlock_overflow_is_surfaced_and_nothing_written() {
    let id = LockId { owner: "alice".to_string(), token_address: target_address(), nonce: 1 };
    let info = LockInfo {
        owner: "alice".to_string(),
        token_address: target_address(),
        amount: u128::MAX,
        unlock_time: 10,
        expected_interest: 1,
        is_unlocked: false,
        nonce: 1,
    };
    let mut e = Escrow {
        state: Some(State { nonce: 1, locked: false }),
        records: vec![(id.clone(), info)],
    };
    let r = unlock(&mut e, 100, "alice", &id);
    assert_eq!(r.unwrap_err(), Error::ArithmeticOverflow);
    let stored = e.get_lock_info(&id).unwrap();
    assert!(!stored.is_unlocked);
}

#[test]
fn query_returns_record_or_not_found() {
    let mut e = Escrow::instantiate(InstantiateMsg {});
    let receipt = lock(&mut e, 1_000, "alice", 100_000);
    let info = e
        .query(&QueryMsg::LockInfo { lock_id: receipt.lock_id.clone() })
        .expect("record must be found");
    assert_eq!(info.amount, 100_000);
    assert_eq!(info.nonce, 1);
    let missing = LockId { owner: "bob".to_string(), token_address: target_address(), nonce: 1 };
    let r = e.query(&QueryMsg::LockInfo { lock_id: missing });
    assert_eq!(r.unwrap_err(), Error::NotFound);
}
