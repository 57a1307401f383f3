use propchain::escrow::{
    AdvancedEscrow, ApprovalType, Error, EscrowStatus, Event, TransferError, TransferOrder,
};
use propchain::primitives::AccountId;

fn account(byte: u8) -> AccountId {
    AccountId::from([byte; 32])
}

fn admin() -> AccountId {
    account(0x0a)
}

fn a() -> AccountId {
    account(0x01)
}

fn b() -> AccountId {
    account(0x02)
}

fn c() -> AccountId {
    account(0x03)
}

fn stranger() -> AccountId {
    account(0x09)
}

fn fingerprint(byte: u8) -> propchain::primitives::Hash {
    propchain::primitives::Hash::from([byte; 32])
}

fn paid(_to: AccountId, _amount: u128) -> Result<(), TransferError> {
    Ok(())
}

fn unpaid(_to: AccountId, _amount: u128) -> Result<(), TransferError> {
    Err(TransferError::InsufficientBalance)
}

/// An escrow of 100 between payer `a` and payee `b`, with `a`, `b` and `c`
/// as participants and a quorum of two.
fn three_party_escrow(lock: Option<u64>) -> (AdvancedEscrow, u64) {
    let mut engine = AdvancedEscrow::new(admin(), 1_000);
    let id = engine
        .create_escrow_advanced(a(), 10, 7, 100, a(), b(), vec![a(), b(), c()], 2, lock)
        .unwrap();
    (engine, id)
}

fn funded_and_signed(lock: Option<u64>) -> (AdvancedEscrow, u64) {
    let (mut engine, id) = three_party_escrow(lock);
    engine.deposit_funds(a(), 11, id, 100).unwrap();
    engine.sign_approval(a(), 12, id, ApprovalType::Release).unwrap();
    engine.sign_approval(b(), 13, id, ApprovalType::Release).unwrap();
    (engine, id)
}

#[test]
fn quorum_release_then_second_release_is_invalid() {
    let (mut engine, id) = three_party_escrow(None);
    assert_eq!(engine.deposit_funds(a(), 11, id, 100), Ok(()));
    assert_eq!(engine.get_escrow(id).unwrap().status, EscrowStatus::Active);

    engine.sign_approval(a(), 12, id, ApprovalType::Release).unwrap();
    engine.sign_approval(b(), 13, id, ApprovalType::Release).unwrap();
    assert_eq!(engine.get_signature_count(id, ApprovalType::Release), 2);

    assert_eq!(engine.release_order(id, 14), Ok(TransferOrder { to: b(), amount: 100 }));
    assert_eq!(engine.release_funds(c(), 14, id, paid), Ok(()));
    assert_eq!(engine.get_escrow(id).unwrap().status, EscrowStatus::Released);

    assert_eq!(engine.release_funds(c(), 15, id, paid), Err(Error::InvalidStatus));
    assert_eq!(engine.get_escrow(id).unwrap().status, EscrowStatus::Released);
}

#[test]
fn one_signature_of_two_is_below_threshold() {
    let (mut engine, id) = three_party_escrow(None);
    engine.deposit_funds(a(), 11, id, 100).unwrap();
    engine.sign_approval(a(), 12, id, ApprovalType::Release).unwrap();
    assert_eq!(engine.get_signature_count(id, ApprovalType::Release), 1);
    assert_eq!(engine.release_funds(a(), 13, id, paid), Err(Error::SignatureThresholdNotMet));
    assert_eq!(engine.get_escrow(id).unwrap().status, EscrowStatus::Active);
}

#[test]
fn one_unmet_condition_blocks_release() {
    let (mut engine, id) = funded_and_signed(Some(20));
    let first = engine.add_condition(a(), 14, id, "Inspection".to_string()).unwrap();
    let second = engine.add_condition(b(), 15, id, "Title search".to_string()).unwrap();
    assert_eq!((first, second), (1, 2));
    engine.mark_condition_met(c(), 16, id, first).unwrap();

    assert_eq!(engine.release_funds(a(), 25, id, paid), Err(Error::ConditionsNotMet));

    engine.mark_condition_met(c(), 26, id, second).unwrap();
    assert_eq!(engine.release_funds(a(), 27, id, paid), Ok(()));
}

#[test]
fn dispute_blocks_release_but_not_refund() {
    let (mut engine, id) = funded_and_signed(None);
    engine.raise_dispute(a(), 14, id, "Defect".to_string()).unwrap();
    assert_eq!(engine.get_escrow(id).unwrap().status, EscrowStatus::Disputed);

    assert_eq!(engine.release_funds(b(), 15, id, paid), Err(Error::DisputeActive));

    assert_eq!(engine.refund_funds(a(), 16, id, paid), Err(Error::SignatureThresholdNotMet));
    engine.sign_approval(a(), 17, id, ApprovalType::Refund).unwrap();
    engine.sign_approval(c(), 18, id, ApprovalType::Refund).unwrap();
    assert_eq!(engine.refund_order(id), Ok(TransferOrder { to: a(), amount: 100 }));
    assert_eq!(engine.refund_funds(a(), 19, id, paid), Ok(()));
    assert_eq!(engine.get_escrow(id).unwrap().status, EscrowStatus::Refunded);
}

#[test]
fn release_errors_come_in_order() {
    let mut engine = AdvancedEscrow::new(admin(), 1_000);
    assert_eq!(engine.release_funds(a(), 1, 1, paid), Err(Error::EscrowNotFound));

    let id = engine
        .create_escrow_advanced(a(), 10, 7, 100, a(), b(), vec![a(), b(), c()], 2, Some(50))
        .unwrap();
    assert_eq!(engine.release_funds(a(), 11, id, paid), Err(Error::InvalidStatus));

    engine.deposit_funds(a(), 12, id, 40).unwrap();
    assert_eq!(engine.get_escrow(id).unwrap().status, EscrowStatus::Funded);
    assert_eq!(engine.release_funds(a(), 13, id, paid), Err(Error::InvalidStatus));
    engine.deposit_funds(a(), 14, id, 60).unwrap();
    assert_eq!(engine.get_escrow(id).unwrap().status, EscrowStatus::Active);

    engine.add_condition(a(), 15, id, "Survey".to_string()).unwrap();
    engine.raise_dispute(b(), 16, id, "Late".to_string()).unwrap();
    assert_eq!(engine.release_funds(a(), 17, id, paid), Err(Error::DisputeActive));

    engine.resolve_dispute(admin(), 18, id, "Settled".to_string()).unwrap();
    assert_eq!(engine.release_funds(a(), 49, id, paid), Err(Error::TimeLockActive));
    assert_eq!(engine.release_funds(a(), 50, id, paid), Err(Error::ConditionsNotMet));

    engine.mark_condition_met(c(), 51, id, 1).unwrap();
    assert_eq!(engine.release_funds(a(), 52, id, paid), Err(Error::SignatureThresholdNotMet));

    engine.sign_approval(a(), 53, id, ApprovalType::Release).unwrap();
    engine.sign_approval(c(), 54, id, ApprovalType::Release).unwrap();
    assert_eq!(engine.release_funds(a(), 55, id, unpaid), Err(Error::InsufficientFunds));
    assert_eq!(engine.get_escrow(id).unwrap().status, EscrowStatus::Active);
    assert_eq!(engine.release_funds(a(), 56, id, paid), Ok(()));
}

#[test]
fn release_hands_the_ledger_the_seller_and_the_whole_custody() {
    let (mut engine, id) = funded_and_signed(None);
    let mut seen: Option<(AccountId, u128)> = None;
    let result = engine.release_funds(a(), 20, id, |to, amount| {
        seen = Some((to, amount));
        Ok(())
    });
    assert_eq!(result, Ok(()));
    assert_eq!(seen, Some((b(), 100)));
}

#[test]
fn refused_release_never_touches_the_ledger() {
    let (mut engine, id) = three_party_escrow(None);
    let mut called = false;
    let result = engine.release_funds(a(), 20, id, |_, _| {
        called = true;
        Ok(())
    });
    assert_eq!(result, Err(Error::InvalidStatus));
    assert!(!called);
}

#[test]
fn settle_release_checks_again() {
    let (mut engine, id) = three_party_escrow(None);
    assert_eq!(engine.settle_release(a(), 20, id, Ok(())), Err(Error::InvalidStatus));
    let (mut engine, id) = funded_and_signed(None);
    assert_eq!(
        engine.settle_release(a(), 20, id, Err(TransferError::Rejected)),
        Err(Error::InsufficientFunds)
    );
    assert_eq!(engine.settle_release(a(), 21, id, Ok(())), Ok(()));
    assert_eq!(engine.settle_release(a(), 22, id, Ok(())), Err(Error::InvalidStatus));
}

#[test]
fn partial_deposits_fund_then_activate() {
    let (mut engine, id) = three_party_escrow(None);
    engine.deposit_funds(a(), 11, id, 0).unwrap();
    assert_eq!(engine.get_escrow(id).unwrap().status, EscrowStatus::Funded);
    engine.deposit_funds(c(), 12, id, 99).unwrap();
    assert_eq!(engine.get_escrow(id).unwrap().status, EscrowStatus::Funded);
    assert_eq!(engine.get_escrow(id).unwrap().deposited_amount, 99);
    engine.deposit_funds(a(), 13, id, 5).unwrap();
    let escrow = engine.get_escrow(id).unwrap();
    assert_eq!(escrow.status, EscrowStatus::Active);
    assert_eq!(escrow.deposited_amount, 104);
    assert_eq!(engine.deposit_funds(a(), 14, id, 1), Err(Error::InvalidStatus));
    assert_eq!(engine.deposit_funds(a(), 14, 2, 1), Err(Error::EscrowNotFound));
}

#[test]
fn overfunding_is_released_as_one_lump() {
    let (mut engine, id) = three_party_escrow(None);
    engine.deposit_funds(a(), 11, id, 250).unwrap();
    engine.sign_approval(a(), 12, id, ApprovalType::Release).unwrap();
    engine.sign_approval(b(), 13, id, ApprovalType::Release).unwrap();
    assert_eq!(engine.release_order(id, 14), Ok(TransferOrder { to: b(), amount: 250 }));
}

#[test]
fn custody_never_shrinks_and_freezes_when_closed() {
    let (mut engine, id) = funded_and_signed(None);
    let mut last = engine.get_escrow(id).unwrap().deposited_amount;
    engine.raise_dispute(a(), 14, id, "x".to_string()).unwrap();
    assert!(engine.get_escrow(id).unwrap().deposited_amount >= last);
    engine.resolve_dispute(admin(), 15, id, "y".to_string()).unwrap();
    assert!(engine.get_escrow(id).unwrap().deposited_amount >= last);
    last = engine.get_escrow(id).unwrap().deposited_amount;
    engine.release_funds(a(), 16, id, paid).unwrap();
    let closed = engine.get_escrow(id).unwrap();
    assert_eq!(closed.deposited_amount, last);
    let _ = engine.deposit_funds(a(), 17, id, 5);
    let _ = engine.emergency_override(admin(), 18, id, false, paid);
    assert_eq!(engine.get_escrow(id).unwrap(), closed);
}

#[test]
fn second_signature_of_the_same_signer_leaves_the_count() {
    let (mut engine, id) = three_party_escrow(None);
    engine.sign_approval(a(), 12, id, ApprovalType::Release).unwrap();
    let audit_before = engine.get_audit_trail(id).len();
    assert_eq!(
        engine.sign_approval(a(), 13, id, ApprovalType::Release),
        Err(Error::AlreadySigned)
    );
    assert_eq!(engine.get_signature_count(id, ApprovalType::Release), 1);
    assert_eq!(engine.get_audit_trail(id).len(), audit_before);
    assert_eq!(engine.sign_approval(a(), 14, id, ApprovalType::Refund), Ok(()));
    assert_eq!(engine.get_signature_count(id, ApprovalType::Refund), 1);
    assert_eq!(engine.get_signature_count(id, ApprovalType::EmergencyOverride), 0);
    assert_eq!(
        engine.sign_approval(stranger(), 15, id, ApprovalType::Release),
        Err(Error::Unauthorized)
    );
    assert_eq!(
        engine.sign_approval(a(), 15, 99, ApprovalType::Release),
        Err(Error::EscrowNotFound)
    );
}

#[test]
fn closed_escrows_refuse_every_call() {
    let (mut engine, id) = funded_and_signed(None);
    let doc = fingerprint(7);
    engine.upload_document(a(), 14, id, doc, "Deed".to_string()).unwrap();
    engine.add_condition(a(), 15, id, "Keys".to_string()).unwrap();
    engine.mark_condition_met(a(), 16, id, 1).unwrap();
    engine.raise_dispute(a(), 17, id, "Noise".to_string()).unwrap();
    engine.emergency_override(admin(), 18, id, true, paid).unwrap();
    assert_eq!(engine.get_escrow(id).unwrap().status, EscrowStatus::Released);
    let audit = engine.get_audit_trail(id);

    assert_eq!(engine.deposit_funds(a(), 20, id, 1), Err(Error::InvalidStatus));
    assert_eq!(engine.release_funds(a(), 20, id, paid), Err(Error::InvalidStatus));
    assert_eq!(engine.refund_funds(a(), 20, id, paid), Err(Error::InvalidStatus));
    assert_eq!(
        engine.upload_document(a(), 20, id, doc, "Deed".to_string()),
        Err(Error::InvalidStatus)
    );
    assert_eq!(engine.verify_document(a(), 20, id, doc), Err(Error::InvalidStatus));
    assert_eq!(engine.add_condition(a(), 20, id, "More".to_string()), Err(Error::InvalidStatus));
    assert_eq!(engine.mark_condition_met(a(), 20, id, 1), Err(Error::InvalidStatus));
    assert_eq!(
        engine.sign_approval(c(), 20, id, ApprovalType::Release),
        Err(Error::InvalidStatus)
    );
    assert_eq!(engine.raise_dispute(b(), 20, id, "Again".to_string()), Err(Error::InvalidStatus));
    assert_eq!(
        engine.resolve_dispute(admin(), 20, id, "Done".to_string()),
        Err(Error::InvalidStatus)
    );
    assert_eq!(
        engine.resolve_dispute(stranger(), 20, id, "Done".to_string()),
        Err(Error::InvalidStatus)
    );
    assert_eq!(engine.emergency_override(admin(), 20, id, false, paid), Err(Error::InvalidStatus));
    assert_eq!(
        engine.emergency_override(stranger(), 20, id, false, paid),
        Err(Error::Unauthorized)
    );
    assert_eq!(engine.get_audit_trail(id), audit);
    assert_eq!(engine.get_escrow(id).unwrap().status, EscrowStatus::Released);
}

#[test]
fn override_needs_nothing_but_the_administrator() {
    let mut engine = AdvancedEscrow::new(admin(), 1_000);
    let id = engine
        .create_escrow_advanced(a(), 10, 7, 100, a(), b(), vec![a(), b(), c()], 3, Some(1_000_000))
        .unwrap();
    engine.deposit_funds(a(), 11, id, 30).unwrap();
    engine.add_condition(a(), 12, id, "Never met".to_string()).unwrap();
    engine.raise_dispute(b(), 13, id, "Open".to_string()).unwrap();

    assert_eq!(engine.emergency_override(a(), 14, id, false, paid), Err(Error::Unauthorized));
    assert_eq!(engine.emergency_override(b(), 14, 99, false, paid), Err(Error::Unauthorized));
    assert_eq!(engine.emergency_override(admin(), 14, 99, false, paid), Err(Error::EscrowNotFound));
    assert_eq!(
        engine.override_order(admin(), id, false),
        Ok(TransferOrder { to: a(), amount: 30 })
    );
    assert_eq!(
        engine.override_order(admin(), id, true),
        Ok(TransferOrder { to: b(), amount: 30 })
    );
    assert_eq!(
        engine.emergency_override(admin(), 14, id, false, unpaid),
        Err(Error::InsufficientFunds)
    );
    assert_eq!(engine.get_escrow(id).unwrap().status, EscrowStatus::Disputed);
    assert_eq!(engine.emergency_override(admin(), 15, id, false, paid), Ok(()));
    assert_eq!(engine.get_escrow(id).unwrap().status, EscrowStatus::Refunded);

    let trail = engine.get_audit_trail(id);
    let last = trail.last().unwrap();
    assert_eq!(last.action, "EmergencyOverride");
    assert_eq!(last.actor, admin());
    assert_eq!(last.timestamp, 15);
    assert_eq!(last.details, "Funds sent to: buyer, Amount: 30, Status before: Disputed");
}

#[test]
fn audit_details_are_exact() {
    let (mut engine, id) = funded_and_signed(None);
    let doc = fingerprint(3);
    engine.upload_document(c(), 14, id, doc, "Deed".to_string()).unwrap();
    engine.verify_document(b(), 15, id, doc).unwrap();
    engine.add_condition(b(), 16, id, "Keys handed over".to_string()).unwrap();
    engine.mark_condition_met(c(), 17, id, 1).unwrap();
    engine.raise_dispute(b(), 18, id, "Leak".to_string()).unwrap();
    engine.resolve_dispute(admin(), 19, id, "Repaired".to_string()).unwrap();
    engine.release_funds(b(), 20, id, paid).unwrap();

    let trail = engine.get_audit_trail(id);
    let lines: Vec<(u64, AccountId, String, String)> = trail
        .iter()
        .map(|e| (e.timestamp, e.actor, e.action.clone(), e.details.clone()))
        .collect();
    let expected = vec![
        (10, a(), "EscrowCreated", "Property: 7, Amount: 100"),
        (11, a(), "FundsDeposited", "Amount: 100"),
        (12, a(), "SignatureAdded", "Approval type: Release"),
        (13, b(), "SignatureAdded", "Approval type: Release"),
        (14, c(), "DocumentUploaded", "Type: Deed"),
        (15, b(), "DocumentVerified", "Document verified"),
        (16, b(), "ConditionAdded", "Condition: Keys handed over"),
        (17, c(), "ConditionMet", "Condition ID: 1"),
        (18, b(), "DisputeRaised", "Reason: Leak"),
        (19, admin(), "DisputeResolved", "Resolution: Repaired"),
        (20, b(), "FundsReleased", "Amount: 100 to seller"),
    ];
    assert_eq!(lines.len(), expected.len());
    for (line, want) in lines.iter().zip(expected.iter()) {
        assert_eq!(line.0, want.0);
        assert_eq!(line.1, want.1);
        assert_eq!(line.2, want.2);
        assert_eq!(line.3, want.3);
    }
}

#[test]
fn refund_audit_names_the_buyer_and_large_amounts_render_in_full() {
    let mut engine = AdvancedEscrow::new(admin(), 1_000);
    let id = engine
        .create_escrow_advanced(a(), 1, u64::MAX, u128::MAX, a(), b(), vec![a()], 1, None)
        .unwrap();
    let trail = engine.get_audit_trail(id);
    assert_eq!(
        trail[0].details,
        "Property: 18446744073709551615, Amount: 340282366920938463463374607431768211455"
    );
    engine.deposit_funds(a(), 2, id, 1_000_000_007).unwrap();
    engine.sign_approval(a(), 3, id, ApprovalType::Refund).unwrap();
    engine.refund_funds(a(), 4, id, paid).unwrap();
    let trail = engine.get_audit_trail(id);
    assert_eq!(trail.last().unwrap().action, "FundsRefunded");
    assert_eq!(trail.last().unwrap().details, "Amount: 1000000007 to buyer");
}

#[test]
fn every_success_queues_one_notification() {
    let (mut engine, id) = three_party_escrow(None);
    let created = engine.take_events();
    assert_eq!(created.len(), 1);
    assert!(matches!(&created[0], Event::EscrowCreated(e) if e.escrow_id == id && e.amount == 100));
    assert!(engine.take_events().is_empty());

    engine.deposit_funds(a(), 11, id, 100).unwrap();
    assert_eq!(engine.deposit_funds(a(), 11, id, 1), Err(Error::InvalidStatus));
    engine.sign_approval(a(), 12, id, ApprovalType::Release).unwrap();
    assert_eq!(
        engine.sign_approval(a(), 12, id, ApprovalType::Release),
        Err(Error::AlreadySigned)
    );
    engine.add_condition(a(), 13, id, "One".to_string()).unwrap();
    engine.mark_condition_met(b(), 14, id, 1).unwrap();
    let events = engine.take_events();
    assert_eq!(events.len(), 4);
    assert!(matches!(&events[0], Event::FundsDeposited(e) if e.amount == 100 && e.depositor == a()));
    assert!(matches!(&events[1], Event::SignatureAdded(e) if e.signer == a()));
    assert!(matches!(&events[2], Event::ConditionAdded(e) if e.condition_id == 1));
    assert!(matches!(&events[3], Event::ConditionMet(e) if e.verified_by == b()));
}

#[test]
fn marking_a_met_condition_again_changes_nothing() {
    let (mut engine, id) = three_party_escrow(None);
    engine.add_condition(a(), 11, id, "Inspection".to_string()).unwrap();
    engine.mark_condition_met(b(), 12, id, 1).unwrap();
    let conditions = engine.get_conditions(id);
    let trail = engine.get_audit_trail(id);
    engine.take_events();

    assert_eq!(engine.mark_condition_met(c(), 99, id, 1), Ok(()));
    assert_eq!(engine.get_conditions(id), conditions);
    assert_eq!(engine.get_conditions(id)[0].verified_by, Some(b()));
    assert_eq!(engine.get_conditions(id)[0].verified_at, Some(12));
    assert_eq!(engine.get_audit_trail(id), trail);
    assert!(engine.take_events().is_empty());
}

#[test]
fn condition_errors() {
    let (mut engine, id) = three_party_escrow(None);
    assert_eq!(
        engine.add_condition(c(), 11, id, "By a participant".to_string()),
        Err(Error::Unauthorized)
    );
    assert_eq!(
        engine.add_condition(a(), 11, 5, "Nowhere".to_string()),
        Err(Error::EscrowNotFound)
    );
    engine.add_condition(b(), 12, id, "By the seller".to_string()).unwrap();
    assert_eq!(engine.mark_condition_met(stranger(), 13, id, 1), Err(Error::Unauthorized));
    assert_eq!(engine.mark_condition_met(a(), 13, id, 0), Err(Error::EscrowNotFound));
    assert_eq!(engine.mark_condition_met(a(), 13, id, 2), Err(Error::EscrowNotFound));
    assert_eq!(engine.check_all_conditions_met(77), Ok(true));
}

#[test]
fn document_errors_and_first_match() {
    let (mut engine, id) = three_party_escrow(None);
    let doc = fingerprint(5);
    assert_eq!(
        engine.upload_document(stranger(), 11, id, doc, "Deed".to_string()),
        Err(Error::Unauthorized)
    );
    assert_eq!(
        engine.upload_document(a(), 11, 4, doc, "Deed".to_string()),
        Err(Error::EscrowNotFound)
    );
    assert_eq!(engine.verify_document(a(), 11, id, doc), Err(Error::DocumentNotFound));
    engine.upload_document(a(), 12, id, fingerprint(4), "Survey".to_string()).unwrap();
    engine.upload_document(a(), 13, id, doc, "Deed".to_string()).unwrap();
    engine.upload_document(b(), 14, id, doc, "Deed copy".to_string()).unwrap();
    assert_eq!(engine.verify_document(stranger(), 15, id, doc), Err(Error::Unauthorized));
    engine.verify_document(c(), 15, id, doc).unwrap();
    let documents = engine.get_documents(id);
    let verified: Vec<bool> = documents.iter().map(|d| d.verified).collect();
    assert_eq!(verified, vec![false, true, false]);
    assert_eq!(documents[1].uploaded_at, 13);
    assert_eq!(documents[2].uploaded_by, b());
}

#[test]
fn payer_outside_the_participants_may_upload_but_not_verify() {
    let mut engine = AdvancedEscrow::new(admin(), 1_000);
    let id = engine
        .create_escrow_advanced(a(), 10, 7, 100, a(), b(), vec![c()], 1, None)
        .unwrap();
    let doc = fingerprint(1);
    assert_eq!(engine.upload_document(a(), 11, id, doc, "Deed".to_string()), Ok(()));
    assert_eq!(engine.verify_document(a(), 12, id, doc), Err(Error::Unauthorized));
    assert_eq!(engine.verify_document(c(), 12, id, doc), Ok(()));
}

#[test]
fn dispute_errors_and_stale_signatures() {
    let (mut engine, id) = funded_and_signed(None);
    assert_eq!(
        engine.raise_dispute(c(), 14, id, "Not a party".to_string()),
        Err(Error::Unauthorized)
    );
    assert_eq!(
        engine.resolve_dispute(admin(), 14, id, "Nothing to resolve".to_string()),
        Err(Error::EscrowNotFound)
    );
    assert_eq!(
        engine.resolve_dispute(a(), 14, 99, "Unknown".to_string()),
        Err(Error::Unauthorized)
    );
    engine.raise_dispute(b(), 15, id, "First".to_string()).unwrap();
    assert_eq!(engine.raise_dispute(a(), 16, id, "Second".to_string()), Err(Error::DisputeActive));
    engine.resolve_dispute(admin(), 17, id, "Settled".to_string()).unwrap();
    assert_eq!(engine.get_signature_count(id, ApprovalType::Release), 2);
    assert_eq!(engine.raise_dispute(a(), 18, id, "Third".to_string()), Ok(()));
    let dispute = engine.get_dispute(id).unwrap();
    assert_eq!(dispute.reason, "Third");
    assert_eq!(dispute.resolution, None);
    engine.resolve_dispute(admin(), 19, id, "Again".to_string()).unwrap();
    assert_eq!(engine.release_funds(a(), 20, id, paid), Ok(()));
}

#[test]
fn creation_is_refused_for_a_malformed_quorum() {
    let mut engine = AdvancedEscrow::new(admin(), 1_000);
    let make = |engine: &mut AdvancedEscrow, participants: Vec<AccountId>, required: u8| {
        engine.create_escrow_advanced(a(), 1, 1, 1, a(), b(), participants, required, None)
    };
    assert_eq!(make(&mut engine, vec![a(), b()], 0), Err(Error::InvalidConfiguration));
    assert_eq!(make(&mut engine, vec![], 1), Err(Error::InvalidConfiguration));
    assert_eq!(make(&mut engine, vec![], 0), Err(Error::InvalidConfiguration));
    assert_eq!(make(&mut engine, vec![a()], 2), Err(Error::InvalidConfiguration));
    assert_eq!(engine.escrow_count(), 0);
    assert_eq!(engine.get_escrow(1), None);
    assert_eq!(make(&mut engine, vec![a()], 1), Ok(1));
    assert_eq!(make(&mut engine, vec![a(), b()], 2), Ok(2));
    assert_eq!(engine.escrow_count(), 2);
    assert!(engine.get_audit_trail(3).is_empty());
    assert!(engine.get_documents(3).is_empty());
    assert!(engine.get_conditions(3).is_empty());
    assert_eq!(engine.get_dispute(1), None);
    assert_eq!(engine.get_multi_sig_config(3), None);
    assert_eq!(engine.get_signature_count(3, ApprovalType::Release), 0);
}

#[test]
fn only_the_administrator_hands_over_the_role() {
    let mut engine = AdvancedEscrow::new(admin(), 1_000);
    assert_eq!(engine.set_admin(a(), a()), Err(Error::Unauthorized));
    assert_eq!(engine.set_admin(admin(), a()), Ok(()));
    assert_eq!(engine.get_admin(), a());
    assert_eq!(engine.set_admin(admin(), b()), Err(Error::Unauthorized));
}

#[test]
fn the_engine_serves_through_its_interface() {
    let mut engine = AdvancedEscrow::new(admin(), 1_000);
    let id = propchain::traits::AdvancedEscrow::create_escrow_advanced(
        &mut engine,
        a(),
        1,
        7,
        100,
        a(),
        b(),
        vec![a(), b()],
        1,
        None,
    )
    .unwrap();
    assert_eq!(
        propchain::traits::AdvancedEscrow::deposit_funds(&mut engine, a(), 2, id, 100),
        Ok(())
    );
    assert_eq!(
        propchain::traits::AdvancedEscrow::release_funds(&mut engine, a(), 3, id, paid),
        Err(Error::SignatureThresholdNotMet)
    );
    assert_eq!(
        propchain::traits::AdvancedEscrow::sign_approval(
            &mut engine,
            b(),
            4,
            id,
            propchain::traits::ApprovalType::Release,
        ),
        Ok(())
    );
    assert_eq!(
        propchain::traits::AdvancedEscrow::release_funds(&mut engine, a(), 5, id, paid),
        Ok(())
    );
    assert_eq!(engine.get_escrow(id).unwrap().status, EscrowStatus::Released);
    assert_eq!(
        propchain::traits::AdvancedEscrow::emergency_override(&mut engine, admin(), 6, id, true, paid),
        Err(Error::InvalidStatus)
    );
}
