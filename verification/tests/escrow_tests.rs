use propchain::escrow::{AdvancedEscrow, ApprovalType, Error, EscrowStatus, TransferError};
use propchain::primitives::AccountId;

fn alice() -> AccountId {
    AccountId::from([0x01; 32])
}

fn bob() -> AccountId {
    AccountId::from([0x02; 32])
}

fn charlie() -> AccountId {
    AccountId::from([0x03; 32])
}

fn fingerprint(byte: u8) -> propchain::primitives::Hash {
    propchain::primitives::Hash::from([byte; 32])
}

fn two_party_escrow(contract: &mut AdvancedEscrow) -> u64 {
    contract
        .create_escrow_advanced(
            alice(),
            0,
            1,
            1_000_000,
            alice(),
            bob(),
            vec![alice(), bob()],
            2,
            None,
        )
        .unwrap()
}

#[test]
fn test_new_contract() {
    let contract = AdvancedEscrow::new(alice(), 1_000_000);
    assert_eq!(contract.get_high_value_threshold(), 1_000_000);
}

#[test]
fn test_create_escrow_advanced() {
    let mut contract = AdvancedEscrow::new(alice(), 1_000_000);

    let participants = vec![alice(), bob(), charlie()];
    let result = contract.create_escrow_advanced(
        alice(),
        0,
        1,
        1_000_000,
        alice(),
        bob(),
        participants,
        2,
        None,
    );

    assert!(result.is_ok());
    let escrow_id = result.unwrap();
    assert_eq!(escrow_id, 1);

    let escrow = contract.get_escrow(escrow_id).unwrap();
    assert_eq!(escrow.property_id, 1);
    assert_eq!(escrow.amount, 1_000_000);
    assert_eq!(escrow.buyer, alice());
    assert_eq!(escrow.seller, bob());
    assert_eq!(escrow.status, EscrowStatus::Created);
}

#[test]
fn test_create_escrow_invalid_config() {
    let mut contract = AdvancedEscrow::new(alice(), 1_000_000);

    let participants = vec![alice(), bob()];
    let result = contract.create_escrow_advanced(
        alice(),
        0,
        1,
        1_000_000,
        alice(),
        bob(),
        participants,
        3,
        None,
    );

    assert_eq!(result, Err(Error::InvalidConfiguration));
}

#[test]
fn test_deposit_funds() {
    let mut contract = AdvancedEscrow::new(alice(), 1_000_000);
    let escrow_id = two_party_escrow(&mut contract);

    let result = contract.deposit_funds(alice(), 0, escrow_id, 1_000_000);
    assert!(result.is_ok());

    let escrow = contract.get_escrow(escrow_id).unwrap();
    assert_eq!(escrow.deposited_amount, 1_000_000);
    assert_eq!(escrow.status, EscrowStatus::Active);
}

#[test]
fn test_upload_document() {
    let mut contract = AdvancedEscrow::new(alice(), 1_000_000);
    let escrow_id = two_party_escrow(&mut contract);

    let doc_hash = fingerprint(1);
    let result = contract.upload_document(alice(), 0, escrow_id, doc_hash, "Title Deed".to_string());

    assert!(result.is_ok());

    let documents = contract.get_documents(escrow_id);
    assert_eq!(documents.len(), 1);
    assert_eq!(documents[0].hash, doc_hash);
    assert_eq!(documents[0].document_type, "Title Deed");
    assert_eq!(documents[0].verified, false);
}

#[test]
fn test_verify_document() {
    let mut contract = AdvancedEscrow::new(alice(), 1_000_000);
    let escrow_id = two_party_escrow(&mut contract);

    let doc_hash = fingerprint(1);
    contract
        .upload_document(alice(), 0, escrow_id, doc_hash, "Title Deed".to_string())
        .unwrap();

    let result = contract.verify_document(alice(), 0, escrow_id, doc_hash);
    assert!(result.is_ok());

    let documents = contract.get_documents(escrow_id);
    assert_eq!(documents[0].verified, true);
}

#[test]
fn test_add_condition() {
    let mut contract = AdvancedEscrow::new(alice(), 1_000_000);
    let escrow_id = two_party_escrow(&mut contract);

    let result = contract.add_condition(
        alice(),
        0,
        escrow_id,
        "Property inspection completed".to_string(),
    );

    assert!(result.is_ok());
    let condition_id = result.unwrap();
    assert_eq!(condition_id, 1);

    let conditions = contract.get_conditions(escrow_id);
    assert_eq!(conditions.len(), 1);
    assert_eq!(conditions[0].description, "Property inspection completed");
    assert_eq!(conditions[0].met, false);
}

#[test]
fn test_mark_condition_met() {
    let mut contract = AdvancedEscrow::new(alice(), 1_000_000);
    let escrow_id = two_party_escrow(&mut contract);

    let condition_id = contract
        .add_condition(alice(), 0, escrow_id, "Property inspection completed".to_string())
        .unwrap();

    let result = contract.mark_condition_met(alice(), 0, escrow_id, condition_id);
    assert!(result.is_ok());

    let conditions = contract.get_conditions(escrow_id);
    assert_eq!(conditions[0].met, true);
    assert_eq!(conditions[0].verified_by, Some(alice()));
}

#[test]
fn test_sign_approval() {
    let mut contract = AdvancedEscrow::new(alice(), 1_000_000);
    let escrow_id = two_party_escrow(&mut contract);

    let result = contract.sign_approval(alice(), 0, escrow_id, ApprovalType::Release);
    assert!(result.is_ok());

    let count = contract.get_signature_count(escrow_id, ApprovalType::Release);
    assert_eq!(count, 1);

    let result = contract.sign_approval(bob(), 0, escrow_id, ApprovalType::Release);
    assert!(result.is_ok());

    let count = contract.get_signature_count(escrow_id, ApprovalType::Release);
    assert_eq!(count, 2);
}

#[test]
fn test_sign_approval_already_signed() {
    let mut contract = AdvancedEscrow::new(alice(), 1_000_000);
    let escrow_id = two_party_escrow(&mut contract);

    contract.sign_approval(alice(), 0, escrow_id, ApprovalType::Release).unwrap();

    let result = contract.sign_approval(alice(), 0, escrow_id, ApprovalType::Release);
    assert_eq!(result, Err(Error::AlreadySigned));
}

#[test]
fn test_raise_dispute() {
    let mut contract = AdvancedEscrow::new(alice(), 1_000_000);
    let escrow_id = two_party_escrow(&mut contract);

    let result = contract.raise_dispute(
        alice(),
        0,
        escrow_id,
        "Property condition not as described".to_string(),
    );

    assert!(result.is_ok());

    let dispute = contract.get_dispute(escrow_id).unwrap();
    assert_eq!(dispute.raised_by, alice());
    assert_eq!(dispute.reason, "Property condition not as described");
    assert_eq!(dispute.resolved, false);

    let escrow = contract.get_escrow(escrow_id).unwrap();
    assert_eq!(escrow.status, EscrowStatus::Disputed);
}

#[test]
fn test_resolve_dispute() {
    let mut contract = AdvancedEscrow::new(alice(), 1_000_000);
    let admin = contract.get_admin();
    let escrow_id = two_party_escrow(&mut contract);

    contract.raise_dispute(alice(), 0, escrow_id, "Issue".to_string()).unwrap();

    let result =
        contract.resolve_dispute(admin, 0, escrow_id, "Resolved in favor of buyer".to_string());

    assert!(result.is_ok());

    let dispute = contract.get_dispute(escrow_id).unwrap();
    assert_eq!(dispute.resolved, true);
    assert_eq!(dispute.resolution, Some("Resolved in favor of buyer".to_string()));

    let escrow = contract.get_escrow(escrow_id).unwrap();
    assert_eq!(escrow.status, EscrowStatus::Active);
}

#[test]
fn test_resolve_dispute_unauthorized() {
    let mut contract = AdvancedEscrow::new(alice(), 1_000_000);
    let escrow_id = two_party_escrow(&mut contract);

    contract.raise_dispute(alice(), 0, escrow_id, "Issue".to_string()).unwrap();

    let result = contract.resolve_dispute(bob(), 0, escrow_id, "Resolution".to_string());
    assert_eq!(result, Err(Error::Unauthorized));
}

#[test]
fn test_check_all_conditions_met() {
    let mut contract = AdvancedEscrow::new(alice(), 1_000_000);
    let escrow_id = two_party_escrow(&mut contract);

    let result = contract.check_all_conditions_met(escrow_id);
    assert_eq!(result, Ok(true));

    let cond1 = contract.add_condition(alice(), 0, escrow_id, "Condition 1".to_string()).unwrap();
    let cond2 = contract.add_condition(alice(), 0, escrow_id, "Condition 2".to_string()).unwrap();

    let result = contract.check_all_conditions_met(escrow_id);
    assert_eq!(result, Ok(false));

    contract.mark_condition_met(alice(), 0, escrow_id, cond1).unwrap();
    let result = contract.check_all_conditions_met(escrow_id);
    assert_eq!(result, Ok(false));

    contract.mark_condition_met(alice(), 0, escrow_id, cond2).unwrap();
    let result = contract.check_all_conditions_met(escrow_id);
    assert_eq!(result, Ok(true));
}

#[test]
fn test_audit_trail() {
    let mut contract = AdvancedEscrow::new(alice(), 1_000_000);
    let escrow_id = two_party_escrow(&mut contract);

    contract.add_condition(alice(), 0, escrow_id, "Test condition".to_string()).unwrap();
    let doc_hash = fingerprint(1);
    contract.upload_document(alice(), 0, escrow_id, doc_hash, "Test doc".to_string()).unwrap();

    let audit_trail = contract.get_audit_trail(escrow_id);
    assert!(audit_trail.len() >= 3);

    let actions: Vec<String> = audit_trail.iter().map(|e| e.action.clone()).collect();
    assert!(actions.contains(&"EscrowCreated".to_string()));
    assert!(actions.contains(&"ConditionAdded".to_string()));
    assert!(actions.contains(&"DocumentUploaded".to_string()));
}

#[test]
fn test_set_admin() {
    let mut contract = AdvancedEscrow::new(alice(), 1_000_000);
    let original_admin = contract.get_admin();
    assert_eq!(original_admin, alice());

    let result = contract.set_admin(alice(), bob());
    assert!(result.is_ok());

    let new_admin = contract.get_admin();
    assert_eq!(new_admin, bob());
}

#[test]
fn test_set_admin_unauthorized() {
    let mut contract = AdvancedEscrow::new(alice(), 1_000_000);

    let result = contract.set_admin(bob(), charlie());
    assert_eq!(result, Err(Error::Unauthorized));
}

#[test]
fn test_multi_sig_config() {
    let mut contract = AdvancedEscrow::new(alice(), 1_000_000);

    let participants = vec![alice(), bob(), charlie()];
    let escrow_id = contract
        .create_escrow_advanced(
            alice(),
            0,
            1,
            1_000_000,
            alice(),
            bob(),
            participants.clone(),
            2,
            None,
        )
        .unwrap();

    let config = contract.get_multi_sig_config(escrow_id).unwrap();
    assert_eq!(config.required_signatures, 2);
    assert_eq!(config.signers, participants);
}

#[test]
fn release_needs_the_transfer_to_go_through() {
    let mut contract = AdvancedEscrow::new(alice(), 1_000_000);
    let escrow_id = two_party_escrow(&mut contract);
    contract.deposit_funds(alice(), 1, escrow_id, 1_000_000).unwrap();
    contract.sign_approval(alice(), 2, escrow_id, ApprovalType::Release).unwrap();
    contract.sign_approval(bob(), 3, escrow_id, ApprovalType::Release).unwrap();

    let refused = contract.release_funds(alice(), 4, escrow_id, |_, _| {
        Err(TransferError::InsufficientBalance)
    });
    assert_eq!(refused, Err(Error::InsufficientFunds));
    assert_eq!(contract.get_escrow(escrow_id).unwrap().status, EscrowStatus::Active);

    assert_eq!(contract.release_funds(alice(), 5, escrow_id, |_, _| Ok(())), Ok(()));
    assert_eq!(contract.get_escrow(escrow_id).unwrap().status, EscrowStatus::Released);
}
