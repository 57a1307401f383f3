use propchain::compliance::{
    AMLRiskFactors, BiometricMethod, ComplianceRegistry as Registry, ConsentStatus, DocumentType,
    Error, Event, Jurisdiction, JurisdictionRules, RiskLevel, SanctionsList, VerificationStatus,
};
use propchain::compliance::BiometricMethod as B;
use propchain::compliance::DocumentType as D;
use propchain::primitives::AccountId;

const DAY_MS: u64 = 24 * 60 * 60 * 1000;

fn account(byte: u8) -> AccountId {
    AccountId::from([byte; 32])
}

/// The registry as a host would run it: every call is made by the current
/// caller at the current time.
struct ComplianceRegistry {
    inner: Registry,
    owner: AccountId,
    caller: AccountId,
    now: u64,
}

impl ComplianceRegistry {
    fn new() -> Self {
        let owner = account(0x01);
        ComplianceRegistry { inner: Registry::new(owner), owner: owner, caller: owner, now: 0 }
    }

    fn submit_verification(
        &mut self,
        user: AccountId,
        jurisdiction: Jurisdiction,
        kyc_hash: [u8; 32],
        risk_level: RiskLevel,
        document_type: DocumentType,
        biometric_method: BiometricMethod,
        risk_score: u8,
    ) -> Result<(), Error> {
        self.inner.submit_verification(
            self.caller,
            self.now,
            user,
            jurisdiction,
            kyc_hash,
            risk_level,
            document_type,
            biometric_method,
            risk_score,
        )
    }

    fn update_aml_status(
        &mut self,
        user: AccountId,
        passed: bool,
        factors: AMLRiskFactors,
    ) -> Result<(), Error> {
        self.inner.update_aml_status(self.caller, self.now, user, passed, factors)
    }

    fn update_sanctions_status(
        &mut self,
        user: AccountId,
        passed: bool,
        list: SanctionsList,
    ) -> Result<(), Error> {
        self.inner.update_sanctions_status(self.caller, self.now, user, passed, list)
    }

    fn update_consent(&mut self, user: AccountId, consent: ConsentStatus) -> Result<(), Error> {
        self.inner.update_consent(self.caller, self.now, user, consent)
    }

    fn is_compliant(&self, user: AccountId) -> bool {
        self.inner.is_compliant(self.now, user)
    }

    fn require_compliance(&mut self, user: AccountId) -> Result<(), Error> {
        self.inner.require_compliance(self.now, user)
    }
}

fn clean() -> AMLRiskFactors {
    AMLRiskFactors {
        pep_status: false,
        high_risk_country: false,
        suspicious_transaction_pattern: false,
        large_transaction_volume: false,
        source_of_funds_verified: true,
    }
}

fn risks(count: u8, funds_verified: bool) -> AMLRiskFactors {
    AMLRiskFactors {
        pep_status: count >= 1,
        high_risk_country: count >= 2,
        suspicious_transaction_pattern: count >= 3,
        large_transaction_volume: count >= 4,
        source_of_funds_verified: funds_verified,
    }
}

#[test]
fn new_works() {
    let contract = ComplianceRegistry::new();
    assert_eq!(contract.owner, AccountId::from([0x01; 32]));
    assert_eq!(contract.inner.owner(), AccountId::from([0x01; 32]));
}

#[test]
fn verification_flow_works() {
    let mut contract = ComplianceRegistry::new();
    let user = AccountId::from([0x02; 32]);
    let kyc_hash = [0u8; 32];

    let result = contract.submit_verification(
        user,
        Jurisdiction::US,
        kyc_hash,
        RiskLevel::Low,
        DocumentType::Passport,
        BiometricMethod::FaceRecognition,
        15,
    );
    assert!(result.is_ok());

    let aml_factors = AMLRiskFactors {
        pep_status: false,
        high_risk_country: false,
        suspicious_transaction_pattern: false,
        large_transaction_volume: false,
        source_of_funds_verified: true,
    };
    contract.update_aml_status(user, true, aml_factors).unwrap();

    contract.update_sanctions_status(user, true, SanctionsList::OFAC).unwrap();

    contract.update_consent(user, ConsentStatus::Given).unwrap();

    assert!(contract.is_compliant(user));

    assert!(contract.require_compliance(user).is_ok());
}

#[test]
fn non_verified_user_fails_compliance() {
    let mut contract = ComplianceRegistry::new();
    let user = AccountId::from([0x03; 32]);

    assert!(!contract.is_compliant(user));
    assert_eq!(contract.require_compliance(user), Err(Error::NotVerified));
}

#[test]
fn aml_failure_blocks_compliance() {
    let mut contract = ComplianceRegistry::new();
    let user = AccountId::from([0x04; 32]);
    let kyc_hash = [0u8; 32];

    contract
        .submit_verification(
            user,
            Jurisdiction::US,
            kyc_hash,
            RiskLevel::Low,
            DocumentType::Passport,
            BiometricMethod::NotUsed,
            20,
        )
        .unwrap();

    let aml_factors = AMLRiskFactors {
        pep_status: false,
        high_risk_country: false,
        suspicious_transaction_pattern: false,
        large_transaction_volume: false,
        source_of_funds_verified: true,
    };
    contract.update_aml_status(user, true, aml_factors).unwrap();
    contract.update_sanctions_status(user, true, SanctionsList::UN).unwrap();
    contract.update_consent(user, ConsentStatus::Given).unwrap();

    assert!(contract.is_compliant(user));

    let high_risk_factors = AMLRiskFactors {
        pep_status: true,
        high_risk_country: true,
        suspicious_transaction_pattern: true,
        large_transaction_volume: true,
        source_of_funds_verified: false,
    };
    contract.update_aml_status(user, false, high_risk_factors).unwrap();

    assert!(!contract.is_compliant(user));
}

#[test]
fn verification_level_by_the_table() {
    let level = Registry::calculate_verification_level;
    assert_eq!(level(D::Passport, B::NotUsed, 50), 3);
    assert_eq!(level(D::NationalId, B::NotUsed, 50), 2);
    assert_eq!(level(D::DriverLicense, B::Fingerprint, 50), 3);
    assert_eq!(level(D::BirthCertificate, B::VoiceRecognition, 50), 3);
    assert_eq!(level(D::ProofOfAddress, B::IrisScan, 50), 4);
    assert_eq!(level(D::CorporateDocument, B::MultiFactor, 50), 5);
    assert_eq!(level(D::CorporateDocument, B::MultiFactor, 19), 5);
    assert_eq!(level(D::Passport, B::FaceRecognition, 19), 5);
    assert_eq!(level(D::Passport, B::FaceRecognition, 20), 4);
    assert_eq!(level(D::Passport, B::FaceRecognition, 80), 4);
    assert_eq!(level(D::Passport, B::FaceRecognition, 81), 2);
    assert_eq!(level(D::NationalId, B::NotUsed, 81), 0);
    assert_eq!(level(D::NationalId, B::NotUsed, 255), 0);
    assert_eq!(level(D::CorporateDocument, B::MultiFactor, 100), 4);
}

#[test]
fn submission_is_refused_in_order() {
    let mut registry = Registry::new(account(1));
    let submit = |registry: &mut Registry, caller: AccountId, j: Jurisdiction, d, b, score| {
        registry.submit_verification(caller, 5, account(9), j, [7u8; 32], RiskLevel::Low, d, b, score)
    };
    assert_eq!(
        submit(&mut registry, account(2), Jurisdiction::Other, D::NationalId, B::NotUsed, 200),
        Err(Error::NotAuthorized)
    );
    assert_eq!(
        submit(&mut registry, account(1), Jurisdiction::Other, D::NationalId, B::NotUsed, 101),
        Err(Error::InvalidRiskScore)
    );
    assert_eq!(
        submit(&mut registry, account(1), Jurisdiction::Other, D::Passport, B::MultiFactor, 100),
        Err(Error::JurisdictionNotSupported)
    );
    assert_eq!(
        submit(&mut registry, account(1), Jurisdiction::US, D::NationalId, B::NotUsed, 50),
        Err(Error::NotVerified)
    );
    assert_eq!(
        submit(&mut registry, account(1), Jurisdiction::Singapore, D::Passport, B::NotUsed, 50),
        Err(Error::NotVerified)
    );
    assert_eq!(registry.get_compliance_data(account(9)), None);
    assert!(registry.take_events().is_empty());
    assert_eq!(
        submit(&mut registry, account(1), Jurisdiction::Singapore, D::Passport, B::Fingerprint, 50),
        Ok(())
    );
}

#[test]
fn a_verification_records_expiry_and_retention() {
    let mut registry = Registry::new(account(1));
    registry
        .submit_verification(
            account(1),
            1_000,
            account(9),
            Jurisdiction::EU,
            [7u8; 32],
            RiskLevel::Medium,
            DocumentType::Passport,
            BiometricMethod::NotUsed,
            30,
        )
        .unwrap();
    let data = registry.get_compliance_data(account(9)).unwrap();
    assert_eq!(data.status, VerificationStatus::Verified);
    assert_eq!(data.jurisdiction, Jurisdiction::EU);
    assert_eq!(data.risk_level, RiskLevel::Medium);
    assert_eq!(data.verification_timestamp, 1_000);
    assert_eq!(data.expiry_timestamp, 1_000 + 31_536_000_000);
    assert_eq!(data.data_retention_until, 1_000 + 1095 * DAY_MS);
    assert_eq!(data.kyc_hash, [7u8; 32]);
    assert!(!data.aml_checked && !data.sanctions_checked);
    assert_eq!(data.gdpr_consent, ConsentStatus::NotGiven);
    assert!(data.data_encrypted);
    assert_eq!(data.sanctions_list_checked, SanctionsList::UN);

    let events = registry.take_events();
    assert_eq!(events.len(), 2);
    assert!(matches!(events[0], Event::AuditLogCreated(e) if e.action == 0 && e.timestamp == 1_000));
    assert!(matches!(
        events[1],
        Event::VerificationUpdated(e) if e.status == VerificationStatus::Verified
    ));
    let logs = registry.get_audit_logs(account(9), 10);
    assert_eq!(logs.len(), 1);
    assert_eq!(logs[0].verifier, account(1));
    assert_eq!(logs[0].account, account(9));
}

#[test]
fn default_rules_of_the_jurisdictions() {
    let registry = Registry::new(account(1));
    let rules = |j| registry.get_jurisdiction_rules(j).unwrap();
    assert_eq!((rules(Jurisdiction::US).minimum_verification_level, rules(Jurisdiction::US).data_retention_days), (3, 2555));
    assert_eq!((rules(Jurisdiction::EU).minimum_verification_level, rules(Jurisdiction::EU).data_retention_days), (3, 1095));
    assert_eq!((rules(Jurisdiction::UK).minimum_verification_level, rules(Jurisdiction::UK).data_retention_days), (3, 1825));
    assert_eq!((rules(Jurisdiction::Singapore).minimum_verification_level, rules(Jurisdiction::Singapore).requires_biometric), (4, true));
    assert_eq!((rules(Jurisdiction::UAE).minimum_verification_level, rules(Jurisdiction::UAE).requires_biometric), (4, true));
    assert_eq!(registry.get_jurisdiction_rules(Jurisdiction::Other), None);
    assert!(registry.is_verifier(account(1)));
    assert!(!registry.is_verifier(account(2)));
}

fn verified(registry: &mut Registry, user: AccountId, now: u64) {
    registry
        .submit_verification(
            account(1),
            now,
            user,
            Jurisdiction::EU,
            [0u8; 32],
            RiskLevel::Low,
            DocumentType::Passport,
            BiometricMethod::NotUsed,
            30,
        )
        .unwrap();
}

#[test]
fn aml_risk_levels() {
    let mut registry = Registry::new(account(1));
    let user = account(9);
    verified(&mut registry, user, 0);
    let level = |registry: &mut Registry, passed: bool, factors: AMLRiskFactors| {
        registry.update_aml_status(account(1), 1, user, passed, factors).unwrap();
        let data = registry.get_compliance_data(user).unwrap();
        (data.status, data.risk_level, data.aml_checked)
    };
    assert_eq!(level(&mut registry, true, risks(0, false)), (VerificationStatus::Verified, RiskLevel::Low, true));
    assert_eq!(level(&mut registry, true, risks(1, false)), (VerificationStatus::Verified, RiskLevel::Medium, true));
    assert_eq!(level(&mut registry, true, risks(0, true)), (VerificationStatus::Verified, RiskLevel::Medium, true));
    assert_eq!(level(&mut registry, true, risks(2, true)), (VerificationStatus::Verified, RiskLevel::High, true));
    assert_eq!(level(&mut registry, true, risks(3, true)), (VerificationStatus::Rejected, RiskLevel::Prohibited, true));
    verified(&mut registry, user, 2);
    assert_eq!(level(&mut registry, false, risks(0, true)), (VerificationStatus::Rejected, RiskLevel::Prohibited, false));
    assert_eq!(
        registry.update_aml_status(account(2), 1, user, true, clean()),
        Err(Error::NotAuthorized)
    );
    assert_eq!(
        registry.update_aml_status(account(1), 1, account(8), true, clean()),
        Err(Error::NotVerified)
    );
}

#[test]
fn compliance_has_seven_conditions() {
    let mut registry = Registry::new(account(1));
    let user = account(9);
    verified(&mut registry, user, 100);
    assert!(!registry.is_compliant(100, user));
    registry.update_aml_status(account(1), 100, user, true, clean()).unwrap();
    assert!(!registry.is_compliant(100, user));
    registry.update_sanctions_status(account(1), 100, user, true, SanctionsList::EU).unwrap();
    assert!(!registry.is_compliant(100, user));
    registry.update_consent(user, 100, user, ConsentStatus::Given).unwrap();
    assert!(registry.is_compliant(100, user));

    let expiry = 100 + 365 * DAY_MS;
    assert!(registry.is_compliant(expiry - 1, user));
    assert!(!registry.is_compliant(expiry, user));

    registry.update_consent(user, 101, user, ConsentStatus::Withdrawn).unwrap();
    assert!(!registry.is_compliant(101, user));
    registry.update_consent(account(1), 102, user, ConsentStatus::Given).unwrap();
    assert!(registry.is_compliant(102, user));
    assert_eq!(
        registry.update_consent(account(2), 103, user, ConsentStatus::Given),
        Err(Error::NotAuthorized)
    );

    registry.update_sanctions_status(account(1), 104, user, false, SanctionsList::UK).unwrap();
    let data = registry.get_compliance_data(user).unwrap();
    assert_eq!((data.status, data.risk_level), (VerificationStatus::Rejected, RiskLevel::Prohibited));
    assert!(!registry.is_compliant(104, user));

    verified(&mut registry, user, 200);
    registry.update_aml_status(account(1), 200, user, true, clean()).unwrap();
    registry.update_sanctions_status(account(1), 200, user, true, SanctionsList::EU).unwrap();
    registry.update_consent(user, 200, user, ConsentStatus::Given).unwrap();
    assert!(registry.is_compliant(200, user));
    registry.revoke_verification(account(1), 201, user).unwrap();
    assert!(!registry.is_compliant(201, user));
    assert_eq!(registry.revoke_verification(account(2), 201, user), Err(Error::NotAuthorized));
    assert_eq!(registry.revoke_verification(account(1), 201, account(8)), Err(Error::NotVerified));
}

#[test]
fn retention_limits_compliance_where_it_is_shorter_than_validity() {
    let mut registry = Registry::new(account(1));
    let short = JurisdictionRules {
        requires_kyc: true,
        requires_aml: true,
        requires_sanctions_check: true,
        minimum_verification_level: 1,
        data_retention_days: 10,
        requires_biometric: false,
    };
    assert_eq!(
        registry.update_jurisdiction_rules(account(2), Jurisdiction::Other, short),
        Err(Error::NotAuthorized)
    );
    registry.update_jurisdiction_rules(account(1), Jurisdiction::Other, short).unwrap();
    let user = account(9);
    registry
        .submit_verification(
            account(1),
            0,
            user,
            Jurisdiction::Other,
            [0u8; 32],
            RiskLevel::Low,
            DocumentType::NationalId,
            BiometricMethod::NotUsed,
            50,
        )
        .unwrap();
    registry.update_aml_status(account(1), 0, user, true, clean()).unwrap();
    registry.update_sanctions_status(account(1), 0, user, true, SanctionsList::UN).unwrap();
    registry.update_consent(user, 0, user, ConsentStatus::Given).unwrap();
    assert!(registry.is_compliant(10 * DAY_MS, user));
    assert!(!registry.is_compliant(10 * DAY_MS + 1, user));
    assert!(!registry.check_data_retention(10 * DAY_MS, user));
    assert!(registry.check_data_retention(10 * DAY_MS + 1, user));
    assert!(!registry.check_data_retention(u64::MAX, account(8)));
}

#[test]
fn deletion_needs_expired_retention_and_withdrawn_consent() {
    let mut registry = Registry::new(account(1));
    let user = account(9);
    verified(&mut registry, user, 0);
    let after = 1095 * DAY_MS + 1;
    assert_eq!(registry.request_data_deletion(account(1), after, user), Err(Error::NotAuthorized));
    assert_eq!(
        registry.request_data_deletion(user, after - 1, user),
        Err(Error::DataRetentionExpired)
    );
    assert_eq!(
        registry.request_data_deletion(account(8), after, account(8)),
        Err(Error::DataRetentionExpired)
    );
    assert_eq!(registry.request_data_deletion(user, after, user), Err(Error::ConsentNotGiven));
    registry.update_consent(user, 5, user, ConsentStatus::Withdrawn).unwrap();
    registry.take_events();
    assert_eq!(registry.request_data_deletion(user, after, user), Ok(()));
    assert_eq!(registry.get_compliance_data(user).unwrap().status, VerificationStatus::Expired);
    let events = registry.take_events();
    assert_eq!(events.len(), 1);
    assert!(matches!(events[0], Event::DataRetentionExpired(e) if e.account == user && e.timestamp == after));
}

#[test]
fn reverification_threshold() {
    let mut registry = Registry::new(account(1));
    let user = account(9);
    assert!(registry.needs_reverification(0, user, 0));
    verified(&mut registry, user, 0);
    let expiry = 365 * DAY_MS;
    assert!(!registry.needs_reverification(expiry - 30 * DAY_MS - 1, user, 30));
    assert!(registry.needs_reverification(expiry - 30 * DAY_MS, user, 30));
    assert!(!registry.needs_reverification(expiry - 1, user, 0));
    assert!(registry.needs_reverification(expiry, user, 0));
    assert!(registry.needs_reverification(0, user, 366));
    assert!(registry.needs_reverification(0, user, u32::MAX));
    assert!(registry.get_accounts_needing_reverification(10).is_empty());
}

#[test]
fn audit_logs_keep_the_latest() {
    let mut registry = Registry::new(account(1));
    let user = account(9);
    verified(&mut registry, user, 10);
    registry.update_aml_status(account(1), 11, user, true, clean()).unwrap();
    registry.update_sanctions_status(account(1), 12, user, true, SanctionsList::UN).unwrap();
    registry.update_consent(user, 13, user, ConsentStatus::Given).unwrap();
    let actions = |limit: u64| -> Vec<(u8, u64)> {
        registry.get_audit_logs(user, limit).iter().map(|l| (l.action, l.timestamp)).collect()
    };
    assert_eq!(actions(10), vec![(0, 10), (1, 11), (2, 12), (3, 13)]);
    assert_eq!(actions(4), vec![(0, 10), (1, 11), (2, 12), (3, 13)]);
    assert_eq!(actions(2), vec![(2, 12), (3, 13)]);
    assert_eq!(actions(0), vec![]);
    assert!(registry.get_audit_logs(account(8), 5).is_empty());
    assert_eq!(registry.get_audit_logs(user, 1)[0].verifier, user);
}

#[test]
fn requests_are_numbered_from_zero_and_one_pending_at_a_time() {
    let mut registry = Registry::new(account(1));
    let user = account(9);
    assert_eq!(
        registry.create_verification_request(user, 5, Jurisdiction::US, [1u8; 32], [2u8; 32]),
        Ok(0)
    );
    assert_eq!(
        registry.create_verification_request(user, 6, Jurisdiction::US, [1u8; 32], [2u8; 32]),
        Err(Error::AlreadyVerified)
    );
    assert_eq!(
        registry.create_verification_request(account(8), 6, Jurisdiction::Other, [3u8; 32], [4u8; 32]),
        Ok(1)
    );
    let request = registry.get_verification_request(0).unwrap();
    assert_eq!(request.account, user);
    assert_eq!(request.request_id, 0);
    assert_eq!(request.status, VerificationStatus::Pending);
    assert_eq!(request.request_timestamp, 5);
    assert_eq!(registry.get_verification_request(2), None);

    let process = |registry: &mut Registry, caller: AccountId, id: u64, score: u8| {
        registry.process_verification_request(
            caller,
            7,
            id,
            [5u8; 32],
            RiskLevel::Low,
            DocumentType::Passport,
            BiometricMethod::NotUsed,
            score,
        )
    };
    assert_eq!(process(&mut registry, user, 0, 30), Err(Error::NotAuthorized));
    assert_eq!(process(&mut registry, account(1), 2, 30), Err(Error::NotVerified));
    assert_eq!(process(&mut registry, account(1), 1, 30), Err(Error::JurisdictionNotSupported));
    assert_eq!(process(&mut registry, account(1), 0, 101), Err(Error::InvalidRiskScore));
    assert_eq!(registry.get_verification_request(0).unwrap().status, VerificationStatus::Pending);
    assert_eq!(process(&mut registry, account(1), 0, 30), Ok(()));
    assert_eq!(registry.get_verification_request(0).unwrap().status, VerificationStatus::Verified);
    assert_eq!(registry.get_compliance_data(user).unwrap().kyc_hash, [5u8; 32]);
    assert_eq!(process(&mut registry, account(1), 0, 30), Err(Error::AlreadyVerified));
    assert_eq!(
        registry.create_verification_request(user, 8, Jurisdiction::US, [1u8; 32], [2u8; 32]),
        Ok(2)
    );
}

#[test]
fn service_providers_of_kyc_become_verifiers() {
    let mut registry = Registry::new(account(1));
    assert_eq!(registry.register_service_provider(account(2), 1, account(3), 0), Err(Error::NotAuthorized));
    for (provider, service_type, verifier) in [(3u8, 0u8, true), (4, 1, false), (5, 2, false), (6, 3, true)] {
        registry.register_service_provider(account(1), 9, account(provider), service_type).unwrap();
        let info = registry.get_service_provider(account(provider)).unwrap();
        assert_eq!(info.provider_id, account(provider));
        assert_eq!(info.service_type, service_type);
        assert!(info.is_active);
        assert_eq!(info.last_update, 9);
        assert_eq!(registry.is_verifier(account(provider)), verifier);
    }
    assert_eq!(registry.get_service_provider(account(7)), None);
    assert_eq!(registry.add_verifier(account(3), account(7)), Err(Error::NotAuthorized));
    assert_eq!(registry.add_verifier(account(1), account(7)), Ok(()));
    assert!(registry.is_verifier(account(7)));
}

#[test]
fn batch_aml_records_only_known_accounts() {
    let mut registry = Registry::new(account(1));
    verified(&mut registry, account(9), 0);
    verified(&mut registry, account(8), 0);
    let result = registry.batch_aml_check(
        account(1),
        5,
        vec![account(9), account(7), account(8), account(9)],
        vec![risks(2, true), risks(0, true), risks(3, true), risks(0, false)],
    );
    assert_eq!(result, Ok(vec![true, true, false, false]));
    assert_eq!(registry.get_compliance_data(account(7)), None);
    let eight = registry.get_compliance_data(account(8)).unwrap();
    assert_eq!((eight.status, eight.risk_level, eight.aml_checked), (VerificationStatus::Rejected, RiskLevel::Prohibited, false));
    let nine = registry.get_compliance_data(account(9)).unwrap();
    assert_eq!((nine.status, nine.risk_level, nine.aml_checked), (VerificationStatus::Rejected, RiskLevel::Prohibited, false));
    assert_eq!(registry.get_audit_logs(account(9), 10).len(), 3);

    assert_eq!(
        registry.batch_aml_check(account(1), 5, vec![account(9)], vec![]),
        Err(Error::NotVerified)
    );
    assert_eq!(
        registry.batch_aml_check(account(2), 5, vec![], vec![]),
        Err(Error::NotAuthorized)
    );
    assert_eq!(registry.batch_aml_check(account(1), 5, vec![], vec![]), Ok(vec![]));
}

#[test]
fn batch_sanctions_is_all_or_nothing() {
    let mut registry = Registry::new(account(1));
    verified(&mut registry, account(9), 0);
    verified(&mut registry, account(8), 0);
    let before = registry.get_compliance_data(account(9)).unwrap();
    assert_eq!(
        registry.batch_sanctions_check(
            account(1),
            5,
            vec![account(9), account(7)],
            SanctionsList::OFAC,
            vec![true, true],
        ),
        Err(Error::NotVerified)
    );
    assert_eq!(registry.get_compliance_data(account(9)).unwrap(), before);
    assert_eq!(
        registry.batch_sanctions_check(account(1), 5, vec![account(9)], SanctionsList::OFAC, vec![]),
        Err(Error::NotVerified)
    );
    assert_eq!(
        registry.batch_sanctions_check(account(2), 5, vec![], SanctionsList::OFAC, vec![]),
        Err(Error::NotAuthorized)
    );
    assert_eq!(
        registry.batch_sanctions_check(
            account(1),
            5,
            vec![account(9), account(8)],
            SanctionsList::OFAC,
            vec![true, false],
        ),
        Ok(())
    );
    let nine = registry.get_compliance_data(account(9)).unwrap();
    assert!(nine.sanctions_checked);
    assert_eq!(nine.sanctions_list_checked, SanctionsList::OFAC);
    assert_eq!(nine.status, VerificationStatus::Verified);
    let eight = registry.get_compliance_data(account(8)).unwrap();
    assert!(!eight.sanctions_checked);
    assert_eq!(eight.status, VerificationStatus::Rejected);
}

#[test]
fn summary_and_encrypted_hash() {
    let mut registry = Registry::new(account(1));
    let user = account(9);
    verified(&mut registry, user, 0);
    registry.update_aml_status(account(1), 0, user, true, clean()).unwrap();
    registry.update_sanctions_status(account(1), 0, user, true, SanctionsList::UN).unwrap();
    registry.update_consent(user, 0, user, ConsentStatus::Given).unwrap();
    assert_eq!(
        registry.get_compliance_summary(1, vec![account(8), user, account(8)]),
        vec![(account(8), false), (user, true), (account(8), false)]
    );
    assert_eq!(
        registry.store_encrypted_data_hash(account(2), user, [9u8; 32]),
        Err(Error::NotAuthorized)
    );
    assert_eq!(
        registry.store_encrypted_data_hash(account(1), account(8), [9u8; 32]),
        Err(Error::NotVerified)
    );
    assert_eq!(registry.store_encrypted_data_hash(account(1), user, [9u8; 32]), Ok(()));
    assert!(registry.get_compliance_data(user).unwrap().data_encrypted);
}
