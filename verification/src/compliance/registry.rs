//! The compliance registry itself: executable operations, each proved
//! against the model.

use vstd::prelude::*;
use crate::primitives::AccountId;
use crate::table::Table;
use crate::compliance::model::{
    aml_applied, aml_passes, default_rules, risk_count,
    sanctions_applied, verification_level, ComplianceState, ACTION_AML_CHECK,
    ACTION_CONSENT_UPDATE, ACTION_SANCTIONS_CHECK, ACTION_VERIFICATION, DAY_MS, VALIDITY_MS,
};
use crate::compliance::types::{
    AMLRiskFactors, AuditLog, AuditLogCreated, BiometricMethod, ComplianceCheckPerformed,
    ComplianceData, ConsentStatus, ConsentUpdated, DataRetentionExpired, DocumentType, Error,
    Event, Jurisdiction, JurisdictionRules, RiskLevel, SanctionsList, ServiceProvider,
    ServiceProviderRegistered, VerificationRequest, VerificationRequestCreated,
    VerificationStatus, VerificationUpdated,
};

verus! {

/// The compliance registry.
pub struct ComplianceRegistry {
    owner: AccountId,
    verifiers: Table<AccountId, bool>,
    compliance_data: Table<AccountId, ComplianceData>,
    jurisdiction_rules: Table<Jurisdiction, JurisdictionRules>,
    audit_logs: Table<AccountId, Vec<AuditLog>>,
    encrypted_data_hashes: Table<AccountId, [u8; 32]>,
    verification_requests: Vec<VerificationRequest>,
    service_providers: Table<AccountId, ServiceProvider>,
    account_requests: Table<AccountId, u64>,
    events: Vec<Event>,
}

impl View for ComplianceRegistry {
    type V = ComplianceState;

    closed spec fn view(&self) -> ComplianceState {
        ComplianceState {
            owner: self.owner,
            verifiers: self.verifiers@,
            compliance_data: self.compliance_data@,
            jurisdiction_rules: self.jurisdiction_rules@,
            audit_logs: self.audit_logs@.map_values(|logs: Vec<AuditLog>| logs@),
            encrypted_data_hashes: self.encrypted_data_hashes@,
            verification_requests: self.verification_requests@,
            service_providers: self.service_providers@,
            account_requests: self.account_requests@,
            events: self.events@,
        }
    }
}

/// How many of the four risk factors are present.
fn count_risks(factors: &AMLRiskFactors) -> (r: u8)
    ensures
        r == risk_count(*factors),
{
    let mut count: u8 = 0;
    if factors.pep_status {
        count = count + 1;
    }
    if factors.high_risk_country {
        count = count + 1;
    }
    if factors.suspicious_transaction_pattern {
        count = count + 1;
    }
    if factors.large_transaction_volume {
        count = count + 1;
    }
    count
}

fn apply_aml(data: ComplianceData, passed: bool, factors: AMLRiskFactors) -> (r: ComplianceData)
    ensures
        r == aml_applied(data, passed, factors),
{
    let mut updated = data;
    updated.aml_checked = passed;
    updated.aml_risk_factors = factors;
    let risks = count_risks(&factors);
    if !passed || risks >= 3 {
        updated.status = VerificationStatus::Rejected;
        updated.risk_level = RiskLevel::Prohibited;
    } else if risks >= 2 {
        updated.risk_level = RiskLevel::High;
    } else if risks >= 1 {
        updated.risk_level = RiskLevel::Medium;
    }
    updated
}

fn apply_sanctions(data: ComplianceData, passed: bool, list_checked: SanctionsList) -> (r:
    ComplianceData)
    ensures
        r == sanctions_applied(data, passed, list_checked),
{
    let mut updated = data;
    updated.sanctions_checked = passed;
    updated.sanctions_list_checked = list_checked;
    if !passed {
        updated.status = VerificationStatus::Rejected;
        updated.risk_level = RiskLevel::Prohibited;
    }
    updated
}

impl ComplianceRegistry {
    /// The invariant of the registry.
    pub closed spec fn wf(&self) -> bool {
        &&& self.verifiers.wf()
        &&& self.compliance_data.wf()
        &&& self.jurisdiction_rules.wf()
        &&& self.audit_logs.wf()
        &&& self.encrypted_data_hashes.wf()
        &&& self.service_providers.wf()
        &&& self.account_requests.wf()
        &&& self@.wf()
    }

    /// A registry owned by `owner`, who is its first verifier, with the
    /// default rules of the five jurisdictions that have any.
    pub fn new(owner: AccountId) -> (r: Self)
        ensures
            r.wf(),
            r@ == ComplianceState::initial(owner),
    {
        let mut verifiers: Table<AccountId, bool> = Table::new();
        verifiers.insert(owner, true);
        let mut r = ComplianceRegistry {
            owner,
            verifiers,
            compliance_data: Table::new(),
            jurisdiction_rules: Table::new(),
            audit_logs: Table::new(),
            encrypted_data_hashes: Table::new(),
            verification_requests: Vec::new(),
            service_providers: Table::new(),
            account_requests: Table::new(),
            events: Vec::new(),
        };
        r.init_default_jurisdiction_rules();
        proof {
            assert(r@.audit_logs =~= Map::<AccountId, Seq<AuditLog>>::empty());
            assert(r@.verification_requests =~= Seq::empty());
            assert(r@.events =~= Seq::empty());
        }
        r
    }

    /// Puts the default rules in force.
    fn init_default_jurisdiction_rules(&mut self)
        requires
            old(self).jurisdiction_rules.wf(),
            old(self).jurisdiction_rules@ == Map::<Jurisdiction, JurisdictionRules>::empty(),
        ensures
            final(self).jurisdiction_rules.wf(),
            final(self).jurisdiction_rules@ == default_rules(),
            final(self).owner == old(self).owner,
            final(self).verifiers == old(self).verifiers,
            final(self).compliance_data == old(self).compliance_data,
            final(self).audit_logs == old(self).audit_logs,
            final(self).encrypted_data_hashes == old(self).encrypted_data_hashes,
            final(self).verification_requests == old(self).verification_requests,
            final(self).service_providers == old(self).service_providers,
            final(self).account_requests == old(self).account_requests,
            final(self).events == old(self).events,
    {
        self.jurisdiction_rules.insert(
            Jurisdiction::US,
            JurisdictionRules {
                requires_kyc: true,
                requires_aml: true,
                requires_sanctions_check: true,
                minimum_verification_level: 3,
                data_retention_days: 2555,
                requires_biometric: false,
            },
        );
        self.jurisdiction_rules.insert(
            Jurisdiction::EU,
            JurisdictionRules {
                requires_kyc: true,
                requires_aml: true,
                requires_sanctions_check: true,
                minimum_verification_level: 3,
                data_retention_days: 1095,
                requires_biometric: false,
            },
        );
        self.jurisdiction_rules.insert(
            Jurisdiction::UK,
            JurisdictionRules {
                requires_kyc: true,
                requires_aml: true,
                requires_sanctions_check: true,
                minimum_verification_level: 3,
                data_retention_days: 1825,
                requires_biometric: false,
            },
        );
        self.jurisdiction_rules.insert(
            Jurisdiction::Singapore,
            JurisdictionRules {
                requires_kyc: true,
                requires_aml: true,
                requires_sanctions_check: true,
                minimum_verification_level: 4,
                data_retention_days: 1825,
                requires_biometric: true,
            },
        );
        self.jurisdiction_rules.insert(
            Jurisdiction::UAE,
            JurisdictionRules {
                requires_kyc: true,
                requires_aml: true,
                requires_sanctions_check: true,
                minimum_verification_level: 4,
                data_retention_days: 1825,
                requires_biometric: true,
            },
        );
    }

    /// Succeeds exactly when `caller` is the owner.
    fn ensure_owner(&self, caller: AccountId) -> (r: Result<(), Error>)
        ensures
            match self@.owner_refusal(caller) {
                Some(e) => r == Err::<(), Error>(e),
                None => r.is_ok(),
            },
    {
        if caller != self.owner {
            return Err(Error::NotAuthorized);
        }
        Ok(())
    }

    /// Whether `who` may update compliance records.
    pub fn is_verifier(&self, who: AccountId) -> (r: bool)
        requires
            self.wf(),
        ensures
            r == self@.is_verifier(who),
    {
        match self.verifiers.get(&who) {
            Some(authorized) => *authorized,
            None => false,
        }
    }

    /// Succeeds exactly when `caller` is a verifier.
    fn ensure_verifier(&self, caller: AccountId) -> (r: Result<(), Error>)
        requires
            self.wf(),
        ensures
            match self@.verifier_refusal(caller) {
                Some(e) => r == Err::<(), Error>(e),
                None => r.is_ok(),
            },
    {
        if !self.is_verifier(caller) {
            return Err(Error::NotAuthorized);
        }
        Ok(())
    }

    /// Appends an entry to the audit log of `account` and queues the
    /// notification of it.
    fn log_audit_event(&mut self, caller: AccountId, now: u64, account: AccountId, action: u8)
        requires
            old(self).wf(),
        ensures
            final(self).wf(),
            final(self)@ == old(self)@.logged(caller, now, account, action),
    {
        let mut logs = match self.audit_logs.take(&account) {
            Some(logs) => logs,
            None => Vec::new(),
        };
        assert(logs@ =~= old(self)@.logs_of(account));
        logs.push(AuditLog { account, action, timestamp: now, verifier: caller });
        self.audit_logs.insert(account, logs);
        self.events.push(Event::AuditLogCreated(AuditLogCreated { account, action, timestamp: now }));
        proof {
            let want = old(self)@.logged(caller, now, account, action);
            assert(self@.audit_logs =~= want.audit_logs);
            assert(self@.events =~= want.events);
        }
    }

    /// Queues a notification.
    fn notify(&mut self, event: Event)
        requires
            old(self).wf(),
        ensures
            final(self).wf(),
            final(self)@ == old(self)@.notified(event),
    {
        self.events.push(event);
    }

    /// Replaces the record of `account`.
    fn set_data(&mut self, account: AccountId, data: ComplianceData)
        requires
            old(self).wf(),
        ensures
            final(self).wf(),
            final(self)@ == old(self)@.with_data(account, data),
    {
        self.compliance_data.insert(account, data);
    }

    /// The record of `account`, if one is kept.
    pub fn get_compliance_data(&self, account: AccountId) -> (r: Option<ComplianceData>)
        requires
            self.wf(),
        ensures
            match r {
                Some(data) => self@.has_data(account) && data == self@.compliance_data[account],
                None => !self@.has_data(account),
            },
    {
        match self.compliance_data.get(&account) {
            Some(data) => Some(*data),
            None => None,
        }
    }

    /// Makes `verifier` a verifier. Only the owner may.
    pub fn add_verifier(&mut self, caller: AccountId, verifier: AccountId) -> (r: Result<(), Error>)
        requires
            old(self).wf(),
        ensures
            final(self).wf(),
            match old(self)@.owner_refusal(caller) {
                Some(e) => r == Err::<(), Error>(e) && final(self)@ == old(self)@,
                None => r.is_ok() && final(self)@ == old(self)@.after_add_verifier(verifier),
            },
    {
        match self.ensure_owner(caller) {
            Ok(_) => {},
            Err(e) => {
                return Err(e);
            },
        }
        self.verifiers.insert(verifier, true);
        Ok(())
    }

    /// The verification level that a document, a biometric method and a
    /// risk score amount to, from 0 to 5.
    pub fn calculate_verification_level(
        document_type: DocumentType,
        biometric_method: BiometricMethod,
        risk_score: u8,
    ) -> (r: u8)
        ensures
            r == verification_level(document_type, biometric_method, risk_score),
    {
        let mut level: u8 = 1;
        match document_type {
            DocumentType::Passport => {
                level = level + 2;
            },
            DocumentType::NationalId => {
                level = level + 1;
            },
            DocumentType::DriverLicense => {
                level = level + 1;
            },
            DocumentType::BirthCertificate => {
                level = level + 1;
            },
            DocumentType::ProofOfAddress => {
                level = level + 1;
            },
            DocumentType::CorporateDocument => {
                level = level + 2;
            },
        }
        match biometric_method {
            BiometricMethod::NotUsed => {},
            BiometricMethod::Fingerprint => {
                level = level + 1;
            },
            BiometricMethod::FaceRecognition => {
                level = level + 1;
            },
            BiometricMethod::VoiceRecognition => {
                level = level + 1;
            },
            BiometricMethod::IrisScan => {
                level = level + 2;
            },
            BiometricMethod::MultiFactor => {
                level = level + 3;
            },
        }
        if risk_score < 20 {
            level = level + 1;
        } else if risk_score > 80 {
            level = if level >= 2 {
                level - 2
            } else {
                0
            };
        }
        if level > 5 {
            5
        } else {
            level
        }
    }

    /// Whether the expiry and retention times of a verification made at
    /// `now` under the rules of `jurisdiction` can be represented.
    pub fn times_fit(&self, now: u64, jurisdiction: Jurisdiction) -> (r: bool)
        requires
            self.wf(),
        ensures
            r == self@.times_fit(now, jurisdiction),
    {
        match self.jurisdiction_rules.get(&jurisdiction) {
            Some(rules) => {
                let retention_days: u64 = rules.data_retention_days as u64;
                let retention: u64 = retention_days * DAY_MS;
                now <= u64::MAX - VALIDITY_MS && now <= u64::MAX - retention
            },
            None => true,
        }
    }

    /// Whether the request list can take one more entry, if `caller` may
    /// file a request at all.
    pub fn request_fits(&self, caller: AccountId) -> (r: bool)
        requires
            self.wf(),
        ensures
            r == self@.request_fits(caller),
    {
        match self.account_requests.get(&caller) {
            Some(existing) => {
                let existing: u64 = *existing;
                if existing < self.verification_requests.len() as u64 {
                    if self.verification_requests[existing as usize].status
                        == VerificationStatus::Pending {
                        return true;
                    }
                }
            },
            None => {},
        }
        (self.verification_requests.len() as u64) < u64::MAX
    }

    /// Whether the times of the verification that processing the request
    /// at `now` records can be represented.
    pub fn process_fits(&self, now: u64, request_id: u64) -> (r: bool)
        requires
            self.wf(),
        ensures
            r == self@.process_fits(now, request_id),
    {
        if request_id < self.verification_requests.len() as u64 {
            self.times_fit(now, self.verification_requests[request_id as usize].jurisdiction)
        } else {
            true
        }
    }

    /// Records a successful verification of `account`: valid for 365 days,
    /// its data retained as long as the jurisdiction's rules say, with AML
    /// and sanctions checks and consent still to come.
    pub fn submit_verification(
        &mut self,
        caller: AccountId,
        now: u64,
        account: AccountId,
        jurisdiction: Jurisdiction,
        kyc_hash: [u8; 32],
        risk_level: RiskLevel,
        document_type: DocumentType,
        biometric_method: BiometricMethod,
        risk_score: u8,
    ) -> (r: Result<(), Error>)
        requires
            old(self).wf(),
            old(self)@.times_fit(now, jurisdiction),
        ensures
            final(self).wf(),
            match old(self)@.submit_refusal(
                caller,
                jurisdiction,
                document_type,
                biometric_method,
                risk_score,
            ) {
                Some(e) => r == Err::<(), Error>(e) && final(self)@ == old(self)@,
                None => r.is_ok() && final(self)@ == old(self)@.after_submit(
                    caller,
                    now,
                    account,
                    jurisdiction,
                    kyc_hash,
                    risk_level,
                    document_type,
                    biometric_method,
                    risk_score,
                ),
            },
    {
        match self.ensure_verifier(caller) {
            Ok(_) => {},
            Err(e) => {
                return Err(e);
            },
        }
        if risk_score > 100 {
            return Err(Error::InvalidRiskScore);
        }
        let rules = match self.jurisdiction_rules.get(&jurisdiction) {
            Some(rules) => *rules,
            None => {
                return Err(Error::JurisdictionNotSupported);
            },
        };
        let level = Self::calculate_verification_level(document_type, biometric_method, risk_score);
        if level < rules.minimum_verification_level {
            return Err(Error::NotVerified);
        }
        let expiry: u64 = now + VALIDITY_MS;
        let retention_days: u64 = rules.data_retention_days as u64;
        let retention_until: u64 = now + retention_days * DAY_MS;
        let compliance = ComplianceData {
            status: VerificationStatus::Verified,
            jurisdiction,
            risk_level,
            verification_timestamp: now,
            expiry_timestamp: expiry,
            kyc_hash,
            aml_checked: false,
            sanctions_checked: false,
            document_type,
            biometric_method,
            risk_score,
            aml_risk_factors: AMLRiskFactors {
                pep_status: false,
                high_risk_country: false,
                suspicious_transaction_pattern: false,
                large_transaction_volume: false,
                source_of_funds_verified: false,
            },
            sanctions_list_checked: SanctionsList::UN,
            gdpr_consent: ConsentStatus::NotGiven,
            data_encrypted: true,
            consent_timestamp: 0,
            data_retention_until: retention_until,
        };
        self.set_data(account, compliance);
        self.log_audit_event(caller, now, account, ACTION_VERIFICATION);
        self.notify(
            Event::VerificationUpdated(
                VerificationUpdated {
                    account,
                    status: VerificationStatus::Verified,
                    timestamp: now,
                },
            ),
        );
        Ok(())
    }

    /// Whether `account` is compliant at `now`.
    pub fn is_compliant(&self, now: u64, account: AccountId) -> (r: bool)
        requires
            self.wf(),
        ensures
            r == self@.is_compliant(now, account),
    {
        match self.compliance_data.get(&account) {
            Some(data) => data.status == VerificationStatus::Verified && data.expiry_timestamp
                > now && data.risk_level != RiskLevel::Prohibited && data.aml_checked
                && data.sanctions_checked && data.gdpr_consent == ConsentStatus::Given && now
                <= data.data_retention_until,
            None => false,
        }
    }

    /// Fails with `NotVerified` unless `account` is compliant at `now`; a
    /// passed check is notified.
    pub fn require_compliance(&mut self, now: u64, account: AccountId) -> (r: Result<(), Error>)
        requires
            old(self).wf(),
        ensures
            final(self).wf(),
            match old(self)@.require_refusal(now, account) {
                Some(e) => r == Err::<(), Error>(e) && final(self)@ == old(self)@,
                None => r.is_ok() && final(self)@ == old(self)@.after_require(now, account),
            },
    {
        if !self.is_compliant(now, account) {
            return Err(Error::NotVerified);
        }
        self.notify(
            Event::ComplianceCheckPerformed(
                ComplianceCheckPerformed { account, passed: true, timestamp: now },
            ),
        );
        Ok(())
    }

    /// Records the outcome of an AML check of `account`.
    pub fn update_aml_status(
        &mut self,
        caller: AccountId,
        now: u64,
        account: AccountId,
        passed: bool,
        risk_factors: AMLRiskFactors,
    ) -> (r: Result<(), Error>)
        requires
            old(self).wf(),
        ensures
            final(self).wf(),
            match old(self)@.update_refusal(caller, account) {
                Some(e) => r == Err::<(), Error>(e) && final(self)@ == old(self)@,
                None => r.is_ok() && final(self)@ == old(self)@.after_aml(
                    caller,
                    now,
                    account,
                    passed,
                    risk_factors,
                ),
            },
    {
        match self.ensure_verifier(caller) {
            Ok(_) => {},
            Err(e) => {
                return Err(e);
            },
        }
        let data = match self.compliance_data.get(&account) {
            Some(data) => *data,
            None => {
                return Err(Error::NotVerified);
            },
        };
        self.set_data(account, apply_aml(data, passed, risk_factors));
        self.log_audit_event(caller, now, account, ACTION_AML_CHECK);
        Ok(())
    }

    /// Records the outcome of a sanctions screening of `account`.
    pub fn update_sanctions_status(
        &mut self,
        caller: AccountId,
        now: u64,
        account: AccountId,
        passed: bool,
        list_checked: SanctionsList,
    ) -> (r: Result<(), Error>)
        requires
            old(self).wf(),
        ensures
            final(self).wf(),
            match old(self)@.update_refusal(caller, account) {
                Some(e) => r == Err::<(), Error>(e) && final(self)@ == old(self)@,
                None => r.is_ok() && final(self)@ == old(self)@.after_sanctions(
                    caller,
                    now,
                    account,
                    passed,
                    list_checked,
                ),
            },
    {
        match self.ensure_verifier(caller) {
            Ok(_) => {},
            Err(e) => {
                return Err(e);
            },
        }
        let data = match self.compliance_data.get(&account) {
            Some(data) => *data,
            None => {
                return Err(Error::NotVerified);
            },
        };
        self.set_data(account, apply_sanctions(data, passed, list_checked));
        self.log_audit_event(caller, now, account, ACTION_SANCTIONS_CHECK);
        Ok(())
    }

    /// Rejects the verification of `account`.
    pub fn revoke_verification(&mut self, caller: AccountId, now: u64, account: AccountId) -> (r:
        Result<(), Error>)
        requires
            old(self).wf(),
        ensures
            final(self).wf(),
            match old(self)@.update_refusal(caller, account) {
                Some(e) => r == Err::<(), Error>(e) && final(self)@ == old(self)@,
                None => r.is_ok() && final(self)@ == old(self)@.after_revoke(now, account),
            },
    {
        match self.ensure_verifier(caller) {
            Ok(_) => {},
            Err(e) => {
                return Err(e);
            },
        }
        let mut data = match self.compliance_data.get(&account) {
            Some(data) => *data,
            None => {
                return Err(Error::NotVerified);
            },
        };
        data.status = VerificationStatus::Rejected;
        self.set_data(account, data);
        self.notify(
            Event::VerificationUpdated(
                VerificationUpdated {
                    account,
                    status: VerificationStatus::Rejected,
                    timestamp: now,
                },
            ),
        );
        Ok(())
    }

    /// Records the consent of `account`. The account itself and every
    /// verifier may.
    pub fn update_consent(
        &mut self,
        caller: AccountId,
        now: u64,
        account: AccountId,
        consent: ConsentStatus,
    ) -> (r: Result<(), Error>)
        requires
            old(self).wf(),
        ensures
            final(self).wf(),
            match old(self)@.consent_refusal(caller, account) {
                Some(e) => r == Err::<(), Error>(e) && final(self)@ == old(self)@,
                None => r.is_ok() && final(self)@ == old(self)@.after_consent(
                    caller,
                    now,
                    account,
                    consent,
                ),
            },
    {
        if caller != account && !self.is_verifier(caller) {
            return Err(Error::NotAuthorized);
        }
        let mut data = match self.compliance_data.get(&account) {
            Some(data) => *data,
            None => {
                return Err(Error::NotVerified);
            },
        };
        data.gdpr_consent = consent;
        data.consent_timestamp = now;
        self.set_data(account, data);
        self.notify(
            Event::ConsentUpdated(ConsentUpdated { account, consent_status: consent, timestamp: now }),
        );
        self.log_audit_event(caller, now, account, ACTION_CONSENT_UPDATE);
        Ok(())
    }

    /// Whether the retention period of the data of `account` is over at
    /// `now`.
    pub fn check_data_retention(&self, now: u64, account: AccountId) -> (r: bool)
        requires
            self.wf(),
        ensures
            r == self@.retention_over(now, account),
    {
        match self.compliance_data.get(&account) {
            Some(data) => now > data.data_retention_until,
            None => false,
        }
    }

    /// Grants the account's request to have its data deleted: the record
    /// is marked `Expired`.
    pub fn request_data_deletion(&mut self, caller: AccountId, now: u64, account: AccountId) -> (r:
        Result<(), Error>)
        requires
            old(self).wf(),
        ensures
            final(self).wf(),
            match old(self)@.deletion_refusal(caller, now, account) {
                Some(e) => r == Err::<(), Error>(e) && final(self)@ == old(self)@,
                None => r.is_ok() && final(self)@ == old(self)@.after_deletion(now, account),
            },
    {
        if caller != account {
            return Err(Error::NotAuthorized);
        }
        if !self.check_data_retention(now, account) {
            return Err(Error::DataRetentionExpired);
        }
        let mut data = match self.compliance_data.get(&account) {
            Some(data) => *data,
            None => {
                return Err(Error::NotVerified);
            },
        };
        if data.gdpr_consent != ConsentStatus::Withdrawn {
            return Err(Error::ConsentNotGiven);
        }
        data.status = VerificationStatus::Expired;
        self.set_data(account, data);
        self.notify(Event::DataRetentionExpired(DataRetentionExpired { account, timestamp: now }));
        Ok(())
    }

    /// Records where the encrypted data of `account` is kept.
    pub fn store_encrypted_data_hash(
        &mut self,
        caller: AccountId,
        account: AccountId,
        data_hash: [u8; 32],
    ) -> (r: Result<(), Error>)
        requires
            old(self).wf(),
        ensures
            final(self).wf(),
            match old(self)@.update_refusal(caller, account) {
                Some(e) => r == Err::<(), Error>(e) && final(self)@ == old(self)@,
                None => r.is_ok() && final(self)@ == old(self)@.after_store_hash(account, data_hash),
            },
    {
        match self.ensure_verifier(caller) {
            Ok(_) => {},
            Err(e) => {
                return Err(e);
            },
        }
        let mut data = match self.compliance_data.get(&account) {
            Some(data) => *data,
            None => {
                return Err(Error::NotVerified);
            },
        };
        data.data_encrypted = true;
        self.set_data(account, data);
        self.encrypted_data_hashes.insert(account, data_hash);
        Ok(())
    }

    /// The last `limit` entries of the audit log of `account`, oldest
    /// first.
    pub fn get_audit_logs(&self, account: AccountId, limit: u64) -> (r: Vec<AuditLog>)
        requires
            self.wf(),
        ensures
            r@ == self@.recent_logs(account, limit),
    {
        let mut out: Vec<AuditLog> = Vec::new();
        match self.audit_logs.get(&account) {
            Some(logs) => {
                let count = logs.len();
                let start: usize = if count as u64 <= limit {
                    0
                } else {
                    count - (limit as usize)
                };
                let mut i: usize = start;
                while i < count
                    invariant
                        start <= i <= count,
                        count == logs@.len(),
                        out@ == logs@.subrange(start as int, i as int),
                    decreases count - i,
                {
                    out.push(logs[i]);
                    assert(out@ =~= logs@.subrange(start as int, i + 1));
                    i += 1;
                }
                assert(out@ =~= self@.recent_logs(account, limit));
            },
            None => {
                assert(out@ =~= self@.recent_logs(account, limit));
            },
        }
        out
    }

    /// Replaces the rules of a jurisdiction. Only the owner may.
    pub fn update_jurisdiction_rules(
        &mut self,
        caller: AccountId,
        jurisdiction: Jurisdiction,
        rules: JurisdictionRules,
    ) -> (r: Result<(), Error>)
        requires
            old(self).wf(),
        ensures
            final(self).wf(),
            match old(self)@.owner_refusal(caller) {
                Some(e) => r == Err::<(), Error>(e) && final(self)@ == old(self)@,
                None => r.is_ok() && final(self)@ == old(self)@.after_update_rules(
                    jurisdiction,
                    rules,
                ),
            },
    {
        match self.ensure_owner(caller) {
            Ok(_) => {},
            Err(e) => {
                return Err(e);
            },
        }
        self.jurisdiction_rules.insert(jurisdiction, rules);
        Ok(())
    }

    /// The rules of a jurisdiction, if it has any.
    pub fn get_jurisdiction_rules(
        &self,
        jurisdiction: Jurisdiction,
    ) -> (r: Option<JurisdictionRules>)
        requires
            self.wf(),
        ensures
            match r {
                Some(rules) => self@.jurisdiction_rules.contains_key(jurisdiction) && rules
                    == self@.jurisdiction_rules[jurisdiction],
                None => !self@.jurisdiction_rules.contains_key(jurisdiction),
            },
    {
        match self.jurisdiction_rules.get(&jurisdiction) {
            Some(rules) => Some(*rules),
            None => None,
        }
    }

    /// Files the caller's request for verification and returns its
    /// identifier. An account can have one pending request at a time.
    pub fn create_verification_request(
        &mut self,
        caller: AccountId,
        now: u64,
        jurisdiction: Jurisdiction,
        document_hash: [u8; 32],
        biometric_hash: [u8; 32],
    ) -> (r: Result<u64, Error>)
        requires
            old(self).wf(),
            old(self)@.request_fits(caller),
        ensures
            final(self).wf(),
            match old(self)@.request_refusal(caller) {
                Some(e) => r == Err::<u64, Error>(e) && final(self)@ == old(self)@,
                None => r == Ok::<u64, Error>(old(self)@.next_request_id()) && final(self)@ == old(
                    self,
                )@.after_request(caller, now, jurisdiction, document_hash, biometric_hash),
            },
    {
        match self.account_requests.get(&caller) {
            Some(existing) => {
                let existing: u64 = *existing;
                if existing < self.verification_requests.len() as u64 {
                    if self.verification_requests[existing as usize].status
                        == VerificationStatus::Pending {
                        return Err(Error::AlreadyVerified);
                    }
                }
            },
            None => {},
        }
        let request_id: u64 = self.verification_requests.len() as u64;
        self.verification_requests.push(
            VerificationRequest {
                account: caller,
                jurisdiction,
                document_hash,
                biometric_hash,
                request_timestamp: now,
                request_id,
                status: VerificationStatus::Pending,
            },
        );
        self.account_requests.insert(caller, request_id);
        self.notify(
            Event::VerificationRequestCreated(
                VerificationRequestCreated { account: caller, request_id, jurisdiction, timestamp: now },
            ),
        );
        Ok(request_id)
    }

    /// The request with this identifier, if it exists.
    pub fn get_verification_request(&self, request_id: u64) -> (r: Option<VerificationRequest>)
        requires
            self.wf(),
        ensures
            match r {
                Some(request) => self@.has_request(request_id) && request
                    == self@.verification_requests[request_id as int],
                None => !self@.has_request(request_id),
            },
    {
        if request_id < self.verification_requests.len() as u64 {
            Some(self.verification_requests[request_id as usize])
        } else {
            None
        }
    }

    /// Records the verification that a pending request asked for, for the
    /// account and jurisdiction named in the request, and marks the
    /// request `Verified`.
    pub fn process_verification_request(
        &mut self,
        caller: AccountId,
        now: u64,
        request_id: u64,
        kyc_hash: [u8; 32],
        risk_level: RiskLevel,
        document_type: DocumentType,
        biometric_method: BiometricMethod,
        risk_score: u8,
    ) -> (r: Result<(), Error>)
        requires
            old(self).wf(),
            old(self)@.process_fits(now, request_id),
        ensures
            final(self).wf(),
            match old(self)@.process_refusal(
                caller,
                request_id,
                document_type,
                biometric_method,
                risk_score,
            ) {
                Some(e) => r == Err::<(), Error>(e) && final(self)@ == old(self)@,
                None => r.is_ok() && final(self)@ == old(self)@.after_process(
                    caller,
                    now,
                    request_id,
                    kyc_hash,
                    risk_level,
                    document_type,
                    biometric_method,
                    risk_score,
                ),
            },
    {
        match self.ensure_verifier(caller) {
            Ok(_) => {},
            Err(e) => {
                return Err(e);
            },
        }
        if request_id >= self.verification_requests.len() as u64 {
            return Err(Error::NotVerified);
        }
        let at = request_id as usize;
        let request = self.verification_requests[at];
        if request.status != VerificationStatus::Pending {
            return Err(Error::AlreadyVerified);
        }
        match self.submit_verification(
            caller,
            now,
            request.account,
            request.jurisdiction,
            kyc_hash,
            risk_level,
            document_type,
            biometric_method,
            risk_score,
        ) {
            Ok(_) => {},
            Err(e) => {
                return Err(e);
            },
        }
        assert(self@.verification_requests == old(self)@.verification_requests);
        self.verification_requests[at].status = VerificationStatus::Verified;
        Ok(())
    }

    /// Registers a verification service. Only the owner may.
    pub fn register_service_provider(
        &mut self,
        caller: AccountId,
        now: u64,
        provider: AccountId,
        service_type: u8,
    ) -> (r: Result<(), Error>)
        requires
            old(self).wf(),
        ensures
            final(self).wf(),
            match old(self)@.owner_refusal(caller) {
                Some(e) => r == Err::<(), Error>(e) && final(self)@ == old(self)@,
                None => r.is_ok() && final(self)@ == old(self)@.after_register_provider(
                    now,
                    provider,
                    service_type,
                ),
            },
    {
        match self.ensure_owner(caller) {
            Ok(_) => {},
            Err(e) => {
                return Err(e);
            },
        }
        self.service_providers.insert(
            provider,
            ServiceProvider { provider_id: provider, service_type, is_active: true, last_update: now },
        );
        if service_type == 0 || service_type == 3 {
            self.verifiers.insert(provider, true);
        }
        self.notify(
            Event::ServiceProviderRegistered(
                ServiceProviderRegistered { provider, service_type, timestamp: now },
            ),
        );
        Ok(())
    }

    /// What is registered about a service provider.
    pub fn get_service_provider(&self, provider: AccountId) -> (r: Option<ServiceProvider>)
        requires
            self.wf(),
        ensures
            match r {
                Some(info) => self@.service_providers.contains_key(provider) && info
                    == self@.service_providers[provider],
                None => !self@.service_providers.contains_key(provider),
            },
    {
        match self.service_providers.get(&provider) {
            Some(info) => Some(*info),
            None => None,
        }
    }

    /// Runs an AML check over a batch: each account passes if it shows
    /// fewer than three risk factors and its source of funds is verified.
    /// The verdicts are returned in order; the accounts that have a record
    /// get theirs recorded.
    pub fn batch_aml_check(
        &mut self,
        caller: AccountId,
        now: u64,
        accounts: Vec<AccountId>,
        risk_factors_list: Vec<AMLRiskFactors>,
    ) -> (r: Result<Vec<bool>, Error>)
        requires
            old(self).wf(),
        ensures
            final(self).wf(),
            match old(self)@.batch_refusal(
                caller,
                accounts@.len() as int,
                risk_factors_list@.len() as int,
            ) {
                Some(e) => r == Err::<Vec<bool>, Error>(e) && final(self)@ == old(self)@,
                None => r.is_ok() && r.unwrap()@ == risk_factors_list@.map_values(
                    |f: AMLRiskFactors| aml_passes(f),
                ) && final(self)@ == old(self)@.after_batch_aml(
                    caller,
                    now,
                    accounts@,
                    risk_factors_list@,
                    accounts@.len(),
                ),
            },
    {
        match self.ensure_verifier(caller) {
            Ok(_) => {},
            Err(e) => {
                return Err(e);
            },
        }
        if accounts.len() != risk_factors_list.len() {
            return Err(Error::NotVerified);
        }
        let mut results: Vec<bool> = Vec::new();
        let mut i: usize = 0;
        while i < accounts.len()
            invariant
                self.wf(),
                i <= accounts.len(),
                accounts.len() == risk_factors_list.len(),
                self@.is_verifier(caller),
                results@.len() == i,
                forall|j: int| 0 <= j < i ==> results@[j] == aml_passes(risk_factors_list@[j]),
                self@ == old(self)@.after_batch_aml(
                    caller,
                    now,
                    accounts@,
                    risk_factors_list@,
                    i as nat,
                ),
            decreases accounts.len() - i,
        {
            let account = accounts[i];
            let factors = risk_factors_list[i];
            let passed = count_risks(&factors) < 3 && factors.source_of_funds_verified;
            results.push(passed);
            if self.compliance_data.contains_key(&account) {
                let updated = self.update_aml_status(caller, now, account, passed, factors);
                assert(updated.is_ok());
            }
            i += 1;
        }
        assert(results@ =~= risk_factors_list@.map_values(|f: AMLRiskFactors| aml_passes(f)));
        Ok(results)
    }

    /// Records the outcomes of a sanctions screening over a batch. Every
    /// account must have a record, or nothing is recorded at all.
    pub fn batch_sanctions_check(
        &mut self,
        caller: AccountId,
        now: u64,
        accounts: Vec<AccountId>,
        list_checked: SanctionsList,
        results: Vec<bool>,
    ) -> (r: Result<(), Error>)
        requires
            old(self).wf(),
        ensures
            final(self).wf(),
            match old(self)@.batch_sanctions_refusal(caller, accounts@, results@) {
                Some(e) => r == Err::<(), Error>(e) && final(self)@ == old(self)@,
                None => r.is_ok() && final(self)@ == old(self)@.after_batch_sanctions(
                    caller,
                    now,
                    accounts@,
                    list_checked,
                    results@,
                    accounts@.len(),
                ),
            },
    {
        match self.ensure_verifier(caller) {
            Ok(_) => {},
            Err(e) => {
                return Err(e);
            },
        }
        if accounts.len() != results.len() {
            return Err(Error::NotVerified);
        }
        let mut k: usize = 0;
        while k < accounts.len()
            invariant
                self.wf(),
                *self == *old(self),
                self@.is_verifier(caller),
                accounts.len() == results.len(),
                k <= accounts.len(),
                forall|j: int| 0 <= j < k ==> self@.has_data(#[trigger] accounts@[j]),
            decreases accounts.len() - k,
        {
            if !self.compliance_data.contains_key(&accounts[k]) {
                assert(!old(self)@.has_data(accounts@[k as int]));
                return Err(Error::NotVerified);
            }
            k += 1;
        }
        let mut i: usize = 0;
        while i < accounts.len()
            invariant
                self.wf(),
                i <= accounts.len(),
                accounts.len() == results.len(),
                self@.is_verifier(caller),
                forall|j: int| 0 <= j < accounts.len() ==> self@.has_data(#[trigger] accounts@[j]),
                self@ == old(self)@.after_batch_sanctions(
                    caller,
                    now,
                    accounts@,
                    list_checked,
                    results@,
                    i as nat,
                ),
            decreases accounts.len() - i,
        {
            let updated = self.update_sanctions_status(
                caller,
                now,
                accounts[i],
                results[i],
                list_checked,
            );
            assert(updated.is_ok());
            i += 1;
        }
        Ok(())
    }

    /// For each account, in order, whether it is compliant at `now`.
    pub fn get_compliance_summary(&self, now: u64, accounts: Vec<AccountId>) -> (r: Vec<
        (AccountId, bool),
    >)
        requires
            self.wf(),
        ensures
            r@ == accounts@.map_values(|a: AccountId| (a, self@.is_compliant(now, a))),
    {
        let mut out: Vec<(AccountId, bool)> = Vec::new();
        let mut i: usize = 0;
        while i < accounts.len()
            invariant
                self.wf(),
                i <= accounts.len(),
                out@.len() == i,
                forall|j: int|
                    0 <= j < i ==> out@[j] == (accounts@[j], self@.is_compliant(now, accounts@[j])),
            decreases accounts.len() - i,
        {
            out.push((accounts[i], self.is_compliant(now, accounts[i])));
            i += 1;
        }
        assert(out@ =~= accounts@.map_values(|a: AccountId| (a, self@.is_compliant(now, a))));
        out
    }

    /// Whether `account` is due for verification again at `now`.
    pub fn needs_reverification(
        &self,
        now: u64,
        account: AccountId,
        days_threshold: u32,
    ) -> (r: bool)
        requires
            self.wf(),
        ensures
            r == self@.needs_reverification(now, account, days_threshold),
    {
        match self.compliance_data.get(&account) {
            Some(data) => {
                let days: u64 = days_threshold as u64;
                let threshold_ms: u64 = days * DAY_MS;
                let expiry_threshold: u64 = if data.expiry_timestamp >= threshold_ms {
                    data.expiry_timestamp - threshold_ms
                } else {
                    0
                };
                now >= expiry_threshold || data.status == VerificationStatus::Expired
            },
            None => true,
        }
    }

    /// The accounts due for verification again. The registry keeps no
    /// index of them, so the answer is always empty.
    pub fn get_accounts_needing_reverification(&self, limit: u32) -> (r: Vec<AccountId>)
        ensures
            r@.len() == 0,
    {
        Vec::new()
    }

    /// The owner.
    pub fn owner(&self) -> (r: AccountId)
        ensures
            r == self@.owner,
    {
        self.owner
    }

    /// Hands over the queued notifications, oldest first, and empties the
    /// queue.
    pub fn take_events(&mut self) -> (r: Vec<Event>)
        requires
            old(self).wf(),
        ensures
            final(self).wf(),
            r@ == old(self)@.events,
            final(self)@ == (ComplianceState { events: Seq::empty(), ..old(self)@ }),
    {
        let mut taken: Vec<Event> = Vec::new();
        core::mem::swap(&mut self.events, &mut taken);
        taken
    }
}

} // verus!
