//! The mathematical model of the compliance registry.

use vstd::prelude::*;
use crate::primitives::AccountId;
use crate::compliance::types::{
    AMLRiskFactors, AuditLog, AuditLogCreated, BiometricMethod, ComplianceCheckPerformed,
    ComplianceData, ConsentStatus, ConsentUpdated, DataRetentionExpired, DocumentType, Error,
    Event, Jurisdiction, JurisdictionRules, RiskLevel, SanctionsList, ServiceProvider,
    ServiceProviderRegistered, VerificationRequest, VerificationRequestCreated,
    VerificationStatus, VerificationUpdated,
};

verus! {

/// Milliseconds in a day.
pub const DAY_MS: u64 = 86_400_000;

/// How long a verification is valid: 365 days, in milliseconds.
pub const VALIDITY_MS: u64 = 31_536_000_000;

/// The audit action code of a verification.
pub const ACTION_VERIFICATION: u8 = 0;

/// The audit action code of an AML check.
pub const ACTION_AML_CHECK: u8 = 1;

/// The audit action code of a sanctions check.
pub const ACTION_SANCTIONS_CHECK: u8 = 2;

/// The audit action code of a consent update.
pub const ACTION_CONSENT_UPDATE: u8 = 3;

/// What the kind of document adds to the verification level.
pub open spec fn document_points(document_type: DocumentType) -> int {
    match document_type {
        DocumentType::Passport => 2,
        DocumentType::CorporateDocument => 2,
        _ => 1,
    }
}

/// What the biometric method adds to the verification level.
pub open spec fn biometric_points(biometric_method: BiometricMethod) -> int {
    match biometric_method {
        BiometricMethod::NotUsed => 0,
        BiometricMethod::Fingerprint => 1,
        BiometricMethod::FaceRecognition => 1,
        BiometricMethod::VoiceRecognition => 1,
        BiometricMethod::IrisScan => 2,
        BiometricMethod::MultiFactor => 3,
    }
}

/// The verification level, from 0 to 5: one, plus the points of the
/// document and of the biometric method, plus one for a risk score under
/// 20 or minus two (not below zero) for one over 80, capped at five.
pub open spec fn verification_level(
    document_type: DocumentType,
    biometric_method: BiometricMethod,
    risk_score: u8,
) -> int {
    let base = 1 + document_points(document_type) + biometric_points(biometric_method);
    let adjusted = if risk_score < 20 {
        base + 1
    } else if risk_score > 80 {
        if base >= 2 {
            base - 2
        } else {
            0
        }
    } else {
        base
    };
    if adjusted > 5 {
        5
    } else {
        adjusted
    }
}

/// How many of the four risk factors are present.
pub open spec fn risk_count(factors: AMLRiskFactors) -> int {
    (if factors.pep_status {
        1int
    } else {
        0
    }) + (if factors.high_risk_country {
        1int
    } else {
        0
    }) + (if factors.suspicious_transaction_pattern {
        1int
    } else {
        0
    }) + (if factors.large_transaction_volume {
        1int
    } else {
        0
    })
}

/// Whether a batch AML check passes an account: fewer than three risk
/// factors, and the source of funds verified.
pub open spec fn aml_passes(factors: AMLRiskFactors) -> bool {
    risk_count(factors) < 3 && factors.source_of_funds_verified
}

/// The record after an AML check. A failed check, or three risk factors,
/// rejects the account and prohibits it; two make its risk high, one
/// medium, none leaves the risk level as it was.
pub open spec fn aml_applied(
    data: ComplianceData,
    passed: bool,
    factors: AMLRiskFactors,
) -> ComplianceData {
    let checked = ComplianceData { aml_checked: passed, aml_risk_factors: factors, ..data };
    if !passed || risk_count(factors) >= 3 {
        ComplianceData {
            status: VerificationStatus::Rejected,
            risk_level: RiskLevel::Prohibited,
            ..checked
        }
    } else if risk_count(factors) >= 2 {
        ComplianceData { risk_level: RiskLevel::High, ..checked }
    } else if risk_count(factors) >= 1 {
        ComplianceData { risk_level: RiskLevel::Medium, ..checked }
    } else {
        checked
    }
}

/// The record after a sanctions screening. A failed screening rejects the
/// account and prohibits it.
pub open spec fn sanctions_applied(
    data: ComplianceData,
    passed: bool,
    list_checked: SanctionsList,
) -> ComplianceData {
    let checked = ComplianceData {
        sanctions_checked: passed,
        sanctions_list_checked: list_checked,
        ..data
    };
    if !passed {
        ComplianceData {
            status: VerificationStatus::Rejected,
            risk_level: RiskLevel::Prohibited,
            ..checked
        }
    } else {
        checked
    }
}

/// The rules in force when a registry is created. `Other` has none.
pub open spec fn default_rules() -> Map<Jurisdiction, JurisdictionRules> {
    Map::empty().insert(
        Jurisdiction::US,
        JurisdictionRules {
            requires_kyc: true,
            requires_aml: true,
            requires_sanctions_check: true,
            minimum_verification_level: 3,
            data_retention_days: 2555,
            requires_biometric: false,
        },
    ).insert(
        Jurisdiction::EU,
        JurisdictionRules {
            requires_kyc: true,
            requires_aml: true,
            requires_sanctions_check: true,
            minimum_verification_level: 3,
            data_retention_days: 1095,
            requires_biometric: false,
        },
    ).insert(
        Jurisdiction::UK,
        JurisdictionRules {
            requires_kyc: true,
            requires_aml: true,
            requires_sanctions_check: true,
            minimum_verification_level: 3,
            data_retention_days: 1825,
            requires_biometric: false,
        },
    ).insert(
        Jurisdiction::Singapore,
        JurisdictionRules {
            requires_kyc: true,
            requires_aml: true,
            requires_sanctions_check: true,
            minimum_verification_level: 4,
            data_retention_days: 1825,
            requires_biometric: true,
        },
    ).insert(
        Jurisdiction::UAE,
        JurisdictionRules {
            requires_kyc: true,
            requires_aml: true,
            requires_sanctions_check: true,
            minimum_verification_level: 4,
            data_retention_days: 1825,
            requires_biometric: true,
        },
    )
}

/// The whole registry.
pub struct ComplianceState {
    pub owner: AccountId,
    pub verifiers: Map<AccountId, bool>,
    pub compliance_data: Map<AccountId, ComplianceData>,
    pub jurisdiction_rules: Map<Jurisdiction, JurisdictionRules>,
    /// The audit log of each account, oldest entry first.
    pub audit_logs: Map<AccountId, Seq<AuditLog>>,
    pub encrypted_data_hashes: Map<AccountId, [u8; 32]>,
    /// The request with identifier `id` is at index `id`.
    pub verification_requests: Seq<VerificationRequest>,
    pub service_providers: Map<AccountId, ServiceProvider>,
    /// The latest request of each account.
    pub account_requests: Map<AccountId, u64>,
    /// Notifications queued and not yet taken by the host, oldest first.
    pub events: Seq<Event>,
}

impl ComplianceState {
    /// The invariant of the registry.
    pub open spec fn wf(self) -> bool {
        &&& self.verification_requests.len() <= u64::MAX
        &&& forall|i: int|
            0 <= i < self.verification_requests.len() ==> (
            #[trigger] self.verification_requests[i]).request_id == i
    }

    /// The registry as created by `owner`.
    pub open spec fn initial(owner: AccountId) -> ComplianceState {
        ComplianceState {
            owner,
            verifiers: Map::empty().insert(owner, true),
            compliance_data: Map::empty(),
            jurisdiction_rules: default_rules(),
            audit_logs: Map::empty(),
            encrypted_data_hashes: Map::empty(),
            verification_requests: Seq::empty(),
            service_providers: Map::empty(),
            account_requests: Map::empty(),
            events: Seq::empty(),
        }
    }

    /// Whether `who` may update compliance records.
    pub open spec fn is_verifier(self, who: AccountId) -> bool {
        self.verifiers.contains_key(who) && self.verifiers[who]
    }

    /// Whether a record is kept for `account`.
    pub open spec fn has_data(self, account: AccountId) -> bool {
        self.compliance_data.contains_key(account)
    }

    /// The audit log of `account`; empty if nothing was logged.
    pub open spec fn logs_of(self, account: AccountId) -> Seq<AuditLog> {
        if self.audit_logs.contains_key(account) {
            self.audit_logs[account]
        } else {
            Seq::empty()
        }
    }

    /// Refuses whoever is not the owner.
    pub open spec fn owner_refusal(self, caller: AccountId) -> Option<Error> {
        if caller != self.owner {
            Some(Error::NotAuthorized)
        } else {
            None
        }
    }

    /// Refuses whoever is not a verifier.
    pub open spec fn verifier_refusal(self, caller: AccountId) -> Option<Error> {
        if !self.is_verifier(caller) {
            Some(Error::NotAuthorized)
        } else {
            None
        }
    }

    /// The registry with one more audit entry for `account`, and the
    /// notification of it.
    pub open spec fn logged(
        self,
        caller: AccountId,
        now: u64,
        account: AccountId,
        action: u8,
    ) -> ComplianceState {
        ComplianceState {
            audit_logs: self.audit_logs.insert(
                account,
                self.logs_of(account).push(
                    AuditLog { account, action, timestamp: now, verifier: caller },
                ),
            ),
            events: self.events.push(
                Event::AuditLogCreated(AuditLogCreated { account, action, timestamp: now }),
            ),
            ..self
        }
    }

    /// The registry with one more notification.
    pub open spec fn notified(self, event: Event) -> ComplianceState {
        ComplianceState { events: self.events.push(event), ..self }
    }

    /// The registry with the record of `account` replaced.
    pub open spec fn with_data(self, account: AccountId, data: ComplianceData) -> ComplianceState {
        ComplianceState { compliance_data: self.compliance_data.insert(account, data), ..self }
    }

    // ---- verifiers and rules ---------------------------------------------

    /// The registry with one more verifier.
    pub open spec fn after_add_verifier(self, verifier: AccountId) -> ComplianceState {
        ComplianceState { verifiers: self.verifiers.insert(verifier, true), ..self }
    }

    /// The registry with the rules of a jurisdiction replaced.
    pub open spec fn after_update_rules(
        self,
        jurisdiction: Jurisdiction,
        rules: JurisdictionRules,
    ) -> ComplianceState {
        ComplianceState {
            jurisdiction_rules: self.jurisdiction_rules.insert(jurisdiction, rules),
            ..self
        }
    }

    // ---- verification ----------------------------------------------------

    /// A verification is refused, in this order, to a caller who is no
    /// verifier, for a risk score over 100, for a jurisdiction without
    /// rules, and for a verification level under the jurisdiction's minimum.
    pub open spec fn submit_refusal(
        self,
        caller: AccountId,
        jurisdiction: Jurisdiction,
        document_type: DocumentType,
        biometric_method: BiometricMethod,
        risk_score: u8,
    ) -> Option<Error> {
        if !self.is_verifier(caller) {
            Some(Error::NotAuthorized)
        } else if risk_score > 100 {
            Some(Error::InvalidRiskScore)
        } else if !self.jurisdiction_rules.contains_key(jurisdiction) {
            Some(Error::JurisdictionNotSupported)
        } else if verification_level(document_type, biometric_method, risk_score)
            < self.jurisdiction_rules[jurisdiction].minimum_verification_level {
            Some(Error::NotVerified)
        } else {
            None
        }
    }

    /// When the verification made at `now` expires.
    pub open spec fn expiry(now: u64) -> int {
        now + VALIDITY_MS
    }

    /// Until when the data of a verification made at `now` is retained.
    pub open spec fn retention_until(self, now: u64, jurisdiction: Jurisdiction) -> int {
        now + self.jurisdiction_rules[jurisdiction].data_retention_days * DAY_MS
    }

    /// Whether the expiry and retention times of a verification made at
    /// `now` can be represented.
    pub open spec fn times_fit(self, now: u64, jurisdiction: Jurisdiction) -> bool {
        self.jurisdiction_rules.contains_key(jurisdiction) ==> Self::expiry(now) <= u64::MAX
            && self.retention_until(now, jurisdiction) <= u64::MAX
    }

    /// The record a successful verification makes.
    pub open spec fn verified_record(
        self,
        now: u64,
        jurisdiction: Jurisdiction,
        kyc_hash: [u8; 32],
        risk_level: RiskLevel,
        document_type: DocumentType,
        biometric_method: BiometricMethod,
        risk_score: u8,
    ) -> ComplianceData {
        ComplianceData {
            status: VerificationStatus::Verified,
            jurisdiction,
            risk_level,
            verification_timestamp: now,
            expiry_timestamp: Self::expiry(now) as u64,
            kyc_hash,
            aml_checked: false,
            sanctions_checked: false,
            document_type,
            biometric_method,
            risk_score,
            aml_risk_factors: AMLRiskFactors {
                pep_status: false,
                high_risk_country: false,
                suspicious_transaction_pattern: false,
                large_transaction_volume: false,
                source_of_funds_verified: false,
            },
            sanctions_list_checked: SanctionsList::UN,
            gdpr_consent: ConsentStatus::NotGiven,
            data_encrypted: true,
            consent_timestamp: 0,
            data_retention_until: self.retention_until(now, jurisdiction) as u64,
        }
    }

    /// The registry after a verification: the record is replaced, the
    /// verification is logged, and the new status is notified.
    pub open spec fn after_submit(
        self,
        caller: AccountId,
        now: u64,
        account: AccountId,
        jurisdiction: Jurisdiction,
        kyc_hash: [u8; 32],
        risk_level: RiskLevel,
        document_type: DocumentType,
        biometric_method: BiometricMethod,
        risk_score: u8,
    ) -> ComplianceState {
        self.with_data(
            account,
            self.verified_record(
                now,
                jurisdiction,
                kyc_hash,
                risk_level,
                document_type,
                biometric_method,
                risk_score,
            ),
        ).logged(caller, now, account, ACTION_VERIFICATION).notified(
            Event::VerificationUpdated(
                VerificationUpdated {
                    account,
                    status: VerificationStatus::Verified,
                    timestamp: now,
                },
            ),
        )
    }

    /// Whether `account` is compliant at `now`: verified and not expired,
    /// not prohibited, AML and sanctions checked, consent given, and its
    /// data still within retention.
    pub open spec fn is_compliant(self, now: u64, account: AccountId) -> bool {
        self.has_data(account) && {
            let data = self.compliance_data[account];
            &&& data.status == VerificationStatus::Verified
            &&& data.expiry_timestamp > now
            &&& data.risk_level != RiskLevel::Prohibited
            &&& data.aml_checked
            &&& data.sanctions_checked
            &&& data.gdpr_consent == ConsentStatus::Given
            &&& now <= data.data_retention_until
        }
    }

    /// A compliance check is refused, as `NotVerified`, for an account that is
    /// not compliant.
    pub open spec fn require_refusal(self, now: u64, account: AccountId) -> Option<Error> {
        if !self.is_compliant(now, account) {
            Some(Error::NotVerified)
        } else {
            None
        }
    }

    /// The registry after a passed compliance check: the check is notified.
    pub open spec fn after_require(self, now: u64, account: AccountId) -> ComplianceState {
        self.notified(
            Event::ComplianceCheckPerformed(
                ComplianceCheckPerformed { account, passed: true, timestamp: now },
            ),
        )
    }

    // ---- updates by verifiers --------------------------------------------

    /// An update of the record of `account` is refused to a caller who is
    /// no verifier, and for an account without a record.
    pub open spec fn update_refusal(self, caller: AccountId, account: AccountId) -> Option<Error> {
        if !self.is_verifier(caller) {
            Some(Error::NotAuthorized)
        } else if !self.has_data(account) {
            Some(Error::NotVerified)
        } else {
            None
        }
    }

    /// The registry after an AML check: the outcome is applied to the record
    /// and logged.
    pub open spec fn after_aml(
        self,
        caller: AccountId,
        now: u64,
        account: AccountId,
        passed: bool,
        factors: AMLRiskFactors,
    ) -> ComplianceState {
        self.with_data(account, aml_applied(self.compliance_data[account], passed, factors)).logged(
            caller,
            now,
            account,
            ACTION_AML_CHECK,
        )
    }

    /// The registry after a sanctions screening: the outcome is applied to
    /// the record and logged.
    pub open spec fn after_sanctions(
        self,
        caller: AccountId,
        now: u64,
        account: AccountId,
        passed: bool,
        list_checked: SanctionsList,
    ) -> ComplianceState {
        self.with_data(
            account,
            sanctions_applied(self.compliance_data[account], passed, list_checked),
        ).logged(caller, now, account, ACTION_SANCTIONS_CHECK)
    }

    /// The registry after a revocation: the record is `Rejected`, which is
    /// notified.
    pub open spec fn after_revoke(self, now: u64, account: AccountId) -> ComplianceState {
        self.with_data(
            account,
            ComplianceData {
                status: VerificationStatus::Rejected,
                ..self.compliance_data[account]
            },
        ).notified(
            Event::VerificationUpdated(
                VerificationUpdated {
                    account,
                    status: VerificationStatus::Rejected,
                    timestamp: now,
                },
            ),
        )
    }

    /// The registry after the place of the encrypted data was recorded.
    pub open spec fn after_store_hash(
        self,
        account: AccountId,
        data_hash: [u8; 32],
    ) -> ComplianceState {
        ComplianceState {
            encrypted_data_hashes: self.encrypted_data_hashes.insert(account, data_hash),
            ..self.with_data(
                account,
                ComplianceData { data_encrypted: true, ..self.compliance_data[account] },
            )
        }
    }

    // ---- consent and retention -------------------------------------------

    /// Consent is updated by the account itself or by a verifier.
    pub open spec fn consent_refusal(self, caller: AccountId, account: AccountId) -> Option<Error> {
        if caller != account && !self.is_verifier(caller) {
            Some(Error::NotAuthorized)
        } else if !self.has_data(account) {
            Some(Error::NotVerified)
        } else {
            None
        }
    }

    /// The registry after a consent update: the consent and its time are
    /// recorded, notified and logged.
    pub open spec fn after_consent(
        self,
        caller: AccountId,
        now: u64,
        account: AccountId,
        consent: ConsentStatus,
    ) -> ComplianceState {
        self.with_data(
            account,
            ComplianceData {
                gdpr_consent: consent,
                consent_timestamp: now,
                ..self.compliance_data[account]
            },
        ).notified(
            Event::ConsentUpdated(
                ConsentUpdated { account, consent_status: consent, timestamp: now },
            ),
        ).logged(caller, now, account, ACTION_CONSENT_UPDATE)
    }

    /// Whether the retention period of the data of `account` is over.
    pub open spec fn retention_over(self, now: u64, account: AccountId) -> bool {
        self.has_data(account) && now > self.compliance_data[account].data_retention_until
    }

    /// Deletion is granted to the account itself, once the retention
    /// period is over and consent has been withdrawn.
    pub open spec fn deletion_refusal(
        self,
        caller: AccountId,
        now: u64,
        account: AccountId,
    ) -> Option<Error> {
        if caller != account {
            Some(Error::NotAuthorized)
        } else if !self.retention_over(now, account) {
            Some(Error::DataRetentionExpired)
        } else if self.compliance_data[account].gdpr_consent != ConsentStatus::Withdrawn {
            Some(Error::ConsentNotGiven)
        } else {
            None
        }
    }

    /// The record is kept and marked `Expired`.
    pub open spec fn after_deletion(self, now: u64, account: AccountId) -> ComplianceState {
        self.with_data(
            account,
            ComplianceData { status: VerificationStatus::Expired, ..self.compliance_data[account] },
        ).notified(
            Event::DataRetentionExpired(DataRetentionExpired { account, timestamp: now }),
        )
    }

    /// Whether `account` is due for verification again at `now`: it has no
    /// record, its record is `Expired`, or its verification expires within
    /// `days_threshold` days.
    pub open spec fn needs_reverification(
        self,
        now: u64,
        account: AccountId,
        days_threshold: u32,
    ) -> bool {
        !self.has_data(account) || {
            let data = self.compliance_data[account];
            let threshold = days_threshold * DAY_MS;
            let from = if data.expiry_timestamp >= threshold {
                data.expiry_timestamp - threshold
            } else {
                0
            };
            now >= from || data.status == VerificationStatus::Expired
        }
    }

    /// The last `limit` entries of the audit log of `account`.
    pub open spec fn recent_logs(self, account: AccountId, limit: u64) -> Seq<AuditLog> {
        let logs = self.logs_of(account);
        if logs.len() <= limit {
            logs
        } else {
            logs.subrange(logs.len() - limit, logs.len() as int)
        }
    }

    // ---- requests --------------------------------------------------------

    /// Whether the latest request of `account` is still pending.
    pub open spec fn has_pending_request(self, account: AccountId) -> bool {
        &&& self.account_requests.contains_key(account)
        &&& self.account_requests[account] < self.verification_requests.len()
        &&& self.verification_requests[self.account_requests[account] as int].status
            == VerificationStatus::Pending
    }

    /// A request is refused, as `AlreadyVerified`, while the latest request of
    /// the caller is pending.
    pub open spec fn request_refusal(self, caller: AccountId) -> Option<Error> {
        if self.has_pending_request(caller) {
            Some(Error::AlreadyVerified)
        } else {
            None
        }
    }

    /// Whether the request list can take one more entry.
    pub open spec fn request_fits(self, caller: AccountId) -> bool {
        self.request_refusal(caller).is_none() ==> self.verification_requests.len() < u64::MAX
    }

    /// The identifier the next request gets. Identifiers start at zero.
    pub open spec fn next_request_id(self) -> u64 {
        self.verification_requests.len() as u64
    }

    /// The registry after a request was filed: one more request, pending,
    /// which becomes the latest of the caller.
    pub open spec fn after_request(
        self,
        caller: AccountId,
        now: u64,
        jurisdiction: Jurisdiction,
        document_hash: [u8; 32],
        biometric_hash: [u8; 32],
    ) -> ComplianceState {
        let request_id = self.next_request_id();
        ComplianceState {
            verification_requests: self.verification_requests.push(
                VerificationRequest {
                    account: caller,
                    jurisdiction,
                    document_hash,
                    biometric_hash,
                    request_timestamp: now,
                    request_id,
                    status: VerificationStatus::Pending,
                },
            ),
            account_requests: self.account_requests.insert(caller, request_id),
            ..self
        }.notified(
            Event::VerificationRequestCreated(
                VerificationRequestCreated {
                    account: caller,
                    request_id,
                    jurisdiction,
                    timestamp: now,
                },
            ),
        )
    }

    /// Whether a request with this identifier exists.
    pub open spec fn has_request(self, request_id: u64) -> bool {
        request_id < self.verification_requests.len()
    }

    /// Processing a request is refused to a caller who is no verifier, for
    /// an unknown request, for one that is no longer pending, and for
    /// whatever the verification itself is refused for.
    pub open spec fn process_refusal(
        self,
        caller: AccountId,
        request_id: u64,
        document_type: DocumentType,
        biometric_method: BiometricMethod,
        risk_score: u8,
    ) -> Option<Error> {
        if !self.is_verifier(caller) {
            Some(Error::NotAuthorized)
        } else if !self.has_request(request_id) {
            Some(Error::NotVerified)
        } else if self.verification_requests[request_id as int].status
            != VerificationStatus::Pending {
            Some(Error::AlreadyVerified)
        } else {
            self.submit_refusal(
                caller,
                self.verification_requests[request_id as int].jurisdiction,
                document_type,
                biometric_method,
                risk_score,
            )
        }
    }

    /// Whether the expiry and retention times of the verification that
    /// processing a request at `now` records can be represented.
    pub open spec fn process_fits(self, now: u64, request_id: u64) -> bool {
        self.has_request(request_id) ==> self.times_fit(
            now,
            self.verification_requests[request_id as int].jurisdiction,
        )
    }

    /// The registry after a request was processed: the verification is
    /// recorded for the account of the request, and the request is `Verified`.
    pub open spec fn after_process(
        self,
        caller: AccountId,
        now: u64,
        request_id: u64,
        kyc_hash: [u8; 32],
        risk_level: RiskLevel,
        document_type: DocumentType,
        biometric_method: BiometricMethod,
        risk_score: u8,
    ) -> ComplianceState {
        let request = self.verification_requests[request_id as int];
        let verified = self.after_submit(
            caller,
            now,
            request.account,
            request.jurisdiction,
            kyc_hash,
            risk_level,
            document_type,
            biometric_method,
            risk_score,
        );
        ComplianceState {
            verification_requests: verified.verification_requests.update(
                request_id as int,
                VerificationRequest { status: VerificationStatus::Verified, ..request },
            ),
            ..verified
        }
    }

    // ---- service providers -----------------------------------------------

    /// A provider of KYC (type 0) or of every service (type 3) becomes a
    /// verifier too.
    pub open spec fn after_register_provider(
        self,
        now: u64,
        provider: AccountId,
        service_type: u8,
    ) -> ComplianceState {
        ComplianceState {
            service_providers: self.service_providers.insert(
                provider,
                ServiceProvider {
                    provider_id: provider,
                    service_type,
                    is_active: true,
                    last_update: now,
                },
            ),
            verifiers: if service_type == 0 || service_type == 3 {
                self.verifiers.insert(provider, true)
            } else {
                self.verifiers
            },
            ..self
        }.notified(
            Event::ServiceProviderRegistered(
                ServiceProviderRegistered { provider, service_type, timestamp: now },
            ),
        )
    }

    // ---- batches ---------------------------------------------------------

    /// A batch is refused to a caller who is no verifier, and when the two
    /// lists differ in length.
    pub open spec fn batch_refusal(self, caller: AccountId, accounts: int, results: int) -> Option<
        Error,
    > {
        if !self.is_verifier(caller) {
            Some(Error::NotAuthorized)
        } else if accounts != results {
            Some(Error::NotVerified)
        } else {
            None
        }
    }

    /// The registry after the first `n` accounts of a batch AML check:
    /// each account with a record has the check applied, in order, with
    /// `aml_passes` as its result; accounts without a record are skipped.
    pub open spec fn after_batch_aml(
        self,
        caller: AccountId,
        now: u64,
        accounts: Seq<AccountId>,
        factors: Seq<AMLRiskFactors>,
        n: nat,
    ) -> ComplianceState
        decreases n,
    {
        if n == 0 {
            self
        } else {
            let before = self.after_batch_aml(caller, now, accounts, factors, (n - 1) as nat);
            let account = accounts[n - 1];
            if before.has_data(account) {
                before.after_aml(caller, now, account, aml_passes(factors[n - 1]), factors[n - 1])
            } else {
                before
            }
        }
    }

    /// A batch sanctions check is also refused when one of the accounts
    /// has no record.
    pub open spec fn batch_sanctions_refusal(
        self,
        caller: AccountId,
        accounts: Seq<AccountId>,
        results: Seq<bool>,
    ) -> Option<Error> {
        if !self.is_verifier(caller) {
            Some(Error::NotAuthorized)
        } else if accounts.len() != results.len() {
            Some(Error::NotVerified)
        } else if exists|i: int| 0 <= i < accounts.len() && !self.has_data(#[trigger] accounts[i]) {
            Some(Error::NotVerified)
        } else {
            None
        }
    }

    /// The registry after the first `n` accounts of a batch sanctions
    /// check, each screened in order.
    pub open spec fn after_batch_sanctions(
        self,
        caller: AccountId,
        now: u64,
        accounts: Seq<AccountId>,
        list_checked: SanctionsList,
        results: Seq<bool>,
        n: nat,
    ) -> ComplianceState
        decreases n,
    {
        if n == 0 {
            self
        } else {
            self.after_batch_sanctions(
                caller,
                now,
                accounts,
                list_checked,
                results,
                (n - 1) as nat,
            ).after_sanctions(caller, now, accounts[n - 1], results[n - 1], list_checked)
        }
    }
}

} // verus!
