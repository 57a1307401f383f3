//! Records kept by the compliance registry. All of them are plain values.

use vstd::prelude::*;
use crate::primitives::AccountId;
use crate::table::Key;

verus! {

/// How far the verification of an account has come.
#[derive(Clone, Copy, Debug, PartialEq, Eq, Structural)]
pub enum VerificationStatus {
    NotVerified,
    Pending,
    Verified,
    Rejected,
    Expired,
}

/// The jurisdictions the registry knows.
#[derive(Clone, Copy, Debug, PartialEq, Eq, Structural)]
pub enum Jurisdiction {
    US,
    EU,
    UK,
    Singapore,
    UAE,
    Other,
}

impl Key for Jurisdiction {
    fn same(&self, other: &Self) -> (r: bool) {
        *self == *other
    }
}

/// The assessed risk of an account.
#[derive(Clone, Copy, Debug, PartialEq, Eq, Structural)]
pub enum RiskLevel {
    Low,
    Medium,
    High,
    Prohibited,
}

/// The kind of document an identity was verified with.
#[derive(Clone, Copy, Debug, PartialEq, Eq, Structural)]
pub enum DocumentType {
    Passport,
    NationalId,
    DriverLicense,
    BirthCertificate,
    ProofOfAddress,
    CorporateDocument,
}

/// The biometric method an identity was verified with.
#[derive(Clone, Copy, Debug, PartialEq, Eq, Structural)]
pub enum BiometricMethod {
    /// No biometric method was used.
    NotUsed,
    Fingerprint,
    FaceRecognition,
    VoiceRecognition,
    IrisScan,
    MultiFactor,
}

/// The sanctions list an account was screened against.
#[derive(Clone, Copy, Debug, PartialEq, Eq, Structural)]
pub enum SanctionsList {
    UN,
    OFAC,
    EU,
    UK,
    Singapore,
    UAE,
    Multiple,
}

/// Whether the account agrees to the processing of its data.
#[derive(Clone, Copy, Debug, PartialEq, Eq, Structural)]
pub enum ConsentStatus {
    NotGiven,
    Given,
    Withdrawn,
    Expired,
}

/// What an anti-money-laundering check found.
#[derive(Clone, Copy, Debug, PartialEq, Eq, Structural)]
pub struct AMLRiskFactors {
    /// The account belongs to a politically exposed person.
    pub pep_status: bool,
    pub high_risk_country: bool,
    pub suspicious_transaction_pattern: bool,
    pub large_transaction_volume: bool,
    pub source_of_funds_verified: bool,
}

/// What a jurisdiction demands of a verification.
#[derive(Clone, Copy, Debug, PartialEq, Eq, Structural)]
pub struct JurisdictionRules {
    pub requires_kyc: bool,
    pub requires_aml: bool,
    pub requires_sanctions_check: bool,
    /// The least verification level accepted, on a scale from 1 to 5.
    pub minimum_verification_level: u8,
    pub data_retention_days: u32,
    pub requires_biometric: bool,
}

/// The compliance record of one account.
#[derive(Clone, Copy, Debug, PartialEq, Eq)]
pub struct ComplianceData {
    pub status: VerificationStatus,
    pub jurisdiction: Jurisdiction,
    pub risk_level: RiskLevel,
    pub verification_timestamp: u64,
    pub expiry_timestamp: u64,
    pub kyc_hash: [u8; 32],
    pub aml_checked: bool,
    pub sanctions_checked: bool,
    pub document_type: DocumentType,
    pub biometric_method: BiometricMethod,
    /// From 0, the least risk, to 100.
    pub risk_score: u8,
    pub aml_risk_factors: AMLRiskFactors,
    pub sanctions_list_checked: SanctionsList,
    pub gdpr_consent: ConsentStatus,
    pub data_encrypted: bool,
    pub consent_timestamp: u64,
    pub data_retention_until: u64,
}

/// One line of an account's compliance audit log.
#[derive(Clone, Copy, Debug, PartialEq, Eq)]
pub struct AuditLog {
    pub account: AccountId,
    /// 0 for a verification, 1 for an AML check, 2 for a sanctions check,
    /// 3 for a consent update.
    pub action: u8,
    pub timestamp: u64,
    pub verifier: AccountId,
}

/// A request for verification, to be processed off-chain.
#[derive(Clone, Copy, Debug, PartialEq, Eq)]
pub struct VerificationRequest {
    pub account: AccountId,
    pub jurisdiction: Jurisdiction,
    pub document_hash: [u8; 32],
    pub biometric_hash: [u8; 32],
    pub request_timestamp: u64,
    pub request_id: u64,
    pub status: VerificationStatus,
}

/// A registered verification service.
#[derive(Clone, Copy, Debug, PartialEq, Eq)]
pub struct ServiceProvider {
    pub provider_id: AccountId,
    /// 0 for KYC, 1 for AML, 2 for sanctions, 3 for all of them.
    pub service_type: u8,
    pub is_active: bool,
    pub last_update: u64,
}

/// Why an operation was refused.
#[derive(Clone, Copy, Debug, PartialEq, Eq, Structural)]
pub enum Error {
    NotAuthorized,
    NotVerified,
    VerificationExpired,
    HighRisk,
    ProhibitedJurisdiction,
    AlreadyVerified,
    ConsentNotGiven,
    DataRetentionExpired,
    InvalidRiskScore,
    InvalidDocumentType,
    JurisdictionNotSupported,
}

#[derive(Clone, Copy, Debug, PartialEq, Eq)]
pub struct VerificationUpdated {
    pub account: AccountId,
    pub status: VerificationStatus,
    pub timestamp: u64,
}

#[derive(Clone, Copy, Debug, PartialEq, Eq)]
pub struct ComplianceCheckPerformed {
    pub account: AccountId,
    pub passed: bool,
    pub timestamp: u64,
}

#[derive(Clone, Copy, Debug, PartialEq, Eq)]
pub struct ConsentUpdated {
    pub account: AccountId,
    pub consent_status: ConsentStatus,
    pub timestamp: u64,
}

#[derive(Clone, Copy, Debug, PartialEq, Eq)]
pub struct DataRetentionExpired {
    pub account: AccountId,
    pub timestamp: u64,
}

#[derive(Clone, Copy, Debug, PartialEq, Eq)]
pub struct AuditLogCreated {
    pub account: AccountId,
    pub action: u8,
    pub timestamp: u64,
}

#[derive(Clone, Copy, Debug, PartialEq, Eq)]
pub struct VerificationRequestCreated {
    pub account: AccountId,
    pub request_id: u64,
    pub jurisdiction: Jurisdiction,
    pub timestamp: u64,
}

#[derive(Clone, Copy, Debug, PartialEq, Eq)]
pub struct ServiceProviderRegistered {
    pub provider: AccountId,
    pub service_type: u8,
    pub timestamp: u64,
}

/// Any notification of the compliance registry.
#[derive(Clone, Copy, Debug, PartialEq, Eq)]
pub enum Event {
    VerificationUpdated(VerificationUpdated),
    ComplianceCheckPerformed(ComplianceCheckPerformed),
    ConsentUpdated(ConsentUpdated),
    DataRetentionExpired(DataRetentionExpired),
    AuditLogCreated(AuditLogCreated),
    VerificationRequestCreated(VerificationRequestCreated),
    ServiceProviderRegistered(ServiceProviderRegistered),
}

} // verus!
