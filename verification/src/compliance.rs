//! The compliance registry: who has been verified, under which rules, and
//! what has been checked since.

pub mod laws;
pub mod model;
pub mod registry;
pub mod types;

pub use registry::ComplianceRegistry;
pub use types::{
    AMLRiskFactors, AuditLog, AuditLogCreated, BiometricMethod, ComplianceCheckPerformed,
    ComplianceData, ConsentStatus, ConsentUpdated, DataRetentionExpired, DocumentType, Error,
    Event, Jurisdiction, JurisdictionRules, RiskLevel, SanctionsList, ServiceProvider,
    ServiceProviderRegistered, VerificationRequest, VerificationRequestCreated,
    VerificationStatus, VerificationUpdated,
};
