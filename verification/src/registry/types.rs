//! Records kept by the property registry, each with the mathematical value
//! (its view) that the contracts speak of.

use vstd::prelude::*;
use crate::primitives::{views, AccountId};

verus! {

/// Why an operation was refused.
#[derive(Clone, Copy, Debug, PartialEq, Eq, Structural)]
pub enum Error {
    PropertyNotFound,
    Unauthorized,
    InvalidMetadata,
    /// The recipient is not compliant.
    NotCompliant,
    /// The compliance registry could not be consulted.
    ComplianceCheckFailed,
    EscrowNotFound,
    EscrowAlreadyReleased,
    BadgeNotFound,
    InvalidBadgeType,
    BadgeAlreadyIssued,
    NotVerifier,
    AppealNotFound,
    InvalidAppealStatus,
    ComplianceRegistryNotSet,
    OracleError,
}

/// What a badge attests.
#[derive(Clone, Copy, Debug, PartialEq, Eq, Structural)]
pub enum BadgeType {
    /// The owner's identity is verified.
    OwnerVerification,
    /// The legal documents are verified.
    DocumentVerification,
    /// Regulatory compliance is verified.
    LegalCompliance,
    /// The property is listed in the premium tier.
    PremiumListing,
}

/// Where a request for a badge stands.
#[derive(Clone, Copy, Debug, PartialEq, Eq, Structural)]
pub enum VerificationStatus {
    Pending,
    Approved,
    Rejected,
}

/// Where an appeal stands.
#[derive(Clone, Copy, Debug, PartialEq, Eq, Structural)]
pub enum AppealStatus {
    Pending,
    Approved,
    Rejected,
}

/// An escrow on the sale of a property.
#[derive(Clone, Copy, Debug, PartialEq, Eq)]
pub struct EscrowInfo {
    pub id: u64,
    pub property_id: u64,
    pub buyer: AccountId,
    pub seller: AccountId,
    pub amount: u128,
    /// Set once the escrow is released or refunded.
    pub released: bool,
}

/// Totals and averages over the properties of one owner.
#[derive(Clone, Copy, Debug, PartialEq, Eq)]
pub struct PortfolioSummary {
    pub property_count: u64,
    pub total_valuation: u128,
    pub average_valuation: u128,
    pub total_size: u64,
    pub average_size: u64,
}

/// One property of a portfolio.
#[derive(Clone, Debug, PartialEq, Eq)]
pub struct PortfolioProperty {
    pub id: u64,
    pub location: String,
    pub size: u64,
    pub valuation: u128,
    pub registered_at: u64,
}

pub struct PortfolioPropertyView {
    pub id: u64,
    pub location: Seq<char>,
    pub size: u64,
    pub valuation: u128,
    pub registered_at: u64,
}

impl View for PortfolioProperty {
    type V = PortfolioPropertyView;

    open spec fn view(&self) -> PortfolioPropertyView {
        PortfolioPropertyView {
            id: self.id,
            location: self.location@,
            size: self.size,
            valuation: self.valuation,
            registered_at: self.registered_at,
        }
    }
}

/// The properties of one owner.
#[derive(Clone, Debug, PartialEq, Eq)]
pub struct PortfolioDetails {
    pub owner: AccountId,
    pub properties: Vec<PortfolioProperty>,
    pub total_count: u64,
}

pub struct PortfolioDetailsView {
    pub owner: AccountId,
    pub properties: Seq<PortfolioPropertyView>,
    pub total_count: u64,
}

impl View for PortfolioDetails {
    type V = PortfolioDetailsView;

    open spec fn view(&self) -> PortfolioDetailsView {
        PortfolioDetailsView {
            owner: self.owner,
            properties: views(self.properties@),
            total_count: self.total_count,
        }
    }
}

/// Totals and averages over every registered property.
#[derive(Clone, Copy, Debug, PartialEq, Eq)]
pub struct GlobalAnalytics {
    pub total_properties: u64,
    pub total_valuation: u128,
    pub average_valuation: u128,
    pub total_size: u64,
    pub average_size: u64,
    pub unique_owners: u64,
}

/// Gas usage as reported to readers.
#[derive(Clone, Copy, Debug, PartialEq, Eq)]
pub struct GasMetrics {
    pub last_operation_gas: u64,
    pub average_operation_gas: u64,
    pub total_operations: u64,
    pub min_gas_used: u64,
    pub max_gas_used: u64,
}

/// Gas usage as accumulated.
#[derive(Clone, Copy, Debug, PartialEq, Eq)]
pub struct GasTracker {
    pub total_gas_used: u64,
    pub operation_count: u64,
    pub last_operation_gas: u64,
    /// `u64::MAX` until the first operation is metered.
    pub min_gas_used: u64,
    pub max_gas_used: u64,
}

/// A badge of a property.
#[derive(Clone, Debug, PartialEq, Eq)]
pub struct Badge {
    pub badge_type: BadgeType,
    pub issued_at: u64,
    pub issued_by: AccountId,
    pub expires_at: Option<u64>,
    pub metadata_url: String,
    pub revoked: bool,
    pub revoked_at: Option<u64>,
    pub revocation_reason: String,
}

pub struct BadgeView {
    pub badge_type: BadgeType,
    pub issued_at: u64,
    pub issued_by: AccountId,
    pub expires_at: Option<u64>,
    pub metadata_url: Seq<char>,
    pub revoked: bool,
    pub revoked_at: Option<u64>,
    pub revocation_reason: Seq<char>,
}

impl View for Badge {
    type V = BadgeView;

    open spec fn view(&self) -> BadgeView {
        BadgeView {
            badge_type: self.badge_type,
            issued_at: self.issued_at,
            issued_by: self.issued_by,
            expires_at: self.expires_at,
            metadata_url: self.metadata_url@,
            revoked: self.revoked,
            revoked_at: self.revoked_at,
            revocation_reason: self.revocation_reason@,
        }
    }
}

/// An owner's request for a badge.
#[derive(Clone, Debug, PartialEq, Eq)]
pub struct VerificationRequest {
    pub id: u64,
    pub property_id: u64,
    pub badge_type: BadgeType,
    pub requester: AccountId,
    pub requested_at: u64,
    pub evidence_url: String,
    pub status: VerificationStatus,
    pub reviewed_by: Option<AccountId>,
    pub reviewed_at: Option<u64>,
}

pub struct VerificationRequestView {
    pub id: u64,
    pub property_id: u64,
    pub badge_type: BadgeType,
    pub requester: AccountId,
    pub requested_at: u64,
    pub evidence_url: Seq<char>,
    pub status: VerificationStatus,
    pub reviewed_by: Option<AccountId>,
    pub reviewed_at: Option<u64>,
}

impl View for VerificationRequest {
    type V = VerificationRequestView;

    open spec fn view(&self) -> VerificationRequestView {
        VerificationRequestView {
            id: self.id,
            property_id: self.property_id,
            badge_type: self.badge_type,
            requester: self.requester,
            requested_at: self.requested_at,
            evidence_url: self.evidence_url@,
            status: self.status,
            reviewed_by: self.reviewed_by,
            reviewed_at: self.reviewed_at,
        }
    }
}

/// An owner's appeal against the revocation of a badge.
#[derive(Clone, Debug, PartialEq, Eq)]
pub struct Appeal {
    pub id: u64,
    pub property_id: u64,
    pub badge_type: BadgeType,
    pub appellant: AccountId,
    pub reason: String,
    pub submitted_at: u64,
    pub status: AppealStatus,
    pub resolved_by: Option<AccountId>,
    pub resolved_at: Option<u64>,
    pub resolution: String,
}

pub struct AppealView {
    pub id: u64,
    pub property_id: u64,
    pub badge_type: BadgeType,
    pub appellant: AccountId,
    pub reason: Seq<char>,
    pub submitted_at: u64,
    pub status: AppealStatus,
    pub resolved_by: Option<AccountId>,
    pub resolved_at: Option<u64>,
    pub resolution: Seq<char>,
}

impl View for Appeal {
    type V = AppealView;

    open spec fn view(&self) -> AppealView {
        AppealView {
            id: self.id,
            property_id: self.property_id,
            badge_type: self.badge_type,
            appellant: self.appellant,
            reason: self.reason@,
            submitted_at: self.submitted_at,
            status: self.status,
            resolved_by: self.resolved_by,
            resolved_at: self.resolved_at,
            resolution: self.resolution@,
        }
    }
}

} // verus!
