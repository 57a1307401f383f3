//! Notifications of the property registry. Every successful state change
//! queues the ones that tell of it, for the host to publish.

use vstd::prelude::*;
use crate::primitives::AccountId;
use crate::registry::types::BadgeType;

verus! {

/// The version of the notification format.
pub const EVENT_VERSION: u8 = 1;

/// The registry was created.
#[derive(Clone, Copy, Debug, PartialEq, Eq)]
pub struct ContractInitialized {
    pub admin: AccountId,
    pub contract_version: u32,
    pub timestamp: u64,
    pub block_number: u32,
}

/// A property was registered.
#[derive(Clone, Debug, PartialEq, Eq)]
pub struct PropertyRegistered {
    pub property_id: u64,
    pub owner: AccountId,
    pub event_version: u8,
    pub location: String,
    pub size: u64,
    pub valuation: u128,
    pub timestamp: u64,
    pub block_number: u32,
    pub transaction_hash: crate::primitives::Hash,
}

pub struct PropertyRegisteredView {
    pub property_id: u64,
    pub owner: AccountId,
    pub event_version: u8,
    pub location: Seq<char>,
    pub size: u64,
    pub valuation: u128,
    pub timestamp: u64,
    pub block_number: u32,
    pub transaction_hash: crate::primitives::Hash,
}

impl View for PropertyRegistered {
    type V = PropertyRegisteredView;

    open spec fn view(&self) -> PropertyRegisteredView {
        PropertyRegisteredView {
            property_id: self.property_id,
            owner: self.owner,
            event_version: self.event_version,
            location: self.location@,
            size: self.size,
            valuation: self.valuation,
            timestamp: self.timestamp,
            block_number: self.block_number,
            transaction_hash: self.transaction_hash,
        }
    }
}

/// A property changed its owner.
#[derive(Clone, Copy, Debug, PartialEq, Eq)]
pub struct PropertyTransferred {
    pub property_id: u64,
    pub from: AccountId,
    pub to: AccountId,
    pub event_version: u8,
    pub timestamp: u64,
    pub block_number: u32,
    pub transaction_hash: crate::primitives::Hash,
    pub transferred_by: AccountId,
}

/// What is recorded about a property was replaced.
#[derive(Clone, Debug, PartialEq, Eq)]
pub struct PropertyMetadataUpdated {
    pub property_id: u64,
    pub owner: AccountId,
    pub event_version: u8,
    pub old_location: String,
    pub new_location: String,
    pub old_valuation: u128,
    pub new_valuation: u128,
    pub timestamp: u64,
    pub block_number: u32,
    pub transaction_hash: crate::primitives::Hash,
}

pub struct PropertyMetadataUpdatedView {
    pub property_id: u64,
    pub owner: AccountId,
    pub event_version: u8,
    pub old_location: Seq<char>,
    pub new_location: Seq<char>,
    pub old_valuation: u128,
    pub new_valuation: u128,
    pub timestamp: u64,
    pub block_number: u32,
    pub transaction_hash: crate::primitives::Hash,
}

impl View for PropertyMetadataUpdated {
    type V = PropertyMetadataUpdatedView;

    open spec fn view(&self) -> PropertyMetadataUpdatedView {
        PropertyMetadataUpdatedView {
            property_id: self.property_id,
            owner: self.owner,
            event_version: self.event_version,
            old_location: self.old_location@,
            new_location: self.new_location@,
            old_valuation: self.old_valuation,
            new_valuation: self.new_valuation,
            timestamp: self.timestamp,
            block_number: self.block_number,
            transaction_hash: self.transaction_hash,
        }
    }
}

/// An account was approved to transfer a property.
#[derive(Clone, Copy, Debug, PartialEq, Eq)]
pub struct ApprovalGranted {
    pub property_id: u64,
    pub owner: AccountId,
    pub approved: AccountId,
    pub event_version: u8,
    pub timestamp: u64,
    pub block_number: u32,
    pub transaction_hash: crate::primitives::Hash,
}

/// The approval to transfer a property was cleared.
#[derive(Clone, Copy, Debug, PartialEq, Eq)]
pub struct ApprovalCleared {
    pub property_id: u64,
    pub owner: AccountId,
    pub event_version: u8,
    pub timestamp: u64,
    pub block_number: u32,
    pub transaction_hash: crate::primitives::Hash,
}

/// An escrow was opened.
#[derive(Clone, Copy, Debug, PartialEq, Eq)]
pub struct EscrowCreated {
    pub escrow_id: u64,
    pub property_id: u64,
    pub buyer: AccountId,
    pub seller: AccountId,
    pub event_version: u8,
    pub amount: u128,
    pub timestamp: u64,
    pub block_number: u32,
    pub transaction_hash: crate::primitives::Hash,
}

/// An escrow was released and its property transferred.
#[derive(Clone, Copy, Debug, PartialEq, Eq)]
pub struct EscrowReleased {
    pub escrow_id: u64,
    pub property_id: u64,
    pub buyer: AccountId,
    pub event_version: u8,
    pub amount: u128,
    pub timestamp: u64,
    pub block_number: u32,
    pub transaction_hash: crate::primitives::Hash,
    pub released_by: AccountId,
}

/// An escrow was refunded.
#[derive(Clone, Copy, Debug, PartialEq, Eq)]
pub struct EscrowRefunded {
    pub escrow_id: u64,
    pub property_id: u64,
    pub seller: AccountId,
    pub event_version: u8,
    pub amount: u128,
    pub timestamp: u64,
    pub block_number: u32,
    pub transaction_hash: crate::primitives::Hash,
    pub refunded_by: AccountId,
}

/// The registry has another administrator.
#[derive(Clone, Copy, Debug, PartialEq, Eq)]
pub struct AdminChanged {
    pub old_admin: AccountId,
    pub new_admin: AccountId,
    pub event_version: u8,
    pub timestamp: u64,
    pub block_number: u32,
    pub transaction_hash: crate::primitives::Hash,
    pub changed_by: AccountId,
}

/// Several properties were registered at once.
#[derive(Clone, Debug, PartialEq, Eq)]
pub struct BatchPropertyRegistered {
    pub owner: AccountId,
    pub event_version: u8,
    pub property_ids: Vec<u64>,
    pub count: u64,
    pub timestamp: u64,
    pub block_number: u32,
    pub transaction_hash: crate::primitives::Hash,
}

pub struct BatchPropertyRegisteredView {
    pub owner: AccountId,
    pub event_version: u8,
    pub property_ids: Seq<u64>,
    pub count: u64,
    pub timestamp: u64,
    pub block_number: u32,
    pub transaction_hash: crate::primitives::Hash,
}

impl View for BatchPropertyRegistered {
    type V = BatchPropertyRegisteredView;

    open spec fn view(&self) -> BatchPropertyRegisteredView {
        BatchPropertyRegisteredView {
            owner: self.owner,
            event_version: self.event_version,
            property_ids: self.property_ids@,
            count: self.count,
            timestamp: self.timestamp,
            block_number: self.block_number,
            transaction_hash: self.transaction_hash,
        }
    }
}

/// Several properties were transferred to one recipient.
#[derive(Clone, Debug, PartialEq, Eq)]
pub struct BatchPropertyTransferred {
    pub from: AccountId,
    pub to: AccountId,
    pub event_version: u8,
    pub property_ids: Vec<u64>,
    pub count: u64,
    pub timestamp: u64,
    pub block_number: u32,
    pub transaction_hash: crate::primitives::Hash,
    pub transferred_by: AccountId,
}

pub struct BatchPropertyTransferredView {
    pub from: AccountId,
    pub to: AccountId,
    pub event_version: u8,
    pub property_ids: Seq<u64>,
    pub count: u64,
    pub timestamp: u64,
    pub block_number: u32,
    pub transaction_hash: crate::primitives::Hash,
    pub transferred_by: AccountId,
}

impl View for BatchPropertyTransferred {
    type V = BatchPropertyTransferredView;

    open spec fn view(&self) -> BatchPropertyTransferredView {
        BatchPropertyTransferredView {
            from: self.from,
            to: self.to,
            event_version: self.event_version,
            property_ids: self.property_ids@,
            count: self.count,
            timestamp: self.timestamp,
            block_number: self.block_number,
            transaction_hash: self.transaction_hash,
            transferred_by: self.transferred_by,
        }
    }
}

/// The records of several properties were replaced.
#[derive(Clone, Debug, PartialEq, Eq)]
pub struct BatchMetadataUpdated {
    pub owner: AccountId,
    pub event_version: u8,
    pub property_ids: Vec<u64>,
    pub count: u64,
    pub timestamp: u64,
    pub block_number: u32,
    pub transaction_hash: crate::primitives::Hash,
}

pub struct BatchMetadataUpdatedView {
    pub owner: AccountId,
    pub event_version: u8,
    pub property_ids: Seq<u64>,
    pub count: u64,
    pub timestamp: u64,
    pub block_number: u32,
    pub transaction_hash: crate::primitives::Hash,
}

impl View for BatchMetadataUpdated {
    type V = BatchMetadataUpdatedView;

    open spec fn view(&self) -> BatchMetadataUpdatedView {
        BatchMetadataUpdatedView {
            owner: self.owner,
            event_version: self.event_version,
            property_ids: self.property_ids@,
            count: self.count,
            timestamp: self.timestamp,
            block_number: self.block_number,
            transaction_hash: self.transaction_hash,
        }
    }
}

/// Several properties were transferred, each to its own recipient.
#[derive(Clone, Debug, PartialEq, Eq)]
pub struct BatchPropertyTransferredToMultiple {
    pub from: AccountId,
    pub event_version: u8,
    pub transfers: Vec<(u64, AccountId)>,
    pub count: u64,
    pub timestamp: u64,
    pub block_number: u32,
    pub transaction_hash: crate::primitives::Hash,
    pub transferred_by: AccountId,
}

pub struct BatchPropertyTransferredToMultipleView {
    pub from: AccountId,
    pub event_version: u8,
    pub transfers: Seq<(u64, AccountId)>,
    pub count: u64,
    pub timestamp: u64,
    pub block_number: u32,
    pub transaction_hash: crate::primitives::Hash,
    pub transferred_by: AccountId,
}

impl View for BatchPropertyTransferredToMultiple {
    type V = BatchPropertyTransferredToMultipleView;

    open spec fn view(&self) -> BatchPropertyTransferredToMultipleView {
        BatchPropertyTransferredToMultipleView {
            from: self.from,
            event_version: self.event_version,
            transfers: self.transfers@,
            count: self.count,
            timestamp: self.timestamp,
            block_number: self.block_number,
            transaction_hash: self.transaction_hash,
            transferred_by: self.transferred_by,
        }
    }
}

/// A badge was issued to a property.
#[derive(Clone, Debug, PartialEq, Eq)]
pub struct BadgeIssued {
    pub property_id: u64,
    pub badge_type: BadgeType,
    pub issued_by: AccountId,
    pub event_version: u8,
    pub expires_at: Option<u64>,
    pub metadata_url: String,
    pub timestamp: u64,
    pub block_number: u32,
    pub transaction_hash: crate::primitives::Hash,
}

pub struct BadgeIssuedView {
    pub property_id: u64,
    pub badge_type: BadgeType,
    pub issued_by: AccountId,
    pub event_version: u8,
    pub expires_at: Option<u64>,
    pub metadata_url: Seq<char>,
    pub timestamp: u64,
    pub block_number: u32,
    pub transaction_hash: crate::primitives::Hash,
}

impl View for BadgeIssued {
    type V = BadgeIssuedView;

    open spec fn view(&self) -> BadgeIssuedView {
        BadgeIssuedView {
            property_id: self.property_id,
            badge_type: self.badge_type,
            issued_by: self.issued_by,
            event_version: self.event_version,
            expires_at: self.expires_at,
            metadata_url: self.metadata_url@,
            timestamp: self.timestamp,
            block_number: self.block_number,
            transaction_hash: self.transaction_hash,
        }
    }
}

/// A badge was revoked.
#[derive(Clone, Debug, PartialEq, Eq)]
pub struct BadgeRevoked {
    pub property_id: u64,
    pub badge_type: BadgeType,
    pub revoked_by: AccountId,
    pub event_version: u8,
    pub reason: String,
    pub timestamp: u64,
    pub block_number: u32,
    pub transaction_hash: crate::primitives::Hash,
}

pub struct BadgeRevokedView {
    pub property_id: u64,
    pub badge_type: BadgeType,
    pub revoked_by: AccountId,
    pub event_version: u8,
    pub reason: Seq<char>,
    pub timestamp: u64,
    pub block_number: u32,
    pub transaction_hash: crate::primitives::Hash,
}

impl View for BadgeRevoked {
    type V = BadgeRevokedView;

    open spec fn view(&self) -> BadgeRevokedView {
        BadgeRevokedView {
            property_id: self.property_id,
            badge_type: self.badge_type,
            revoked_by: self.revoked_by,
            event_version: self.event_version,
            reason: self.reason@,
            timestamp: self.timestamp,
            block_number: self.block_number,
            transaction_hash: self.transaction_hash,
        }
    }
}

/// An owner asked for a badge.
#[derive(Clone, Debug, PartialEq, Eq)]
pub struct VerificationRequested {
    pub request_id: u64,
    pub property_id: u64,
    pub badge_type: BadgeType,
    pub requester: AccountId,
    pub event_version: u8,
    pub evidence_url: String,
    pub timestamp: u64,
    pub block_number: u32,
    pub transaction_hash: crate::primitives::Hash,
}

pub struct VerificationRequestedView {
    pub request_id: u64,
    pub property_id: u64,
    pub badge_type: BadgeType,
    pub requester: AccountId,
    pub event_version: u8,
    pub evidence_url: Seq<char>,
    pub timestamp: u64,
    pub block_number: u32,
    pub transaction_hash: crate::primitives::Hash,
}

impl View for VerificationRequested {
    type V = VerificationRequestedView;

    open spec fn view(&self) -> VerificationRequestedView {
        VerificationRequestedView {
            request_id: self.request_id,
            property_id: self.property_id,
            badge_type: self.badge_type,
            requester: self.requester,
            event_version: self.event_version,
            evidence_url: self.evidence_url@,
            timestamp: self.timestamp,
            block_number: self.block_number,
            transaction_hash: self.transaction_hash,
        }
    }
}

/// A request for a badge was reviewed.
#[derive(Clone, Copy, Debug, PartialEq, Eq)]
pub struct VerificationReviewed {
    pub request_id: u64,
    pub property_id: u64,
    pub reviewer: AccountId,
    pub approved: bool,
    pub event_version: u8,
    pub timestamp: u64,
    pub block_number: u32,
    pub transaction_hash: crate::primitives::Hash,
}

/// An owner appealed against a revocation.
#[derive(Clone, Debug, PartialEq, Eq)]
pub struct AppealSubmitted {
    pub appeal_id: u64,
    pub property_id: u64,
    pub badge_type: BadgeType,
    pub appellant: AccountId,
    pub event_version: u8,
    pub reason: String,
    pub timestamp: u64,
    pub block_number: u32,
    pub transaction_hash: crate::primitives::Hash,
}

pub struct AppealSubmittedView {
    pub appeal_id: u64,
    pub property_id: u64,
    pub badge_type: BadgeType,
    pub appellant: AccountId,
    pub event_version: u8,
    pub reason: Seq<char>,
    pub timestamp: u64,
    pub block_number: u32,
    pub transaction_hash: crate::primitives::Hash,
}

impl View for AppealSubmitted {
    type V = AppealSubmittedView;

    open spec fn view(&self) -> AppealSubmittedView {
        AppealSubmittedView {
            appeal_id: self.appeal_id,
            property_id: self.property_id,
            badge_type: self.badge_type,
            appellant: self.appellant,
            event_version: self.event_version,
            reason: self.reason@,
            timestamp: self.timestamp,
            block_number: self.block_number,
            transaction_hash: self.transaction_hash,
        }
    }
}

/// An appeal was resolved.
#[derive(Clone, Debug, PartialEq, Eq)]
pub struct AppealResolved {
    pub appeal_id: u64,
    pub property_id: u64,
    pub resolved_by: AccountId,
    pub approved: bool,
    pub event_version: u8,
    pub resolution: String,
    pub timestamp: u64,
    pub block_number: u32,
    pub transaction_hash: crate::primitives::Hash,
}

pub struct AppealResolvedView {
    pub appeal_id: u64,
    pub property_id: u64,
    pub resolved_by: AccountId,
    pub approved: bool,
    pub event_version: u8,
    pub resolution: Seq<char>,
    pub timestamp: u64,
    pub block_number: u32,
    pub transaction_hash: crate::primitives::Hash,
}

impl View for AppealResolved {
    type V = AppealResolvedView;

    open spec fn view(&self) -> AppealResolvedView {
        AppealResolvedView {
            appeal_id: self.appeal_id,
            property_id: self.property_id,
            resolved_by: self.resolved_by,
            approved: self.approved,
            event_version: self.event_version,
            resolution: self.resolution@,
            timestamp: self.timestamp,
            block_number: self.block_number,
            transaction_hash: self.transaction_hash,
        }
    }
}

/// A badge verifier was authorised or dismissed.
#[derive(Clone, Copy, Debug, PartialEq, Eq)]
pub struct VerifierUpdated {
    pub verifier: AccountId,
    pub authorized: bool,
    pub updated_by: AccountId,
    pub event_version: u8,
    pub timestamp: u64,
    pub block_number: u32,
    pub transaction_hash: crate::primitives::Hash,
}

/// Any notification of the property registry.
#[derive(Clone, Debug, PartialEq, Eq)]
pub enum Event {
    ContractInitialized(ContractInitialized),
    PropertyRegistered(PropertyRegistered),
    PropertyTransferred(PropertyTransferred),
    PropertyMetadataUpdated(PropertyMetadataUpdated),
    ApprovalGranted(ApprovalGranted),
    ApprovalCleared(ApprovalCleared),
    EscrowCreated(EscrowCreated),
    EscrowReleased(EscrowReleased),
    EscrowRefunded(EscrowRefunded),
    AdminChanged(AdminChanged),
    BatchPropertyRegistered(BatchPropertyRegistered),
    BatchPropertyTransferred(BatchPropertyTransferred),
    BatchMetadataUpdated(BatchMetadataUpdated),
    BatchPropertyTransferredToMultiple(BatchPropertyTransferredToMultiple),
    BadgeIssued(BadgeIssued),
    BadgeRevoked(BadgeRevoked),
    VerificationRequested(VerificationRequested),
    VerificationReviewed(VerificationReviewed),
    AppealSubmitted(AppealSubmitted),
    AppealResolved(AppealResolved),
    VerifierUpdated(VerifierUpdated),
}

pub enum EventView {
    ContractInitialized(ContractInitialized),
    PropertyRegistered(PropertyRegisteredView),
    PropertyTransferred(PropertyTransferred),
    PropertyMetadataUpdated(PropertyMetadataUpdatedView),
    ApprovalGranted(ApprovalGranted),
    ApprovalCleared(ApprovalCleared),
    EscrowCreated(EscrowCreated),
    EscrowReleased(EscrowReleased),
    EscrowRefunded(EscrowRefunded),
    AdminChanged(AdminChanged),
    BatchPropertyRegistered(BatchPropertyRegisteredView),
    BatchPropertyTransferred(BatchPropertyTransferredView),
    BatchMetadataUpdated(BatchMetadataUpdatedView),
    BatchPropertyTransferredToMultiple(BatchPropertyTransferredToMultipleView),
    BadgeIssued(BadgeIssuedView),
    BadgeRevoked(BadgeRevokedView),
    VerificationRequested(VerificationRequestedView),
    VerificationReviewed(VerificationReviewed),
    AppealSubmitted(AppealSubmittedView),
    AppealResolved(AppealResolvedView),
    VerifierUpdated(VerifierUpdated),
}

impl View for Event {
    type V = EventView;

    open spec fn view(&self) -> EventView {
        match *self {
            Event::ContractInitialized(e) => EventView::ContractInitialized(e),
            Event::PropertyRegistered(e) => EventView::PropertyRegistered(e@),
            Event::PropertyTransferred(e) => EventView::PropertyTransferred(e),
            Event::PropertyMetadataUpdated(e) => EventView::PropertyMetadataUpdated(e@),
            Event::ApprovalGranted(e) => EventView::ApprovalGranted(e),
            Event::ApprovalCleared(e) => EventView::ApprovalCleared(e),
            Event::EscrowCreated(e) => EventView::EscrowCreated(e),
            Event::EscrowReleased(e) => EventView::EscrowReleased(e),
            Event::EscrowRefunded(e) => EventView::EscrowRefunded(e),
            Event::AdminChanged(e) => EventView::AdminChanged(e),
            Event::BatchPropertyRegistered(e) => EventView::BatchPropertyRegistered(e@),
            Event::BatchPropertyTransferred(e) => EventView::BatchPropertyTransferred(e@),
            Event::BatchMetadataUpdated(e) => EventView::BatchMetadataUpdated(e@),
            Event::BatchPropertyTransferredToMultiple(e) => EventView::BatchPropertyTransferredToMultiple(e@),
            Event::BadgeIssued(e) => EventView::BadgeIssued(e@),
            Event::BadgeRevoked(e) => EventView::BadgeRevoked(e@),
            Event::VerificationRequested(e) => EventView::VerificationRequested(e@),
            Event::VerificationReviewed(e) => EventView::VerificationReviewed(e),
            Event::AppealSubmitted(e) => EventView::AppealSubmitted(e@),
            Event::AppealResolved(e) => EventView::AppealResolved(e@),
            Event::VerifierUpdated(e) => EventView::VerifierUpdated(e),
        }
    }
}

} // verus!
