//! Notifications. Every successful state change queues exactly one of them
//! for the host to publish.

use vstd::prelude::*;
use crate::primitives::AccountId;
use crate::escrow::types::ApprovalType;

verus! {

#[derive(Clone, Copy, Debug, PartialEq, Eq)]
pub struct EscrowCreated {
    pub escrow_id: u64,
    pub property_id: u64,
    pub buyer: AccountId,
    pub seller: AccountId,
    pub amount: u128,
}

#[derive(Clone, Copy, Debug, PartialEq, Eq)]
pub struct FundsDeposited {
    pub escrow_id: u64,
    pub amount: u128,
    pub depositor: AccountId,
}

#[derive(Clone, Copy, Debug, PartialEq, Eq)]
pub struct FundsReleased {
    pub escrow_id: u64,
    pub amount: u128,
    pub recipient: AccountId,
}

#[derive(Clone, Copy, Debug, PartialEq, Eq)]
pub struct FundsRefunded {
    pub escrow_id: u64,
    pub amount: u128,
    pub recipient: AccountId,
}

#[derive(Clone, Debug, PartialEq, Eq)]
pub struct DocumentUploaded {
    pub escrow_id: u64,
    pub document_hash: crate::primitives::Hash,
    pub document_type: String,
    pub uploader: AccountId,
}

pub struct DocumentUploadedView {
    pub escrow_id: u64,
    pub document_hash: crate::primitives::Hash,
    pub document_type: Seq<char>,
    pub uploader: AccountId,
}

impl View for DocumentUploaded {
    type V = DocumentUploadedView;

    open spec fn view(&self) -> DocumentUploadedView {
        DocumentUploadedView {
            escrow_id: self.escrow_id,
            document_hash: self.document_hash,
            document_type: self.document_type@,
            uploader: self.uploader,
        }
    }
}

#[derive(Clone, Copy, Debug, PartialEq, Eq)]
pub struct DocumentVerified {
    pub escrow_id: u64,
    pub document_hash: crate::primitives::Hash,
    pub verifier: AccountId,
}

#[derive(Clone, Debug, PartialEq, Eq)]
pub struct ConditionAdded {
    pub escrow_id: u64,
    pub condition_id: u64,
    pub description: String,
}

pub struct ConditionAddedView {
    pub escrow_id: u64,
    pub condition_id: u64,
    pub description: Seq<char>,
}

impl View for ConditionAdded {
    type V = ConditionAddedView;

    open spec fn view(&self) -> ConditionAddedView {
        ConditionAddedView {
            escrow_id: self.escrow_id,
            condition_id: self.condition_id,
            description: self.description@,
        }
    }
}

#[derive(Clone, Copy, Debug, PartialEq, Eq)]
pub struct ConditionMet {
    pub escrow_id: u64,
    pub condition_id: u64,
    pub verified_by: AccountId,
}

#[derive(Clone, Copy, Debug, PartialEq, Eq)]
pub struct SignatureAdded {
    pub escrow_id: u64,
    pub approval_type: ApprovalType,
    pub signer: AccountId,
}

#[derive(Clone, Debug, PartialEq, Eq)]
pub struct DisputeRaised {
    pub escrow_id: u64,
    pub raised_by: AccountId,
    pub reason: String,
}

pub struct DisputeRaisedView {
    pub escrow_id: u64,
    pub raised_by: AccountId,
    pub reason: Seq<char>,
}

impl View for DisputeRaised {
    type V = DisputeRaisedView;

    open spec fn view(&self) -> DisputeRaisedView {
        DisputeRaisedView {
            escrow_id: self.escrow_id,
            raised_by: self.raised_by,
            reason: self.reason@,
        }
    }
}

#[derive(Clone, Debug, PartialEq, Eq)]
pub struct DisputeResolved {
    pub escrow_id: u64,
    pub resolution: String,
}

pub struct DisputeResolvedView {
    pub escrow_id: u64,
    pub resolution: Seq<char>,
}

impl View for DisputeResolved {
    type V = DisputeResolvedView;

    open spec fn view(&self) -> DisputeResolvedView {
        DisputeResolvedView { escrow_id: self.escrow_id, resolution: self.resolution@ }
    }
}

#[derive(Clone, Copy, Debug, PartialEq, Eq)]
pub struct EmergencyOverride {
    pub escrow_id: u64,
    pub admin: AccountId,
}

/// Any notification of the escrow engine.
#[derive(Clone, Debug, PartialEq, Eq)]
pub enum Event {
    EscrowCreated(EscrowCreated),
    FundsDeposited(FundsDeposited),
    FundsReleased(FundsReleased),
    FundsRefunded(FundsRefunded),
    DocumentUploaded(DocumentUploaded),
    DocumentVerified(DocumentVerified),
    ConditionAdded(ConditionAdded),
    ConditionMet(ConditionMet),
    SignatureAdded(SignatureAdded),
    DisputeRaised(DisputeRaised),
    DisputeResolved(DisputeResolved),
    EmergencyOverride(EmergencyOverride),
}

pub enum EventView {
    EscrowCreated(EscrowCreated),
    FundsDeposited(FundsDeposited),
    FundsReleased(FundsReleased),
    FundsRefunded(FundsRefunded),
    DocumentUploaded(DocumentUploadedView),
    DocumentVerified(DocumentVerified),
    ConditionAdded(ConditionAddedView),
    ConditionMet(ConditionMet),
    SignatureAdded(SignatureAdded),
    DisputeRaised(DisputeRaisedView),
    DisputeResolved(DisputeResolvedView),
    EmergencyOverride(EmergencyOverride),
}

impl View for Event {
    type V = EventView;

    open spec fn view(&self) -> EventView {
        match *self {
            Event::EscrowCreated(e) => EventView::EscrowCreated(e),
            Event::FundsDeposited(e) => EventView::FundsDeposited(e),
            Event::FundsReleased(e) => EventView::FundsReleased(e),
            Event::FundsRefunded(e) => EventView::FundsRefunded(e),
            Event::DocumentUploaded(e) => EventView::DocumentUploaded(e@),
            Event::DocumentVerified(e) => EventView::DocumentVerified(e),
            Event::ConditionAdded(e) => EventView::ConditionAdded(e@),
            Event::ConditionMet(e) => EventView::ConditionMet(e),
            Event::SignatureAdded(e) => EventView::SignatureAdded(e),
            Event::DisputeRaised(e) => EventView::DisputeRaised(e@),
            Event::DisputeResolved(e) => EventView::DisputeResolved(e@),
            Event::EmergencyOverride(e) => EventView::EmergencyOverride(e),
        }
    }
}

impl EventView {
    /// The escrow this notification is about.
    pub open spec fn escrow_id(self) -> u64 {
        match self {
            EventView::EscrowCreated(e) => e.escrow_id,
            EventView::FundsDeposited(e) => e.escrow_id,
            EventView::FundsReleased(e) => e.escrow_id,
            EventView::FundsRefunded(e) => e.escrow_id,
            EventView::DocumentUploaded(e) => e.escrow_id,
            EventView::DocumentVerified(e) => e.escrow_id,
            EventView::ConditionAdded(e) => e.escrow_id,
            EventView::ConditionMet(e) => e.escrow_id,
            EventView::SignatureAdded(e) => e.escrow_id,
            EventView::DisputeRaised(e) => e.escrow_id,
            EventView::DisputeResolved(e) => e.escrow_id,
            EventView::EmergencyOverride(e) => e.escrow_id,
        }
    }
}

} // verus!
