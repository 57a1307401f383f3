//! Records kept by the escrow engine, each with the mathematical value
//! (its view) that the contracts speak of.

use vstd::prelude::*;
use crate::primitives::AccountId;

verus! {

/// Why an operation was refused.
#[derive(Clone, Copy, Debug, PartialEq, Eq, Structural)]
pub enum Error {
    /// No escrow, dispute or condition with the given identifier.
    EscrowNotFound,
    /// The caller lacks the role the operation requires.
    Unauthorized,
    /// The escrow's status forbids the operation.
    InvalidStatus,
    /// The custody ledger refused to move the balance.
    InsufficientFunds,
    /// At least one release condition is still unmet.
    ConditionsNotMet,
    /// Too few signers have approved.
    SignatureThresholdNotMet,
    /// The caller has already signed this approval type.
    AlreadySigned,
    /// No document with the given fingerprint.
    DocumentNotFound,
    /// An unresolved dispute stands in the way.
    DisputeActive,
    /// The release time-lock has not expired.
    TimeLockActive,
    /// The multi-signature parameters are malformed.
    InvalidConfiguration,
    EscrowAlreadyFunded,
    ParticipantNotFound,
}

/// Where an escrow stands in its life.
#[derive(Clone, Copy, Debug, PartialEq, Eq, Structural)]
pub enum EscrowStatus {
    Created,
    Funded,
    Active,
    Released,
    Refunded,
    Disputed,
    Cancelled,
}

/// The action a signature authorises.
#[derive(Clone, Copy, Debug, PartialEq, Eq, Structural)]
pub enum ApprovalType {
    Release,
    Refund,
    EmergencyOverride,
}

/// Why the custody ledger refused a transfer.
#[derive(Clone, Copy, Debug, PartialEq, Eq, Structural)]
pub enum TransferError {
    /// The available balance does not cover the amount.
    InsufficientBalance,
    /// The ledger rejected the transfer for another reason.
    Rejected,
}

/// A movement of custody that the host is asked to perform.
#[derive(Clone, Copy, Debug, PartialEq, Eq)]
pub struct TransferOrder {
    pub to: AccountId,
    pub amount: u128,
}

/// The escrow record proper.
#[derive(Clone, Debug, PartialEq, Eq)]
pub struct EscrowData {
    pub id: u64,
    pub property_id: u64,
    pub buyer: AccountId,
    pub seller: AccountId,
    pub amount: u128,
    pub deposited_amount: u128,
    pub status: EscrowStatus,
    pub created_at: u64,
    pub release_time_lock: Option<u64>,
    pub participants: Vec<AccountId>,
}

pub struct EscrowDataView {
    pub id: u64,
    pub property_id: u64,
    pub buyer: AccountId,
    pub seller: AccountId,
    pub amount: u128,
    pub deposited_amount: u128,
    pub status: EscrowStatus,
    pub created_at: u64,
    pub release_time_lock: Option<u64>,
    pub participants: Seq<AccountId>,
}

impl View for EscrowData {
    type V = EscrowDataView;

    open spec fn view(&self) -> EscrowDataView {
        EscrowDataView {
            id: self.id,
            property_id: self.property_id,
            buyer: self.buyer,
            seller: self.seller,
            amount: self.amount,
            deposited_amount: self.deposited_amount,
            status: self.status,
            created_at: self.created_at,
            release_time_lock: self.release_time_lock,
            participants: self.participants@,
        }
    }
}

/// The quorum rule of one escrow.
#[derive(Clone, Debug, PartialEq, Eq)]
pub struct MultiSigConfig {
    pub required_signatures: u8,
    pub signers: Vec<AccountId>,
}

pub struct MultiSigConfigView {
    pub required_signatures: u8,
    pub signers: Seq<AccountId>,
}

impl View for MultiSigConfig {
    type V = MultiSigConfigView;

    open spec fn view(&self) -> MultiSigConfigView {
        MultiSigConfigView { required_signatures: self.required_signatures, signers: self.signers@ }
    }
}

/// A document fingerprint with its verification status.
#[derive(Clone, Debug, PartialEq, Eq)]
pub struct DocumentHash {
    pub hash: crate::primitives::Hash,
    pub document_type: String,
    pub uploaded_by: AccountId,
    pub uploaded_at: u64,
    pub verified: bool,
}

pub struct DocumentHashView {
    pub hash: crate::primitives::Hash,
    pub document_type: Seq<char>,
    pub uploaded_by: AccountId,
    pub uploaded_at: u64,
    pub verified: bool,
}

impl View for DocumentHash {
    type V = DocumentHashView;

    open spec fn view(&self) -> DocumentHashView {
        DocumentHashView {
            hash: self.hash,
            document_type: self.document_type@,
            uploaded_by: self.uploaded_by,
            uploaded_at: self.uploaded_at,
            verified: self.verified,
        }
    }
}

/// A named prerequisite for release.
#[derive(Clone, Debug, PartialEq, Eq)]
pub struct Condition {
    pub id: u64,
    pub description: String,
    pub met: bool,
    pub verified_by: Option<AccountId>,
    pub verified_at: Option<u64>,
}

pub struct ConditionView {
    pub id: u64,
    pub description: Seq<char>,
    pub met: bool,
    pub verified_by: Option<AccountId>,
    pub verified_at: Option<u64>,
}

impl View for Condition {
    type V = ConditionView;

    open spec fn view(&self) -> ConditionView {
        ConditionView {
            id: self.id,
            description: self.description@,
            met: self.met,
            verified_by: self.verified_by,
            verified_at: self.verified_at,
        }
    }
}

/// An objection raised against an escrow.
#[derive(Clone, Debug, PartialEq, Eq)]
pub struct DisputeInfo {
    pub escrow_id: u64,
    pub raised_by: AccountId,
    pub reason: String,
    pub raised_at: u64,
    pub resolved: bool,
    pub resolution: Option<String>,
}

pub struct DisputeInfoView {
    pub escrow_id: u64,
    pub raised_by: AccountId,
    pub reason: Seq<char>,
    pub raised_at: u64,
    pub resolved: bool,
    pub resolution: Option<Seq<char>>,
}

impl View for DisputeInfo {
    type V = DisputeInfoView;

    open spec fn view(&self) -> DisputeInfoView {
        DisputeInfoView {
            escrow_id: self.escrow_id,
            raised_by: self.raised_by,
            reason: self.reason@,
            raised_at: self.raised_at,
            resolved: self.resolved,
            resolution: match self.resolution {
                Some(text) => Some(text@),
                None => None,
            },
        }
    }
}

/// One line of an escrow's audit trail.
#[derive(Clone, Debug, PartialEq, Eq)]
pub struct AuditEntry {
    pub timestamp: u64,
    pub actor: AccountId,
    pub action: String,
    pub details: String,
}

pub struct AuditEntryView {
    pub timestamp: u64,
    pub actor: AccountId,
    pub action: Seq<char>,
    pub details: Seq<char>,
}

impl View for AuditEntry {
    type V = AuditEntryView;

    open spec fn view(&self) -> AuditEntryView {
        AuditEntryView {
            timestamp: self.timestamp,
            actor: self.actor,
            action: self.action@,
            details: self.details@,
        }
    }
}

impl EscrowStatus {
    /// Whether no further state change is allowed from this status.
    pub open spec fn is_closed(self) -> bool {
        self == EscrowStatus::Released || self == EscrowStatus::Refunded
    }
}

} // verus!
