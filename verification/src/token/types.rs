//! Records and notifications of the property token, each with the
//! mathematical value (its view) that the contracts speak of.

use vstd::prelude::*;
use crate::primitives::AccountId;

verus! {

/// The identifier of a token.
pub type TokenId = u64;

/// The identifier of a chain.
pub type ChainId = u64;

/// Why an operation was refused.
#[derive(Clone, Copy, Debug, PartialEq, Eq, Structural)]
pub enum Error {
    TokenNotFound,
    Unauthorized,
    PropertyNotFound,
    InvalidMetadata,
    DocumentNotFound,
    ComplianceFailed,
    BridgeNotSupported,
    InvalidChain,
    BridgeLocked,
}

/// How far the bridging of a token has come.
#[derive(Clone, Copy, Debug, PartialEq, Eq, Structural)]
pub enum BridgingStatus {
    Locked,
    Pending,
    Completed,
    Failed,
}

/// One change of ownership of a token.
#[derive(Clone, Copy, Debug, PartialEq, Eq)]
pub struct OwnershipTransfer {
    /// The zero account where the token was minted.
    pub from: AccountId,
    pub to: AccountId,
    pub timestamp: u64,
    pub transaction_hash: crate::primitives::Hash,
}

/// Whether a token has passed compliance verification.
#[derive(Clone, Debug, PartialEq, Eq)]
pub struct ComplianceInfo {
    pub verified: bool,
    pub verification_date: u64,
    pub verifier: AccountId,
    pub compliance_type: String,
}

pub struct ComplianceInfoView {
    pub verified: bool,
    pub verification_date: u64,
    pub verifier: AccountId,
    pub compliance_type: Seq<char>,
}

impl View for ComplianceInfo {
    type V = ComplianceInfoView;

    open spec fn view(&self) -> ComplianceInfoView {
        ComplianceInfoView {
            verified: self.verified,
            verification_date: self.verification_date,
            verifier: self.verifier,
            compliance_type: self.compliance_type@,
        }
    }
}

/// A legal document attached to a token.
#[derive(Clone, Debug, PartialEq, Eq)]
pub struct DocumentInfo {
    pub document_hash: crate::primitives::Hash,
    pub document_type: String,
    pub upload_date: u64,
    pub uploader: AccountId,
}

pub struct DocumentInfoView {
    pub document_hash: crate::primitives::Hash,
    pub document_type: Seq<char>,
    pub upload_date: u64,
    pub uploader: AccountId,
}

impl View for DocumentInfo {
    type V = DocumentInfoView;

    open spec fn view(&self) -> DocumentInfoView {
        DocumentInfoView {
            document_hash: self.document_hash,
            document_type: self.document_type@,
            upload_date: self.upload_date,
            uploader: self.uploader,
        }
    }
}

/// A token on its way to, or from, another chain.
#[derive(Clone, Copy, Debug, PartialEq, Eq)]
pub struct BridgedTokenInfo {
    pub original_chain: u64,
    pub original_token_id: u64,
    pub destination_chain: u64,
    pub destination_token_id: u64,
    pub bridged_at: u64,
    pub status: BridgingStatus,
}

/// A token changed hands
/// minted where `from` is absent.
#[derive(Clone, Copy, Debug, PartialEq, Eq)]
pub struct Transfer {
    pub from: Option<AccountId>,
    pub to: Option<AccountId>,
    pub id: u64,
}

/// An account was approved to transfer a token.
#[derive(Clone, Copy, Debug, PartialEq, Eq)]
pub struct Approval {
    pub owner: AccountId,
    pub spender: AccountId,
    pub id: u64,
}

/// An operator was set or unset for all tokens of an owner.
#[derive(Clone, Copy, Debug, PartialEq, Eq)]
pub struct ApprovalForAll {
    pub owner: AccountId,
    pub operator: AccountId,
    pub approved: bool,
}

/// A property was registered and its token minted.
#[derive(Clone, Copy, Debug, PartialEq, Eq)]
pub struct PropertyTokenMinted {
    pub token_id: u64,
    pub property_id: u64,
    pub owner: AccountId,
}

/// A legal document was attached to a token.
#[derive(Clone, Debug, PartialEq, Eq)]
pub struct LegalDocumentAttached {
    pub token_id: u64,
    pub document_hash: crate::primitives::Hash,
    pub document_type: String,
}

pub struct LegalDocumentAttachedView {
    pub token_id: u64,
    pub document_hash: crate::primitives::Hash,
    pub document_type: Seq<char>,
}

impl View for LegalDocumentAttached {
    type V = LegalDocumentAttachedView;

    open spec fn view(&self) -> LegalDocumentAttachedView {
        LegalDocumentAttachedView {
            token_id: self.token_id,
            document_hash: self.document_hash,
            document_type: self.document_type@,
        }
    }
}

/// The compliance of a token was verified or denied.
#[derive(Clone, Copy, Debug, PartialEq, Eq)]
pub struct ComplianceVerified {
    pub token_id: u64,
    pub verified: bool,
    pub verifier: AccountId,
}

/// A token was locked for bridging to another chain.
#[derive(Clone, Copy, Debug, PartialEq, Eq)]
pub struct TokenBridged {
    pub token_id: u64,
    pub destination_chain: u64,
    pub recipient: AccountId,
}

/// Any notification of the property token.
#[derive(Clone, Debug, PartialEq, Eq)]
pub enum Event {
    Transfer(Transfer),
    Approval(Approval),
    ApprovalForAll(ApprovalForAll),
    PropertyTokenMinted(PropertyTokenMinted),
    LegalDocumentAttached(LegalDocumentAttached),
    ComplianceVerified(ComplianceVerified),
    TokenBridged(TokenBridged),
}

pub enum EventView {
    Transfer(Transfer),
    Approval(Approval),
    ApprovalForAll(ApprovalForAll),
    PropertyTokenMinted(PropertyTokenMinted),
    LegalDocumentAttached(LegalDocumentAttachedView),
    ComplianceVerified(ComplianceVerified),
    TokenBridged(TokenBridged),
}

impl View for Event {
    type V = EventView;

    open spec fn view(&self) -> EventView {
        match *self {
            Event::Transfer(e) => EventView::Transfer(e),
            Event::Approval(e) => EventView::Approval(e),
            Event::ApprovalForAll(e) => EventView::ApprovalForAll(e),
            Event::PropertyTokenMinted(e) => EventView::PropertyTokenMinted(e),
            Event::LegalDocumentAttached(e) => EventView::LegalDocumentAttached(e@),
            Event::ComplianceVerified(e) => EventView::ComplianceVerified(e),
            Event::TokenBridged(e) => EventView::TokenBridged(e),
        }
    }
}

} // verus!
