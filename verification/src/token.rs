//! The property token: ownership of registered properties as transferable
//! tokens, with compliance flags, legal documents and bridging.

pub mod contract;
pub mod model;
pub mod types;

pub use contract::PropertyToken;
pub use types::{
    Approval, ApprovalForAll, BridgedTokenInfo, BridgingStatus, ChainId, ComplianceInfo,
    ComplianceVerified, DocumentInfo, Error, Event, LegalDocumentAttached, OwnershipTransfer,
    PropertyTokenMinted, TokenBridged, TokenId, Transfer,
};
