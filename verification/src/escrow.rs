//! The multi-party conditional escrow engine.

pub mod calls;
pub mod engine;
pub mod events;
pub mod laws;
pub mod model;
pub mod types;

pub use engine::AdvancedEscrow;
pub use events::{
    ConditionAdded, ConditionMet, DisputeRaised, DisputeResolved, DocumentUploaded,
    DocumentVerified, EmergencyOverride, EscrowCreated, Event, FundsDeposited, FundsRefunded,
    FundsReleased, SignatureAdded,
};
pub use types::{
    ApprovalType, AuditEntry, Condition, DisputeInfo, DocumentHash, Error, EscrowData,
    EscrowStatus, MultiSigConfig, TransferError, TransferOrder,
};
