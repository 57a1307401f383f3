//! The property registry: who owns which property, who may transfer it,
//! and which badges it carries.

pub mod contract;
pub mod events;
pub mod laws;
pub mod model;
pub mod types;

pub use contract::PropertyRegistry;
pub use events::{
    AdminChanged, AppealResolved, AppealSubmitted, ApprovalCleared, ApprovalGranted, BadgeIssued,
    BadgeRevoked, BatchMetadataUpdated, BatchPropertyRegistered, BatchPropertyTransferred,
    BatchPropertyTransferredToMultiple, ContractInitialized, EscrowCreated, EscrowRefunded,
    EscrowReleased, Event, PropertyMetadataUpdated, PropertyRegistered, PropertyTransferred,
    VerificationRequested, VerificationReviewed, VerifierUpdated,
};
pub use types::{
    Appeal, AppealStatus, Badge, BadgeType, Error, EscrowInfo, GasMetrics, GasTracker,
    GlobalAnalytics, PortfolioDetails, PortfolioProperty, PortfolioSummary, VerificationRequest,
    VerificationStatus,
};
