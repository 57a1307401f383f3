//! Verified contract logic for tokenised real-estate settlement.
//!
//! The heart of the crate is [`escrow`], a multi-party conditional escrow
//! engine: it keeps a balance in custody between a payer and a payee and
//! lets it go only when conditions, signatures, time-lock and disputes
//! allow. Around it stand the property [`registry`], the property
//! [`token`], the [`compliance`] registry and the upgrade [`proxy`], and
//! the rules of the security [`audit`].
//!
//! Every contract is a plain value. Its operations take the calling
//! principal, the time and whatever else a host would supply as arguments,
//! and queue their notifications for the host to publish, so the crate is
//! independent of any hosting environment. Each operation is specified
//! against a mathematical model of the contract: when it is refused, with
//! which error, and which state it leaves.

pub mod audit;
pub mod compliance;
pub mod escrow;
pub mod primitives;
pub mod proxy;
pub mod registry;
pub mod table;
pub mod text;
pub mod token;
pub mod traits;
