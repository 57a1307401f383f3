//! The data types and interfaces shared by the contracts.

use vstd::prelude::*;
use crate::escrow::types::TransferError;
use crate::primitives::AccountId;

pub use crate::escrow::types::ApprovalType;

verus! {

/// The kind of a property.
#[derive(Clone, Copy, Debug, PartialEq, Eq, Structural)]
pub enum PropertyType {
    Residential,
    Commercial,
    Industrial,
    Land,
    MultiFamily,
    Retail,
    Office,
}

/// How a valuation was arrived at.
#[derive(Clone, Copy, Debug, PartialEq, Eq, Structural)]
pub enum ValuationMethod {
    /// By an automated valuation model.
    Automated,
    /// By a manual appraisal.
    Manual,
    /// From comparable sales.
    MarketData,
    /// By a combination of methods.
    Hybrid,
}

/// The kind of a price source.
#[derive(Clone, Copy, Debug, PartialEq, Eq, Structural)]
pub enum OracleSourceType {
    Chainlink,
    Pyth,
    Custom,
    Manual,
}

/// What is recorded about a property.
#[derive(Clone, Debug, PartialEq, Eq)]
pub struct PropertyMetadata {
    pub location: String,
    pub size: u64,
    pub legal_description: String,
    pub valuation: u128,
    pub documents_url: String,
}

pub struct PropertyMetadataView {
    pub location: Seq<char>,
    pub size: u64,
    pub legal_description: Seq<char>,
    pub valuation: u128,
    pub documents_url: Seq<char>,
}

impl View for PropertyMetadata {
    type V = PropertyMetadataView;

    open spec fn view(&self) -> PropertyMetadataView {
        PropertyMetadataView {
            location: self.location@,
            size: self.size,
            legal_description: self.legal_description@,
            valuation: self.valuation,
            documents_url: self.documents_url@,
        }
    }
}

/// A registered property.
#[derive(Clone, Debug, PartialEq, Eq)]
pub struct PropertyInfo {
    pub id: u64,
    pub owner: AccountId,
    pub metadata: PropertyMetadata,
    pub registered_at: u64,
}

pub struct PropertyInfoView {
    pub id: u64,
    pub owner: AccountId,
    pub metadata: PropertyMetadataView,
    pub registered_at: u64,
}

impl View for PropertyInfo {
    type V = PropertyInfoView;

    open spec fn view(&self) -> PropertyInfoView {
        PropertyInfoView {
            id: self.id,
            owner: self.owner,
            metadata: self.metadata@,
            registered_at: self.registered_at,
        }
    }
}

/// A price from an external feed.
#[derive(Clone, Debug, PartialEq, Eq)]
pub struct PriceData {
    /// In USD with 8 decimals.
    pub price: u128,
    pub timestamp: u64,
    pub source: String,
}

pub struct PriceDataView {
    pub price: u128,
    pub timestamp: u64,
    pub source: Seq<char>,
}

impl View for PriceData {
    type V = PriceDataView;

    open spec fn view(&self) -> PriceDataView {
        PriceDataView {
            price: self.price,
            timestamp: self.timestamp,
            source: self.source@,
        }
    }
}

/// The current valuation of a property.
#[derive(Clone, Copy, Debug, PartialEq, Eq)]
pub struct PropertyValuation {
    pub property_id: u64,
    /// In USD with 8 decimals.
    pub valuation: u128,
    /// From 0 to 100.
    pub confidence_score: u32,
    pub sources_used: u32,
    pub last_updated: u64,
    pub valuation_method: ValuationMethod,
}

/// A valuation with its confidence metrics.
#[derive(Clone, Copy, Debug, PartialEq, Eq)]
pub struct ValuationWithConfidence {
    pub valuation: PropertyValuation,
    /// From 0 to 100.
    pub volatility_index: u32,
    /// The least and the greatest plausible valuation.
    pub confidence_interval: (u128, u128),
    pub outlier_sources: u32,
}

/// How volatile a market is.
#[derive(Clone, Debug, PartialEq, Eq)]
pub struct VolatilityMetrics {
    pub property_type: PropertyType,
    pub location: String,
    /// From 0 to 100.
    pub volatility_index: u32,
    /// In percent over the period; may be negative.
    pub average_price_change: i32,
    pub period_days: u32,
    pub last_updated: u64,
}

pub struct VolatilityMetricsView {
    pub property_type: PropertyType,
    pub location: Seq<char>,
    pub volatility_index: u32,
    pub average_price_change: i32,
    pub period_days: u32,
    pub last_updated: u64,
}

impl View for VolatilityMetrics {
    type V = VolatilityMetricsView;

    open spec fn view(&self) -> VolatilityMetricsView {
        VolatilityMetricsView {
            property_type: self.property_type,
            location: self.location@,
            volatility_index: self.volatility_index,
            average_price_change: self.average_price_change,
            period_days: self.period_days,
            last_updated: self.last_updated,
        }
    }
}

/// A property to compare a valuation with.
#[derive(Clone, Copy, Debug, PartialEq, Eq)]
pub struct ComparableProperty {
    pub property_id: u64,
    pub distance_km: u32,
    pub price_per_sqm: u128,
    pub size_sqm: u64,
    pub sale_date: u64,
    /// In percent, up or down.
    pub adjustment_factor: i32,
}

/// When to alert about a price change.
#[derive(Clone, Copy, Debug, PartialEq, Eq)]
pub struct PriceAlert {
    pub property_id: u64,
    pub threshold_percentage: u32,
    pub alert_address: AccountId,
    pub last_triggered: u64,
    pub is_active: bool,
}

/// A configured price source.
#[derive(Clone, Debug, PartialEq, Eq)]
pub struct OracleSource {
    pub id: String,
    pub source_type: OracleSourceType,
    pub address: AccountId,
    pub is_active: bool,
    /// Its weight in the aggregate, from 0 to 100.
    pub weight: u32,
    pub last_updated: u64,
}

pub struct OracleSourceView {
    pub id: Seq<char>,
    pub source_type: OracleSourceType,
    pub address: AccountId,
    pub is_active: bool,
    pub weight: u32,
    pub last_updated: u64,
}

impl View for OracleSource {
    type V = OracleSourceView;

    open spec fn view(&self) -> OracleSourceView {
        OracleSourceView {
            id: self.id@,
            source_type: self.source_type,
            address: self.address,
            is_active: self.is_active,
            weight: self.weight,
            last_updated: self.last_updated,
        }
    }
}

/// How a location adjusts a valuation.
#[derive(Clone, Debug, PartialEq, Eq)]
pub struct LocationAdjustment {
    pub location_code: String,
    pub adjustment_percentage: i32,
    pub last_updated: u64,
    pub confidence_score: u32,
}

pub struct LocationAdjustmentView {
    pub location_code: Seq<char>,
    pub adjustment_percentage: i32,
    pub last_updated: u64,
    pub confidence_score: u32,
}

impl View for LocationAdjustment {
    type V = LocationAdjustmentView;

    open spec fn view(&self) -> LocationAdjustmentView {
        LocationAdjustmentView {
            location_code: self.location_code@,
            adjustment_percentage: self.adjustment_percentage,
            last_updated: self.last_updated,
            confidence_score: self.confidence_score,
        }
    }
}

/// Where a market is heading.
#[derive(Clone, Debug, PartialEq, Eq)]
pub struct MarketTrend {
    pub property_type: PropertyType,
    pub location: String,
    pub trend_percentage: i32,
    pub period_months: u32,
    pub last_updated: u64,
}

pub struct MarketTrendView {
    pub property_type: PropertyType,
    pub location: Seq<char>,
    pub trend_percentage: i32,
    pub period_months: u32,
    pub last_updated: u64,
}

impl View for MarketTrend {
    type V = MarketTrendView;

    open spec fn view(&self) -> MarketTrendView {
        MarketTrendView {
            property_type: self.property_type,
            location: self.location@,
            trend_percentage: self.trend_percentage,
            period_months: self.period_months,
            last_updated: self.last_updated,
        }
    }
}

/// What a property registry offers.
pub trait PropertyRegistry {
    /// Why an operation of the registry is refused.
    type Error;

    /// The invariant of the registry.
    spec fn wf(&self) -> bool;

    /// Whether the counters of the registry have room for one more
    /// operation.
    spec fn has_room(&self) -> bool;

    /// Registers a property for `caller` and returns its identifier.
    fn register_property(
        &mut self,
        caller: AccountId,
        now: u64,
        block_number: u32,
        metadata: PropertyMetadata,
    ) -> (r: Result<u64, Self::Error>)
        requires
            old(self).wf(),
            old(self).has_room(),
        ensures
            final(self).wf(),
    ;

    /// Transfers a property to `to`.
    fn transfer_property(
        &mut self,
        caller: AccountId,
        now: u64,
        block_number: u32,
        property_id: u64,
        to: AccountId,
    ) -> (r: Result<(), Self::Error>)
        requires
            old(self).wf(),
            old(self).has_room(),
        ensures
            final(self).wf(),
    ;

    /// What is registered about a property.
    fn get_property(&self, property_id: u64) -> (r: Option<PropertyInfo>)
        requires
            self.wf(),
    ;

    /// Replaces what is recorded about a property.
    fn update_metadata(
        &mut self,
        caller: AccountId,
        now: u64,
        block_number: u32,
        property_id: u64,
        metadata: PropertyMetadata,
    ) -> (r: Result<(), Self::Error>)
        requires
            old(self).wf(),
        ensures
            final(self).wf(),
    ;

    /// Approves an account to transfer a property, or clears the approval.
    fn approve(
        &mut self,
        caller: AccountId,
        now: u64,
        block_number: u32,
        property_id: u64,
        to: Option<AccountId>,
    ) -> (r: Result<(), Self::Error>)
        requires
            old(self).wf(),
        ensures
            final(self).wf(),
    ;

    /// The account approved to transfer a property.
    fn get_approved(&self, property_id: u64) -> (r: Option<AccountId>)
        requires
            self.wf(),
    ;
}

/// What a simple escrow offers.
pub trait Escrow {
    /// Why an operation of the escrow is refused.
    type Error;

    /// The invariant of the escrow.
    spec fn wf(&self) -> bool;

    /// Whether the counters of the escrow have room for one more operation.
    spec fn has_room(&self) -> bool;

    /// Whether `create_escrow`, called on `self` with these arguments, may
    /// answer `r` and leave `after` behind.
    spec fn opened(
        &self,
        caller: AccountId,
        now: u64,
        block_number: u32,
        property_id: u64,
        amount: u128,
        r: Result<u64, Self::Error>,
        after: &Self,
    ) -> bool;

    /// Opens an escrow on a property, with `caller` as the buyer.
    fn create_escrow(
        &mut self,
        caller: AccountId,
        now: u64,
        block_number: u32,
        property_id: u64,
        amount: u128,
    ) -> (r: Result<u64, Self::Error>)
        requires
            old(self).wf(),
            old(self).has_room(),
        ensures
            final(self).wf(),
            old(self).opened(caller, now, block_number, property_id, amount, r, final(self)),
    ;

    /// Releases an escrow.
    fn release_escrow(
        &mut self,
        caller: AccountId,
        now: u64,
        block_number: u32,
        escrow_id: u64,
    ) -> (r: Result<(), Self::Error>)
        requires
            old(self).wf(),
            old(self).has_room(),
        ensures
            final(self).wf(),
    ;

    /// Refunds an escrow.
    fn refund_escrow(
        &mut self,
        caller: AccountId,
        now: u64,
        block_number: u32,
        escrow_id: u64,
    ) -> (r: Result<(), Self::Error>)
        requires
            old(self).wf(),
        ensures
            final(self).wf(),
    ;
}

/// What an escrow with multi-party approval and document custody offers.
pub trait AdvancedEscrow {
    /// Why an operation of the escrow is refused.
    type Error;

    /// The invariant of the escrow.
    spec fn wf(&self) -> bool;

    /// Whether there is room for the escrow that a creation with these
    /// participants and this quorum would add.
    spec fn room_to_create(&self, participants: Seq<AccountId>, required_signatures: u8) -> bool;

    /// Whether the custody of the escrow can take `amount` more.
    spec fn room_to_deposit(&self, escrow_id: u64, amount: u128) -> bool;

    /// Whether the escrow can take one more condition from `caller`.
    spec fn room_for_condition(&self, caller: AccountId, escrow_id: u64) -> bool;

    /// Whether the escrow can take one more signature from `caller`.
    spec fn room_to_sign(&self, caller: AccountId, escrow_id: u64, approval_type: ApprovalType) -> bool;

    /// Opens an escrow and returns its identifier.
    fn create_escrow_advanced(
        &mut self,
        caller: AccountId,
        now: u64,
        property_id: u64,
        amount: u128,
        buyer: AccountId,
        seller: AccountId,
        participants: Vec<AccountId>,
        required_signatures: u8,
        release_time_lock: Option<u64>,
    ) -> (r: Result<u64, Self::Error>)
        requires
            old(self).wf(),
            old(self).room_to_create(participants@, required_signatures),
        ensures
            final(self).wf(),
    ;

    /// Adds `amount` to the custody of an escrow.
    fn deposit_funds(
        &mut self,
        caller: AccountId,
        now: u64,
        escrow_id: u64,
        amount: u128,
    ) -> (r: Result<(), Self::Error>)
        requires
            old(self).wf(),
            old(self).room_to_deposit(escrow_id, amount),
        ensures
            final(self).wf(),
    ;

    /// Releases the custody to the seller through `credit`.
    fn release_funds<F: FnOnce(AccountId, u128) -> Result<(), TransferError>>(
        &mut self,
        caller: AccountId,
        now: u64,
        escrow_id: u64,
        credit: F,
    ) -> (r: Result<(), Self::Error>)
        requires
            old(self).wf(),
            forall|to: AccountId, amount: u128| call_requires(credit, (to, amount)),
        ensures
            final(self).wf(),
    ;

    /// Returns the custody to the buyer through `credit`.
    fn refund_funds<F: FnOnce(AccountId, u128) -> Result<(), TransferError>>(
        &mut self,
        caller: AccountId,
        now: u64,
        escrow_id: u64,
        credit: F,
    ) -> (r: Result<(), Self::Error>)
        requires
            old(self).wf(),
            forall|to: AccountId, amount: u128| call_requires(credit, (to, amount)),
        ensures
            final(self).wf(),
    ;

    /// Files a document fingerprint with an escrow.
    fn upload_document(
        &mut self,
        caller: AccountId,
        now: u64,
        escrow_id: u64,
        document_hash: crate::primitives::Hash,
        document_type: String,
    ) -> (r: Result<(), Self::Error>)
        requires
            old(self).wf(),
        ensures
            final(self).wf(),
    ;

    /// Marks a document as verified.
    fn verify_document(
        &mut self,
        caller: AccountId,
        now: u64,
        escrow_id: u64,
        document_hash: crate::primitives::Hash,
    ) -> (r: Result<(), Self::Error>)
        requires
            old(self).wf(),
        ensures
            final(self).wf(),
    ;

    /// Adds a release condition and returns its identifier.
    fn add_condition(
        &mut self,
        caller: AccountId,
        now: u64,
        escrow_id: u64,
        description: String,
    ) -> (r: Result<u64, Self::Error>)
        requires
            old(self).wf(),
            old(self).room_for_condition(caller, escrow_id),
        ensures
            final(self).wf(),
    ;

    /// Attests that a condition is met.
    fn mark_condition_met(
        &mut self,
        caller: AccountId,
        now: u64,
        escrow_id: u64,
        condition_id: u64,
    ) -> (r: Result<(), Self::Error>)
        requires
            old(self).wf(),
        ensures
            final(self).wf(),
    ;

    /// Records the caller's approval of `approval_type`.
    fn sign_approval(
        &mut self,
        caller: AccountId,
        now: u64,
        escrow_id: u64,
        approval_type: ApprovalType,
    ) -> (r: Result<(), Self::Error>)
        requires
            old(self).wf(),
            old(self).room_to_sign(caller, escrow_id, approval_type),
        ensures
            final(self).wf(),
    ;

    /// Raises a dispute.
    fn raise_dispute(
        &mut self,
        caller: AccountId,
        now: u64,
        escrow_id: u64,
        reason: String,
    ) -> (r: Result<(), Self::Error>)
        requires
            old(self).wf(),
        ensures
            final(self).wf(),
    ;

    /// Resolves a dispute.
    fn resolve_dispute(
        &mut self,
        caller: AccountId,
        now: u64,
        escrow_id: u64,
        resolution: String,
    ) -> (r: Result<(), Self::Error>)
        requires
            old(self).wf(),
        ensures
            final(self).wf(),
    ;

    /// Moves the custody to the seller or the buyer on the administrator's
    /// word alone, through `credit`.
    fn emergency_override<F: FnOnce(AccountId, u128) -> Result<(), TransferError>>(
        &mut self,
        caller: AccountId,
        now: u64,
        escrow_id: u64,
        release_to_seller: bool,
        credit: F,
    ) -> (r: Result<(), Self::Error>)
        requires
            old(self).wf(),
            forall|to: AccountId, amount: u128| call_requires(credit, (to, amount)),
        ensures
            final(self).wf(),
    ;
}

} // verus!
