//! The mathematical model of the property registry.

use vstd::prelude::*;
use crate::primitives::AccountId;
use crate::traits::{PropertyInfoView, PropertyMetadataView};
use crate::registry::events::{
    AdminChanged, AppealResolvedView, AppealSubmittedView, ApprovalCleared, ApprovalGranted,
    BadgeIssuedView, BadgeRevokedView, BatchMetadataUpdatedView, BatchPropertyRegisteredView,
    BatchPropertyTransferredToMultipleView, BatchPropertyTransferredView, ContractInitialized,
    EscrowCreated, EscrowRefunded, EscrowReleased, EventView, PropertyMetadataUpdatedView,
    PropertyRegisteredView, PropertyTransferred, VerificationRequestedView, VerificationReviewed,
    VerifierUpdated, EVENT_VERSION,
};
use crate::registry::types::{
    AppealStatus, AppealView, BadgeType, BadgeView, Error, EscrowInfo, GasMetrics, GasTracker,
    GlobalAnalytics, PortfolioPropertyView, PortfolioSummary, VerificationRequestView,
    VerificationStatus,
};

verus! {

/// The gas accounted for each metered operation.
pub const GAS_PER_OPERATION: u64 = 10000;

/// The version of a freshly created registry.
pub const CONTRACT_VERSION: u32 = 1;

/// Everything the registry keeps for one property.
pub struct PropertyState {
    pub info: PropertyInfoView,
    /// The account approved to transfer the property, if any.
    pub approved: Option<AccountId>,
    pub owner_verification: Option<BadgeView>,
    pub document_verification: Option<BadgeView>,
    pub legal_compliance: Option<BadgeView>,
    pub premium_listing: Option<BadgeView>,
}

impl PropertyState {
    /// The badge of the given type, revoked or not, if one was ever issued.
    pub open spec fn badge(self, badge_type: BadgeType) -> Option<BadgeView> {
        match badge_type {
            BadgeType::OwnerVerification => self.owner_verification,
            BadgeType::DocumentVerification => self.document_verification,
            BadgeType::LegalCompliance => self.legal_compliance,
            BadgeType::PremiumListing => self.premium_listing,
        }
    }

    /// This property with the badge of the given type replaced.
    pub open spec fn with_badge(
        self,
        badge_type: BadgeType,
        badge: Option<BadgeView>,
    ) -> PropertyState {
        match badge_type {
            BadgeType::OwnerVerification => PropertyState { owner_verification: badge, ..self },
            BadgeType::DocumentVerification => PropertyState {
                document_verification: badge,
                ..self
            },
            BadgeType::LegalCompliance => PropertyState { legal_compliance: badge, ..self },
            BadgeType::PremiumListing => PropertyState { premium_listing: badge, ..self },
        }
    }

    /// Whether the property carries a badge of the given type that is not
    /// revoked.
    pub open spec fn has_badge(self, badge_type: BadgeType) -> bool {
        match self.badge(badge_type) {
            Some(badge) => !badge.revoked,
            None => false,
        }
    }

    /// A freshly registered property.
    pub open spec fn fresh(
        id: u64,
        owner: AccountId,
        metadata: PropertyMetadataView,
        now: u64,
    ) -> PropertyState {
        PropertyState {
            info: PropertyInfoView { id, owner, metadata, registered_at: now },
            approved: None,
            owner_verification: None,
            document_verification: None,
            legal_compliance: None,
            premium_listing: None,
        }
    }

    /// The property as it appears in a portfolio.
    pub open spec fn in_portfolio(self) -> PortfolioPropertyView {
        PortfolioPropertyView {
            id: self.info.id,
            location: self.info.metadata.location,
            size: self.info.metadata.size,
            valuation: self.info.metadata.valuation,
            registered_at: self.info.registered_at,
        }
    }
}

/// The test that an identifier is another one than `id`.
pub open spec fn other_than(id: u64) -> spec_fn(u64) -> bool {
    |x: u64| x != id
}

/// The quotient, or zero where there is nothing to divide by.
pub open spec fn average(total: int, count: int) -> int {
    if count > 0 {
        total / count
    } else {
        0
    }
}

/// The whole registry.
pub struct RegistryState {
    pub admin: AccountId,
    pub version: u32,
    /// The property with identifier `id` is at index `id - 1`.
    pub properties: Seq<PropertyState>,
    /// For each owner, the properties it holds, in the order it came by them.
    pub owner_properties: Map<AccountId, Seq<u64>>,
    /// The escrow with identifier `id` is at index `id - 1`.
    pub escrows: Seq<EscrowInfo>,
    pub gas_tracker: GasTracker,
    pub compliance_registry: Option<AccountId>,
    pub badge_verifiers: Map<AccountId, bool>,
    /// The request with identifier `id` is at index `id - 1`.
    pub verification_requests: Seq<VerificationRequestView>,
    /// The appeal with identifier `id` is at index `id - 1`.
    pub appeals: Seq<AppealView>,
    /// Notifications queued and not yet taken by the host, oldest first.
    pub events: Seq<EventView>,
}

impl RegistryState {
    // ---- reading -----------------------------------------------------------

    /// Whether a property with this identifier exists.
    pub open spec fn has_property(self, property_id: u64) -> bool {
        1 <= property_id <= self.properties.len()
    }

    /// The property with this identifier.
    pub open spec fn property(self, property_id: u64) -> PropertyState
        recommends
            self.has_property(property_id),
    {
        self.properties[property_id - 1]
    }

    /// Whether an escrow with this identifier exists.
    pub open spec fn has_escrow(self, escrow_id: u64) -> bool {
        1 <= escrow_id <= self.escrows.len()
    }

    /// The escrow with this identifier.
    pub open spec fn escrow(self, escrow_id: u64) -> EscrowInfo
        recommends
            self.has_escrow(escrow_id),
    {
        self.escrows[escrow_id - 1]
    }

    /// Whether a request for a badge with this identifier exists.
    pub open spec fn has_request(self, request_id: u64) -> bool {
        1 <= request_id <= self.verification_requests.len()
    }

    /// The request for a badge with this identifier.
    pub open spec fn request(self, request_id: u64) -> VerificationRequestView
        recommends
            self.has_request(request_id),
    {
        self.verification_requests[request_id - 1]
    }

    /// Whether an appeal with this identifier exists.
    pub open spec fn has_appeal(self, appeal_id: u64) -> bool {
        1 <= appeal_id <= self.appeals.len()
    }

    /// The appeal with this identifier.
    pub open spec fn appeal(self, appeal_id: u64) -> AppealView
        recommends
            self.has_appeal(appeal_id),
    {
        self.appeals[appeal_id - 1]
    }

    /// The properties `owner` holds; none if it never held any.
    pub open spec fn owned_by(self, owner: AccountId) -> Seq<u64> {
        if self.owner_properties.contains_key(owner) {
            self.owner_properties[owner]
        } else {
            Seq::empty()
        }
    }

    /// Whether `who` is an authorised badge verifier.
    pub open spec fn is_verifier(self, who: AccountId) -> bool {
        self.badge_verifiers.contains_key(who) && self.badge_verifiers[who]
    }

    /// Whether `who` may issue, revoke and review: verifiers and the
    /// administrator may.
    pub open spec fn may_verify(self, who: AccountId) -> bool {
        self.is_verifier(who) || who == self.admin
    }

    /// Whether `who` may transfer the property: its owner and the account
    /// approved for it may.
    pub open spec fn may_transfer(self, who: AccountId, property_id: u64) -> bool {
        self.property(property_id).info.owner == who || self.property(property_id).approved
            == Some(who)
    }

    /// The invariant of the registry.
    pub open spec fn wf(self) -> bool {
        &&& self.properties.len() <= u64::MAX
        &&& self.escrows.len() <= u64::MAX
        &&& self.verification_requests.len() <= u64::MAX
        &&& self.appeals.len() <= u64::MAX
        &&& forall|i: int|
            0 <= i < self.properties.len() ==> (#[trigger] self.properties[i]).info.id == i + 1
        &&& forall|i: int| 0 <= i < self.escrows.len() ==> (#[trigger] self.escrows[i]).id == i + 1
        &&& forall|i: int|
            0 <= i < self.verification_requests.len() ==> (
            #[trigger] self.verification_requests[i]).id == i + 1
        &&& forall|i: int| 0 <= i < self.appeals.len() ==> (#[trigger] self.appeals[i]).id == i + 1
    }

    // ---- building blocks ---------------------------------------------------

    /// The registry with one more notification.
    pub open spec fn notified(self, event: EventView) -> RegistryState {
        RegistryState { events: self.events.push(event), ..self }
    }

    /// The registry with property `property_id` replaced.
    pub open spec fn with_property(
        self,
        property_id: u64,
        property: PropertyState,
    ) -> RegistryState {
        RegistryState { properties: self.properties.update(property_id - 1, property), ..self }
    }

    /// Whether the gas counters can take one more operation.
    pub open spec fn gas_fits(self) -> bool {
        self.gas_tracker.operation_count < u64::MAX && self.gas_tracker.total_gas_used
            + GAS_PER_OPERATION <= u64::MAX
    }

    /// The registry with one more operation metered.
    pub open spec fn metered(self) -> RegistryState {
        let g = self.gas_tracker;
        RegistryState {
            gas_tracker: GasTracker {
                total_gas_used: (g.total_gas_used + GAS_PER_OPERATION) as u64,
                operation_count: (g.operation_count + 1) as u64,
                last_operation_gas: GAS_PER_OPERATION,
                min_gas_used: if GAS_PER_OPERATION < g.min_gas_used {
                    GAS_PER_OPERATION
                } else {
                    g.min_gas_used
                },
                max_gas_used: if GAS_PER_OPERATION > g.max_gas_used {
                    GAS_PER_OPERATION
                } else {
                    g.max_gas_used
                },
            },
            ..self
        }
    }

    /// The registry with property `property_id` handed to `to`: it leaves
    /// the list of its owner, joins the end of the list of `to`, and loses
    /// its approval.
    pub open spec fn moved(self, property_id: u64, to: AccountId) -> RegistryState {
        let p = self.property(property_id);
        let from = p.info.owner;
        let left = self.owner_properties.insert(
            from,
            self.owned_by(from).filter(other_than(property_id)),
        );
        let held = if left.contains_key(to) {
            left[to]
        } else {
            Seq::empty()
        };
        RegistryState {
            owner_properties: left.insert(to, held.push(property_id)),
            ..self.with_property(
                property_id,
                PropertyState {
                    info: PropertyInfoView { owner: to, ..p.info },
                    approved: None,
                    ..p
                },
            )
        }
    }

    // ---- administration ----------------------------------------------------

    /// The registry as created by `admin`.
    pub open spec fn initial(admin: AccountId, now: u64, block_number: u32) -> RegistryState {
        RegistryState {
            admin,
            version: CONTRACT_VERSION,
            properties: Seq::empty(),
            owner_properties: Map::empty(),
            escrows: Seq::empty(),
            gas_tracker: GasTracker {
                total_gas_used: 0,
                operation_count: 0,
                last_operation_gas: 0,
                min_gas_used: u64::MAX,
                max_gas_used: 0,
            },
            compliance_registry: None,
            badge_verifiers: Map::empty(),
            verification_requests: Seq::empty(),
            appeals: Seq::empty(),
            events: seq![
                EventView::ContractInitialized(
                    ContractInitialized {
                        admin,
                        contract_version: CONTRACT_VERSION,
                        timestamp: now,
                        block_number,
                    },
                ),
            ],
        }
    }

    /// Refuses whoever is not the administrator.
    pub open spec fn admin_refusal(self, caller: AccountId) -> Option<Error> {
        if caller != self.admin {
            Some(Error::Unauthorized)
        } else {
            None
        }
    }

    /// The registry after the role was handed over, which is notified.
    pub open spec fn after_change_admin(
        self,
        caller: AccountId,
        now: u64,
        block_number: u32,
        new_admin: AccountId,
    ) -> RegistryState {
        RegistryState { admin: new_admin, ..self }.notified(
            EventView::AdminChanged(
                AdminChanged {
                    old_admin: self.admin,
                    new_admin,
                    event_version: EVENT_VERSION,
                    timestamp: now,
                    block_number,
                    transaction_hash: crate::primitives::Hash::zero(),
                    changed_by: caller,
                },
            ),
        )
    }

    /// The registry with another compliance registry named, or none.
    pub open spec fn after_set_compliance_registry(
        self,
        registry: Option<AccountId>,
    ) -> RegistryState {
        RegistryState { compliance_registry: registry, ..self }
    }

    // ---- registering -------------------------------------------------------

    /// The identifier the next property gets.
    pub open spec fn next_property_id(self) -> u64 {
        (self.properties.len() + 1) as u64
    }

    /// Whether the registry can take `more` properties and meter one more
    /// operation.
    pub open spec fn register_fits(self, more: int) -> bool {
        self.properties.len() + more <= u64::MAX && self.gas_fits()
    }

    /// The registry after a registration: one more property, owned by the
    /// caller and last in its list; the operation is metered and notified.
    pub open spec fn after_register(
        self,
        caller: AccountId,
        now: u64,
        block_number: u32,
        metadata: PropertyMetadataView,
    ) -> RegistryState {
        let id = self.next_property_id();
        RegistryState {
            properties: self.properties.push(PropertyState::fresh(id, caller, metadata, now)),
            owner_properties: self.owner_properties.insert(caller, self.owned_by(caller).push(id)),
            ..self
        }.metered().notified(
            EventView::PropertyRegistered(
                PropertyRegisteredView {
                    property_id: id,
                    owner: caller,
                    event_version: EVENT_VERSION,
                    location: metadata.location,
                    size: metadata.size,
                    valuation: metadata.valuation,
                    timestamp: now,
                    block_number,
                    transaction_hash: crate::primitives::Hash::zero(),
                },
            ),
        )
    }

    /// The identifiers a batch of `count` registrations gets.
    pub open spec fn batch_ids(self, count: nat) -> Seq<u64> {
        Seq::new(count, |i: int| (self.properties.len() + 1 + i) as u64)
    }

    /// The registry after a batch of registrations: the properties are added
    /// in order, all owned by the caller; one notification names them all.
    pub open spec fn after_batch_register(
        self,
        caller: AccountId,
        now: u64,
        block_number: u32,
        batch: Seq<PropertyMetadataView>,
    ) -> RegistryState {
        let ids = self.batch_ids(batch.len());
        RegistryState {
            properties: self.properties + Seq::new(
                batch.len(),
                |i: int| PropertyState::fresh(ids[i], caller, batch[i], now),
            ),
            owner_properties: self.owner_properties.insert(caller, self.owned_by(caller) + ids),
            ..self
        }.notified(
            EventView::BatchPropertyRegistered(
                BatchPropertyRegisteredView {
                    owner: caller,
                    event_version: EVENT_VERSION,
                    property_ids: ids,
                    count: batch.len() as u64,
                    timestamp: now,
                    block_number,
                    transaction_hash: crate::primitives::Hash::zero(),
                },
            ),
        ).metered()
    }

    // ---- transferring ------------------------------------------------------

    /// A transfer is refused for an unknown property, and to a caller who
    /// is neither its owner nor approved for it.
    pub open spec fn transfer_refusal(self, caller: AccountId, property_id: u64) -> Option<Error> {
        if !self.has_property(property_id) {
            Some(Error::PropertyNotFound)
        } else if !self.may_transfer(caller, property_id) {
            Some(Error::Unauthorized)
        } else {
            None
        }
    }

    /// The registry after a transfer: the property is handed over, and the
    /// operation is metered and notified.
    pub open spec fn after_transfer(
        self,
        caller: AccountId,
        now: u64,
        block_number: u32,
        property_id: u64,
        to: AccountId,
    ) -> RegistryState {
        self.moved(property_id, to).metered().notified(
            EventView::PropertyTransferred(
                PropertyTransferred {
                    property_id,
                    from: self.property(property_id).info.owner,
                    to,
                    event_version: EVENT_VERSION,
                    timestamp: now,
                    block_number,
                    transaction_hash: crate::primitives::Hash::zero(),
                    transferred_by: caller,
                },
            ),
        )
    }

    /// The first refusal among the transfers of `ids` from position `from`
    /// on, each judged on the registry as it stands.
    pub open spec fn transfers_refusal(self, caller: AccountId, ids: Seq<u64>, from: int) -> Option<
        Error,
    >
        decreases ids.len() - from,
    {
        if from < 0 || from >= ids.len() {
            None
        } else {
            match self.transfer_refusal(caller, ids[from]) {
                Some(e) => Some(e),
                None => self.transfers_refusal(caller, ids, from + 1),
            }
        }
    }

    /// The registry after the first `n` of the properties `ids` have been
    /// handed to `to`, one after the other.
    pub open spec fn moved_all(self, ids: Seq<u64>, to: AccountId, n: nat) -> RegistryState
        decreases n,
    {
        if n == 0 {
            self
        } else {
            self.moved_all(ids, to, (n - 1) as nat).moved(ids[n - 1], to)
        }
    }

    /// Whether the gas counters have room for what a batch transfer of
    /// `ids` by `caller` meters.
    pub open spec fn batch_transfer_fits(self, caller: AccountId, ids: Seq<u64>) -> bool {
        ids.len() > 0 && self.transfers_refusal(caller, ids, 0).is_none() ==> self.gas_fits()
    }

    /// An empty batch changes nothing; otherwise every property goes to
    /// `to`, in order, and one notification names them all and the owner
    /// the first of them had.
    pub open spec fn after_batch_transfer(
        self,
        caller: AccountId,
        now: u64,
        block_number: u32,
        ids: Seq<u64>,
        to: AccountId,
    ) -> RegistryState {
        if ids.len() == 0 {
            self
        } else {
            self.moved_all(ids, to, ids.len()).notified(
                EventView::BatchPropertyTransferred(
                    BatchPropertyTransferredView {
                        from: self.property(ids[0]).info.owner,
                        to,
                        event_version: EVENT_VERSION,
                        property_ids: ids,
                        count: ids.len() as u64,
                        timestamp: now,
                        block_number,
                        transaction_hash: crate::primitives::Hash::zero(),
                        transferred_by: caller,
                    },
                ),
            ).metered()
        }
    }

    /// The property identifiers of a list of transfers.
    pub open spec fn transfer_ids(transfers: Seq<(u64, AccountId)>) -> Seq<u64> {
        transfers.map_values(|t: (u64, AccountId)| t.0)
    }

    /// The registry after the first `n` of `transfers` have been carried
    /// out, one after the other.
    pub open spec fn moved_each(self, transfers: Seq<(u64, AccountId)>, n: nat) -> RegistryState
        decreases n,
    {
        if n == 0 {
            self
        } else {
            self.moved_each(transfers, (n - 1) as nat).moved(transfers[n - 1].0, transfers[n - 1].1)
        }
    }

    /// Whether the gas counters have room for what a batch of `transfers`
    /// by `caller` meters.
    pub open spec fn batch_transfer_to_multiple_fits(
        self,
        caller: AccountId,
        transfers: Seq<(u64, AccountId)>,
    ) -> bool {
        self.transfers_refusal(caller, Self::transfer_ids(transfers), 0).is_none()
            ==> self.gas_fits()
    }

    /// Every property goes to its recipient, in order. Unless the list is
    /// empty, one notification names them all; the owner it names is the
    /// one the first property has after the transfers.
    pub open spec fn after_batch_transfer_to_multiple(
        self,
        caller: AccountId,
        now: u64,
        block_number: u32,
        transfers: Seq<(u64, AccountId)>,
    ) -> RegistryState {
        let moved = self.moved_each(transfers, transfers.len());
        (if transfers.len() == 0 {
            moved
        } else {
            moved.notified(
                EventView::BatchPropertyTransferredToMultiple(
                    BatchPropertyTransferredToMultipleView {
                        from: moved.property(transfers[0].0).info.owner,
                        event_version: EVENT_VERSION,
                        transfers,
                        count: transfers.len() as u64,
                        timestamp: now,
                        block_number,
                        transaction_hash: crate::primitives::Hash::zero(),
                        transferred_by: caller,
                    },
                ),
            )
        }).metered()
    }

    // ---- metadata ----------------------------------------------------------

    /// An update is refused for an unknown property, to a caller who is not
    /// its owner, and for an empty location.
    pub open spec fn update_refusal(
        self,
        caller: AccountId,
        property_id: u64,
        metadata: PropertyMetadataView,
    ) -> Option<Error> {
        if !self.has_property(property_id) {
            Some(Error::PropertyNotFound)
        } else if self.property(property_id).info.owner != caller {
            Some(Error::Unauthorized)
        } else if metadata.location.len() == 0 {
            Some(Error::InvalidMetadata)
        } else {
            None
        }
    }

    /// The registry with the record of a property replaced.
    pub open spec fn with_metadata(
        self,
        property_id: u64,
        metadata: PropertyMetadataView,
    ) -> RegistryState {
        let p = self.property(property_id);
        self.with_property(
            property_id,
            PropertyState { info: PropertyInfoView { metadata, ..p.info }, ..p },
        )
    }

    /// The registry after an update: the record is replaced, and the
    /// notification tells the old and the new location and valuation.
    pub open spec fn after_update(
        self,
        caller: AccountId,
        now: u64,
        block_number: u32,
        property_id: u64,
        metadata: PropertyMetadataView,
    ) -> RegistryState {
        let old = self.property(property_id).info.metadata;
        self.with_metadata(property_id, metadata).notified(
            EventView::PropertyMetadataUpdated(
                PropertyMetadataUpdatedView {
                    property_id,
                    owner: caller,
                    event_version: EVENT_VERSION,
                    old_location: old.location,
                    new_location: metadata.location,
                    old_valuation: old.valuation,
                    new_valuation: metadata.valuation,
                    timestamp: now,
                    block_number,
                    transaction_hash: crate::primitives::Hash::zero(),
                },
            ),
        )
    }

    /// The first refusal among `updates` from position `from` on, each
    /// judged on the registry as it stands.
    pub open spec fn updates_refusal(
        self,
        caller: AccountId,
        updates: Seq<(u64, PropertyMetadataView)>,
        from: int,
    ) -> Option<Error>
        decreases updates.len() - from,
    {
        if from < 0 || from >= updates.len() {
            None
        } else {
            match self.update_refusal(caller, updates[from].0, updates[from].1) {
                Some(e) => Some(e),
                None => self.updates_refusal(caller, updates, from + 1),
            }
        }
    }

    /// The registry after the first `n` of `updates` have been applied.
    pub open spec fn updated_all(
        self,
        updates: Seq<(u64, PropertyMetadataView)>,
        n: nat,
    ) -> RegistryState
        decreases n,
    {
        if n == 0 {
            self
        } else {
            self.updated_all(updates, (n - 1) as nat).with_metadata(
                updates[n - 1].0,
                updates[n - 1].1,
            )
        }
    }

    /// Whether the gas counters have room for what a batch of `updates`
    /// by `caller` meters.
    pub open spec fn batch_update_fits(
        self,
        caller: AccountId,
        updates: Seq<(u64, PropertyMetadataView)>,
    ) -> bool {
        self.updates_refusal(caller, updates, 0).is_none() ==> self.gas_fits()
    }

    /// The registry after a batch of updates: they are applied in order; one
    /// notification names the properties, unless there are none; the operation
    /// is metered.
    pub open spec fn after_batch_update(
        self,
        caller: AccountId,
        now: u64,
        block_number: u32,
        updates: Seq<(u64, PropertyMetadataView)>,
    ) -> RegistryState {
        let updated = self.updated_all(updates, updates.len());
        (if updates.len() == 0 {
            updated
        } else {
            updated.notified(
                EventView::BatchMetadataUpdated(
                    BatchMetadataUpdatedView {
                        owner: caller,
                        event_version: EVENT_VERSION,
                        property_ids: updates.map_values(|u: (u64, PropertyMetadataView)| u.0),
                        count: updates.len() as u64,
                        timestamp: now,
                        block_number,
                        transaction_hash: crate::primitives::Hash::zero(),
                    },
                ),
            )
        }).metered()
    }

    // ---- approvals ---------------------------------------------------------

    /// Only the owner of a property approves or clears.
    pub open spec fn owner_refusal(self, caller: AccountId, property_id: u64) -> Option<Error> {
        if !self.has_property(property_id) {
            Some(Error::PropertyNotFound)
        } else if self.property(property_id).info.owner != caller {
            Some(Error::Unauthorized)
        } else {
            None
        }
    }

    /// The registry after an approval was granted or cleared, which is
    /// notified.
    pub open spec fn after_approve(
        self,
        caller: AccountId,
        now: u64,
        block_number: u32,
        property_id: u64,
        to: Option<AccountId>,
    ) -> RegistryState {
        let p = self.property(property_id);
        self.with_property(property_id, PropertyState { approved: to, ..p }).notified(
            match to {
                Some(account) => EventView::ApprovalGranted(
                    ApprovalGranted {
                        property_id,
                        owner: caller,
                        approved: account,
                        event_version: EVENT_VERSION,
                        timestamp: now,
                        block_number,
                        transaction_hash: crate::primitives::Hash::zero(),
                    },
                ),
                None => EventView::ApprovalCleared(
                    ApprovalCleared {
                        property_id,
                        owner: caller,
                        event_version: EVENT_VERSION,
                        timestamp: now,
                        block_number,
                        transaction_hash: crate::primitives::Hash::zero(),
                    },
                ),
            },
        )
    }

    // ---- escrows -----------------------------------------------------------

    /// The identifier the next escrow gets.
    pub open spec fn next_escrow_id(self) -> u64 {
        (self.escrows.len() + 1) as u64
    }

    /// Whether the registry can take one more escrow.
    pub open spec fn escrow_fits(self) -> bool {
        self.escrows.len() < u64::MAX
    }

    /// The registry after an escrow was opened: one more escrow, not
    /// released, with the owner of the property as the seller.
    pub open spec fn after_create_escrow(
        self,
        now: u64,
        block_number: u32,
        property_id: u64,
        buyer: AccountId,
        amount: u128,
    ) -> RegistryState {
        let id = self.next_escrow_id();
        let seller = self.property(property_id).info.owner;
        RegistryState {
            escrows: self.escrows.push(
                EscrowInfo { id, property_id, buyer, seller, amount, released: false },
            ),
            ..self
        }.notified(
            EventView::EscrowCreated(
                EscrowCreated {
                    escrow_id: id,
                    property_id,
                    buyer,
                    seller,
                    event_version: EVENT_VERSION,
                    amount,
                    timestamp: now,
                    block_number,
                    transaction_hash: crate::primitives::Hash::zero(),
                },
            ),
        )
    }

    /// A release is refused for an unknown escrow, for one already
    /// released or refunded, to a caller who is not the buyer, and for
    /// whatever the transfer of the property to the buyer is refused for.
    pub open spec fn release_refusal(self, caller: AccountId, escrow_id: u64) -> Option<Error> {
        if !self.has_escrow(escrow_id) {
            Some(Error::EscrowNotFound)
        } else if self.escrow(escrow_id).released {
            Some(Error::EscrowAlreadyReleased)
        } else if self.escrow(escrow_id).buyer != caller {
            Some(Error::Unauthorized)
        } else {
            self.transfer_refusal(caller, self.escrow(escrow_id).property_id)
        }
    }

    /// The registry with an escrow marked as released.
    pub open spec fn closed_escrow(self, escrow_id: u64) -> RegistryState {
        RegistryState {
            escrows: self.escrows.update(
                escrow_id - 1,
                EscrowInfo { released: true, ..self.escrow(escrow_id) },
            ),
            ..self
        }
    }

    /// The registry after a release: the property is transferred to the
    /// buyer, and the escrow is marked as released.
    pub open spec fn after_release_escrow(
        self,
        caller: AccountId,
        now: u64,
        block_number: u32,
        escrow_id: u64,
    ) -> RegistryState {
        let e = self.escrow(escrow_id);
        self.after_transfer(caller, now, block_number, e.property_id, e.buyer).closed_escrow(
            escrow_id,
        ).notified(
            EventView::EscrowReleased(
                EscrowReleased {
                    escrow_id,
                    property_id: e.property_id,
                    buyer: e.buyer,
                    event_version: EVENT_VERSION,
                    amount: e.amount,
                    timestamp: now,
                    block_number,
                    transaction_hash: crate::primitives::Hash::zero(),
                    released_by: caller,
                },
            ),
        )
    }

    /// A refund is refused for an unknown escrow, for one already released
    /// or refunded, and to a caller who is not the seller.
    pub open spec fn refund_refusal(self, caller: AccountId, escrow_id: u64) -> Option<Error> {
        if !self.has_escrow(escrow_id) {
            Some(Error::EscrowNotFound)
        } else if self.escrow(escrow_id).released {
            Some(Error::EscrowAlreadyReleased)
        } else if self.escrow(escrow_id).seller != caller {
            Some(Error::Unauthorized)
        } else {
            None
        }
    }

    /// The registry after a refund: the escrow is marked as released, and the
    /// property stays where it is.
    pub open spec fn after_refund_escrow(
        self,
        caller: AccountId,
        now: u64,
        block_number: u32,
        escrow_id: u64,
    ) -> RegistryState {
        let e = self.escrow(escrow_id);
        self.closed_escrow(escrow_id).notified(
            EventView::EscrowRefunded(
                EscrowRefunded {
                    escrow_id,
                    property_id: e.property_id,
                    seller: e.seller,
                    event_version: EVENT_VERSION,
                    amount: e.amount,
                    timestamp: now,
                    block_number,
                    transaction_hash: crate::primitives::Hash::zero(),
                    refunded_by: caller,
                },
            ),
        )
    }

    // ---- badges ------------------------------------------------------------

    /// The registry after a verifier was authorised or dismissed, which is
    /// notified.
    pub open spec fn after_set_verifier(
        self,
        caller: AccountId,
        now: u64,
        block_number: u32,
        verifier: AccountId,
        authorized: bool,
    ) -> RegistryState {
        RegistryState {
            badge_verifiers: self.badge_verifiers.insert(verifier, authorized),
            ..self
        }.notified(
            EventView::VerifierUpdated(
                VerifierUpdated {
                    verifier,
                    authorized,
                    updated_by: caller,
                    event_version: EVENT_VERSION,
                    timestamp: now,
                    block_number,
                    transaction_hash: crate::primitives::Hash::zero(),
                },
            ),
        )
    }

    /// A badge is refused to a caller who may not verify, for an unknown
    /// property, and while the property carries that badge unrevoked.
    pub open spec fn issue_refusal(
        self,
        caller: AccountId,
        property_id: u64,
        badge_type: BadgeType,
    ) -> Option<Error> {
        if !self.may_verify(caller) {
            Some(Error::NotVerifier)
        } else if !self.has_property(property_id) {
            Some(Error::PropertyNotFound)
        } else if self.property(property_id).has_badge(badge_type) {
            Some(Error::BadgeAlreadyIssued)
        } else {
            None
        }
    }

    /// The registry after a badge was issued: the property carries it,
    /// unrevoked, in place of any earlier badge of the type.
    pub open spec fn after_issue(
        self,
        caller: AccountId,
        now: u64,
        block_number: u32,
        property_id: u64,
        badge_type: BadgeType,
        expires_at: Option<u64>,
        metadata_url: Seq<char>,
    ) -> RegistryState {
        self.with_property(
            property_id,
            self.property(property_id).with_badge(
                badge_type,
                Some(
                    BadgeView {
                        badge_type,
                        issued_at: now,
                        issued_by: caller,
                        expires_at,
                        metadata_url,
                        revoked: false,
                        revoked_at: None,
                        revocation_reason: Seq::empty(),
                    },
                ),
            ),
        ).notified(
            EventView::BadgeIssued(
                BadgeIssuedView {
                    property_id,
                    badge_type,
                    issued_by: caller,
                    event_version: EVENT_VERSION,
                    expires_at,
                    metadata_url,
                    timestamp: now,
                    block_number,
                    transaction_hash: crate::primitives::Hash::zero(),
                },
            ),
        )
    }

    /// A revocation is refused to a caller who may not verify, and unless
    /// the property carries that badge unrevoked.
    pub open spec fn revoke_refusal(
        self,
        caller: AccountId,
        property_id: u64,
        badge_type: BadgeType,
    ) -> Option<Error> {
        if !self.may_verify(caller) {
            Some(Error::NotVerifier)
        } else if !self.has_property(property_id) || !self.property(property_id).has_badge(
            badge_type,
        ) {
            Some(Error::BadgeNotFound)
        } else {
            None
        }
    }

    /// The registry after a revocation: the badge is revoked, with the time
    /// and the reason.
    pub open spec fn after_revoke(
        self,
        caller: AccountId,
        now: u64,
        block_number: u32,
        property_id: u64,
        badge_type: BadgeType,
        reason: Seq<char>,
    ) -> RegistryState {
        let p = self.property(property_id);
        self.with_property(
            property_id,
            p.with_badge(
                badge_type,
                Some(
                    BadgeView {
                        revoked: true,
                        revoked_at: Some(now),
                        revocation_reason: reason,
                        ..p.badge(badge_type).unwrap()
                    },
                ),
            ),
        ).notified(
            EventView::BadgeRevoked(
                BadgeRevokedView {
                    property_id,
                    badge_type,
                    revoked_by: caller,
                    event_version: EVENT_VERSION,
                    reason,
                    timestamp: now,
                    block_number,
                    transaction_hash: crate::primitives::Hash::zero(),
                },
            ),
        )
    }

    // ---- requests for badges -----------------------------------------------

    /// The identifier the next request gets.
    pub open spec fn next_request_id(self) -> u64 {
        (self.verification_requests.len() + 1) as u64
    }

    /// Whether the registry can take one more request.
    pub open spec fn request_fits(self) -> bool {
        self.verification_requests.len() < u64::MAX
    }

    /// The registry after a request for a badge was filed: one more request,
    /// pending.
    pub open spec fn after_request(
        self,
        caller: AccountId,
        now: u64,
        block_number: u32,
        property_id: u64,
        badge_type: BadgeType,
        evidence_url: Seq<char>,
    ) -> RegistryState {
        let id = self.next_request_id();
        RegistryState {
            verification_requests: self.verification_requests.push(
                VerificationRequestView {
                    id,
                    property_id,
                    badge_type,
                    requester: caller,
                    requested_at: now,
                    evidence_url,
                    status: VerificationStatus::Pending,
                    reviewed_by: None,
                    reviewed_at: None,
                },
            ),
            ..self
        }.notified(
            EventView::VerificationRequested(
                VerificationRequestedView {
                    request_id: id,
                    property_id,
                    badge_type,
                    requester: caller,
                    event_version: EVENT_VERSION,
                    evidence_url,
                    timestamp: now,
                    block_number,
                    transaction_hash: crate::primitives::Hash::zero(),
                },
            ),
        )
    }

    /// A review is refused to a caller who may not verify, for an unknown
    /// request, and, if it approves, for whatever issuing the badge is
    /// refused for.
    pub open spec fn review_refusal(
        self,
        caller: AccountId,
        request_id: u64,
        approved: bool,
    ) -> Option<Error> {
        if !self.may_verify(caller) {
            Some(Error::NotVerifier)
        } else if !self.has_request(request_id) {
            Some(Error::BadgeNotFound)
        } else if approved {
            self.issue_refusal(
                caller,
                self.request(request_id).property_id,
                self.request(request_id).badge_type,
            )
        } else {
            None
        }
    }

    /// The registry after a request was judged: it is approved or rejected,
    /// with the one who judged it and the time; an approval issues the badge.
    pub open spec fn after_review(
        self,
        caller: AccountId,
        now: u64,
        block_number: u32,
        request_id: u64,
        approved: bool,
        expires_at: Option<u64>,
        metadata_url: Seq<char>,
    ) -> RegistryState {
        let request = self.request(request_id);
        let reviewed = RegistryState {
            verification_requests: self.verification_requests.update(
                request_id - 1,
                VerificationRequestView {
                    status: if approved {
                        VerificationStatus::Approved
                    } else {
                        VerificationStatus::Rejected
                    },
                    reviewed_by: Some(caller),
                    reviewed_at: Some(now),
                    ..request
                },
            ),
            ..self
        };
        (if approved {
            reviewed.after_issue(
                caller,
                now,
                block_number,
                request.property_id,
                request.badge_type,
                expires_at,
                metadata_url,
            )
        } else {
            reviewed
        }).notified(
            EventView::VerificationReviewed(
                VerificationReviewed {
                    request_id,
                    property_id: request.property_id,
                    reviewer: caller,
                    approved,
                    event_version: EVENT_VERSION,
                    timestamp: now,
                    block_number,
                    transaction_hash: crate::primitives::Hash::zero(),
                },
            ),
        )
    }

    // ---- appeals -----------------------------------------------------------

    /// An appeal is refused for an unknown property, to a caller who is not
    /// its owner, for a badge that was never issued, and for one that is
    /// not revoked.
    pub open spec fn appeal_refusal(
        self,
        caller: AccountId,
        property_id: u64,
        badge_type: BadgeType,
    ) -> Option<Error> {
        if !self.has_property(property_id) {
            Some(Error::PropertyNotFound)
        } else if self.property(property_id).info.owner != caller {
            Some(Error::Unauthorized)
        } else if self.property(property_id).badge(badge_type).is_none() {
            Some(Error::BadgeNotFound)
        } else if !self.property(property_id).badge(badge_type).unwrap().revoked {
            Some(Error::InvalidAppealStatus)
        } else {
            None
        }
    }

    /// The identifier the next appeal gets.
    pub open spec fn next_appeal_id(self) -> u64 {
        (self.appeals.len() + 1) as u64
    }

    /// Whether the registry can take one more appeal.
    pub open spec fn appeal_fits(self) -> bool {
        self.appeals.len() < u64::MAX
    }

    /// The registry after an appeal was filed: one more appeal, pending.
    pub open spec fn after_appeal(
        self,
        caller: AccountId,
        now: u64,
        block_number: u32,
        property_id: u64,
        badge_type: BadgeType,
        reason: Seq<char>,
    ) -> RegistryState {
        let id = self.next_appeal_id();
        RegistryState {
            appeals: self.appeals.push(
                AppealView {
                    id,
                    property_id,
                    badge_type,
                    appellant: caller,
                    reason,
                    submitted_at: now,
                    status: AppealStatus::Pending,
                    resolved_by: None,
                    resolved_at: None,
                    resolution: Seq::empty(),
                },
            ),
            ..self
        }.notified(
            EventView::AppealSubmitted(
                AppealSubmittedView {
                    appeal_id: id,
                    property_id,
                    badge_type,
                    appellant: caller,
                    event_version: EVENT_VERSION,
                    reason,
                    timestamp: now,
                    block_number,
                    transaction_hash: crate::primitives::Hash::zero(),
                },
            ),
        )
    }

    /// Only the administrator resolves appeals.
    pub open spec fn resolve_refusal(self, caller: AccountId, appeal_id: u64) -> Option<Error> {
        if caller != self.admin {
            Some(Error::Unauthorized)
        } else if !self.has_appeal(appeal_id) {
            Some(Error::AppealNotFound)
        } else {
            None
        }
    }

    /// The appeal is resolved; if it is approved and the badge exists, the
    /// badge is reinstated.
    pub open spec fn after_resolve(
        self,
        caller: AccountId,
        now: u64,
        block_number: u32,
        appeal_id: u64,
        approved: bool,
        resolution: Seq<char>,
    ) -> RegistryState {
        let appeal = self.appeal(appeal_id);
        let resolved = RegistryState {
            appeals: self.appeals.update(
                appeal_id - 1,
                AppealView {
                    status: if approved {
                        AppealStatus::Approved
                    } else {
                        AppealStatus::Rejected
                    },
                    resolved_by: Some(caller),
                    resolved_at: Some(now),
                    resolution,
                    ..appeal
                },
            ),
            ..self
        };
        (if approved && self.has_property(appeal.property_id) && self.property(
            appeal.property_id,
        ).badge(appeal.badge_type).is_some() {
            let p = self.property(appeal.property_id);
            resolved.with_property(
                appeal.property_id,
                p.with_badge(
                    appeal.badge_type,
                    Some(
                        BadgeView {
                            revoked: false,
                            revoked_at: None,
                            revocation_reason: Seq::empty(),
                            ..p.badge(appeal.badge_type).unwrap()
                        },
                    ),
                ),
            )
        } else {
            resolved
        }).notified(
            EventView::AppealResolved(
                AppealResolvedView {
                    appeal_id,
                    property_id: appeal.property_id,
                    resolved_by: caller,
                    approved,
                    event_version: EVENT_VERSION,
                    resolution,
                    timestamp: now,
                    block_number,
                    transaction_hash: crate::primitives::Hash::zero(),
                },
            ),
        )
    }

    // ---- analytics ---------------------------------------------------------

    /// The gas usage as reported: the average is zero before any operation,
    /// and so is the minimum.
    pub open spec fn gas_metrics(self) -> GasMetrics {
        let g = self.gas_tracker;
        GasMetrics {
            last_operation_gas: g.last_operation_gas,
            average_operation_gas: average(
                g.total_gas_used as int,
                g.operation_count as int,
            ) as u64,
            total_operations: g.operation_count,
            min_gas_used: if g.min_gas_used == u64::MAX {
                0
            } else {
                g.min_gas_used
            },
            max_gas_used: g.max_gas_used,
        }
    }

    /// The sum of the valuations of the first `n` properties.
    pub open spec fn total_valuation(self, n: nat) -> int
        decreases n,
    {
        if n == 0 {
            0
        } else {
            self.total_valuation((n - 1) as nat) + self.properties[n - 1].info.metadata.valuation
        }
    }

    /// The sum of the sizes of the first `n` properties.
    pub open spec fn total_size(self, n: nat) -> int
        decreases n,
    {
        if n == 0 {
            0
        } else {
            self.total_size((n - 1) as nat) + self.properties[n - 1].info.metadata.size
        }
    }

    /// The owners of the first `n` properties.
    pub open spec fn owners(self, n: nat) -> Set<AccountId> {
        Set::new(|a: AccountId| exists|i: int| 0 <= i < n && self.properties[i].info.owner == a)
    }

    /// Whether the totals over all properties can be represented.
    pub open spec fn analytics_fit(self) -> bool {
        self.total_valuation(self.properties.len()) <= u128::MAX && self.total_size(
            self.properties.len(),
        ) <= u64::MAX
    }

    /// Totals and averages over every registered property, and the number
    /// of distinct owners.
    pub open spec fn global_analytics(self) -> GlobalAnalytics {
        let n = self.properties.len();
        GlobalAnalytics {
            total_properties: n as u64,
            total_valuation: self.total_valuation(n) as u128,
            average_valuation: average(self.total_valuation(n), n as int) as u128,
            total_size: self.total_size(n) as u64,
            average_size: average(self.total_size(n), n as int) as u64,
            unique_owners: self.owners(n).len() as u64,
        }
    }

    /// The test that an identifier names a property.
    pub open spec fn is_known(self) -> spec_fn(u64) -> bool {
        |id: u64| self.has_property(id)
    }

    /// Among the first `n` of `ids`, those that name a property.
    pub open spec fn known(self, ids: Seq<u64>, n: nat) -> Seq<u64> {
        ids.take(n as int).filter(self.is_known())
    }

    /// How a property appears in a portfolio, by its identifier.
    pub open spec fn portfolio_entry(self) -> spec_fn(u64) -> PortfolioPropertyView {
        |id: u64| self.property(id).in_portfolio()
    }

    /// The valuations of the first `n` properties named by `ids`, added up
    /// with wrap-around; identifiers that name no property are skipped.
    pub open spec fn wrapped_valuation(self, ids: Seq<u64>, n: nat) -> u128
        decreases n,
    {
        if n == 0 {
            0
        } else if self.has_property(ids[n - 1]) {
            vstd::wrapping::u128_specs::wrapping_add(
                self.wrapped_valuation(ids, (n - 1) as nat),
                self.property(ids[n - 1]).info.metadata.valuation,
            )
        } else {
            self.wrapped_valuation(ids, (n - 1) as nat)
        }
    }

    /// The sizes of the first `n` properties named by `ids`, added up with
    /// wrap-around; identifiers that name no property are skipped.
    pub open spec fn wrapped_size(self, ids: Seq<u64>, n: nat) -> u64
        decreases n,
    {
        if n == 0 {
            0
        } else if self.has_property(ids[n - 1]) {
            vstd::wrapping::u64_specs::wrapping_add(
                self.wrapped_size(ids, (n - 1) as nat),
                self.property(ids[n - 1]).info.metadata.size,
            )
        } else {
            self.wrapped_size(ids, (n - 1) as nat)
        }
    }

    /// Totals, added up with wrap-around, and averages over the properties
    /// of one owner.
    pub open spec fn portfolio_summary(self, owner: AccountId) -> PortfolioSummary {
        let ids = self.owned_by(owner);
        let count = self.known(ids, ids.len()).len();
        let valuation = self.wrapped_valuation(ids, ids.len());
        let size = self.wrapped_size(ids, ids.len());
        PortfolioSummary {
            property_count: count as u64,
            total_valuation: valuation,
            average_valuation: average(valuation as int, count as int) as u128,
            total_size: size,
            average_size: average(size as int, count as int) as u64,
        }
    }

    /// The properties of one owner as they appear in its portfolio.
    pub open spec fn portfolio(self, owner: AccountId) -> Seq<PortfolioPropertyView> {
        let ids = self.owned_by(owner);
        self.known(ids, ids.len()).map_values(self.portfolio_entry())
    }

    /// The test that a valuation lies between two prices, bounds included.
    pub open spec fn priced(min_price: u128, max_price: u128) -> spec_fn(PropertyState) -> bool {
        |p: PropertyState| min_price <= p.info.metadata.valuation <= max_price
    }

    /// The test that a size lies between two sizes, bounds included.
    pub open spec fn sized(min_size: u64, max_size: u64) -> spec_fn(PropertyState) -> bool {
        |p: PropertyState| min_size <= p.info.metadata.size <= max_size
    }

    /// The identifier of a property.
    pub open spec fn id_of() -> spec_fn(PropertyState) -> u64 {
        |p: PropertyState| p.info.id
    }

    /// The identifiers of the properties whose valuation lies between the
    /// two prices, bounds included, in ascending order.
    pub open spec fn priced_between(self, min_price: u128, max_price: u128) -> Seq<u64> {
        self.properties.filter(Self::priced(min_price, max_price)).map_values(Self::id_of())
    }

    /// The identifiers of the properties whose size lies between the two
    /// sizes, bounds included, in ascending order.
    pub open spec fn sized_between(self, min_size: u64, max_size: u64) -> Seq<u64> {
        self.properties.filter(Self::sized(min_size, max_size)).map_values(Self::id_of())
    }

    /// The badges of a property that are not revoked, in the order of the
    /// badge types.
    pub open spec fn active_badges(self, property_id: u64) -> Seq<(BadgeType, BadgeView)> {
        if !self.has_property(property_id) {
            Seq::empty()
        } else {
            let p = self.property(property_id);
            Self::active(p, BadgeType::OwnerVerification) + Self::active(
                p,
                BadgeType::DocumentVerification,
            ) + Self::active(p, BadgeType::LegalCompliance) + Self::active(
                p,
                BadgeType::PremiumListing,
            )
        }
    }

    /// The badge of one type, if the property carries it unrevoked.
    pub open spec fn active(
        p: PropertyState,
        badge_type: BadgeType,
    ) -> Seq<(BadgeType, BadgeView)> {
        if p.has_badge(badge_type) {
            seq![(badge_type, p.badge(badge_type).unwrap())]
        } else {
            Seq::empty()
        }
    }

    /// Whether the comparison of the greatest with the least gas use can
    /// be made: ten times the least must be representable.
    pub open spec fn recommendations_fit(self) -> bool {
        self.gas_tracker.min_gas_used * 10 <= u64::MAX
    }

    /// The recommendations that the gas usage gives rise to, followed by
    /// the three that are always given.
    pub open spec fn recommendations(self) -> Seq<Seq<char>> {
        let g = self.gas_tracker;
        let avg = average(g.total_gas_used as int, g.operation_count as int);
        (if avg > 50000 {
            seq!["Consider using batch operations for multiple properties"@]
        } else {
            Seq::empty()
        }) + (if g.operation_count > 100 && avg < 10000 {
            seq!["Operations are efficient but consider consolidating related operations"@]
        } else {
            Seq::empty()
        }) + (if g.max_gas_used > g.min_gas_used * 10 {
            seq!["Gas usage varies significantly - review operation patterns"@]
        } else {
            Seq::empty()
        }) + seq![
            "Use batch operations for multiple property transfers"@,
            "Prefer portfolio analytics over individual property queries"@,
            "Consider off-chain indexing for complex analytics"@,
        ]
    }
}

} // verus!
