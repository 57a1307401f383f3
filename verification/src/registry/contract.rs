//! The property registry itself: executable operations, each proved against
//! the model.

use vstd::prelude::*;
use vstd::seq_lib::*;
use crate::primitives::{views, AccountId};
use crate::table::Table;
use crate::traits::{PropertyInfo, PropertyMetadata, PropertyMetadataView};
use crate::registry::events::{
    AdminChanged, AppealResolved, AppealSubmitted, ApprovalCleared, ApprovalGranted, BadgeIssued,
    BadgeRevoked, BatchMetadataUpdated, BatchPropertyRegistered, BatchPropertyTransferred,
    BatchPropertyTransferredToMultiple, ContractInitialized, EscrowCreated, EscrowRefunded,
    EscrowReleased, Event, PropertyMetadataUpdated, PropertyRegistered, PropertyTransferred,
    VerificationRequested, VerificationReviewed, VerifierUpdated, EVENT_VERSION,
};
use crate::registry::model::{
    other_than, PropertyState, RegistryState, CONTRACT_VERSION, GAS_PER_OPERATION,
};
use crate::registry::types::{
    Appeal, AppealStatus, Badge, BadgeType, Error, EscrowInfo, GasMetrics, GasTracker,
    GlobalAnalytics, PortfolioDetails, PortfolioDetailsView, PortfolioProperty, PortfolioSummary,
    VerificationRequest, VerificationStatus,
};

verus! {

/// The storage of one property.
struct PropertySlot {
    info: PropertyInfo,
    approved: Option<AccountId>,
    owner_verification: Option<Badge>,
    document_verification: Option<Badge>,
    legal_compliance: Option<Badge>,
    premium_listing: Option<Badge>,
}

/// The view of a badge that may be absent.
pub open spec fn badge_view(badge: Option<Badge>) -> Option<crate::registry::types::BadgeView> {
    match badge {
        Some(badge) => Some(badge@),
        None => None,
    }
}

impl View for PropertySlot {
    type V = PropertyState;

    closed spec fn view(&self) -> PropertyState {
        PropertyState {
            info: self.info@,
            approved: self.approved,
            owner_verification: badge_view(self.owner_verification),
            document_verification: badge_view(self.document_verification),
            legal_compliance: badge_view(self.legal_compliance),
            premium_listing: badge_view(self.premium_listing),
        }
    }
}

/// The property registry.
pub struct PropertyRegistry {
    admin: AccountId,
    version: u32,
    properties: Vec<PropertySlot>,
    owner_properties: Table<AccountId, Vec<u64>>,
    escrows: Vec<EscrowInfo>,
    gas_tracker: GasTracker,
    compliance_registry: Option<AccountId>,
    badge_verifiers: Table<AccountId, bool>,
    verification_requests: Vec<VerificationRequest>,
    appeals: Vec<Appeal>,
    events: Vec<Event>,
}

impl View for PropertyRegistry {
    type V = RegistryState;

    closed spec fn view(&self) -> RegistryState {
        RegistryState {
            admin: self.admin,
            version: self.version,
            properties: views(self.properties@),
            owner_properties: self.owner_properties@.map_values(|ids: Vec<u64>| ids@),
            escrows: self.escrows@,
            gas_tracker: self.gas_tracker,
            compliance_registry: self.compliance_registry,
            badge_verifiers: self.badge_verifiers@,
            verification_requests: views(self.verification_requests@),
            appeals: views(self.appeals@),
            events: views(self.events@),
        }
    }
}

/// The views of a list of badges with their types.
pub open spec fn badge_views(badges: Seq<(BadgeType, Badge)>) -> Seq<
    (BadgeType, crate::registry::types::BadgeView),
> {
    badges.map_values(|b: (BadgeType, Badge)| (b.0, b.1@))
}

/// The views of a list of updates.
pub open spec fn update_views(updates: Seq<(u64, PropertyMetadata)>) -> Seq<
    (u64, PropertyMetadataView),
> {
    updates.map_values(|u: (u64, PropertyMetadata)| (u.0, u.1@))
}

fn copy_metadata(m: &PropertyMetadata) -> (r: PropertyMetadata)
    ensures
        r@ == m@,
{
    PropertyMetadata {
        location: m.location.clone(),
        size: m.size,
        legal_description: m.legal_description.clone(),
        valuation: m.valuation,
        documents_url: m.documents_url.clone(),
    }
}

fn copy_badge(b: &Badge) -> (r: Badge)
    ensures
        r@ == b@,
{
    Badge {
        badge_type: b.badge_type,
        issued_at: b.issued_at,
        issued_by: b.issued_by,
        expires_at: b.expires_at,
        metadata_url: b.metadata_url.clone(),
        revoked: b.revoked,
        revoked_at: b.revoked_at,
        revocation_reason: b.revocation_reason.clone(),
    }
}

fn copy_ids(list: &Vec<u64>) -> (r: Vec<u64>)
    ensures
        r@ == list@,
{
    let mut out: Vec<u64> = Vec::new();
    let mut i: usize = 0;
    while i < list.len()
        invariant
            i <= list.len(),
            out@ == list@.take(i as int),
        decreases list.len() - i,
    {
        out.push(list[i]);
        assert(out@ =~= list@.take(i + 1));
        i += 1;
    }
    assert(out@ =~= list@);
    out
}

/// The list without every occurrence of `id`.
fn without(list: &Vec<u64>, id: u64) -> (r: Vec<u64>)
    ensures
        r@ == list@.filter(other_than(id)),
{
    let ghost keep = other_than(id);
    let mut out: Vec<u64> = Vec::new();
    let mut i: usize = 0;
    assert(list@.take(0).filter(keep) =~= Seq::empty()) by {
        reveal(Seq::filter);
    }
    while i < list.len()
        invariant
            i <= list.len(),
            keep == other_than(id),
            out@ == list@.take(i as int).filter(keep),
        decreases list.len() - i,
    {
        proof {
            assert(list@.take(i + 1) =~= list@.take(i as int).push(list@[i as int]));
            list@.take(i as int).lemma_filter_push(list@[i as int], keep);
        }
        if list[i] != id {
            out.push(list[i]);
        }
        i += 1;
    }
    assert(list@.take(list@.len() as int) =~= list@);
    out
}

impl PropertySlot {
    fn badge(&self, badge_type: BadgeType) -> (r: &Option<Badge>)
        ensures
            badge_view(*r) == self@.badge(badge_type),
    {
        match badge_type {
            BadgeType::OwnerVerification => &self.owner_verification,
            BadgeType::DocumentVerification => &self.document_verification,
            BadgeType::LegalCompliance => &self.legal_compliance,
            BadgeType::PremiumListing => &self.premium_listing,
        }
    }

    fn set_badge(&mut self, badge_type: BadgeType, badge: Option<Badge>)
        ensures
            final(self)@ == old(self)@.with_badge(badge_type, badge_view(badge)),
    {
        match badge_type {
            BadgeType::OwnerVerification => {
                self.owner_verification = badge;
            },
            BadgeType::DocumentVerification => {
                self.document_verification = badge;
            },
            BadgeType::LegalCompliance => {
                self.legal_compliance = badge;
            },
            BadgeType::PremiumListing => {
                self.premium_listing = badge;
            },
        }
    }

    fn has_badge(&self, badge_type: BadgeType) -> (r: bool)
        ensures
            r == self@.has_badge(badge_type),
    {
        match self.badge(badge_type) {
            Some(badge) => !badge.revoked,
            None => false,
        }
    }
}

impl PropertyRegistry {
    /// The invariant of the registry.
    pub closed spec fn wf(&self) -> bool {
        &&& self.owner_properties.wf()
        &&& self.badge_verifiers.wf()
        &&& self@.wf()
    }

    /// An empty registry administered by `admin`. Its creation is notified.
    pub fn new(admin: AccountId, now: u64, block_number: u32) -> (r: Self)
        ensures
            r.wf(),
            r@ == RegistryState::initial(admin, now, block_number),
    {
        let mut events: Vec<Event> = Vec::new();
        events.push(
            Event::ContractInitialized(
                ContractInitialized {
                    admin,
                    contract_version: CONTRACT_VERSION,
                    timestamp: now,
                    block_number,
                },
            ),
        );
        let r = PropertyRegistry {
            admin,
            version: CONTRACT_VERSION,
            properties: Vec::new(),
            owner_properties: Table::new(),
            escrows: Vec::new(),
            gas_tracker: GasTracker {
                total_gas_used: 0,
                operation_count: 0,
                last_operation_gas: 0,
                min_gas_used: u64::MAX,
                max_gas_used: 0,
            },
            compliance_registry: None,
            badge_verifiers: Table::new(),
            verification_requests: Vec::new(),
            appeals: Vec::new(),
            events,
        };
        proof {
            let want = RegistryState::initial(admin, now, block_number);
            assert(r@.properties =~= want.properties);
            assert(r@.owner_properties =~= want.owner_properties);
            assert(r@.verification_requests =~= want.verification_requests);
            assert(r@.appeals =~= want.appeals);
            assert(r@.events =~= want.events);
        }
        r
    }

    /// The version of the registry.
    pub fn version(&self) -> (r: u32)
        ensures
            r == self@.version,
    {
        self.version
    }

    /// The administrator.
    pub fn admin(&self) -> (r: AccountId)
        ensures
            r == self@.admin,
    {
        self.admin
    }

    /// Queues a notification.
    fn notify(&mut self, event: Event)
        requires
            old(self).wf(),
        ensures
            final(self).wf(),
            final(self)@ == old(self)@.notified(event@),
    {
        self.events.push(event);
        assert(self@.events =~= old(self)@.events.push(event@));
    }

    /// Accounts for the gas of one operation.
    fn track_gas_usage(&mut self)
        requires
            old(self).wf(),
            old(self)@.gas_fits(),
        ensures
            final(self).wf(),
            final(self)@ == old(self)@.metered(),
    {
        let gas_used: u64 = GAS_PER_OPERATION;
        self.gas_tracker.operation_count = self.gas_tracker.operation_count + 1;
        self.gas_tracker.last_operation_gas = gas_used;
        self.gas_tracker.total_gas_used = self.gas_tracker.total_gas_used + gas_used;
        if gas_used < self.gas_tracker.min_gas_used {
            self.gas_tracker.min_gas_used = gas_used;
        }
        if gas_used > self.gas_tracker.max_gas_used {
            self.gas_tracker.max_gas_used = gas_used;
        }
    }

    /// The position of property `property_id` in the store, if it exists.
    fn position(&self, property_id: u64) -> (r: Option<usize>)
        requires
            self.wf(),
        ensures
            match r {
                Some(i) => self@.has_property(property_id) && i == property_id - 1 && i
                    < self.properties@.len() && self.properties@[i as int]@ == self@.property(
                    property_id,
                ),
                None => !self@.has_property(property_id),
            },
    {
        if property_id >= 1 && property_id - 1 < self.properties.len() as u64 {
            Some((property_id - 1) as usize)
        } else {
            None
        }
    }

    /// The position of a property that is known to exist.
    fn slot_of(&self, property_id: u64) -> (r: usize)
        requires
            self.wf(),
            self@.has_property(property_id),
        ensures
            r == property_id - 1,
            r < self.properties@.len(),
    {
        let count = self.properties.len();
        assert(property_id - 1 < count);
        (property_id - 1) as usize
    }

    /// Hands the administrator's role to `new_admin`. Only the current
    /// administrator may.
    pub fn change_admin(
        &mut self,
        caller: AccountId,
        now: u64,
        block_number: u32,
        new_admin: AccountId,
    ) -> (r: Result<(), Error>)
        requires
            old(self).wf(),
        ensures
            final(self).wf(),
            match old(self)@.admin_refusal(caller) {
                Some(e) => r == Err::<(), Error>(e) && final(self)@ == old(self)@,
                None => r.is_ok() && final(self)@ == old(self)@.after_change_admin(
                    caller,
                    now,
                    block_number,
                    new_admin,
                ),
            },
    {
        if caller != self.admin {
            return Err(Error::Unauthorized);
        }
        let old_admin = self.admin;
        self.admin = new_admin;
        self.notify(
            Event::AdminChanged(
                AdminChanged {
                    old_admin,
                    new_admin,
                    event_version: EVENT_VERSION,
                    timestamp: now,
                    block_number,
                    transaction_hash: crate::primitives::Hash::zeroed(),
                    changed_by: caller,
                },
            ),
        );
        Ok(())
    }

    /// Names the compliance registry to consult, or none. Only the
    /// administrator may.
    pub fn set_compliance_registry(&mut self, caller: AccountId, registry: Option<AccountId>) -> (r:
        Result<(), Error>)
        requires
            old(self).wf(),
        ensures
            final(self).wf(),
            match old(self)@.admin_refusal(caller) {
                Some(e) => r == Err::<(), Error>(e) && final(self)@ == old(self)@,
                None => r.is_ok() && final(self)@ == old(self)@.after_set_compliance_registry(
                    registry,
                ),
            },
    {
        if caller != self.admin {
            return Err(Error::Unauthorized);
        }
        self.compliance_registry = registry;
        Ok(())
    }

    /// The compliance registry to consult, if one is named.
    pub fn get_compliance_registry(&self) -> (r: Option<AccountId>)
        ensures
            r == self@.compliance_registry,
    {
        self.compliance_registry
    }

    /// Whether `account` may take part. No compliance registry is consulted
    /// by the registry itself, so every account passes.
    fn check_compliance(&self, account: AccountId) -> (r: Result<(), Error>)
        ensures
            r.is_ok(),
    {
        if self.compliance_registry.is_none() {
            return Ok(());
        }
        Ok(())
    }

    /// Appends `property_id` to the list of `owner`.
    fn add_holding(&mut self, owner: AccountId, property_id: u64)
        requires
            old(self).wf(),
        ensures
            final(self).wf(),
            final(self)@ == (RegistryState {
                owner_properties: old(self)@.owner_properties.insert(
                    owner,
                    old(self)@.owned_by(owner).push(property_id),
                ),
                ..old(self)@
            }),
    {
        let mut held = match self.owner_properties.take(&owner) {
            Some(held) => held,
            None => Vec::new(),
        };
        assert(held@ =~= old(self)@.owned_by(owner));
        held.push(property_id);
        self.owner_properties.insert(owner, held);
        assert(self@.owner_properties =~= old(self)@.owner_properties.insert(
            owner,
            old(self)@.owned_by(owner).push(property_id),
        ));
    }

    /// Registers a property for `caller` and returns its identifier, the
    /// next in sequence.
    pub fn register_property(
        &mut self,
        caller: AccountId,
        now: u64,
        block_number: u32,
        metadata: PropertyMetadata,
    ) -> (r: Result<u64, Error>)
        requires
            old(self).wf(),
            old(self)@.register_fits(1),
        ensures
            final(self).wf(),
            r == Ok::<u64, Error>(old(self)@.next_property_id()),
            final(self)@ == old(self)@.after_register(caller, now, block_number, metadata@),
    {
        match self.check_compliance(caller) {
            Ok(_) => {},
            Err(e) => {
                return Err(e);
            },
        }
        let property_id: u64 = self.properties.len() as u64 + 1;
        let event = Event::PropertyRegistered(
            PropertyRegistered {
                property_id,
                owner: caller,
                event_version: EVENT_VERSION,
                location: metadata.location.clone(),
                size: metadata.size,
                valuation: metadata.valuation,
                timestamp: now,
                block_number,
                transaction_hash: crate::primitives::Hash::zeroed(),
            },
        );
        let slot = PropertySlot {
            info: PropertyInfo { id: property_id, owner: caller, metadata, registered_at: now },
            approved: None,
            owner_verification: None,
            document_verification: None,
            legal_compliance: None,
            premium_listing: None,
        };
        let ghost added = slot@;
        self.properties.push(slot);
        assert(self@.properties =~= old(self)@.properties.push(added));
        self.add_holding(caller, property_id);
        self.track_gas_usage();
        self.notify(event);
        Ok(property_id)
    }

    /// Hands the property at position `at` to `to`.
    fn move_property(&mut self, at: usize, to: AccountId)
        requires
            old(self).wf(),
            at < old(self).properties@.len(),
        ensures
            final(self).wf(),
            final(self)@ == old(self)@.moved((at + 1) as u64, to),
    {
        let ghost property_id = (at + 1) as u64;
        assert(old(self)@.properties[at as int].info.id == property_id);
        let id = self.properties[at].info.id;
        let from = self.properties[at].info.owner;
        let remaining = match self.owner_properties.get(&from) {
            Some(held) => without(held, id),
            None => {
                let none: Vec<u64> = Vec::new();
                assert(Seq::<u64>::empty().filter(other_than(id)) =~= Seq::<u64>::empty()) by {
                    reveal(Seq::filter);
                }
                none
            },
        };
        self.owner_properties.insert(from, remaining);
        let mut held = match self.owner_properties.take(&to) {
            Some(held) => held,
            None => Vec::new(),
        };
        held.push(id);
        self.owner_properties.insert(to, held);
        let slot = &mut self.properties[at];
        slot.info.owner = to;
        slot.approved = None;
        proof {
            let want = old(self)@.moved(property_id, to);
            assert(self@.owner_properties =~= want.owner_properties);
            assert(self@.properties =~= want.properties);
        }
    }

    /// Transfers a property to `to`. Its owner and the account approved
    /// for it may; the approval is used up.
    pub fn transfer_property(
        &mut self,
        caller: AccountId,
        now: u64,
        block_number: u32,
        property_id: u64,
        to: AccountId,
    ) -> (r: Result<(), Error>)
        requires
            old(self).wf(),
            old(self)@.gas_fits(),
        ensures
            final(self).wf(),
            match old(self)@.transfer_refusal(caller, property_id) {
                Some(e) => r == Err::<(), Error>(e) && final(self)@ == old(self)@,
                None => r.is_ok() && final(self)@ == old(self)@.after_transfer(
                    caller,
                    now,
                    block_number,
                    property_id,
                    to,
                ),
            },
    {
        let at = match self.position(property_id) {
            Some(at) => at,
            None => {
                return Err(Error::PropertyNotFound);
            },
        };
        let from = self.properties[at].info.owner;
        if from != caller && self.properties[at].approved != Some(caller) {
            return Err(Error::Unauthorized);
        }
        match self.check_compliance(to) {
            Ok(_) => {},
            Err(e) => {
                return Err(e);
            },
        }
        self.move_property(at, to);
        self.track_gas_usage();
        self.notify(
            Event::PropertyTransferred(
                PropertyTransferred {
                    property_id,
                    from,
                    to,
                    event_version: EVENT_VERSION,
                    timestamp: now,
                    block_number,
                    transaction_hash: crate::primitives::Hash::zeroed(),
                    transferred_by: caller,
                },
            ),
        );
        Ok(())
    }

    /// What is registered about a property.
    pub fn get_property(&self, property_id: u64) -> (r: Option<PropertyInfo>)
        requires
            self.wf(),
        ensures
            match r {
                Some(info) => self@.has_property(property_id) && info@ == self@.property(
                    property_id,
                ).info,
                None => !self@.has_property(property_id),
            },
    {
        match self.position(property_id) {
            Some(at) => {
                let info = &self.properties[at].info;
                Some(
                    PropertyInfo {
                        id: info.id,
                        owner: info.owner,
                        metadata: copy_metadata(&info.metadata),
                        registered_at: info.registered_at,
                    },
                )
            },
            None => None,
        }
    }

    /// The properties `owner` holds, in the order it came by them.
    pub fn get_owner_properties(&self, owner: AccountId) -> (r: Vec<u64>)
        requires
            self.wf(),
        ensures
            r@ == self@.owned_by(owner),
    {
        match self.owner_properties.get(&owner) {
            Some(held) => copy_ids(held),
            None => Vec::new(),
        }
    }

    /// How many properties are registered.
    pub fn property_count(&self) -> (r: u64)
        requires
            self.wf(),
        ensures
            r == self@.properties.len(),
    {
        self.properties.len() as u64
    }

    /// Replaces the metadata of the property at position `at`.
    fn set_metadata(&mut self, at: usize, metadata: PropertyMetadata)
        requires
            old(self).wf(),
            at < old(self).properties@.len(),
        ensures
            final(self).wf(),
            final(self)@ == old(self)@.with_metadata((at + 1) as u64, metadata@),
    {
        self.properties[at].info.metadata = metadata;
        assert(self@.properties =~= old(self)@.with_metadata(
            (at + 1) as u64,
            metadata@,
        ).properties);
    }

    /// Replaces what is recorded about a property. Only its owner may, and
    /// the new location must not be empty.
    pub fn update_metadata(
        &mut self,
        caller: AccountId,
        now: u64,
        block_number: u32,
        property_id: u64,
        metadata: PropertyMetadata,
    ) -> (r: Result<(), Error>)
        requires
            old(self).wf(),
        ensures
            final(self).wf(),
            match old(self)@.update_refusal(caller, property_id, metadata@) {
                Some(e) => r == Err::<(), Error>(e) && final(self)@ == old(self)@,
                None => r.is_ok() && final(self)@ == old(self)@.after_update(
                    caller,
                    now,
                    block_number,
                    property_id,
                    metadata@,
                ),
            },
    {
        let at = match self.position(property_id) {
            Some(at) => at,
            None => {
                return Err(Error::PropertyNotFound);
            },
        };
        if self.properties[at].info.owner != caller {
            return Err(Error::Unauthorized);
        }
        if metadata.location.as_str().is_empty() {
            return Err(Error::InvalidMetadata);
        }
        let event = Event::PropertyMetadataUpdated(
            PropertyMetadataUpdated {
                property_id,
                owner: caller,
                event_version: EVENT_VERSION,
                old_location: self.properties[at].info.metadata.location.clone(),
                new_location: metadata.location.clone(),
                old_valuation: self.properties[at].info.metadata.valuation,
                new_valuation: metadata.valuation,
                timestamp: now,
                block_number,
                transaction_hash: crate::primitives::Hash::zeroed(),
            },
        );
        self.set_metadata(at, metadata);
        self.notify(event);
        Ok(())
    }

    /// Approves `to` to transfer a property, or clears the approval. Only
    /// the owner may.
    pub fn approve(
        &mut self,
        caller: AccountId,
        now: u64,
        block_number: u32,
        property_id: u64,
        to: Option<AccountId>,
    ) -> (r: Result<(), Error>)
        requires
            old(self).wf(),
        ensures
            final(self).wf(),
            match old(self)@.owner_refusal(caller, property_id) {
                Some(e) => r == Err::<(), Error>(e) && final(self)@ == old(self)@,
                None => r.is_ok() && final(self)@ == old(self)@.after_approve(
                    caller,
                    now,
                    block_number,
                    property_id,
                    to,
                ),
            },
    {
        let at = match self.position(property_id) {
            Some(at) => at,
            None => {
                return Err(Error::PropertyNotFound);
            },
        };
        if self.properties[at].info.owner != caller {
            return Err(Error::Unauthorized);
        }
        let transaction_hash = crate::primitives::Hash::zeroed();
        self.properties[at].approved = to;
        assert(self@.properties =~= old(self)@.properties.update(
            at as int,
            (PropertyState { approved: to, ..old(self)@.property(property_id) }),
        ));
        match to {
            Some(account) => {
                self.notify(
                    Event::ApprovalGranted(
                        ApprovalGranted {
                            property_id,
                            owner: caller,
                            approved: account,
                            event_version: EVENT_VERSION,
                            timestamp: now,
                            block_number,
                            transaction_hash,
                        },
                    ),
                );
            },
            None => {
                self.notify(
                    Event::ApprovalCleared(
                        ApprovalCleared {
                            property_id,
                            owner: caller,
                            event_version: EVENT_VERSION,
                            timestamp: now,
                            block_number,
                            transaction_hash,
                        },
                    ),
                );
            },
        }
        Ok(())
    }

    /// The account approved to transfer a property, if any.
    pub fn get_approved(&self, property_id: u64) -> (r: Option<AccountId>)
        requires
            self.wf(),
        ensures
            r == (if self@.has_property(property_id) {
                self@.property(property_id).approved
            } else {
                None
            }),
    {
        match self.position(property_id) {
            Some(at) => self.properties[at].approved,
            None => None,
        }
    }

    /// Opens an escrow on the sale of a property to `buyer` and returns
    /// its identifier. Only the owner, who is the seller, may.
    pub fn create_escrow(
        &mut self,
        caller: AccountId,
        now: u64,
        block_number: u32,
        property_id: u64,
        buyer: AccountId,
        amount: u128,
    ) -> (r: Result<u64, Error>)
        requires
            old(self).wf(),
            old(self)@.escrow_fits(),
        ensures
            final(self).wf(),
            match old(self)@.owner_refusal(caller, property_id) {
                Some(e) => r == Err::<u64, Error>(e) && final(self)@ == old(self)@,
                None => r == Ok::<u64, Error>(old(self)@.next_escrow_id()) && final(self)@ == old(
                    self,
                )@.after_create_escrow(now, block_number, property_id, buyer, amount),
            },
    {
        let at = match self.position(property_id) {
            Some(at) => at,
            None => {
                return Err(Error::PropertyNotFound);
            },
        };
        let seller = self.properties[at].info.owner;
        if seller != caller {
            return Err(Error::Unauthorized);
        }
        let escrow_id: u64 = self.escrows.len() as u64 + 1;
        self.escrows.push(
            EscrowInfo { id: escrow_id, property_id, buyer, seller, amount, released: false },
        );
        self.notify(
            Event::EscrowCreated(
                EscrowCreated {
                    escrow_id,
                    property_id,
                    buyer,
                    seller,
                    event_version: EVENT_VERSION,
                    amount,
                    timestamp: now,
                    block_number,
                    transaction_hash: crate::primitives::Hash::zeroed(),
                },
            ),
        );
        Ok(escrow_id)
    }

    /// The position of escrow `escrow_id` in the store, if it exists.
    fn escrow_position(&self, escrow_id: u64) -> (r: Option<usize>)
        requires
            self.wf(),
        ensures
            match r {
                Some(i) => self@.has_escrow(escrow_id) && i == escrow_id - 1 && i
                    < self.escrows@.len(),
                None => !self@.has_escrow(escrow_id),
            },
    {
        if escrow_id >= 1 && escrow_id - 1 < self.escrows.len() as u64 {
            Some((escrow_id - 1) as usize)
        } else {
            None
        }
    }

    /// Releases an escrow: the property goes to the buyer, who must be the
    /// caller and entitled to transfer the property.
    pub fn release_escrow(
        &mut self,
        caller: AccountId,
        now: u64,
        block_number: u32,
        escrow_id: u64,
    ) -> (r: Result<(), Error>)
        requires
            old(self).wf(),
            old(self)@.gas_fits(),
        ensures
            final(self).wf(),
            match old(self)@.release_refusal(caller, escrow_id) {
                Some(e) => r == Err::<(), Error>(e) && final(self)@ == old(self)@,
                None => r.is_ok() && final(self)@ == old(self)@.after_release_escrow(
                    caller,
                    now,
                    block_number,
                    escrow_id,
                ),
            },
    {
        let at = match self.escrow_position(escrow_id) {
            Some(at) => at,
            None => {
                return Err(Error::EscrowNotFound);
            },
        };
        let escrow = self.escrows[at];
        if escrow.released {
            return Err(Error::EscrowAlreadyReleased);
        }
        if escrow.buyer != caller {
            return Err(Error::Unauthorized);
        }
        match self.transfer_property(caller, now, block_number, escrow.property_id, escrow.buyer) {
            Ok(_) => {},
            Err(e) => {
                return Err(e);
            },
        }
        assert(self.escrows@ == old(self).escrows@);
        self.escrows[at].released = true;
        self.notify(
            Event::EscrowReleased(
                EscrowReleased {
                    escrow_id,
                    property_id: escrow.property_id,
                    buyer: escrow.buyer,
                    event_version: EVENT_VERSION,
                    amount: escrow.amount,
                    timestamp: now,
                    block_number,
                    transaction_hash: crate::primitives::Hash::zeroed(),
                    released_by: caller,
                },
            ),
        );
        Ok(())
    }

    /// Refunds an escrow; the property stays with the seller, who must be
    /// the caller.
    pub fn refund_escrow(
        &mut self,
        caller: AccountId,
        now: u64,
        block_number: u32,
        escrow_id: u64,
    ) -> (r: Result<(), Error>)
        requires
            old(self).wf(),
        ensures
            final(self).wf(),
            match old(self)@.refund_refusal(caller, escrow_id) {
                Some(e) => r == Err::<(), Error>(e) && final(self)@ == old(self)@,
                None => r.is_ok() && final(self)@ == old(self)@.after_refund_escrow(
                    caller,
                    now,
                    block_number,
                    escrow_id,
                ),
            },
    {
        let at = match self.escrow_position(escrow_id) {
            Some(at) => at,
            None => {
                return Err(Error::EscrowNotFound);
            },
        };
        let escrow = self.escrows[at];
        if escrow.released {
            return Err(Error::EscrowAlreadyReleased);
        }
        if escrow.seller != caller {
            return Err(Error::Unauthorized);
        }
        self.escrows[at].released = true;
        self.notify(
            Event::EscrowRefunded(
                EscrowRefunded {
                    escrow_id,
                    property_id: escrow.property_id,
                    seller: escrow.seller,
                    event_version: EVENT_VERSION,
                    amount: escrow.amount,
                    timestamp: now,
                    block_number,
                    transaction_hash: crate::primitives::Hash::zeroed(),
                    refunded_by: caller,
                },
            ),
        );
        Ok(())
    }

    /// The escrow with this identifier, if it exists.
    pub fn get_escrow(&self, escrow_id: u64) -> (r: Option<EscrowInfo>)
        requires
            self.wf(),
        ensures
            match r {
                Some(escrow) => self@.has_escrow(escrow_id) && escrow == self@.escrow(escrow_id),
                None => !self@.has_escrow(escrow_id),
            },
    {
        match self.escrow_position(escrow_id) {
            Some(at) => Some(self.escrows[at]),
            None => None,
        }
    }

    /// The gas usage so far.
    pub fn get_gas_metrics(&self) -> (r: GasMetrics)
        ensures
            r == self@.gas_metrics(),
    {
        GasMetrics {
            last_operation_gas: self.gas_tracker.last_operation_gas,
            average_operation_gas: if self.gas_tracker.operation_count > 0 {
                self.gas_tracker.total_gas_used / self.gas_tracker.operation_count
            } else {
                0
            },
            total_operations: self.gas_tracker.operation_count,
            min_gas_used: if self.gas_tracker.min_gas_used == u64::MAX {
                0
            } else {
                self.gas_tracker.min_gas_used
            },
            max_gas_used: self.gas_tracker.max_gas_used,
        }
    }

    /// Hands over the queued notifications, oldest first, and empties the
    /// queue.
    pub fn take_events(&mut self) -> (r: Vec<Event>)
        requires
            old(self).wf(),
        ensures
            final(self).wf(),
            views(r@) == old(self)@.events,
            final(self)@ == (RegistryState { events: Seq::empty(), ..old(self)@ }),
    {
        let mut taken: Vec<Event> = Vec::new();
        core::mem::swap(&mut self.events, &mut taken);
        assert(self@.events =~= Seq::empty());
        taken
    }

    /// Whether the gas counters can take one more operation.
    pub fn gas_fits(&self) -> (r: bool)
        ensures
            r == self@.gas_fits(),
    {
        self.gas_tracker.operation_count < u64::MAX && self.gas_tracker.total_gas_used
            <= u64::MAX - GAS_PER_OPERATION
    }

    /// Whether the registry can take `more` properties and meter one more
    /// operation.
    pub fn register_fits(&self, more: usize) -> (r: bool)
        requires
            self.wf(),
        ensures
            r == self@.register_fits(more as int),
    {
        let count: u64 = self.properties.len() as u64;
        more as u64 <= u64::MAX - count && self.gas_fits()
    }

    /// Whether the registry can take one more escrow.
    pub fn escrow_fits(&self) -> (r: bool)
        requires
            self.wf(),
        ensures
            r == self@.escrow_fits(),
    {
        (self.escrows.len() as u64) < u64::MAX
    }

    /// Whether the registry can take one more request for a badge.
    pub fn request_fits(&self) -> (r: bool)
        requires
            self.wf(),
        ensures
            r == self@.request_fits(),
    {
        (self.verification_requests.len() as u64) < u64::MAX
    }

    /// Whether the registry can take one more appeal.
    pub fn appeal_fits(&self) -> (r: bool)
        requires
            self.wf(),
        ensures
            r == self@.appeal_fits(),
    {
        (self.appeals.len() as u64) < u64::MAX
    }

    /// The first refusal among the transfers of `ids` by `caller`, each
    /// judged on the registry as it stands.
    fn check_transfers(&self, caller: AccountId, ids: &Vec<u64>) -> (r: Option<Error>)
        requires
            self.wf(),
        ensures
            r == self@.transfers_refusal(caller, ids@, 0),
            r.is_none() ==> forall|j: int|
                0 <= j < ids@.len() ==> self@.has_property(#[trigger] ids@[j]),
    {
        let mut k: usize = 0;
        while k < ids.len()
            invariant
                self.wf(),
                k <= ids.len(),
                self@.transfers_refusal(caller, ids@, 0) == self@.transfers_refusal(
                    caller,
                    ids@,
                    k as int,
                ),
                forall|j: int| 0 <= j < k ==> self@.has_property(#[trigger] ids@[j]),
            decreases ids.len() - k,
        {
            let at = match self.position(ids[k]) {
                Some(at) => at,
                None => {
                    return Some(Error::PropertyNotFound);
                },
            };
            if self.properties[at].info.owner != caller && self.properties[at].approved != Some(
                caller,
            ) {
                return Some(Error::Unauthorized);
            }
            k += 1;
        }
        None
    }

    /// The first refusal among `updates` by `caller`, each judged on the
    /// registry as it stands.
    fn check_updates(
        &self,
        caller: AccountId,
        updates: &Vec<(u64, PropertyMetadata)>,
    ) -> (r: Option<Error>)
        requires
            self.wf(),
        ensures
            r == self@.updates_refusal(caller, update_views(updates@), 0),
            r.is_none() ==> forall|j: int|
                0 <= j < updates@.len() ==> self@.has_property((#[trigger] updates@[j]).0),
    {
        let ghost wanted = update_views(updates@);
        let mut k: usize = 0;
        while k < updates.len()
            invariant
                self.wf(),
                k <= updates.len(),
                wanted == update_views(updates@),
                self@.updates_refusal(caller, wanted, 0) == self@.updates_refusal(
                    caller,
                    wanted,
                    k as int,
                ),
                forall|j: int| 0 <= j < k ==> self@.has_property((#[trigger] updates@[j]).0),
            decreases updates.len() - k,
        {
            let at = match self.position(updates[k].0) {
                Some(at) => at,
                None => {
                    return Some(Error::PropertyNotFound);
                },
            };
            if self.properties[at].info.owner != caller {
                return Some(Error::Unauthorized);
            }
            if updates[k].1.location.as_str().is_empty() {
                return Some(Error::InvalidMetadata);
            }
            k += 1;
        }
        None
    }

    /// The property identifiers of a list of transfers.
    fn ids_of(transfers: &Vec<(u64, AccountId)>) -> (r: Vec<u64>)
        ensures
            r@ == RegistryState::transfer_ids(transfers@),
    {
        let mut ids: Vec<u64> = Vec::new();
        let mut i: usize = 0;
        while i < transfers.len()
            invariant
                i <= transfers.len(),
                ids@.len() == i,
                forall|j: int| 0 <= j < i ==> ids@[j] == transfers@[j].0,
            decreases transfers.len() - i,
        {
            ids.push(transfers[i].0);
            i += 1;
        }
        assert(ids@ =~= RegistryState::transfer_ids(transfers@));
        ids
    }

    /// Whether the gas counters have room for what a batch transfer of
    /// `property_ids` by `caller` meters.
    pub fn batch_transfer_fits(&self, caller: AccountId, property_ids: &Vec<u64>) -> (r: bool)
        requires
            self.wf(),
        ensures
            r == self@.batch_transfer_fits(caller, property_ids@),
    {
        if property_ids.len() > 0 && self.check_transfers(caller, property_ids).is_none() {
            self.gas_fits()
        } else {
            true
        }
    }

    /// Whether the gas counters have room for what a batch of `updates`
    /// by `caller` meters.
    pub fn batch_update_fits(
        &self,
        caller: AccountId,
        updates: &Vec<(u64, PropertyMetadata)>,
    ) -> (r: bool)
        requires
            self.wf(),
        ensures
            r == self@.batch_update_fits(caller, update_views(updates@)),
    {
        if self.check_updates(caller, updates).is_none() {
            self.gas_fits()
        } else {
            true
        }
    }

    /// Whether the gas counters have room for what a batch of `transfers`
    /// by `caller` meters.
    pub fn batch_transfer_to_multiple_fits(
        &self,
        caller: AccountId,
        transfers: &Vec<(u64, AccountId)>,
    ) -> (r: bool)
        requires
            self.wf(),
        ensures
            r == self@.batch_transfer_to_multiple_fits(caller, transfers@),
    {
        let ids = Self::ids_of(transfers);
        if self.check_transfers(caller, &ids).is_none() {
            self.gas_fits()
        } else {
            true
        }
    }

    /// Whether the totals over all properties can be represented.
    pub fn analytics_fit(&self) -> (r: bool)
        requires
            self.wf(),
        ensures
            r == self@.analytics_fit(),
    {
        let count = self.properties.len();
        let mut total_valuation: u128 = 0;
        let mut total_size: u64 = 0;
        let mut i: usize = 0;
        while i < count
            invariant
                self.wf(),
                count == self.properties@.len(),
                i <= count,
                total_valuation == self@.total_valuation(i as nat),
                total_size == self@.total_size(i as nat),
            decreases count - i,
        {
            let metadata = &self.properties[i].info.metadata;
            proof {
                lemma_totals_grow(self@, (i + 1) as nat, count as nat);
            }
            if metadata.valuation > u128::MAX - total_valuation {
                return false;
            }
            if metadata.size > u64::MAX - total_size {
                return false;
            }
            total_valuation = total_valuation + metadata.valuation;
            total_size = total_size + metadata.size;
            i += 1;
        }
        true
    }

    /// Whether the comparison of the greatest with the least gas use can
    /// be made.
    pub fn recommendations_fit(&self) -> (r: bool)
        ensures
            r == self@.recommendations_fit(),
    {
        self.gas_tracker.min_gas_used <= u64::MAX / 10
    }

    /// Registers several properties for `caller` at once and returns their
    /// identifiers, which continue the sequence.
    pub fn batch_register_properties(
        &mut self,
        caller: AccountId,
        now: u64,
        block_number: u32,
        properties: Vec<PropertyMetadata>,
    ) -> (r: Result<Vec<u64>, Error>)
        requires
            old(self).wf(),
            old(self)@.register_fits(properties@.len() as int),
        ensures
            final(self).wf(),
            r.is_ok(),
            r.unwrap()@ == old(self)@.batch_ids(properties@.len()),
            final(self)@ == old(self)@.after_batch_register(
                caller,
                now,
                block_number,
                views(properties@),
            ),
    {
        let ghost batch = views(properties@);
        let ghost ids = old(self)@.batch_ids(properties@.len());
        let first: u64 = self.properties.len() as u64;
        let mut results: Vec<u64> = Vec::new();
        let mut slots: Vec<PropertySlot> = Vec::new();
        let mut i: usize = 0;
        while i < properties.len()
            invariant
                i <= properties.len(),
                first + properties.len() <= u64::MAX,
                first == old(self)@.properties.len(),
                batch == views(properties@),
                ids == old(self)@.batch_ids(properties@.len()),
                results@.len() == i,
                slots@.len() == i,
                forall|j: int| 0 <= j < i ==> results@[j] == ids[j],
                forall|j: int|
                    0 <= j < i ==> (#[trigger] slots@[j])@ == PropertyState::fresh(
                        ids[j],
                        caller,
                        batch[j],
                        now,
                    ),
            decreases properties.len() - i,
        {
            let property_id: u64 = first + 1 + i as u64;
            slots.push(
                PropertySlot {
                    info: PropertyInfo {
                        id: property_id,
                        owner: caller,
                        metadata: copy_metadata(&properties[i]),
                        registered_at: now,
                    },
                    approved: None,
                    owner_verification: None,
                    document_verification: None,
                    legal_compliance: None,
                    premium_listing: None,
                },
            );
            results.push(property_id);
            i += 1;
        }
        assert(results@ =~= ids);
        let ghost added = views(slots@);
        assert(added =~= Seq::new(
            batch.len(),
            |i: int| PropertyState::fresh(ids[i], caller, batch[i], now),
        ));
        self.properties.append(&mut slots);
        assert(self@.properties =~= old(self)@.properties + added);
        let mut held = match self.owner_properties.take(&caller) {
            Some(held) => held,
            None => Vec::new(),
        };
        assert(held@ =~= old(self)@.owned_by(caller));
        let mut listed = copy_ids(&results);
        held.append(&mut listed);
        self.owner_properties.insert(caller, held);
        assert(self@.owner_properties =~= old(self)@.owner_properties.insert(
            caller,
            old(self)@.owned_by(caller) + ids,
        ));
        let count = results.len() as u64;
        self.notify(
            Event::BatchPropertyRegistered(
                BatchPropertyRegistered {
                    owner: caller,
                    event_version: EVENT_VERSION,
                    property_ids: copy_ids(&results),
                    count,
                    timestamp: now,
                    block_number,
                    transaction_hash: crate::primitives::Hash::zeroed(),
                },
            ),
        );
        self.track_gas_usage();
        Ok(results)
    }

    /// Transfers several properties to one recipient. Every transfer is
    /// judged first, on the registry as it stands, and the first refusal
    /// refuses them all.
    pub fn batch_transfer_properties(
        &mut self,
        caller: AccountId,
        now: u64,
        block_number: u32,
        property_ids: Vec<u64>,
        to: AccountId,
    ) -> (r: Result<(), Error>)
        requires
            old(self).wf(),
            old(self)@.batch_transfer_fits(caller, property_ids@),
        ensures
            final(self).wf(),
            match old(self)@.transfers_refusal(caller, property_ids@, 0) {
                Some(e) => r == Err::<(), Error>(e) && final(self)@ == old(self)@,
                None => r.is_ok() && final(self)@ == old(self)@.after_batch_transfer(
                    caller,
                    now,
                    block_number,
                    property_ids@,
                    to,
                ),
            },
    {
        match self.check_transfers(caller, &property_ids) {
            Some(e) => {
                return Err(e);
            },
            None => {},
        }
        if property_ids.len() == 0 {
            return Ok(());
        }
        let from = self.properties[self.slot_of(property_ids[0])].info.owner;
        let mut i: usize = 0;
        while i < property_ids.len()
            invariant
                self.wf(),
                i <= property_ids.len(),
                self@.properties.len() == old(self)@.properties.len(),
                self@.gas_tracker == old(self)@.gas_tracker,
                self@.events == old(self)@.events,
                forall|j: int|
                    0 <= j < property_ids.len() ==> old(self)@.has_property(
                        #[trigger] property_ids@[j],
                    ),
                self@ == old(self)@.moved_all(property_ids@, to, i as nat),
            decreases property_ids.len() - i,
        {
            let at = self.slot_of(property_ids[i]);
            self.move_property(at, to);
            i += 1;
        }
        let count = property_ids.len() as u64;
        self.notify(
            Event::BatchPropertyTransferred(
                BatchPropertyTransferred {
                    from,
                    to,
                    event_version: EVENT_VERSION,
                    property_ids,
                    count,
                    timestamp: now,
                    block_number,
                    transaction_hash: crate::primitives::Hash::zeroed(),
                    transferred_by: caller,
                },
            ),
        );
        self.track_gas_usage();
        Ok(())
    }

    /// Replaces the records of several properties. Every update is judged
    /// first, on the registry as it stands, and the first refusal refuses
    /// them all.
    pub fn batch_update_metadata(
        &mut self,
        caller: AccountId,
        now: u64,
        block_number: u32,
        updates: Vec<(u64, PropertyMetadata)>,
    ) -> (r: Result<(), Error>)
        requires
            old(self).wf(),
            old(self)@.batch_update_fits(caller, update_views(updates@)),
        ensures
            final(self).wf(),
            match old(self)@.updates_refusal(caller, update_views(updates@), 0) {
                Some(e) => r == Err::<(), Error>(e) && final(self)@ == old(self)@,
                None => r.is_ok() && final(self)@ == old(self)@.after_batch_update(
                    caller,
                    now,
                    block_number,
                    update_views(updates@),
                ),
            },
    {
        let ghost wanted = update_views(updates@);
        match self.check_updates(caller, &updates) {
            Some(e) => {
                return Err(e);
            },
            None => {},
        }
        let mut updated_property_ids: Vec<u64> = Vec::new();
        let mut i: usize = 0;
        while i < updates.len()
            invariant
                self.wf(),
                i <= updates.len(),
                wanted == update_views(updates@),
                self@.properties.len() == old(self)@.properties.len(),
                self@.gas_tracker == old(self)@.gas_tracker,
                self@.events == old(self)@.events,
                forall|j: int|
                    0 <= j < updates.len() ==> old(self)@.has_property((#[trigger] updates@[j]).0),
                self@ == old(self)@.updated_all(wanted, i as nat),
                updated_property_ids@.len() == i,
                forall|j: int| 0 <= j < i ==> updated_property_ids@[j] == updates@[j].0,
            decreases updates.len() - i,
        {
            let at = self.slot_of(updates[i].0);
            self.set_metadata(at, copy_metadata(&updates[i].1));
            updated_property_ids.push(updates[i].0);
            i += 1;
        }
        if updated_property_ids.len() > 0 {
            let count = updated_property_ids.len() as u64;
            assert(updated_property_ids@ =~= wanted.map_values(
                |u: (u64, PropertyMetadataView)| u.0,
            ));
            self.notify(
                Event::BatchMetadataUpdated(
                    BatchMetadataUpdated {
                        owner: caller,
                        event_version: EVENT_VERSION,
                        property_ids: updated_property_ids,
                        count,
                        timestamp: now,
                        block_number,
                        transaction_hash: crate::primitives::Hash::zeroed(),
                    },
                ),
            );
        }
        self.track_gas_usage();
        Ok(())
    }

    /// Transfers several properties, each to its own recipient. Every
    /// transfer is judged first, on the registry as it stands, and the
    /// first refusal refuses them all.
    pub fn batch_transfer_properties_to_multiple(
        &mut self,
        caller: AccountId,
        now: u64,
        block_number: u32,
        transfers: Vec<(u64, AccountId)>,
    ) -> (r: Result<(), Error>)
        requires
            old(self).wf(),
            old(self)@.batch_transfer_to_multiple_fits(caller, transfers@),
        ensures
            final(self).wf(),
            match old(self)@.transfers_refusal(caller, RegistryState::transfer_ids(transfers@), 0) {
                Some(e) => r == Err::<(), Error>(e) && final(self)@ == old(self)@,
                None => r.is_ok() && final(self)@ == old(self)@.after_batch_transfer_to_multiple(
                    caller,
                    now,
                    block_number,
                    transfers@,
                ),
            },
    {
        let ids = Self::ids_of(&transfers);
        match self.check_transfers(caller, &ids) {
            Some(e) => {
                return Err(e);
            },
            None => {},
        }
        assert forall|j: int| 0 <= j < transfers@.len() implies old(self)@.has_property(
            (#[trigger] transfers@[j]).0,
        ) by {
            assert(ids@[j] == transfers@[j].0);
        }
        let mut i: usize = 0;
        while i < transfers.len()
            invariant
                self.wf(),
                i <= transfers.len(),
                self@.properties.len() == old(self)@.properties.len(),
                self@.gas_tracker == old(self)@.gas_tracker,
                self@.events == old(self)@.events,
                forall|j: int|
                    0 <= j < transfers.len() ==> old(self)@.has_property(
                        (#[trigger] transfers@[j]).0,
                    ),
                self@ == old(self)@.moved_each(transfers@, i as nat),
            decreases transfers.len() - i,
        {
            let at = self.slot_of(transfers[i].0);
            self.move_property(at, transfers[i].1);
            i += 1;
        }
        if transfers.len() > 0 {
            let from = self.properties[self.slot_of(transfers[0].0)].info.owner;
            let count = transfers.len() as u64;
            self.notify(
                Event::BatchPropertyTransferredToMultiple(
                    BatchPropertyTransferredToMultiple {
                        from,
                        event_version: EVENT_VERSION,
                        transfers,
                        count,
                        timestamp: now,
                        block_number,
                        transaction_hash: crate::primitives::Hash::zeroed(),
                        transferred_by: caller,
                    },
                ),
            );
        }
        self.track_gas_usage();
        Ok(())
    }

    /// Totals and averages over the properties of one owner. The totals
    /// wrap around rather than overflow.
    pub fn get_portfolio_summary(&self, owner: AccountId) -> (r: PortfolioSummary)
        requires
            self.wf(),
        ensures
            r == self@.portfolio_summary(owner),
    {
        let none: Vec<u64> = Vec::new();
        let ids = match self.owner_properties.get(&owner) {
            Some(held) => held,
            None => &none,
        };
        assert(ids@ =~= self@.owned_by(owner));
        let mut total_valuation: u128 = 0;
        let mut total_size: u64 = 0;
        let mut property_count: u64 = 0;
        let mut i: usize = 0;
        assert(self@.known(ids@, 0) =~= Seq::empty()) by {
            reveal(Seq::filter);
        }
        while i < ids.len()
            invariant
                self.wf(),
                i <= ids.len(),
                total_valuation == self@.wrapped_valuation(ids@, i as nat),
                total_size == self@.wrapped_size(ids@, i as nat),
                property_count == self@.known(ids@, i as nat).len(),
                property_count <= i,
            decreases ids.len() - i,
        {
            proof {
                assert(ids@.take(i + 1) =~= ids@.take(i as int).push(ids@[i as int]));
                ids@.take(i as int).lemma_filter_push(ids@[i as int], self@.is_known());
            }
            match self.position(ids[i]) {
                Some(at) => {
                    let metadata = &self.properties[at].info.metadata;
                    total_valuation = total_valuation.wrapping_add(metadata.valuation);
                    total_size = total_size.wrapping_add(metadata.size);
                    property_count = property_count + 1;
                },
                None => {},
            }
            i += 1;
        }
        PortfolioSummary {
            property_count,
            total_valuation,
            average_valuation: if property_count > 0 {
                total_valuation / property_count as u128
            } else {
                0
            },
            total_size,
            average_size: if property_count > 0 {
                total_size / property_count
            } else {
                0
            },
        }
    }

    /// The properties of one owner, in the order it came by them.
    pub fn get_portfolio_details(&self, owner: AccountId) -> (r: PortfolioDetails)
        requires
            self.wf(),
        ensures
            r@ == (PortfolioDetailsView {
                owner,
                properties: self@.portfolio(owner),
                total_count: self@.portfolio(owner).len() as u64,
            }),
    {
        let none: Vec<u64> = Vec::new();
        let ids = match self.owner_properties.get(&owner) {
            Some(held) => held,
            None => &none,
        };
        assert(ids@ =~= self@.owned_by(owner));
        let mut properties: Vec<PortfolioProperty> = Vec::new();
        let mut i: usize = 0;
        assert(self@.known(ids@, 0) =~= Seq::empty()) by {
            reveal(Seq::filter);
        }
        while i < ids.len()
            invariant
                self.wf(),
                i <= ids.len(),
                properties@.len() <= i,
                views(properties@) =~= self@.known(ids@, i as nat).map_values(
                    self@.portfolio_entry(),
                ),
            decreases ids.len() - i,
        {
            proof {
                assert(ids@.take(i + 1) =~= ids@.take(i as int).push(ids@[i as int]));
                ids@.take(i as int).lemma_filter_push(ids@[i as int], self@.is_known());
            }
            let ghost before = properties@;
            let ghost known_before = self@.known(ids@, i as nat);
            match self.position(ids[i]) {
                Some(at) => {
                    let info = &self.properties[at].info;
                    properties.push(
                        PortfolioProperty {
                            id: info.id,
                            location: info.metadata.location.clone(),
                            size: info.metadata.size,
                            valuation: info.metadata.valuation,
                            registered_at: info.registered_at,
                        },
                    );
                    proof {
                        let entry = self@.property(ids@[i as int]).in_portfolio();
                        assert(views(properties@) =~= views(before).push(entry));
                        assert(self@.known(ids@, (i + 1) as nat) == known_before.push(
                            ids@[i as int],
                        ));
                        assert(known_before.push(ids@[i as int]).map_values(
                            self@.portfolio_entry(),
                        ) =~= known_before.map_values(self@.portfolio_entry()).push(entry));
                    }
                },
                None => {
                    assert(self@.known(ids@, (i + 1) as nat) == known_before);
                },
            }
            i += 1;
        }
        let total_count = properties.len() as u64;
        PortfolioDetails { owner, total_count, properties }
    }

    /// Totals and averages over every registered property, and the number
    /// of distinct owners.
    pub fn get_global_analytics(&self) -> (r: GlobalAnalytics)
        requires
            self.wf(),
            self@.analytics_fit(),
        ensures
            r == self@.global_analytics(),
    {
        let mut total_valuation: u128 = 0;
        let mut total_size: u64 = 0;
        let mut owners: Vec<AccountId> = Vec::new();
        let count = self.properties.len();
        let mut i: usize = 0;
        assert(owners@.to_set() =~= self@.owners(0));
        while i < count
            invariant
                self.wf(),
                self@.analytics_fit(),
                count == self.properties@.len(),
                i <= count,
                total_valuation == self@.total_valuation(i as nat),
                total_size == self@.total_size(i as nat),
                owners@.no_duplicates(),
                owners@.to_set() =~= self@.owners(i as nat),
            decreases count - i,
        {
            proof {
                lemma_totals_grow(self@, (i + 1) as nat, count as nat);
            }
            let info = &self.properties[i].info;
            total_valuation = total_valuation + info.metadata.valuation;
            total_size = total_size + info.metadata.size;
            let ghost before = owners@;
            if !crate::primitives::contains_account(&owners, info.owner) {
                owners.push(info.owner);
            }
            proof {
                let owner = self@.properties[i as int].info.owner;
                assert forall|a: AccountId| owners@.to_set().contains(a) == self@.owners(
                    (i + 1) as nat,
                ).contains(a) by {
                    if owners@.to_set().contains(a) {
                        if before.to_set().contains(a) {
                            assert(self@.owners(i as nat).contains(a));
                            let j = choose|j: int|
                                0 <= j < i && self@.properties[j].info.owner == a;
                            assert(0 <= j < i + 1 && self@.properties[j].info.owner == a);
                        } else {
                            assert(a == owner);
                            assert(0 <= i < i + 1 && self@.properties[i as int].info.owner == a);
                        }
                    }
                    if self@.owners((i + 1) as nat).contains(a) {
                        let j = choose|j: int|
                            0 <= j < i + 1 && self@.properties[j].info.owner == a;
                        if j < i {
                            assert(self@.owners(i as nat).contains(a));
                            assert(before.to_set().contains(a));
                            let k = choose|k: int| 0 <= k < before.len() && before[k] == a;
                            assert(owners@[k] == a);
                        } else {
                            if before.contains(a) {
                                let k = choose|k: int| 0 <= k < before.len() && before[k] == a;
                                assert(owners@[k] == a);
                            } else {
                                assert(owners@[before.len() as int] == a);
                            }
                        }
                    }
                }
            }
            i += 1;
        }
        proof {
            owners@.unique_seq_to_set();
        }
        let property_count = count as u64;
        GlobalAnalytics {
            total_properties: property_count,
            total_valuation,
            average_valuation: if property_count > 0 {
                total_valuation / property_count as u128
            } else {
                0
            },
            total_size,
            average_size: if property_count > 0 {
                total_size / property_count
            } else {
                0
            },
            unique_owners: owners.len() as u64,
        }
    }

    /// The identifiers of the properties whose valuation lies between the
    /// two prices, bounds included, in ascending order.
    pub fn get_properties_by_price_range(&self, min_price: u128, max_price: u128) -> (r: Vec<u64>)
        requires
            self.wf(),
        ensures
            r@ == self@.priced_between(min_price, max_price),
    {
        let ghost wanted = RegistryState::priced(min_price, max_price);
        let mut result: Vec<u64> = Vec::new();
        let mut i: usize = 0;
        assert(self@.properties.take(0).filter(wanted) =~= Seq::empty()) by {
            reveal(Seq::filter);
        }
        while i < self.properties.len()
            invariant
                i <= self.properties.len(),
                wanted == RegistryState::priced(min_price, max_price),
                result@ =~= self@.properties.take(i as int).filter(wanted).map_values(
                    RegistryState::id_of(),
                ),
            decreases self.properties.len() - i,
        {
            proof {
                let all = self@.properties;
                assert(all.take(i + 1) =~= all.take(i as int).push(all[i as int]));
                all.take(i as int).lemma_filter_push(all[i as int], wanted);
            }
            let info = &self.properties[i].info;
            let valuation = info.metadata.valuation;
            if valuation >= min_price && valuation <= max_price {
                result.push(info.id);
            }
            i += 1;
        }
        assert(self@.properties.take(self@.properties.len() as int) =~= self@.properties);
        result
    }

    /// The identifiers of the properties whose size lies between the two
    /// sizes, bounds included, in ascending order.
    pub fn get_properties_by_size_range(&self, min_size: u64, max_size: u64) -> (r: Vec<u64>)
        requires
            self.wf(),
        ensures
            r@ == self@.sized_between(min_size, max_size),
    {
        let ghost wanted = RegistryState::sized(min_size, max_size);
        let mut result: Vec<u64> = Vec::new();
        let mut i: usize = 0;
        assert(self@.properties.take(0).filter(wanted) =~= Seq::empty()) by {
            reveal(Seq::filter);
        }
        while i < self.properties.len()
            invariant
                i <= self.properties.len(),
                wanted == RegistryState::sized(min_size, max_size),
                result@ =~= self@.properties.take(i as int).filter(wanted).map_values(
                    RegistryState::id_of(),
                ),
            decreases self.properties.len() - i,
        {
            proof {
                let all = self@.properties;
                assert(all.take(i + 1) =~= all.take(i as int).push(all[i as int]));
                all.take(i as int).lemma_filter_push(all[i as int], wanted);
            }
            let info = &self.properties[i].info;
            let size = info.metadata.size;
            if size >= min_size && size <= max_size {
                result.push(info.id);
            }
            i += 1;
        }
        assert(self@.properties.take(self@.properties.len() as int) =~= self@.properties);
        result
    }

    /// What the gas usage so far suggests, followed by three standing
    /// recommendations.
    pub fn get_performance_recommendations(&self) -> (r: Vec<String>)
        requires
            self@.recommendations_fit(),
        ensures
            views(r@) == self@.recommendations(),
    {
        let mut recommendations: Vec<String> = Vec::new();
        let avg_gas: u64 = if self.gas_tracker.operation_count > 0 {
            self.gas_tracker.total_gas_used / self.gas_tracker.operation_count
        } else {
            0
        };
        if avg_gas > 50000 {
            recommendations.push(
                "Consider using batch operations for multiple properties".to_owned(),
            );
        }
        if self.gas_tracker.operation_count > 100 && avg_gas < 10000 {
            recommendations.push(
                "Operations are efficient but consider consolidating related operations".to_owned(),
            );
        }
        if self.gas_tracker.max_gas_used > self.gas_tracker.min_gas_used * 10 {
            recommendations.push(
                "Gas usage varies significantly - review operation patterns".to_owned(),
            );
        }
        recommendations.push("Use batch operations for multiple property transfers".to_owned());
        recommendations.push(
            "Prefer portfolio analytics over individual property queries".to_owned(),
        );
        recommendations.push("Consider off-chain indexing for complex analytics".to_owned());
        assert(views(recommendations@) =~= self@.recommendations());
        recommendations
    }

    /// Authorises or dismisses a badge verifier. Only the administrator
    /// may.
    pub fn set_verifier(
        &mut self,
        caller: AccountId,
        now: u64,
        block_number: u32,
        verifier: AccountId,
        authorized: bool,
    ) -> (r: Result<(), Error>)
        requires
            old(self).wf(),
        ensures
            final(self).wf(),
            match old(self)@.admin_refusal(caller) {
                Some(e) => r == Err::<(), Error>(e) && final(self)@ == old(self)@,
                None => r.is_ok() && final(self)@ == old(self)@.after_set_verifier(
                    caller,
                    now,
                    block_number,
                    verifier,
                    authorized,
                ),
            },
    {
        if caller != self.admin {
            return Err(Error::Unauthorized);
        }
        self.badge_verifiers.insert(verifier, authorized);
        self.notify(
            Event::VerifierUpdated(
                VerifierUpdated {
                    verifier,
                    authorized,
                    updated_by: caller,
                    event_version: EVENT_VERSION,
                    timestamp: now,
                    block_number,
                    transaction_hash: crate::primitives::Hash::zeroed(),
                },
            ),
        );
        Ok(())
    }

    /// Whether `account` is an authorised badge verifier.
    pub fn is_verifier(&self, account: AccountId) -> (r: bool)
        requires
            self.wf(),
        ensures
            r == self@.is_verifier(account),
    {
        match self.badge_verifiers.get(&account) {
            Some(authorized) => *authorized,
            None => false,
        }
    }

    /// Replaces a badge of the property at position `at`.
    fn put_badge(&mut self, at: usize, badge_type: BadgeType, badge: Badge)
        requires
            old(self).wf(),
            at < old(self).properties@.len(),
        ensures
            final(self).wf(),
            final(self)@ == old(self)@.with_property(
                (at + 1) as u64,
                old(self)@.property((at + 1) as u64).with_badge(badge_type, Some(badge@)),
            ),
    {
        self.properties[at].set_badge(badge_type, Some(badge));
        assert(self@.properties =~= old(self)@.properties.update(
            at as int,
            old(self)@.property((at + 1) as u64).with_badge(badge_type, Some(badge@)),
        ));
    }

    /// Issues a badge to a property. Verifiers and the administrator may,
    /// unless the property already carries that badge unrevoked.
    pub fn issue_badge(
        &mut self,
        caller: AccountId,
        now: u64,
        block_number: u32,
        property_id: u64,
        badge_type: BadgeType,
        expires_at: Option<u64>,
        metadata_url: String,
    ) -> (r: Result<(), Error>)
        requires
            old(self).wf(),
        ensures
            final(self).wf(),
            match old(self)@.issue_refusal(caller, property_id, badge_type) {
                Some(e) => r == Err::<(), Error>(e) && final(self)@ == old(self)@,
                None => r.is_ok() && final(self)@ == old(self)@.after_issue(
                    caller,
                    now,
                    block_number,
                    property_id,
                    badge_type,
                    expires_at,
                    metadata_url@,
                ),
            },
    {
        if !self.is_verifier(caller) && caller != self.admin {
            return Err(Error::NotVerifier);
        }
        let at = match self.position(property_id) {
            Some(at) => at,
            None => {
                return Err(Error::PropertyNotFound);
            },
        };
        if self.properties[at].has_badge(badge_type) {
            return Err(Error::BadgeAlreadyIssued);
        }
        let badge = Badge {
            badge_type,
            issued_at: now,
            issued_by: caller,
            expires_at,
            metadata_url: metadata_url.clone(),
            revoked: false,
            revoked_at: None,
            revocation_reason: String::new(),
        };
        self.put_badge(at, badge_type, badge);
        self.notify(
            Event::BadgeIssued(
                BadgeIssued {
                    property_id,
                    badge_type,
                    issued_by: caller,
                    event_version: EVENT_VERSION,
                    expires_at,
                    metadata_url,
                    timestamp: now,
                    block_number,
                    transaction_hash: crate::primitives::Hash::zeroed(),
                },
            ),
        );
        Ok(())
    }

    /// Revokes a badge that a property carries. Verifiers and the
    /// administrator may.
    pub fn revoke_badge(
        &mut self,
        caller: AccountId,
        now: u64,
        block_number: u32,
        property_id: u64,
        badge_type: BadgeType,
        reason: String,
    ) -> (r: Result<(), Error>)
        requires
            old(self).wf(),
        ensures
            final(self).wf(),
            match old(self)@.revoke_refusal(caller, property_id, badge_type) {
                Some(e) => r == Err::<(), Error>(e) && final(self)@ == old(self)@,
                None => r.is_ok() && final(self)@ == old(self)@.after_revoke(
                    caller,
                    now,
                    block_number,
                    property_id,
                    badge_type,
                    reason@,
                ),
            },
    {
        if !self.is_verifier(caller) && caller != self.admin {
            return Err(Error::NotVerifier);
        }
        let at = match self.position(property_id) {
            Some(at) => at,
            None => {
                return Err(Error::BadgeNotFound);
            },
        };
        let mut badge = match self.properties[at].badge(badge_type) {
            Some(badge) => copy_badge(badge),
            None => {
                return Err(Error::BadgeNotFound);
            },
        };
        if badge.revoked {
            return Err(Error::BadgeNotFound);
        }
        badge.revoked = true;
        badge.revoked_at = Some(now);
        badge.revocation_reason = reason.clone();
        self.put_badge(at, badge_type, badge);
        self.notify(
            Event::BadgeRevoked(
                BadgeRevoked {
                    property_id,
                    badge_type,
                    revoked_by: caller,
                    event_version: EVENT_VERSION,
                    reason,
                    timestamp: now,
                    block_number,
                    transaction_hash: crate::primitives::Hash::zeroed(),
                },
            ),
        );
        Ok(())
    }

    /// Files the owner's request for a badge and returns its identifier.
    pub fn request_verification(
        &mut self,
        caller: AccountId,
        now: u64,
        block_number: u32,
        property_id: u64,
        badge_type: BadgeType,
        evidence_url: String,
    ) -> (r: Result<u64, Error>)
        requires
            old(self).wf(),
            old(self)@.request_fits(),
        ensures
            final(self).wf(),
            match old(self)@.owner_refusal(caller, property_id) {
                Some(e) => r == Err::<u64, Error>(e) && final(self)@ == old(self)@,
                None => r == Ok::<u64, Error>(old(self)@.next_request_id()) && final(self)@ == old(
                    self,
                )@.after_request(caller, now, block_number, property_id, badge_type, evidence_url@),
            },
    {
        let at = match self.position(property_id) {
            Some(at) => at,
            None => {
                return Err(Error::PropertyNotFound);
            },
        };
        if self.properties[at].info.owner != caller {
            return Err(Error::Unauthorized);
        }
        let request_id: u64 = self.verification_requests.len() as u64 + 1;
        let request = VerificationRequest {
            id: request_id,
            property_id,
            badge_type,
            requester: caller,
            requested_at: now,
            evidence_url: evidence_url.clone(),
            status: VerificationStatus::Pending,
            reviewed_by: None,
            reviewed_at: None,
        };
        let ghost added = request@;
        self.verification_requests.push(request);
        assert(self@.verification_requests =~= old(self)@.verification_requests.push(added));
        self.notify(
            Event::VerificationRequested(
                VerificationRequested {
                    request_id,
                    property_id,
                    badge_type,
                    requester: caller,
                    event_version: EVENT_VERSION,
                    evidence_url,
                    timestamp: now,
                    block_number,
                    transaction_hash: crate::primitives::Hash::zeroed(),
                },
            ),
        );
        Ok(request_id)
    }

    /// Reviews a request for a badge. Verifiers and the administrator may.
    /// An approval issues the badge, and is refused where issuing it is.
    pub fn review_verification(
        &mut self,
        caller: AccountId,
        now: u64,
        block_number: u32,
        request_id: u64,
        approved: bool,
        expires_at: Option<u64>,
        metadata_url: String,
    ) -> (r: Result<(), Error>)
        requires
            old(self).wf(),
        ensures
            final(self).wf(),
            match old(self)@.review_refusal(caller, request_id, approved) {
                Some(e) => r == Err::<(), Error>(e) && final(self)@ == old(self)@,
                None => r.is_ok() && final(self)@ == old(self)@.after_review(
                    caller,
                    now,
                    block_number,
                    request_id,
                    approved,
                    expires_at,
                    metadata_url@,
                ),
            },
    {
        if !self.is_verifier(caller) && caller != self.admin {
            return Err(Error::NotVerifier);
        }
        if request_id < 1 || request_id - 1 >= self.verification_requests.len() as u64 {
            return Err(Error::BadgeNotFound);
        }
        let at = (request_id - 1) as usize;
        let property_id = self.verification_requests[at].property_id;
        let badge_type = self.verification_requests[at].badge_type;
        if approved {
            match self.position(property_id) {
                Some(slot) => {
                    if self.properties[slot].has_badge(badge_type) {
                        return Err(Error::BadgeAlreadyIssued);
                    }
                },
                None => {
                    return Err(Error::PropertyNotFound);
                },
            }
        }
        let request = &mut self.verification_requests[at];
        request.status = if approved {
            VerificationStatus::Approved
        } else {
            VerificationStatus::Rejected
        };
        request.reviewed_by = Some(caller);
        request.reviewed_at = Some(now);
        proof {
            assert(self@.verification_requests =~= old(self)@.verification_requests.update(
                at as int,
                self.verification_requests@[at as int]@,
            ));
        }
        if approved {
            let issued = self.issue_badge(
                caller,
                now,
                block_number,
                property_id,
                badge_type,
                expires_at,
                metadata_url,
            );
            assert(issued.is_ok());
        }
        self.notify(
            Event::VerificationReviewed(
                VerificationReviewed {
                    request_id,
                    property_id,
                    reviewer: caller,
                    approved,
                    event_version: EVENT_VERSION,
                    timestamp: now,
                    block_number,
                    transaction_hash: crate::primitives::Hash::zeroed(),
                },
            ),
        );
        Ok(())
    }

    /// Files the owner's appeal against the revocation of a badge and
    /// returns its identifier.
    pub fn submit_appeal(
        &mut self,
        caller: AccountId,
        now: u64,
        block_number: u32,
        property_id: u64,
        badge_type: BadgeType,
        reason: String,
    ) -> (r: Result<u64, Error>)
        requires
            old(self).wf(),
            old(self)@.appeal_fits(),
        ensures
            final(self).wf(),
            match old(self)@.appeal_refusal(caller, property_id, badge_type) {
                Some(e) => r == Err::<u64, Error>(e) && final(self)@ == old(self)@,
                None => r == Ok::<u64, Error>(old(self)@.next_appeal_id()) && final(self)@ == old(
                    self,
                )@.after_appeal(caller, now, block_number, property_id, badge_type, reason@),
            },
    {
        let at = match self.position(property_id) {
            Some(at) => at,
            None => {
                return Err(Error::PropertyNotFound);
            },
        };
        if self.properties[at].info.owner != caller {
            return Err(Error::Unauthorized);
        }
        match self.properties[at].badge(badge_type) {
            Some(badge) => {
                if !badge.revoked {
                    return Err(Error::InvalidAppealStatus);
                }
            },
            None => {
                return Err(Error::BadgeNotFound);
            },
        }
        let appeal_id: u64 = self.appeals.len() as u64 + 1;
        let appeal = Appeal {
            id: appeal_id,
            property_id,
            badge_type,
            appellant: caller,
            reason: reason.clone(),
            submitted_at: now,
            status: AppealStatus::Pending,
            resolved_by: None,
            resolved_at: None,
            resolution: String::new(),
        };
        let ghost added = appeal@;
        self.appeals.push(appeal);
        assert(self@.appeals =~= old(self)@.appeals.push(added));
        self.notify(
            Event::AppealSubmitted(
                AppealSubmitted {
                    appeal_id,
                    property_id,
                    badge_type,
                    appellant: caller,
                    event_version: EVENT_VERSION,
                    reason,
                    timestamp: now,
                    block_number,
                    transaction_hash: crate::primitives::Hash::zeroed(),
                },
            ),
        );
        Ok(appeal_id)
    }

    /// Resolves an appeal. Only the administrator may. An approval
    /// reinstates the badge.
    pub fn resolve_appeal(
        &mut self,
        caller: AccountId,
        now: u64,
        block_number: u32,
        appeal_id: u64,
        approved: bool,
        resolution: String,
    ) -> (r: Result<(), Error>)
        requires
            old(self).wf(),
        ensures
            final(self).wf(),
            match old(self)@.resolve_refusal(caller, appeal_id) {
                Some(e) => r == Err::<(), Error>(e) && final(self)@ == old(self)@,
                None => r.is_ok() && final(self)@ == old(self)@.after_resolve(
                    caller,
                    now,
                    block_number,
                    appeal_id,
                    approved,
                    resolution@,
                ),
            },
    {
        if caller != self.admin {
            return Err(Error::Unauthorized);
        }
        if appeal_id < 1 || appeal_id - 1 >= self.appeals.len() as u64 {
            return Err(Error::AppealNotFound);
        }
        let at = (appeal_id - 1) as usize;
        let property_id = self.appeals[at].property_id;
        let badge_type = self.appeals[at].badge_type;
        let appeal = &mut self.appeals[at];
        appeal.status = if approved {
            AppealStatus::Approved
        } else {
            AppealStatus::Rejected
        };
        appeal.resolved_by = Some(caller);
        appeal.resolved_at = Some(now);
        appeal.resolution = resolution.clone();
        proof {
            assert(self@.appeals =~= old(self)@.appeals.update(
                at as int,
                self.appeals@[at as int]@,
            ));
        }
        if approved {
            match self.position(property_id) {
                Some(slot) => {
                    let reinstated = match self.properties[slot].badge(badge_type) {
                        Some(badge) => {
                            let mut badge = copy_badge(badge);
                            badge.revoked = false;
                            badge.revoked_at = None;
                            badge.revocation_reason = String::new();
                            Some(badge)
                        },
                        None => None,
                    };
                    match reinstated {
                        Some(badge) => {
                            self.put_badge(slot, badge_type, badge);
                        },
                        None => {},
                    }
                },
                None => {},
            }
        }
        self.notify(
            Event::AppealResolved(
                AppealResolved {
                    appeal_id,
                    property_id,
                    resolved_by: caller,
                    approved,
                    event_version: EVENT_VERSION,
                    resolution,
                    timestamp: now,
                    block_number,
                    transaction_hash: crate::primitives::Hash::zeroed(),
                },
            ),
        );
        Ok(())
    }

    /// The badges of a property that are not revoked, in the order of the
    /// badge types.
    pub fn get_property_badges(&self, property_id: u64) -> (r: Vec<(BadgeType, Badge)>)
        requires
            self.wf(),
        ensures
            badge_views(r@) == self@.active_badges(property_id),
    {
        let mut badges: Vec<(BadgeType, Badge)> = Vec::new();
        match self.position(property_id) {
            Some(at) => {
                let slot = &self.properties[at];
                let ghost p = self@.property(property_id);
                if slot.has_badge(BadgeType::OwnerVerification) {
                    match slot.badge(BadgeType::OwnerVerification) {
                        Some(badge) => badges.push((BadgeType::OwnerVerification, copy_badge(badge))),
                        None => {},
                    }
                }
                assert(badge_views(badges@) =~= RegistryState::active(
                    p,
                    BadgeType::OwnerVerification,
                ));
                if slot.has_badge(BadgeType::DocumentVerification) {
                    match slot.badge(BadgeType::DocumentVerification) {
                        Some(badge) => badges.push(
                            (BadgeType::DocumentVerification, copy_badge(badge)),
                        ),
                        None => {},
                    }
                }
                assert(badge_views(badges@) =~= RegistryState::active(
                    p,
                    BadgeType::OwnerVerification,
                ) + RegistryState::active(p, BadgeType::DocumentVerification));
                if slot.has_badge(BadgeType::LegalCompliance) {
                    match slot.badge(BadgeType::LegalCompliance) {
                        Some(badge) => badges.push((BadgeType::LegalCompliance, copy_badge(badge))),
                        None => {},
                    }
                }
                assert(badge_views(badges@) =~= RegistryState::active(
                    p,
                    BadgeType::OwnerVerification,
                ) + RegistryState::active(p, BadgeType::DocumentVerification)
                    + RegistryState::active(p, BadgeType::LegalCompliance));
                if slot.has_badge(BadgeType::PremiumListing) {
                    match slot.badge(BadgeType::PremiumListing) {
                        Some(badge) => badges.push((BadgeType::PremiumListing, copy_badge(badge))),
                        None => {},
                    }
                }
                assert(badge_views(badges@) =~= self@.active_badges(property_id));
            },
            None => {
                assert(badge_views(badges@) =~= self@.active_badges(property_id));
            },
        }
        badges
    }

    /// Whether a property carries a badge of the given type that is not
    /// revoked.
    pub fn has_badge(&self, property_id: u64, badge_type: BadgeType) -> (r: bool)
        requires
            self.wf(),
        ensures
            r == (self@.has_property(property_id) && self@.property(property_id).has_badge(
                badge_type,
            )),
    {
        match self.position(property_id) {
            Some(at) => self.properties[at].has_badge(badge_type),
            None => false,
        }
    }

    /// The badge of the given type, revoked or not, if one was ever issued
    /// to the property.
    pub fn get_badge(&self, property_id: u64, badge_type: BadgeType) -> (r: Option<Badge>)
        requires
            self.wf(),
        ensures
            badge_view(r) == (if self@.has_property(property_id) {
                self@.property(property_id).badge(badge_type)
            } else {
                None
            }),
    {
        match self.position(property_id) {
            Some(at) => match self.properties[at].badge(badge_type) {
                Some(badge) => Some(copy_badge(badge)),
                None => None,
            },
            None => None,
        }
    }

    /// The request for a badge with this identifier, if it exists.
    pub fn get_verification_request(&self, request_id: u64) -> (r: Option<VerificationRequest>)
        requires
            self.wf(),
        ensures
            match r {
                Some(request) => self@.has_request(request_id) && request@ == self@.request(
                    request_id,
                ),
                None => !self@.has_request(request_id),
            },
    {
        if request_id >= 1 && request_id - 1 < self.verification_requests.len() as u64 {
            let request = &self.verification_requests[(request_id - 1) as usize];
            Some(
                VerificationRequest {
                    id: request.id,
                    property_id: request.property_id,
                    badge_type: request.badge_type,
                    requester: request.requester,
                    requested_at: request.requested_at,
                    evidence_url: request.evidence_url.clone(),
                    status: request.status,
                    reviewed_by: request.reviewed_by,
                    reviewed_at: request.reviewed_at,
                },
            )
        } else {
            None
        }
    }

    /// The appeal with this identifier, if it exists.
    pub fn get_appeal(&self, appeal_id: u64) -> (r: Option<Appeal>)
        requires
            self.wf(),
        ensures
            match r {
                Some(appeal) => self@.has_appeal(appeal_id) && appeal@ == self@.appeal(appeal_id),
                None => !self@.has_appeal(appeal_id),
            },
    {
        if appeal_id >= 1 && appeal_id - 1 < self.appeals.len() as u64 {
            let appeal = &self.appeals[(appeal_id - 1) as usize];
            Some(
                Appeal {
                    id: appeal.id,
                    property_id: appeal.property_id,
                    badge_type: appeal.badge_type,
                    appellant: appeal.appellant,
                    reason: appeal.reason.clone(),
                    submitted_at: appeal.submitted_at,
                    status: appeal.status,
                    resolved_by: appeal.resolved_by,
                    resolved_at: appeal.resolved_at,
                    resolution: appeal.resolution.clone(),
                },
            )
        } else {
            None
        }
    }
}

impl crate::traits::PropertyRegistry for PropertyRegistry {
    type Error = Error;

    open spec fn wf(&self) -> bool {
        PropertyRegistry::wf(self)
    }

    open spec fn has_room(&self) -> bool {
        self@.register_fits(1)
    }

    fn register_property(
        &mut self,
        caller: AccountId,
        now: u64,
        block_number: u32,
        metadata: PropertyMetadata,
    ) -> (r: Result<u64, Error>)
        ensures
            r == Ok::<u64, Error>(old(self)@.next_property_id()),
            final(self)@ == old(self)@.after_register(caller, now, block_number, metadata@),
    {
        PropertyRegistry::register_property(self, caller, now, block_number, metadata)
    }

    fn transfer_property(
        &mut self,
        caller: AccountId,
        now: u64,
        block_number: u32,
        property_id: u64,
        to: AccountId,
    ) -> (r: Result<(), Error>)
        ensures
            match old(self)@.transfer_refusal(caller, property_id) {
                Some(e) => r == Err::<(), Error>(e) && final(self)@ == old(self)@,
                None => r.is_ok() && final(self)@ == old(self)@.after_transfer(
                    caller,
                    now,
                    block_number,
                    property_id,
                    to,
                ),
            },
    {
        PropertyRegistry::transfer_property(self, caller, now, block_number, property_id, to)
    }

    fn get_property(&self, property_id: u64) -> (r: Option<PropertyInfo>)
        ensures
            match r {
                Some(info) => self@.has_property(property_id) && info@ == self@.property(
                    property_id,
                ).info,
                None => !self@.has_property(property_id),
            },
    {
        PropertyRegistry::get_property(self, property_id)
    }

    fn update_metadata(
        &mut self,
        caller: AccountId,
        now: u64,
        block_number: u32,
        property_id: u64,
        metadata: PropertyMetadata,
    ) -> (r: Result<(), Error>)
        ensures
            match old(self)@.update_refusal(caller, property_id, metadata@) {
                Some(e) => r == Err::<(), Error>(e) && final(self)@ == old(self)@,
                None => r.is_ok() && final(self)@ == old(self)@.after_update(
                    caller,
                    now,
                    block_number,
                    property_id,
                    metadata@,
                ),
            },
    {
        PropertyRegistry::update_metadata(self, caller, now, block_number, property_id, metadata)
    }

    fn approve(
        &mut self,
        caller: AccountId,
        now: u64,
        block_number: u32,
        property_id: u64,
        to: Option<AccountId>,
    ) -> (r: Result<(), Error>)
        ensures
            match old(self)@.owner_refusal(caller, property_id) {
                Some(e) => r == Err::<(), Error>(e) && final(self)@ == old(self)@,
                None => r.is_ok() && final(self)@ == old(self)@.after_approve(
                    caller,
                    now,
                    block_number,
                    property_id,
                    to,
                ),
            },
    {
        PropertyRegistry::approve(self, caller, now, block_number, property_id, to)
    }

    fn get_approved(&self, property_id: u64) -> (r: Option<AccountId>)
        ensures
            r == (if self@.has_property(property_id) {
                self@.property(property_id).approved
            } else {
                None
            }),
    {
        PropertyRegistry::get_approved(self, property_id)
    }
}

impl crate::traits::Escrow for PropertyRegistry {
    type Error = Error;

    open spec fn wf(&self) -> bool {
        PropertyRegistry::wf(self)
    }

    open spec fn has_room(&self) -> bool {
        self@.escrow_fits() && self@.gas_fits()
    }

    /// Anyone but the owner of the property is refused and nothing changes;
    /// for the owner the next escrow is opened with the owner as its buyer.
    open spec fn opened(
        &self,
        caller: AccountId,
        now: u64,
        block_number: u32,
        property_id: u64,
        amount: u128,
        r: Result<u64, Error>,
        after: &Self,
    ) -> bool {
        match self@.owner_refusal(caller, property_id) {
            Some(e) => r == Err::<u64, Error>(e) && after@ == self@,
            None => r == Ok::<u64, Error>(self@.next_escrow_id()) && after@
                == self@.after_create_escrow(now, block_number, property_id, caller, amount),
        }
    }

    /// Opens an escrow with the caller as the buyer, so it succeeds only
    /// for the owner of the property.
    fn create_escrow(
        &mut self,
        caller: AccountId,
        now: u64,
        block_number: u32,
        property_id: u64,
        amount: u128,
    ) -> (r: Result<u64, Error>) {
        PropertyRegistry::create_escrow(self, caller, now, block_number, property_id, caller, amount)
    }

    fn release_escrow(
        &mut self,
        caller: AccountId,
        now: u64,
        block_number: u32,
        escrow_id: u64,
    ) -> (r: Result<(), Error>)
        ensures
            match old(self)@.release_refusal(caller, escrow_id) {
                Some(e) => r == Err::<(), Error>(e) && final(self)@ == old(self)@,
                None => r.is_ok() && final(self)@ == old(self)@.after_release_escrow(
                    caller,
                    now,
                    block_number,
                    escrow_id,
                ),
            },
    {
        PropertyRegistry::release_escrow(self, caller, now, block_number, escrow_id)
    }

    fn refund_escrow(
        &mut self,
        caller: AccountId,
        now: u64,
        block_number: u32,
        escrow_id: u64,
    ) -> (r: Result<(), Error>)
        ensures
            match old(self)@.refund_refusal(caller, escrow_id) {
                Some(e) => r == Err::<(), Error>(e) && final(self)@ == old(self)@,
                None => r.is_ok() && final(self)@ == old(self)@.after_refund_escrow(
                    caller,
                    now,
                    block_number,
                    escrow_id,
                ),
            },
    {
        PropertyRegistry::refund_escrow(self, caller, now, block_number, escrow_id)
    }
}

/// The totals over fewer properties are no greater.
proof fn lemma_totals_grow(s: RegistryState, n: nat, m: nat)
    requires
        n <= m,
    ensures
        s.total_valuation(n) <= s.total_valuation(m),
        s.total_size(n) <= s.total_size(m),
        0 <= s.total_valuation(n),
        0 <= s.total_size(n),
    decreases m,
{
    if n < m {
        lemma_totals_grow(s, n, (m - 1) as nat);
    } else if n > 0 {
        lemma_totals_grow(s, (n - 1) as nat, (n - 1) as nat);
    }
}

} // verus!
