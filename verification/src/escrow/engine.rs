//! The engine itself: executable operations, each proved against the model.

use vstd::prelude::*;
use vstd::string::StringExecFns;
use crate::primitives::{contains_account, copy_accounts, views, AccountId};
use crate::text::decimal_string;
use crate::escrow::events::{
    ConditionAdded, ConditionMet, DisputeRaised, DisputeResolved, DocumentUploaded,
    DocumentVerified, EmergencyOverride, EscrowCreated, Event, FundsDeposited, FundsRefunded,
    FundsReleased, SignatureAdded,
};
use crate::escrow::model::{approval_name, first_document, status_name, EngineState, EscrowState};
use crate::escrow::types::{
    ApprovalType, AuditEntry, Condition, DisputeInfo, DocumentHash, Error, EscrowData,
    EscrowStatus, MultiSigConfig, TransferError, TransferOrder,
};

verus! {

/// The storage of one escrow.
struct EscrowSlot {
    data: EscrowData,
    config: MultiSigConfig,
    release_signers: Vec<AccountId>,
    refund_signers: Vec<AccountId>,
    override_signers: Vec<AccountId>,
    documents: Vec<DocumentHash>,
    conditions: Vec<Condition>,
    dispute: Option<DisputeInfo>,
    audit: Vec<AuditEntry>,
}

impl View for EscrowSlot {
    type V = EscrowState;

    closed spec fn view(&self) -> EscrowState {
        EscrowState {
            data: self.data@,
            config: self.config@,
            release_signers: self.release_signers@,
            refund_signers: self.refund_signers@,
            override_signers: self.override_signers@,
            documents: views(self.documents@),
            conditions: views(self.conditions@),
            dispute: match self.dispute {
                Some(dispute) => Some(dispute@),
                None => None,
            },
            audit: views(self.audit@),
        }
    }
}

/// The escrow engine: every escrow with its registries, the administrator,
/// and the notifications not yet handed to the host.
pub struct AdvancedEscrow {
    escrows: Vec<EscrowSlot>,
    admin: AccountId,
    min_high_value_threshold: u128,
    events: Vec<Event>,
}

impl View for AdvancedEscrow {
    type V = EngineState;

    closed spec fn view(&self) -> EngineState {
        EngineState {
            admin: self.admin,
            min_high_value_threshold: self.min_high_value_threshold,
            escrows: views(self.escrows@),
            events: views(self.events@),
        }
    }
}

fn copy_document(d: &DocumentHash) -> (r: DocumentHash)
    ensures
        r@ == d@,
{
    DocumentHash {
        hash: d.hash,
        document_type: d.document_type.clone(),
        uploaded_by: d.uploaded_by,
        uploaded_at: d.uploaded_at,
        verified: d.verified,
    }
}

fn copy_condition(c: &Condition) -> (r: Condition)
    ensures
        r@ == c@,
{
    Condition {
        id: c.id,
        description: c.description.clone(),
        met: c.met,
        verified_by: c.verified_by,
        verified_at: c.verified_at,
    }
}

fn copy_audit_entry(a: &AuditEntry) -> (r: AuditEntry)
    ensures
        r@ == a@,
{
    AuditEntry {
        timestamp: a.timestamp,
        actor: a.actor,
        action: a.action.clone(),
        details: a.details.clone(),
    }
}

fn copy_dispute(d: &DisputeInfo) -> (r: DisputeInfo)
    ensures
        r@ == d@,
{
    DisputeInfo {
        escrow_id: d.escrow_id,
        raised_by: d.raised_by,
        reason: d.reason.clone(),
        raised_at: d.raised_at,
        resolved: d.resolved,
        resolution: match &d.resolution {
            Some(text) => Some(text.clone()),
            None => None,
        },
    }
}

fn copy_documents(list: &Vec<DocumentHash>) -> (r: Vec<DocumentHash>)
    ensures
        views(r@) == views(list@),
{
    let mut out: Vec<DocumentHash> = Vec::new();
    let mut i: usize = 0;
    while i < list.len()
        invariant
            i <= list.len(),
            out@.len() == i,
            forall|j: int| 0 <= j < i ==> (#[trigger] out@[j])@ == list@[j]@,
        decreases list.len() - i,
    {
        out.push(copy_document(&list[i]));
        i += 1;
    }
    assert(views(out@) =~= views(list@));
    out
}

fn copy_conditions(list: &Vec<Condition>) -> (r: Vec<Condition>)
    ensures
        views(r@) == views(list@),
{
    let mut out: Vec<Condition> = Vec::new();
    let mut i: usize = 0;
    while i < list.len()
        invariant
            i <= list.len(),
            out@.len() == i,
            forall|j: int| 0 <= j < i ==> (#[trigger] out@[j])@ == list@[j]@,
        decreases list.len() - i,
    {
        out.push(copy_condition(&list[i]));
        i += 1;
    }
    assert(views(out@) =~= views(list@));
    out
}

fn copy_audit(list: &Vec<AuditEntry>) -> (r: Vec<AuditEntry>)
    ensures
        views(r@) == views(list@),
{
    let mut out: Vec<AuditEntry> = Vec::new();
    let mut i: usize = 0;
    while i < list.len()
        invariant
            i <= list.len(),
            out@.len() == i,
            forall|j: int| 0 <= j < i ==> (#[trigger] out@[j])@ == list@[j]@,
        decreases list.len() - i,
    {
        out.push(copy_audit_entry(&list[i]));
        i += 1;
    }
    assert(views(out@) =~= views(list@));
    out
}

/// The position of the first document with fingerprint `hash`, or the
/// length of the list if there is none.
fn find_document(list: &Vec<DocumentHash>, hash: crate::primitives::Hash) -> (r: usize)
    ensures
        r == first_document(views(list@), hash, 0),
        r <= list@.len(),
{
    let mut i: usize = 0;
    while i < list.len()
        invariant
            i <= list.len(),
            first_document(views(list@), hash, 0) == first_document(views(list@), hash, i as int),
        decreases list.len() - i,
    {
        if list[i].hash == hash {
            return i;
        }
        i += 1;
    }
    i
}

/// `label` followed by `value`.
fn labelled(label: &str, value: &str) -> (s: String)
    ensures
        s@ == label@ + value@,
{
    label.to_owned().concat(value)
}

fn audit_entry(now: u64, actor: AccountId, action: &str, details: String) -> (r: AuditEntry)
    ensures
        r@ == (crate::escrow::types::AuditEntryView {
            timestamp: now,
            actor,
            action: action@,
            details: details@,
        }),
{
    AuditEntry { timestamp: now, actor, action: action.to_owned(), details }
}

fn status_label(status: EscrowStatus) -> (s: &'static str)
    ensures
        s@ == status_name(status),
{
    match status {
        EscrowStatus::Created => "Created",
        EscrowStatus::Funded => "Funded",
        EscrowStatus::Active => "Active",
        EscrowStatus::Released => "Released",
        EscrowStatus::Refunded => "Refunded",
        EscrowStatus::Disputed => "Disputed",
        EscrowStatus::Cancelled => "Cancelled",
    }
}

fn approval_label(approval_type: ApprovalType) -> (s: &'static str)
    ensures
        s@ == approval_name(approval_type),
{
    match approval_type {
        ApprovalType::Release => "Release",
        ApprovalType::Refund => "Refund",
        ApprovalType::EmergencyOverride => "EmergencyOverride",
    }
}

impl EscrowSlot {
    fn dispute_active(&self) -> (r: bool)
        ensures
            r == self@.dispute_active(),
    {
        match &self.dispute {
            Some(dispute) => !dispute.resolved,
            None => false,
        }
    }

    fn is_closed(&self) -> (r: bool)
        ensures
            r == self@.is_closed(),
    {
        self.data.status == EscrowStatus::Released || self.data.status == EscrowStatus::Refunded
    }

    fn reported_status(&self) -> (r: EscrowStatus)
        ensures
            r == self@.reported_status(),
    {
        if self.dispute_active() && !self.is_closed() {
            EscrowStatus::Disputed
        } else {
            self.data.status
        }
    }

    fn all_conditions_met(&self) -> (r: bool)
        ensures
            r == self@.all_conditions_met(),
    {
        let mut i: usize = 0;
        while i < self.conditions.len()
            invariant
                i <= self.conditions.len(),
                forall|j: int| 0 <= j < i ==> (#[trigger] self@.conditions[j]).met,
            decreases self.conditions.len() - i,
        {
            if !self.conditions[i].met {
                assert(!self@.conditions[i as int].met);
                return false;
            }
            i += 1;
        }
        true
    }

    fn signers_of(&self, approval_type: ApprovalType) -> (r: &Vec<AccountId>)
        ensures
            r@ == self@.signed(approval_type),
    {
        match approval_type {
            ApprovalType::Release => &self.release_signers,
            ApprovalType::Refund => &self.refund_signers,
            ApprovalType::EmergencyOverride => &self.override_signers,
        }
    }

    fn threshold_met(&self, approval_type: ApprovalType) -> (r: bool)
        ensures
            r == self@.threshold_met(approval_type),
    {
        self.signers_of(approval_type).len() >= self.config.required_signatures as usize
    }

    fn is_party(&self, who: AccountId) -> (r: bool)
        ensures
            r == self@.is_party(who),
    {
        who == self.data.buyer || who == self.data.seller
    }
}

impl AdvancedEscrow {
    /// An empty engine administered by `admin`.
    pub fn new(admin: AccountId, min_high_value_threshold: u128) -> (r: Self)
        ensures
            r@.wf(),
            r@ == (EngineState {
                admin,
                min_high_value_threshold,
                escrows: Seq::empty(),
                events: Seq::empty(),
            }),
    {
        let r = AdvancedEscrow {
            escrows: Vec::new(),
            admin,
            min_high_value_threshold,
            events: Vec::new(),
        };
        assert(r@.escrows =~= Seq::empty());
        assert(r@.events =~= Seq::empty());
        r
    }

    /// The position of escrow `escrow_id` in the store, if it exists.
    fn position(&self, escrow_id: u64) -> (r: Option<usize>)
        requires
            self@.wf(),
        ensures
            match r {
                Some(i) => self@.has(escrow_id) && i == escrow_id - 1 && i < self.escrows@.len(),
                None => !self@.has(escrow_id),
            },
    {
        if escrow_id >= 1 && escrow_id - 1 < self.escrows.len() as u64 {
            Some((escrow_id - 1) as usize)
        } else {
            None
        }
    }

    /// The administrator.
    pub fn get_admin(&self) -> (r: AccountId)
        ensures
            r == self@.admin,
    {
        self.admin
    }

    /// The amount from which an escrow counts as high-value.
    pub fn get_high_value_threshold(&self) -> (r: u128)
        ensures
            r == self@.min_high_value_threshold,
    {
        self.min_high_value_threshold
    }

    /// How many escrows have been created.
    pub fn escrow_count(&self) -> (r: u64)
        requires
            self@.wf(),
        ensures
            r == self@.escrows.len(),
    {
        self.escrows.len() as u64
    }

    /// Whether the store has room for the escrow that a creation with
    /// these participants and this quorum would add.
    pub fn create_fits(&self, participants: &Vec<AccountId>, required_signatures: u8) -> (r: bool)
        requires
            self@.wf(),
        ensures
            r == self@.create_fits(participants@, required_signatures),
    {
        if required_signatures == 0 || participants.len() == 0 || required_signatures as usize
            > participants.len() {
            true
        } else {
            (self.escrows.len() as u64) < u64::MAX
        }
    }

    /// Whether the custodied amount of the escrow can take `amount` more,
    /// if a deposit is admitted at all.
    pub fn deposit_fits(&self, escrow_id: u64, amount: u128) -> (r: bool)
        requires
            self@.wf(),
        ensures
            r == self@.deposit_fits(escrow_id, amount),
    {
        match self.position(escrow_id) {
            Some(at) => {
                let data = &self.escrows[at].data;
                if data.status != EscrowStatus::Created && data.status != EscrowStatus::Funded {
                    true
                } else {
                    data.deposited_amount <= u128::MAX - amount
                }
            },
            None => true,
        }
    }

    /// Whether the condition list of the escrow can take one more entry,
    /// if `caller` may add one at all.
    pub fn condition_fits(&self, caller: AccountId, escrow_id: u64) -> (r: bool)
        requires
            self@.wf(),
        ensures
            r == self@.condition_fits(caller, escrow_id),
    {
        match self.position(escrow_id) {
            Some(at) => {
                if self.escrows[at].is_closed() || !self.escrows[at].is_party(caller) {
                    true
                } else {
                    (self.escrows[at].conditions.len() as u64) < u64::MAX
                }
            },
            None => true,
        }
    }

    /// Whether the signature counter of the escrow can take one more, if
    /// `caller` may sign at all.
    pub fn signature_fits(
        &self,
        caller: AccountId,
        escrow_id: u64,
        approval_type: ApprovalType,
    ) -> (r: bool)
        requires
            self@.wf(),
        ensures
            r == self@.signature_fits(caller, escrow_id, approval_type),
    {
        match self.position(escrow_id) {
            Some(at) => {
                let slot = &self.escrows[at];
                if slot.is_closed() || !contains_account(&slot.config.signers, caller)
                    || contains_account(slot.signers_of(approval_type), caller) {
                    true
                } else {
                    slot.signers_of(approval_type).len() < 255
                }
            },
            None => true,
        }
    }

    /// Opens an escrow between `buyer` and `seller` and returns its
    /// identifier. Any principal may call this. It is refused, with
    /// `InvalidConfiguration`, exactly when `required_signatures` is zero or
    /// exceeds the number of participants.
    pub fn create_escrow_advanced(
        &mut self,
        caller: AccountId,
        now: u64,
        property_id: u64,
        amount: u128,
        buyer: AccountId,
        seller: AccountId,
        participants: Vec<AccountId>,
        required_signatures: u8,
        release_time_lock: Option<u64>,
    ) -> (r: Result<u64, Error>)
        requires
            old(self)@.wf(),
            old(self)@.create_fits(participants@, required_signatures),
        ensures
            final(self)@.wf(),
            match EngineState::create_refusal(participants@, required_signatures) {
                Some(e) => r == Err::<u64, Error>(e) && final(self)@ == old(self)@,
                None => r == Ok::<u64, Error>(old(self)@.next_id()) && final(self)@ == old(
                    self,
                )@.after_create(
                    caller,
                    now,
                    property_id,
                    amount,
                    buyer,
                    seller,
                    participants@,
                    required_signatures,
                    release_time_lock,
                ),
            },
    {
        if required_signatures == 0 || participants.len() == 0 {
            return Err(Error::InvalidConfiguration);
        }
        if required_signatures as usize > participants.len() {
            return Err(Error::InvalidConfiguration);
        }
        let escrow_id: u64 = self.escrows.len() as u64 + 1;
        let details = labelled("Property: ", decimal_string(property_id as u128).as_str()).concat(
            ", Amount: ",
        ).concat(decimal_string(amount).as_str());
        let mut audit: Vec<AuditEntry> = Vec::new();
        audit.push(audit_entry(now, caller, "EscrowCreated", details));
        let signers = copy_accounts(&participants);
        let slot = EscrowSlot {
            data: EscrowData {
                id: escrow_id,
                property_id,
                buyer,
                seller,
                amount,
                deposited_amount: 0,
                status: EscrowStatus::Created,
                created_at: now,
                release_time_lock,
                participants,
            },
            config: MultiSigConfig { required_signatures, signers },
            release_signers: Vec::new(),
            refund_signers: Vec::new(),
            override_signers: Vec::new(),
            documents: Vec::new(),
            conditions: Vec::new(),
            dispute: None,
            audit,
        };
        proof {
            let ghost want = old(self)@.after_create(
                caller,
                now,
                property_id,
                amount,
                buyer,
                seller,
                participants@,
                required_signatures,
                release_time_lock,
            );
            assert(slot@.audit =~= want.escrows.last().audit);
            assert(slot@.documents =~= Seq::empty());
            assert(slot@.conditions =~= Seq::empty());
            assert(slot@ == want.escrows.last());
        }
        let ghost added = slot@;
        self.escrows.push(slot);
        self.events.push(
            Event::EscrowCreated(EscrowCreated { escrow_id, property_id, buyer, seller, amount }),
        );
        proof {
            assert(self@.escrows =~= old(self)@.escrows.push(added));
            assert(self@.events =~= old(self)@.events.push(self.events@.last()@));
        }
        Ok(escrow_id)
    }

    /// Adds `amount` to the custody of an escrow that is `Created` or
    /// `Funded`. The escrow becomes `Active` once the custodied amount
    /// reaches the agreed amount, and is `Funded` until then.
    pub fn deposit_funds(
        &mut self,
        caller: AccountId,
        now: u64,
        escrow_id: u64,
        amount: u128,
    ) -> (r: Result<(), Error>)
        requires
            old(self)@.wf(),
            old(self)@.deposit_fits(escrow_id, amount),
        ensures
            final(self)@.wf(),
            match old(self)@.deposit_refusal(escrow_id) {
                Some(e) => r == Err::<(), Error>(e) && final(self)@ == old(self)@,
                None => r.is_ok() && final(self)@ == old(self)@.after_deposit(
                    caller,
                    now,
                    escrow_id,
                    amount,
                ),
            },
    {
        let at = match self.position(escrow_id) {
            Some(at) => at,
            None => {
                return Err(Error::EscrowNotFound);
            },
        };
        let status = self.escrows[at].data.status;
        if status != EscrowStatus::Created && status != EscrowStatus::Funded {
            return Err(Error::InvalidStatus);
        }
        let details = labelled("Amount: ", decimal_string(amount).as_str());
        let entry = audit_entry(now, caller, "FundsDeposited", details);
        let ghost before = self.escrows@[at as int]@;
        let slot = &mut self.escrows[at];
        slot.data.deposited_amount = slot.data.deposited_amount + amount;
        slot.data.status = if slot.data.deposited_amount >= slot.data.amount {
            EscrowStatus::Active
        } else {
            EscrowStatus::Funded
        };
        slot.audit.push(entry);
        self.events.push(Event::FundsDeposited(FundsDeposited { escrow_id, amount, depositor: caller }));
        proof {
            let ghost want = old(self)@.after_deposit(caller, now, escrow_id, amount);
            assert(self.escrows@[at as int]@.audit =~= want.escrow(escrow_id).audit);
            assert(self.escrows@[at as int]@ == want.escrow(escrow_id));
            assert(self@.escrows =~= want.escrows);
            assert(self@.events =~= want.events);
        }
        Ok(())
    }

    /// The checks of a release, with the position of the escrow.
    fn checked_release(
        &self,
        escrow_id: u64,
        now: u64,
    ) -> (r: Result<(usize, TransferOrder), Error>)
        requires
            self@.wf(),
        ensures
            match self@.release_refusal(escrow_id, now) {
                Some(e) => r == Err::<(usize, TransferOrder), Error>(e),
                None => r.is_ok() && r.unwrap().0 == escrow_id - 1 && r.unwrap().0
                    < self.escrows@.len() && r.unwrap().1 == self@.release_transfer(escrow_id),
            },
    {
        let at = match self.position(escrow_id) {
            Some(at) => at,
            None => {
                return Err(Error::EscrowNotFound);
            },
        };
        let slot = &self.escrows[at];
        if slot.data.status != EscrowStatus::Active {
            return Err(Error::InvalidStatus);
        }
        if slot.dispute_active() {
            return Err(Error::DisputeActive);
        }
        if let Some(time_lock) = slot.data.release_time_lock {
            if now < time_lock {
                return Err(Error::TimeLockActive);
            }
        }
        if !slot.all_conditions_met() {
            return Err(Error::ConditionsNotMet);
        }
        if !slot.threshold_met(ApprovalType::Release) {
            return Err(Error::SignatureThresholdNotMet);
        }
        Ok((at, TransferOrder { to: slot.data.seller, amount: slot.data.deposited_amount }))
    }

    /// Whether a release at time `now` would pass every check, and what it
    /// would then move. The checks come in a fixed order, each with its own
    /// error: the escrow exists; its status is `Active`; no dispute is
    /// unresolved; the time-lock, if any, has expired; every condition is
    /// met; enough signers have approved the release.
    pub fn release_order(&self, escrow_id: u64, now: u64) -> (r: Result<TransferOrder, Error>)
        requires
            self@.wf(),
        ensures
            match self@.release_refusal(escrow_id, now) {
                Some(e) => r == Err::<TransferOrder, Error>(e),
                None => r == Ok::<TransferOrder, Error>(self@.release_transfer(escrow_id)),
            },
    {
        match self.checked_release(escrow_id, now) {
            Ok((_, order)) => Ok(order),
            Err(e) => Err(e),
        }
    }

    /// Concludes a release once the ledger has answered the transfer that
    /// `release_order` asked for. The checks are made again; if they pass
    /// and the transfer went through, the escrow becomes `Released`. A
    /// refused transfer fails with `InsufficientFunds` and changes nothing.
    pub fn settle_release(
        &mut self,
        caller: AccountId,
        now: u64,
        escrow_id: u64,
        credited: Result<(), TransferError>,
    ) -> (r: Result<(), Error>)
        requires
            old(self)@.wf(),
        ensures
            final(self)@.wf(),
            match old(self)@.release_verdict(escrow_id, now, credited) {
                Some(e) => r == Err::<(), Error>(e) && final(self)@ == old(self)@,
                None => r.is_ok() && final(self)@ == old(self)@.after_release(
                    caller,
                    now,
                    escrow_id,
                ),
            },
    {
        let (at, order) = match self.checked_release(escrow_id, now) {
            Ok(found) => found,
            Err(e) => {
                return Err(e);
            },
        };
        if credited.is_err() {
            return Err(Error::InsufficientFunds);
        }
        let details = labelled("Amount: ", decimal_string(order.amount).as_str()).concat(
            " to seller",
        );
        let entry = audit_entry(now, caller, "FundsReleased", details);
        let slot = &mut self.escrows[at];
        slot.data.status = EscrowStatus::Released;
        slot.audit.push(entry);
        self.events.push(
            Event::FundsReleased(
                FundsReleased { escrow_id, amount: order.amount, recipient: order.to },
            ),
        );
        proof {
            let ghost want = old(self)@.after_release(caller, now, escrow_id);
            assert(self.escrows@[at as int]@.audit =~= want.escrow(escrow_id).audit);
            assert(self.escrows@[at as int]@ == want.escrow(escrow_id));
            assert(self@.escrows =~= want.escrows);
            assert(self@.events =~= want.events);
        }
        Ok(())
    }

    /// Releases the custodied amount to the seller. `credit` is the ledger's
    /// transfer primitive; it is called at most once, after every check has
    /// passed, with the seller and the whole custodied amount.
    pub fn release_funds<F: FnOnce(AccountId, u128) -> Result<(), TransferError>>(
        &mut self,
        caller: AccountId,
        now: u64,
        escrow_id: u64,
        credit: F,
    ) -> (r: Result<(), Error>)
        requires
            old(self)@.wf(),
            old(self)@.release_refusal(escrow_id, now).is_none() ==> call_requires(
                credit,
                (
                    old(self)@.release_transfer(escrow_id).to,
                    old(self)@.release_transfer(escrow_id).amount,
                ),
            ),
        ensures
            final(self)@.wf(),
            match old(self)@.release_refusal(escrow_id, now) {
                Some(e) => r == Err::<(), Error>(e) && final(self)@ == old(self)@,
                None => exists|credited: Result<(), TransferError>|
                    {
                        &&& call_ensures(
                            credit,
                            (
                                old(self)@.release_transfer(escrow_id).to,
                                old(self)@.release_transfer(escrow_id).amount,
                            ),
                            credited,
                        )
                        &&& match credited {
                            Ok(_) => r.is_ok() && final(self)@ == old(self)@.after_release(
                                caller,
                                now,
                                escrow_id,
                            ),
                            Err(_) => r == Err::<(), Error>(Error::InsufficientFunds)
                                && final(self)@ == old(self)@,
                        }
                    },
            },
    {
        let order = match self.release_order(escrow_id, now) {
            Ok(order) => order,
            Err(e) => {
                return Err(e);
            },
        };
        let credited = credit(order.to, order.amount);
        self.settle_release(caller, now, escrow_id, credited)
    }

    /// The checks of a refund, with the position of the escrow.
    fn checked_refund(&self, escrow_id: u64) -> (r: Result<(usize, TransferOrder), Error>)
        requires
            self@.wf(),
        ensures
            match self@.refund_refusal(escrow_id) {
                Some(e) => r == Err::<(usize, TransferOrder), Error>(e),
                None => r.is_ok() && r.unwrap().0 == escrow_id - 1 && r.unwrap().0
                    < self.escrows@.len() && r.unwrap().1 == self@.refund_transfer(escrow_id),
            },
    {
        let at = match self.position(escrow_id) {
            Some(at) => at,
            None => {
                return Err(Error::EscrowNotFound);
            },
        };
        let slot = &self.escrows[at];
        if slot.data.status != EscrowStatus::Active && slot.data.status != EscrowStatus::Funded {
            return Err(Error::InvalidStatus);
        }
        if !slot.threshold_met(ApprovalType::Refund) {
            return Err(Error::SignatureThresholdNotMet);
        }
        Ok((at, TransferOrder { to: slot.data.buyer, amount: slot.data.deposited_amount }))
    }

    /// Whether a refund would pass every check, and what it would then
    /// move. The escrow must be `Active` or `Funded` and enough signers must
    /// have approved the refund; disputes and conditions do not matter.
    pub fn refund_order(&self, escrow_id: u64) -> (r: Result<TransferOrder, Error>)
        requires
            self@.wf(),
        ensures
            match self@.refund_refusal(escrow_id) {
                Some(e) => r == Err::<TransferOrder, Error>(e),
                None => r == Ok::<TransferOrder, Error>(self@.refund_transfer(escrow_id)),
            },
    {
        match self.checked_refund(escrow_id) {
            Ok((_, order)) => Ok(order),
            Err(e) => Err(e),
        }
    }

    /// Concludes a refund once the ledger has answered the transfer that
    /// `refund_order` asked for. The checks are made again; if they pass and
    /// the transfer went through, the escrow becomes `Refunded`. A refused
    /// transfer fails with `InsufficientFunds` and changes nothing.
    pub fn settle_refund(
        &mut self,
        caller: AccountId,
        now: u64,
        escrow_id: u64,
        credited: Result<(), TransferError>,
    ) -> (r: Result<(), Error>)
        requires
            old(self)@.wf(),
        ensures
            final(self)@.wf(),
            match old(self)@.refund_verdict(escrow_id, credited) {
                Some(e) => r == Err::<(), Error>(e) && final(self)@ == old(self)@,
                None => r.is_ok() && final(self)@ == old(self)@.after_refund(caller, now, escrow_id),
            },
    {
        let (at, order) = match self.checked_refund(escrow_id) {
            Ok(found) => found,
            Err(e) => {
                return Err(e);
            },
        };
        if credited.is_err() {
            return Err(Error::InsufficientFunds);
        }
        let details = labelled("Amount: ", decimal_string(order.amount).as_str()).concat(
            " to buyer",
        );
        let entry = audit_entry(now, caller, "FundsRefunded", details);
        let slot = &mut self.escrows[at];
        slot.data.status = EscrowStatus::Refunded;
        slot.audit.push(entry);
        self.events.push(
            Event::FundsRefunded(
                FundsRefunded { escrow_id, amount: order.amount, recipient: order.to },
            ),
        );
        proof {
            let ghost want = old(self)@.after_refund(caller, now, escrow_id);
            assert(self.escrows@[at as int]@.audit =~= want.escrow(escrow_id).audit);
            assert(self.escrows@[at as int]@ == want.escrow(escrow_id));
            assert(self@.escrows =~= want.escrows);
            assert(self@.events =~= want.events);
        }
        Ok(())
    }

    /// Returns the custodied amount to the buyer. `credit` is the ledger's
    /// transfer primitive; it is called at most once, after every check has
    /// passed, with the buyer and the whole custodied amount.
    pub fn refund_funds<F: FnOnce(AccountId, u128) -> Result<(), TransferError>>(
        &mut self,
        caller: AccountId,
        now: u64,
        escrow_id: u64,
        credit: F,
    ) -> (r: Result<(), Error>)
        requires
            old(self)@.wf(),
            old(self)@.refund_refusal(escrow_id).is_none() ==> call_requires(
                credit,
                (
                    old(self)@.refund_transfer(escrow_id).to,
                    old(self)@.refund_transfer(escrow_id).amount,
                ),
            ),
        ensures
            final(self)@.wf(),
            match old(self)@.refund_refusal(escrow_id) {
                Some(e) => r == Err::<(), Error>(e) && final(self)@ == old(self)@,
                None => exists|credited: Result<(), TransferError>|
                    {
                        &&& call_ensures(
                            credit,
                            (
                                old(self)@.refund_transfer(escrow_id).to,
                                old(self)@.refund_transfer(escrow_id).amount,
                            ),
                            credited,
                        )
                        &&& match credited {
                            Ok(_) => r.is_ok() && final(self)@ == old(self)@.after_refund(
                                caller,
                                now,
                                escrow_id,
                            ),
                            Err(_) => r == Err::<(), Error>(Error::InsufficientFunds)
                                && final(self)@ == old(self)@,
                        }
                    },
            },
    {
        let order = match self.refund_order(escrow_id) {
            Ok(order) => order,
            Err(e) => {
                return Err(e);
            },
        };
        let credited = credit(order.to, order.amount);
        self.settle_refund(caller, now, escrow_id, credited)
    }

    /// The checks of an override, with the position of the escrow.
    fn checked_override(&self, caller: AccountId, escrow_id: u64, release_to_seller: bool) -> (r:
        Result<(usize, TransferOrder), Error>)
        requires
            self@.wf(),
        ensures
            match self@.override_refusal(caller, escrow_id) {
                Some(e) => r == Err::<(usize, TransferOrder), Error>(e),
                None => r.is_ok() && r.unwrap().0 == escrow_id - 1 && r.unwrap().0
                    < self.escrows@.len() && r.unwrap().1 == self@.override_transfer(
                    escrow_id,
                    release_to_seller,
                ),
            },
    {
        if caller != self.admin {
            return Err(Error::Unauthorized);
        }
        let at = match self.position(escrow_id) {
            Some(at) => at,
            None => {
                return Err(Error::EscrowNotFound);
            },
        };
        let slot = &self.escrows[at];
        if slot.is_closed() {
            return Err(Error::InvalidStatus);
        }
        let to = if release_to_seller {
            slot.data.seller
        } else {
            slot.data.buyer
        };
        Ok((at, TransferOrder { to, amount: slot.data.deposited_amount }))
    }

    /// Whether an override by `caller` would be admitted, and what it would
    /// then move. Only the administrator may override, and only an escrow
    /// that is not yet closed; nothing else is looked at.
    pub fn override_order(&self, caller: AccountId, escrow_id: u64, release_to_seller: bool) -> (r:
        Result<TransferOrder, Error>)
        requires
            self@.wf(),
        ensures
            match self@.override_refusal(caller, escrow_id) {
                Some(e) => r == Err::<TransferOrder, Error>(e),
                None => r == Ok::<TransferOrder, Error>(
                    self@.override_transfer(escrow_id, release_to_seller),
                ),
            },
    {
        match self.checked_override(caller, escrow_id, release_to_seller) {
            Ok((_, order)) => Ok(order),
            Err(e) => Err(e),
        }
    }

    /// Concludes an override once the ledger has answered the transfer that
    /// `override_order` asked for. If the transfer went through, the escrow
    /// becomes `Released` or `Refunded` as chosen, and the audit entry
    /// records the recipient, the amount and the status overridden. A
    /// refused transfer fails with `InsufficientFunds` and changes nothing.
    pub fn settle_override(
        &mut self,
        caller: AccountId,
        now: u64,
        escrow_id: u64,
        release_to_seller: bool,
        credited: Result<(), TransferError>,
    ) -> (r: Result<(), Error>)
        requires
            old(self)@.wf(),
        ensures
            final(self)@.wf(),
            match old(self)@.override_verdict(caller, escrow_id, credited) {
                Some(e) => r == Err::<(), Error>(e) && final(self)@ == old(self)@,
                None => r.is_ok() && final(self)@ == old(self)@.after_override(
                    caller,
                    now,
                    escrow_id,
                    release_to_seller,
                ),
            },
    {
        let (at, order) = match self.checked_override(caller, escrow_id, release_to_seller) {
            Ok(found) => found,
            Err(e) => {
                return Err(e);
            },
        };
        if credited.is_err() {
            return Err(Error::InsufficientFunds);
        }
        let recipient = if release_to_seller {
            "seller"
        } else {
            "buyer"
        };
        let details = labelled("Funds sent to: ", recipient).concat(", Amount: ").concat(
            decimal_string(order.amount).as_str(),
        ).concat(", Status before: ").concat(status_label(self.escrows[at].reported_status()));
        let entry = audit_entry(now, caller, "EmergencyOverride", details);
        let slot = &mut self.escrows[at];
        slot.data.status = if release_to_seller {
            EscrowStatus::Released
        } else {
            EscrowStatus::Refunded
        };
        slot.audit.push(entry);
        self.events.push(Event::EmergencyOverride(EmergencyOverride { escrow_id, admin: caller }));
        proof {
            let ghost want = old(self)@.after_override(caller, now, escrow_id, release_to_seller);
            assert(self.escrows@[at as int]@.audit =~= want.escrow(escrow_id).audit);
            assert(self.escrows@[at as int]@ == want.escrow(escrow_id));
            assert(self@.escrows =~= want.escrows);
            assert(self@.events =~= want.events);
        }
        Ok(())
    }

    /// Moves the custodied amount to the seller or the buyer on the
    /// administrator's word alone, whatever the signatures, conditions,
    /// time-lock or disputes. `credit` is the ledger's transfer primitive;
    /// it is called at most once, with the chosen party and the whole
    /// custodied amount.
    pub fn emergency_override<F: FnOnce(AccountId, u128) -> Result<(), TransferError>>(
        &mut self,
        caller: AccountId,
        now: u64,
        escrow_id: u64,
        release_to_seller: bool,
        credit: F,
    ) -> (r: Result<(), Error>)
        requires
            old(self)@.wf(),
            old(self)@.override_refusal(caller, escrow_id).is_none() ==> call_requires(
                credit,
                (
                    old(self)@.override_transfer(escrow_id, release_to_seller).to,
                    old(self)@.override_transfer(escrow_id, release_to_seller).amount,
                ),
            ),
        ensures
            final(self)@.wf(),
            match old(self)@.override_refusal(caller, escrow_id) {
                Some(e) => r == Err::<(), Error>(e) && final(self)@ == old(self)@,
                None => exists|credited: Result<(), TransferError>|
                    {
                        &&& call_ensures(
                            credit,
                            (
                                old(self)@.override_transfer(escrow_id, release_to_seller).to,
                                old(self)@.override_transfer(escrow_id, release_to_seller).amount,
                            ),
                            credited,
                        )
                        &&& match credited {
                            Ok(_) => r.is_ok() && final(self)@ == old(self)@.after_override(
                                caller,
                                now,
                                escrow_id,
                                release_to_seller,
                            ),
                            Err(_) => r == Err::<(), Error>(Error::InsufficientFunds)
                                && final(self)@ == old(self)@,
                        }
                    },
            },
    {
        let order = match self.override_order(caller, escrow_id, release_to_seller) {
            Ok(order) => order,
            Err(e) => {
                return Err(e);
            },
        };
        let credited = credit(order.to, order.amount);
        self.settle_override(caller, now, escrow_id, release_to_seller, credited)
    }

    /// Files a document fingerprint, unverified, with an escrow that is not
    /// closed. The buyer, the seller and every participant may do so.
    pub fn upload_document(
        &mut self,
        caller: AccountId,
        now: u64,
        escrow_id: u64,
        document_hash: crate::primitives::Hash,
        document_type: String,
    ) -> (r: Result<(), Error>)
        requires
            old(self)@.wf(),
        ensures
            final(self)@.wf(),
            match old(self)@.upload_refusal(caller, escrow_id) {
                Some(e) => r == Err::<(), Error>(e) && final(self)@ == old(self)@,
                None => r.is_ok() && final(self)@ == old(self)@.after_upload(
                    caller,
                    now,
                    escrow_id,
                    document_hash,
                    document_type@,
                ),
            },
    {
        let at = match self.position(escrow_id) {
            Some(at) => at,
            None => {
                return Err(Error::EscrowNotFound);
            },
        };
        if self.escrows[at].is_closed() {
            return Err(Error::InvalidStatus);
        }
        if !contains_account(&self.escrows[at].data.participants, caller)
            && !self.escrows[at].is_party(caller) {
            return Err(Error::Unauthorized);
        }
        let details = labelled("Type: ", document_type.as_str());
        let entry = audit_entry(now, caller, "DocumentUploaded", details);
        let document = DocumentHash {
            hash: document_hash,
            document_type: document_type.clone(),
            uploaded_by: caller,
            uploaded_at: now,
            verified: false,
        };
        let slot = &mut self.escrows[at];
        slot.documents.push(document);
        slot.audit.push(entry);
        self.events.push(
            Event::DocumentUploaded(
                DocumentUploaded { escrow_id, document_hash, document_type, uploader: caller },
            ),
        );
        proof {
            let ghost want = old(self)@.after_upload(
                caller,
                now,
                escrow_id,
                document_hash,
                document_type@,
            );
            assert(self.escrows@[at as int]@.audit =~= want.escrow(escrow_id).audit);
            assert(self.escrows@[at as int]@.documents =~= want.escrow(escrow_id).documents);
            assert(self.escrows@[at as int]@ == want.escrow(escrow_id));
            assert(self@.escrows =~= want.escrows);
            assert(self@.events =~= want.events);
        }
        Ok(())
    }

    /// Marks the first document with the given fingerprint as verified.
    /// Only a participant may do so; a verified document stays verified.
    pub fn verify_document(
        &mut self,
        caller: AccountId,
        now: u64,
        escrow_id: u64,
        document_hash: crate::primitives::Hash,
    ) -> (r: Result<(), Error>)
        requires
            old(self)@.wf(),
        ensures
            final(self)@.wf(),
            match old(self)@.verify_refusal(caller, escrow_id, document_hash) {
                Some(e) => r == Err::<(), Error>(e) && final(self)@ == old(self)@,
                None => r.is_ok() && final(self)@ == old(self)@.after_verify(
                    caller,
                    now,
                    escrow_id,
                    document_hash,
                ),
            },
    {
        let at = match self.position(escrow_id) {
            Some(at) => at,
            None => {
                return Err(Error::EscrowNotFound);
            },
        };
        if self.escrows[at].is_closed() {
            return Err(Error::InvalidStatus);
        }
        if !contains_account(&self.escrows[at].data.participants, caller) {
            return Err(Error::Unauthorized);
        }
        let found = find_document(&self.escrows[at].documents, document_hash);
        if found >= self.escrows[at].documents.len() {
            return Err(Error::DocumentNotFound);
        }
        let entry = audit_entry(now, caller, "DocumentVerified", "Document verified".to_owned());
        let slot = &mut self.escrows[at];
        slot.documents[found].verified = true;
        slot.audit.push(entry);
        self.events.push(
            Event::DocumentVerified(DocumentVerified { escrow_id, document_hash, verifier: caller }),
        );
        proof {
            let ghost want = old(self)@.after_verify(caller, now, escrow_id, document_hash);
            assert(self.escrows@[at as int]@.audit =~= want.escrow(escrow_id).audit);
            assert(self.escrows@[at as int]@.documents =~= want.escrow(escrow_id).documents);
            assert(self.escrows@[at as int]@ == want.escrow(escrow_id));
            assert(self@.escrows =~= want.escrows);
            assert(self@.events =~= want.events);
        }
        Ok(())
    }

    /// Adds an unmet release condition and returns its identifier, the
    /// next in the escrow's own sequence. Only the buyer or the seller may
    /// add one.
    pub fn add_condition(
        &mut self,
        caller: AccountId,
        now: u64,
        escrow_id: u64,
        description: String,
    ) -> (r: Result<u64, Error>)
        requires
            old(self)@.wf(),
            old(self)@.condition_fits(caller, escrow_id),
        ensures
            final(self)@.wf(),
            match old(self)@.add_condition_refusal(caller, escrow_id) {
                Some(e) => r == Err::<u64, Error>(e) && final(self)@ == old(self)@,
                None => r == Ok::<u64, Error>(old(self)@.next_condition_id(escrow_id))
                    && final(self)@ == old(self)@.after_add_condition(
                    caller,
                    now,
                    escrow_id,
                    description@,
                ),
            },
    {
        let at = match self.position(escrow_id) {
            Some(at) => at,
            None => {
                return Err(Error::EscrowNotFound);
            },
        };
        if self.escrows[at].is_closed() {
            return Err(Error::InvalidStatus);
        }
        if !self.escrows[at].is_party(caller) {
            return Err(Error::Unauthorized);
        }
        let condition_id: u64 = self.escrows[at].conditions.len() as u64 + 1;
        let details = labelled("Condition: ", description.as_str());
        let entry = audit_entry(now, caller, "ConditionAdded", details);
        let condition = Condition {
            id: condition_id,
            description: description.clone(),
            met: false,
            verified_by: None,
            verified_at: None,
        };
        let slot = &mut self.escrows[at];
        slot.conditions.push(condition);
        slot.audit.push(entry);
        self.events.push(
            Event::ConditionAdded(ConditionAdded { escrow_id, condition_id, description }),
        );
        proof {
            let ghost want = old(self)@.after_add_condition(caller, now, escrow_id, description@);
            assert(self.escrows@[at as int]@.audit =~= want.escrow(escrow_id).audit);
            assert(self.escrows@[at as int]@.conditions =~= want.escrow(escrow_id).conditions);
            assert(self.escrows@[at as int]@ == want.escrow(escrow_id));
            assert(self@.escrows =~= want.escrows);
            assert(self@.events =~= want.events);
        }
        Ok(condition_id)
    }

    /// Attests that a condition is met. Any participant may do so. The
    /// first attestation records who made it and when; attesting a
    /// condition that is already met succeeds and changes nothing.
    pub fn mark_condition_met(
        &mut self,
        caller: AccountId,
        now: u64,
        escrow_id: u64,
        condition_id: u64,
    ) -> (r: Result<(), Error>)
        requires
            old(self)@.wf(),
        ensures
            final(self)@.wf(),
            match old(self)@.mark_refusal(caller, escrow_id, condition_id) {
                Some(e) => r == Err::<(), Error>(e) && final(self)@ == old(self)@,
                None => r.is_ok() && final(self)@ == old(self)@.after_mark(
                    caller,
                    now,
                    escrow_id,
                    condition_id,
                ),
            },
    {
        let at = match self.position(escrow_id) {
            Some(at) => at,
            None => {
                return Err(Error::EscrowNotFound);
            },
        };
        if self.escrows[at].is_closed() {
            return Err(Error::InvalidStatus);
        }
        if !contains_account(&self.escrows[at].data.participants, caller) {
            return Err(Error::Unauthorized);
        }
        if condition_id < 1 || condition_id - 1 >= self.escrows[at].conditions.len() as u64 {
            return Err(Error::EscrowNotFound);
        }
        let which = (condition_id - 1) as usize;
        if self.escrows[at].conditions[which].met {
            return Ok(());
        }
        let details = labelled("Condition ID: ", decimal_string(condition_id as u128).as_str());
        let entry = audit_entry(now, caller, "ConditionMet", details);
        let slot = &mut self.escrows[at];
        let condition = &mut slot.conditions[which];
        condition.met = true;
        condition.verified_by = Some(caller);
        condition.verified_at = Some(now);
        slot.audit.push(entry);
        self.events.push(
            Event::ConditionMet(ConditionMet { escrow_id, condition_id, verified_by: caller }),
        );
        proof {
            let ghost want = old(self)@.after_mark(caller, now, escrow_id, condition_id);
            assert(self.escrows@[at as int]@.audit =~= want.escrow(escrow_id).audit);
            assert(self.escrows@[at as int]@.conditions =~= want.escrow(escrow_id).conditions);
            assert(self.escrows@[at as int]@ == want.escrow(escrow_id));
            assert(self@.escrows =~= want.escrows);
            assert(self@.events =~= want.events);
        }
        Ok(())
    }

    /// Records the caller's approval of `approval_type`. The caller must be
    /// a signer and sign each approval type at most once: a second
    /// signature is refused with `AlreadySigned` and counts for nothing.
    pub fn sign_approval(
        &mut self,
        caller: AccountId,
        now: u64,
        escrow_id: u64,
        approval_type: ApprovalType,
    ) -> (r: Result<(), Error>)
        requires
            old(self)@.wf(),
            old(self)@.signature_fits(caller, escrow_id, approval_type),
        ensures
            final(self)@.wf(),
            match old(self)@.sign_refusal(caller, escrow_id, approval_type) {
                Some(e) => r == Err::<(), Error>(e) && final(self)@ == old(self)@,
                None => r.is_ok() && final(self)@ == old(self)@.after_sign(
                    caller,
                    now,
                    escrow_id,
                    approval_type,
                ),
            },
    {
        let at = match self.position(escrow_id) {
            Some(at) => at,
            None => {
                return Err(Error::EscrowNotFound);
            },
        };
        if self.escrows[at].is_closed() {
            return Err(Error::InvalidStatus);
        }
        if !contains_account(&self.escrows[at].config.signers, caller) {
            return Err(Error::Unauthorized);
        }
        if contains_account(self.escrows[at].signers_of(approval_type), caller) {
            return Err(Error::AlreadySigned);
        }
        let details = labelled("Approval type: ", approval_label(approval_type));
        let entry = audit_entry(now, caller, "SignatureAdded", details);
        let slot = &mut self.escrows[at];
        match approval_type {
            ApprovalType::Release => slot.release_signers.push(caller),
            ApprovalType::Refund => slot.refund_signers.push(caller),
            ApprovalType::EmergencyOverride => slot.override_signers.push(caller),
        }
        slot.audit.push(entry);
        self.events.push(
            Event::SignatureAdded(SignatureAdded { escrow_id, approval_type, signer: caller }),
        );
        proof {
            let ghost want = old(self)@.after_sign(caller, now, escrow_id, approval_type);
            assert(self.escrows@[at as int]@.audit =~= want.escrow(escrow_id).audit);
            assert(self.escrows@[at as int]@ == want.escrow(escrow_id));
            assert(self@.escrows =~= want.escrows);
            assert(self@.events =~= want.events);
        }
        Ok(())
    }

    /// Raises a dispute, which blocks release until it is resolved. Only
    /// the buyer or the seller may, and only while no other dispute is
    /// unresolved. The funding status is kept; readers see `Disputed`.
    pub fn raise_dispute(
        &mut self,
        caller: AccountId,
        now: u64,
        escrow_id: u64,
        reason: String,
    ) -> (r: Result<(), Error>)
        requires
            old(self)@.wf(),
        ensures
            final(self)@.wf(),
            match old(self)@.raise_refusal(caller, escrow_id) {
                Some(e) => r == Err::<(), Error>(e) && final(self)@ == old(self)@,
                None => r.is_ok() && final(self)@ == old(self)@.after_raise(
                    caller,
                    now,
                    escrow_id,
                    reason@,
                ),
            },
    {
        let at = match self.position(escrow_id) {
            Some(at) => at,
            None => {
                return Err(Error::EscrowNotFound);
            },
        };
        if self.escrows[at].is_closed() {
            return Err(Error::InvalidStatus);
        }
        if !self.escrows[at].is_party(caller) {
            return Err(Error::Unauthorized);
        }
        if self.escrows[at].dispute_active() {
            return Err(Error::DisputeActive);
        }
        let details = labelled("Reason: ", reason.as_str());
        let entry = audit_entry(now, caller, "DisputeRaised", details);
        let dispute = DisputeInfo {
            escrow_id,
            raised_by: caller,
            reason: reason.clone(),
            raised_at: now,
            resolved: false,
            resolution: None,
        };
        let slot = &mut self.escrows[at];
        slot.dispute = Some(dispute);
        slot.audit.push(entry);
        self.events.push(Event::DisputeRaised(DisputeRaised { escrow_id, raised_by: caller, reason }));
        proof {
            let ghost want = old(self)@.after_raise(caller, now, escrow_id, reason@);
            assert(self.escrows@[at as int]@.audit =~= want.escrow(escrow_id).audit);
            assert(self.escrows@[at as int]@ == want.escrow(escrow_id));
            assert(self@.escrows =~= want.escrows);
            assert(self@.events =~= want.events);
        }
        Ok(())
    }

    /// Resolves the escrow's dispute and makes the escrow `Active`. Only
    /// the administrator may. The signatures collected so far stay.
    pub fn resolve_dispute(
        &mut self,
        caller: AccountId,
        now: u64,
        escrow_id: u64,
        resolution: String,
    ) -> (r: Result<(), Error>)
        requires
            old(self)@.wf(),
        ensures
            final(self)@.wf(),
            match old(self)@.resolve_refusal(caller, escrow_id) {
                Some(e) => r == Err::<(), Error>(e) && final(self)@ == old(self)@,
                None => r.is_ok() && final(self)@ == old(self)@.after_resolve(
                    caller,
                    now,
                    escrow_id,
                    resolution@,
                ),
            },
    {
        let found = self.position(escrow_id);
        if let Some(at) = found {
            if self.escrows[at].is_closed() {
                return Err(Error::InvalidStatus);
            }
        }
        if caller != self.admin {
            return Err(Error::Unauthorized);
        }
        let at = match found {
            Some(at) => at,
            None => {
                return Err(Error::EscrowNotFound);
            },
        };
        if self.escrows[at].dispute.is_none() {
            return Err(Error::EscrowNotFound);
        }
        let details = labelled("Resolution: ", resolution.as_str());
        let entry = audit_entry(now, caller, "DisputeResolved", details);
        let slot = &mut self.escrows[at];
        match &mut slot.dispute {
            Some(dispute) => {
                dispute.resolved = true;
                dispute.resolution = Some(resolution.clone());
            },
            None => {},
        }
        slot.data.status = EscrowStatus::Active;
        slot.audit.push(entry);
        self.events.push(Event::DisputeResolved(DisputeResolved { escrow_id, resolution }));
        proof {
            let ghost want = old(self)@.after_resolve(caller, now, escrow_id, resolution@);
            assert(self.escrows@[at as int]@.audit =~= want.escrow(escrow_id).audit);
            assert(self.escrows@[at as int]@ == want.escrow(escrow_id));
            assert(self@.escrows =~= want.escrows);
            assert(self@.events =~= want.events);
        }
        Ok(())
    }

    /// Hands the administrator's role to `new_admin`. Only the current
    /// administrator may.
    pub fn set_admin(&mut self, caller: AccountId, new_admin: AccountId) -> (r: Result<(), Error>)
        ensures
            old(self)@.wf() ==> final(self)@.wf(),
            match old(self)@.set_admin_refusal(caller) {
                Some(e) => r == Err::<(), Error>(e) && final(self)@ == old(self)@,
                None => r.is_ok() && final(self)@ == old(self)@.after_set_admin(new_admin),
            },
    {
        if caller != self.admin {
            return Err(Error::Unauthorized);
        }
        self.admin = new_admin;
        Ok(())
    }

    /// The escrow record as readers see it: its status is `Disputed` while
    /// an unresolved dispute stands against an escrow that is not closed.
    pub fn get_escrow(&self, escrow_id: u64) -> (r: Option<EscrowData>)
        requires
            self@.wf(),
        ensures
            match r {
                Some(data) => self@.has(escrow_id) && data@ == self@.escrow(escrow_id).reported(),
                None => !self@.has(escrow_id),
            },
    {
        match self.position(escrow_id) {
            Some(at) => {
                let slot = &self.escrows[at];
                Some(
                    EscrowData {
                        id: slot.data.id,
                        property_id: slot.data.property_id,
                        buyer: slot.data.buyer,
                        seller: slot.data.seller,
                        amount: slot.data.amount,
                        deposited_amount: slot.data.deposited_amount,
                        status: slot.reported_status(),
                        created_at: slot.data.created_at,
                        release_time_lock: slot.data.release_time_lock,
                        participants: copy_accounts(&slot.data.participants),
                    },
                )
            },
            None => None,
        }
    }

    /// The documents of an escrow, oldest first; empty for an unknown escrow.
    pub fn get_documents(&self, escrow_id: u64) -> (r: Vec<DocumentHash>)
        requires
            self@.wf(),
        ensures
            views(r@) == (if self@.has(escrow_id) {
                self@.escrow(escrow_id).documents
            } else {
                Seq::empty()
            }),
    {
        match self.position(escrow_id) {
            Some(at) => copy_documents(&self.escrows[at].documents),
            None => {
                let none: Vec<DocumentHash> = Vec::new();
                assert(views(none@) =~= Seq::empty());
                none
            },
        }
    }

    /// The conditions of an escrow, oldest first; empty for an unknown escrow.
    pub fn get_conditions(&self, escrow_id: u64) -> (r: Vec<Condition>)
        requires
            self@.wf(),
        ensures
            views(r@) == (if self@.has(escrow_id) {
                self@.escrow(escrow_id).conditions
            } else {
                Seq::empty()
            }),
    {
        match self.position(escrow_id) {
            Some(at) => copy_conditions(&self.escrows[at].conditions),
            None => {
                let none: Vec<Condition> = Vec::new();
                assert(views(none@) =~= Seq::empty());
                none
            },
        }
    }

    /// The latest dispute of an escrow, resolved or not.
    pub fn get_dispute(&self, escrow_id: u64) -> (r: Option<DisputeInfo>)
        requires
            self@.wf(),
        ensures
            match r {
                Some(dispute) => self@.has(escrow_id) && self@.escrow(escrow_id).dispute == Some(
                    dispute@,
                ),
                None => !self@.has(escrow_id) || self@.escrow(escrow_id).dispute.is_none(),
            },
    {
        match self.position(escrow_id) {
            Some(at) => match &self.escrows[at].dispute {
                Some(dispute) => Some(copy_dispute(dispute)),
                None => None,
            },
            None => None,
        }
    }

    /// The audit trail of an escrow, oldest first; empty for an unknown escrow.
    pub fn get_audit_trail(&self, escrow_id: u64) -> (r: Vec<AuditEntry>)
        requires
            self@.wf(),
        ensures
            views(r@) == (if self@.has(escrow_id) {
                self@.escrow(escrow_id).audit
            } else {
                Seq::empty()
            }),
    {
        match self.position(escrow_id) {
            Some(at) => copy_audit(&self.escrows[at].audit),
            None => {
                let none: Vec<AuditEntry> = Vec::new();
                assert(views(none@) =~= Seq::empty());
                none
            },
        }
    }

    /// The quorum rule of an escrow.
    pub fn get_multi_sig_config(&self, escrow_id: u64) -> (r: Option<MultiSigConfig>)
        requires
            self@.wf(),
        ensures
            match r {
                Some(config) => self@.has(escrow_id) && config@ == self@.escrow(escrow_id).config,
                None => !self@.has(escrow_id),
            },
    {
        match self.position(escrow_id) {
            Some(at) => {
                let config = &self.escrows[at].config;
                Some(
                    MultiSigConfig {
                        required_signatures: config.required_signatures,
                        signers: copy_accounts(&config.signers),
                    },
                )
            },
            None => None,
        }
    }

    /// How many signers have approved `approval_type`; zero for an unknown
    /// escrow.
    pub fn get_signature_count(&self, escrow_id: u64, approval_type: ApprovalType) -> (r: u8)
        requires
            self@.wf(),
        ensures
            r == (if self@.has(escrow_id) {
                self@.escrow(escrow_id).signature_count(approval_type)
            } else {
                0
            }),
    {
        match self.position(escrow_id) {
            Some(at) => {
                assert(self@.escrows[at as int].wf(escrow_id));
                assert(self@.escrows[at as int].signers_wf(approval_type));
                self.escrows[at].signers_of(approval_type).len() as u8
            },
            None => 0,
        }
    }

    /// Whether every condition of an escrow is met. An escrow without
    /// conditions, and an unknown escrow, have none unmet.
    pub fn check_all_conditions_met(&self, escrow_id: u64) -> (r: Result<bool, Error>)
        requires
            self@.wf(),
        ensures
            r == Ok::<bool, Error>(
                self@.has(escrow_id) ==> self@.escrow(escrow_id).all_conditions_met(),
            ),
    {
        match self.position(escrow_id) {
            Some(at) => Ok(self.escrows[at].all_conditions_met()),
            None => Ok(true),
        }
    }

    /// Hands over the queued notifications, oldest first, and empties the
    /// queue.
    pub fn take_events(&mut self) -> (r: Vec<Event>)
        ensures
            views(r@) == old(self)@.events,
            final(self)@ == (EngineState { events: Seq::empty(), ..old(self)@ }),
    {
        let mut taken: Vec<Event> = Vec::new();
        core::mem::swap(&mut self.events, &mut taken);
        assert(self@.events =~= Seq::empty());
        taken
    }
}

impl crate::traits::AdvancedEscrow for AdvancedEscrow {
    type Error = Error;

    open spec fn wf(&self) -> bool {
        self@.wf()
    }

    open spec fn room_to_create(&self, participants: Seq<AccountId>, required_signatures: u8) -> bool {
        self@.create_fits(participants, required_signatures)
    }

    open spec fn room_to_deposit(&self, escrow_id: u64, amount: u128) -> bool {
        self@.deposit_fits(escrow_id, amount)
    }

    open spec fn room_for_condition(&self, caller: AccountId, escrow_id: u64) -> bool {
        self@.condition_fits(caller, escrow_id)
    }

    open spec fn room_to_sign(
        &self,
        caller: AccountId,
        escrow_id: u64,
        approval_type: ApprovalType,
    ) -> bool {
        self@.signature_fits(caller, escrow_id, approval_type)
    }

    fn create_escrow_advanced(
        &mut self,
        caller: AccountId,
        now: u64,
        property_id: u64,
        amount: u128,
        buyer: AccountId,
        seller: AccountId,
        participants: Vec<AccountId>,
        required_signatures: u8,
        release_time_lock: Option<u64>,
    ) -> (r: Result<u64, Error>)
        ensures
            match EngineState::create_refusal(participants@, required_signatures) {
                Some(e) => r == Err::<u64, Error>(e) && final(self)@ == old(self)@,
                None => r == Ok::<u64, Error>(old(self)@.next_id()) && final(self)@ == old(
                    self,
                )@.after_create(
                    caller,
                    now,
                    property_id,
                    amount,
                    buyer,
                    seller,
                    participants@,
                    required_signatures,
                    release_time_lock,
                ),
            },
    {
        AdvancedEscrow::create_escrow_advanced(
            self,
            caller,
            now,
            property_id,
            amount,
            buyer,
            seller,
            participants,
            required_signatures,
            release_time_lock,
        )
    }

    fn deposit_funds(
        &mut self,
        caller: AccountId,
        now: u64,
        escrow_id: u64,
        amount: u128,
    ) -> (r: Result<(), Error>)
        ensures
            match old(self)@.deposit_refusal(escrow_id) {
                Some(e) => r == Err::<(), Error>(e) && final(self)@ == old(self)@,
                None => r.is_ok() && final(self)@ == old(self)@.after_deposit(
                    caller,
                    now,
                    escrow_id,
                    amount,
                ),
            },
    {
        AdvancedEscrow::deposit_funds(self, caller, now, escrow_id, amount)
    }

    fn release_funds<F: FnOnce(AccountId, u128) -> Result<(), TransferError>>(
        &mut self,
        caller: AccountId,
        now: u64,
        escrow_id: u64,
        credit: F,
    ) -> (r: Result<(), Error>)
        ensures
            match old(self)@.release_refusal(escrow_id, now) {
                Some(e) => r == Err::<(), Error>(e) && final(self)@ == old(self)@,
                None => exists|credited: Result<(), TransferError>|
                    {
                        &&& call_ensures(
                            credit,
                            (
                                old(self)@.release_transfer(escrow_id).to,
                                old(self)@.release_transfer(escrow_id).amount,
                            ),
                            credited,
                        )
                        &&& match credited {
                            Ok(_) => r.is_ok() && final(self)@ == old(self)@.after_release(
                                caller,
                                now,
                                escrow_id,
                            ),
                            Err(_) => r == Err::<(), Error>(Error::InsufficientFunds)
                                && final(self)@ == old(self)@,
                        }
                    },
            },
    {
        AdvancedEscrow::release_funds(self, caller, now, escrow_id, credit)
    }

    fn refund_funds<F: FnOnce(AccountId, u128) -> Result<(), TransferError>>(
        &mut self,
        caller: AccountId,
        now: u64,
        escrow_id: u64,
        credit: F,
    ) -> (r: Result<(), Error>)
        ensures
            match old(self)@.refund_refusal(escrow_id) {
                Some(e) => r == Err::<(), Error>(e) && final(self)@ == old(self)@,
                None => exists|credited: Result<(), TransferError>|
                    {
                        &&& call_ensures(
                            credit,
                            (
                                old(self)@.refund_transfer(escrow_id).to,
                                old(self)@.refund_transfer(escrow_id).amount,
                            ),
                            credited,
                        )
                        &&& match credited {
                            Ok(_) => r.is_ok() && final(self)@ == old(self)@.after_refund(
                                caller,
                                now,
                                escrow_id,
                            ),
                            Err(_) => r == Err::<(), Error>(Error::InsufficientFunds)
                                && final(self)@ == old(self)@,
                        }
                    },
            },
    {
        AdvancedEscrow::refund_funds(self, caller, now, escrow_id, credit)
    }

    fn upload_document(
        &mut self,
        caller: AccountId,
        now: u64,
        escrow_id: u64,
        document_hash: crate::primitives::Hash,
        document_type: String,
    ) -> (r: Result<(), Error>)
        ensures
            match old(self)@.upload_refusal(caller, escrow_id) {
                Some(e) => r == Err::<(), Error>(e) && final(self)@ == old(self)@,
                None => r.is_ok() && final(self)@ == old(self)@.after_upload(
                    caller,
                    now,
                    escrow_id,
                    document_hash,
                    document_type@,
                ),
            },
    {
        AdvancedEscrow::upload_document(self, caller, now, escrow_id, document_hash, document_type)
    }

    fn verify_document(
        &mut self,
        caller: AccountId,
        now: u64,
        escrow_id: u64,
        document_hash: crate::primitives::Hash,
    ) -> (r: Result<(), Error>)
        ensures
            match old(self)@.verify_refusal(caller, escrow_id, document_hash) {
                Some(e) => r == Err::<(), Error>(e) && final(self)@ == old(self)@,
                None => r.is_ok() && final(self)@ == old(self)@.after_verify(
                    caller,
                    now,
                    escrow_id,
                    document_hash,
                ),
            },
    {
        AdvancedEscrow::verify_document(self, caller, now, escrow_id, document_hash)
    }

    fn add_condition(
        &mut self,
        caller: AccountId,
        now: u64,
        escrow_id: u64,
        description: String,
    ) -> (r: Result<u64, Error>)
        ensures
            match old(self)@.add_condition_refusal(caller, escrow_id) {
                Some(e) => r == Err::<u64, Error>(e) && final(self)@ == old(self)@,
                None => r == Ok::<u64, Error>(old(self)@.next_condition_id(escrow_id))
                    && final(self)@ == old(self)@.after_add_condition(
                    caller,
                    now,
                    escrow_id,
                    description@,
                ),
            },
    {
        AdvancedEscrow::add_condition(self, caller, now, escrow_id, description)
    }

    fn mark_condition_met(
        &mut self,
        caller: AccountId,
        now: u64,
        escrow_id: u64,
        condition_id: u64,
    ) -> (r: Result<(), Error>)
        ensures
            match old(self)@.mark_refusal(caller, escrow_id, condition_id) {
                Some(e) => r == Err::<(), Error>(e) && final(self)@ == old(self)@,
                None => r.is_ok() && final(self)@ == old(self)@.after_mark(
                    caller,
                    now,
                    escrow_id,
                    condition_id,
                ),
            },
    {
        AdvancedEscrow::mark_condition_met(self, caller, now, escrow_id, condition_id)
    }

    fn sign_approval(
        &mut self,
        caller: AccountId,
        now: u64,
        escrow_id: u64,
        approval_type: ApprovalType,
    ) -> (r: Result<(), Error>)
        ensures
            match old(self)@.sign_refusal(caller, escrow_id, approval_type) {
                Some(e) => r == Err::<(), Error>(e) && final(self)@ == old(self)@,
                None => r.is_ok() && final(self)@ == old(self)@.after_sign(
                    caller,
                    now,
                    escrow_id,
                    approval_type,
                ),
            },
    {
        AdvancedEscrow::sign_approval(self, caller, now, escrow_id, approval_type)
    }

    fn raise_dispute(
        &mut self,
        caller: AccountId,
        now: u64,
        escrow_id: u64,
        reason: String,
    ) -> (r: Result<(), Error>)
        ensures
            match old(self)@.raise_refusal(caller, escrow_id) {
                Some(e) => r == Err::<(), Error>(e) && final(self)@ == old(self)@,
                None => r.is_ok() && final(self)@ == old(self)@.after_raise(
                    caller,
                    now,
                    escrow_id,
                    reason@,
                ),
            },
    {
        AdvancedEscrow::raise_dispute(self, caller, now, escrow_id, reason)
    }

    fn resolve_dispute(
        &mut self,
        caller: AccountId,
        now: u64,
        escrow_id: u64,
        resolution: String,
    ) -> (r: Result<(), Error>)
        ensures
            match old(self)@.resolve_refusal(caller, escrow_id) {
                Some(e) => r == Err::<(), Error>(e) && final(self)@ == old(self)@,
                None => r.is_ok() && final(self)@ == old(self)@.after_resolve(
                    caller,
                    now,
                    escrow_id,
                    resolution@,
                ),
            },
    {
        AdvancedEscrow::resolve_dispute(self, caller, now, escrow_id, resolution)
    }

    fn emergency_override<F: FnOnce(AccountId, u128) -> Result<(), TransferError>>(
        &mut self,
        caller: AccountId,
        now: u64,
        escrow_id: u64,
        release_to_seller: bool,
        credit: F,
    ) -> (r: Result<(), Error>)
        ensures
            match old(self)@.override_refusal(caller, escrow_id) {
                Some(e) => r == Err::<(), Error>(e) && final(self)@ == old(self)@,
                None => exists|credited: Result<(), TransferError>|
                    {
                        &&& call_ensures(
                            credit,
                            (
                                old(self)@.override_transfer(escrow_id, release_to_seller).to,
                                old(self)@.override_transfer(escrow_id, release_to_seller).amount,
                            ),
                            credited,
                        )
                        &&& match credited {
                            Ok(_) => r.is_ok() && final(self)@ == old(self)@.after_override(
                                caller,
                                now,
                                escrow_id,
                                release_to_seller,
                            ),
                            Err(_) => r == Err::<(), Error>(Error::InsufficientFunds)
                                && final(self)@ == old(self)@,
                        }
                    },
            },
    {
        AdvancedEscrow::emergency_override(self, caller, now, escrow_id, release_to_seller, credit)
    }
}

} // verus!
