//! The mathematical model of the engine: what one escrow and the whole
//! store are, when each operation is refused, and what state it leaves.

use vstd::prelude::*;
use crate::primitives::AccountId;
use crate::text::decimal;
use crate::escrow::types::{
    ApprovalType, AuditEntryView, ConditionView, DisputeInfoView, DocumentHashView, Error,
    EscrowDataView, EscrowStatus, MultiSigConfigView, TransferError, TransferOrder,
};
use crate::escrow::events::{
    ConditionAddedView, ConditionMet, DisputeRaisedView, DisputeResolvedView, DocumentUploadedView,
    DocumentVerified, EmergencyOverride, EscrowCreated, EventView, FundsDeposited, FundsRefunded,
    FundsReleased, SignatureAdded,
};

verus! {

/// The name of an approval type as it appears in audit details.
pub open spec fn approval_name(approval_type: ApprovalType) -> Seq<char> {
    match approval_type {
        ApprovalType::Release => "Release"@,
        ApprovalType::Refund => "Refund"@,
        ApprovalType::EmergencyOverride => "EmergencyOverride"@,
    }
}

/// The name of a status as it appears in audit details.
pub open spec fn status_name(status: EscrowStatus) -> Seq<char> {
    match status {
        EscrowStatus::Created => "Created"@,
        EscrowStatus::Funded => "Funded"@,
        EscrowStatus::Active => "Active"@,
        EscrowStatus::Released => "Released"@,
        EscrowStatus::Refunded => "Refunded"@,
        EscrowStatus::Disputed => "Disputed"@,
        EscrowStatus::Cancelled => "Cancelled"@,
    }
}

/// The index of the first document from position `from` on whose fingerprint
/// is `hash`, or the length of `documents` if there is none.
pub open spec fn first_document(
    documents: Seq<DocumentHashView>,
    hash: crate::primitives::Hash,
    from: int,
) -> int
    decreases documents.len() - from,
{
    if from < 0 || from >= documents.len() {
        documents.len() as int
    } else if documents[from].hash == hash {
        from
    } else {
        first_document(documents, hash, from + 1)
    }
}

/// Everything the engine keeps for one escrow.
pub struct EscrowState {
    /// The record; its status is the funding status and is never `Disputed`.
    pub data: EscrowDataView,
    pub config: MultiSigConfigView,
    /// Who has signed for release, in signing order.
    pub release_signers: Seq<AccountId>,
    /// Who has signed for refund, in signing order.
    pub refund_signers: Seq<AccountId>,
    /// Who has signed for an override, in signing order.
    pub override_signers: Seq<AccountId>,
    pub documents: Seq<DocumentHashView>,
    pub conditions: Seq<ConditionView>,
    /// The latest dispute, resolved or not.
    pub dispute: Option<DisputeInfoView>,
    pub audit: Seq<AuditEntryView>,
}

impl EscrowState {
    /// Who has signed for `approval_type`.
    pub open spec fn signed(self, approval_type: ApprovalType) -> Seq<AccountId> {
        match approval_type {
            ApprovalType::Release => self.release_signers,
            ApprovalType::Refund => self.refund_signers,
            ApprovalType::EmergencyOverride => self.override_signers,
        }
    }

    /// This escrow with `who` added to the signers of `approval_type`.
    pub open spec fn with_signature(
        self,
        approval_type: ApprovalType,
        who: AccountId,
    ) -> EscrowState {
        match approval_type {
            ApprovalType::Release => EscrowState {
                release_signers: self.release_signers.push(who),
                ..self
            },
            ApprovalType::Refund => EscrowState {
                refund_signers: self.refund_signers.push(who),
                ..self
            },
            ApprovalType::EmergencyOverride => EscrowState {
                override_signers: self.override_signers.push(who),
                ..self
            },
        }
    }

    /// How many signers have approved `approval_type`.
    pub open spec fn signature_count(self, approval_type: ApprovalType) -> nat {
        self.signed(approval_type).len()
    }

    /// Whether the quorum for `approval_type` is reached.
    pub open spec fn threshold_met(self, approval_type: ApprovalType) -> bool {
        self.signature_count(approval_type) >= self.config.required_signatures
    }

    /// Whether an unresolved dispute exists.
    pub open spec fn dispute_active(self) -> bool {
        match self.dispute {
            Some(dispute) => !dispute.resolved,
            None => false,
        }
    }

    /// Whether the escrow has reached a terminal status.
    pub open spec fn is_closed(self) -> bool {
        self.data.status.is_closed()
    }

    /// The status shown to readers: `Disputed` while an open escrow has an
    /// unresolved dispute, the funding status otherwise.
    pub open spec fn reported_status(self) -> EscrowStatus {
        if self.dispute_active() && !self.is_closed() {
            EscrowStatus::Disputed
        } else {
            self.data.status
        }
    }

    /// The record as shown to readers.
    pub open spec fn reported(self) -> EscrowDataView {
        EscrowDataView { status: self.reported_status(), ..self.data }
    }

    /// Whether every condition is met; true of an empty list.
    pub open spec fn all_conditions_met(self) -> bool {
        forall|i: int| 0 <= i < self.conditions.len() ==> (#[trigger] self.conditions[i]).met
    }

    /// Whether `who` is the payer or the payee.
    pub open spec fn is_party(self, who: AccountId) -> bool {
        who == self.data.buyer || who == self.data.seller
    }

    /// Whether `who` is a listed participant.
    pub open spec fn is_participant(self, who: AccountId) -> bool {
        self.data.participants.contains(who)
    }

    /// Whether `who` may sign approvals.
    pub open spec fn is_signer(self, who: AccountId) -> bool {
        self.config.signers.contains(who)
    }

    /// Whether a condition with this identifier exists.
    pub open spec fn has_condition(self, condition_id: u64) -> bool {
        1 <= condition_id <= self.conditions.len()
    }

    /// Whether a document with this fingerprint exists.
    pub open spec fn has_document(self, hash: crate::primitives::Hash) -> bool {
        first_document(self.documents, hash, 0) < self.documents.len()
    }

    /// This escrow with one more audit entry.
    pub open spec fn logged(
        self,
        now: u64,
        actor: AccountId,
        action: Seq<char>,
        details: Seq<char>,
    ) -> EscrowState {
        EscrowState {
            audit: self.audit.push(AuditEntryView { timestamp: now, actor, action, details }),
            ..self
        }
    }

    /// This escrow with another funding status.
    pub open spec fn with_status(self, status: EscrowStatus) -> EscrowState {
        EscrowState { data: EscrowDataView { status, ..self.data }, ..self }
    }

    /// The signers of one approval type are distinct, are all entitled to
    /// sign, and their number fits the counter.
    pub open spec fn signers_wf(self, approval_type: ApprovalType) -> bool {
        &&& self.signed(approval_type).no_duplicates()
        &&& forall|i: int|
            0 <= i < self.signed(approval_type).len() ==> self.config.signers.contains(
                #[trigger] self.signed(approval_type)[i],
            )
        &&& self.signed(approval_type).len() <= u8::MAX
    }

    /// The invariant of the escrow stored under `id`.
    pub open spec fn wf(self, id: u64) -> bool {
        &&& self.data.id == id
        &&& self.data.status != EscrowStatus::Disputed
        &&& self.data.status == EscrowStatus::Created ==> self.data.deposited_amount == 0
        &&& self.config.signers == self.data.participants
        &&& 1 <= self.config.required_signatures <= self.config.signers.len()
        &&& self.signers_wf(ApprovalType::Release)
        &&& self.signers_wf(ApprovalType::Refund)
        &&& self.signers_wf(ApprovalType::EmergencyOverride)
        &&& self.conditions.len() <= u64::MAX
        &&& forall|i: int|
            0 <= i < self.conditions.len() ==> {
                let c = #[trigger] self.conditions[i];
                &&& c.id == i + 1
                &&& c.met == c.verified_by.is_some()
                &&& c.met == c.verified_at.is_some()
            }
        &&& match self.dispute {
            Some(dispute) => dispute.escrow_id == id,
            None => true,
        }
        &&& self.audit.len() > 0
    }
}

/// The whole store.
pub struct EngineState {
    pub admin: AccountId,
    pub min_high_value_threshold: u128,
    /// The escrow with identifier `id` is at index `id - 1`.
    pub escrows: Seq<EscrowState>,
    /// Notifications queued and not yet taken by the host, oldest first.
    pub events: Seq<EventView>,
}

impl EngineState {
    /// Whether an escrow with this identifier exists.
    pub open spec fn has(self, id: u64) -> bool {
        1 <= id <= self.escrows.len()
    }

    /// The escrow with this identifier.
    pub open spec fn escrow(self, id: u64) -> EscrowState
        recommends
            self.has(id),
    {
        self.escrows[id - 1]
    }

    /// The invariant of the store.
    pub open spec fn wf(self) -> bool {
        &&& self.escrows.len() <= u64::MAX
        &&& forall|i: int|
            0 <= i < self.escrows.len() ==> (#[trigger] self.escrows[i]).wf((i + 1) as u64)
    }

    /// The store with escrow `id` replaced and one notification queued.
    pub open spec fn put(self, id: u64, escrow: EscrowState, event: EventView) -> EngineState {
        EngineState {
            escrows: self.escrows.update(id - 1, escrow),
            events: self.events.push(event),
            ..self
        }
    }

    // ---- create ----------------------------------------------------------

    /// Creation is refused exactly for a malformed quorum rule.
    pub open spec fn create_refusal(
        participants: Seq<AccountId>,
        required_signatures: u8,
    ) -> Option<Error> {
        if required_signatures == 0 || participants.len() == 0 || required_signatures
            > participants.len() {
            Some(Error::InvalidConfiguration)
        } else {
            None
        }
    }

    /// Whether the store can take one more escrow.
    pub open spec fn create_fits(
        self,
        participants: Seq<AccountId>,
        required_signatures: u8,
    ) -> bool {
        Self::create_refusal(participants, required_signatures).is_none() ==> self.escrows.len()
            < u64::MAX
    }

    /// The identifier the next escrow gets.
    pub open spec fn next_id(self) -> u64 {
        (self.escrows.len() + 1) as u64
    }

    /// The details of the audit entry of a creation.
    pub open spec fn created_details(property_id: u64, amount: u128) -> Seq<char> {
        "Property: "@ + decimal(property_id as nat) + ", Amount: "@ + decimal(amount as nat)
    }

    /// The store after a creation: one more escrow, `Created`, nothing in
    /// custody, with empty registries, one audit entry, and its notification.
    pub open spec fn after_create(
        self,
        caller: AccountId,
        now: u64,
        property_id: u64,
        amount: u128,
        buyer: AccountId,
        seller: AccountId,
        participants: Seq<AccountId>,
        required_signatures: u8,
        release_time_lock: Option<u64>,
    ) -> EngineState {
        let id = self.next_id();
        let escrow = EscrowState {
            data: EscrowDataView {
                id,
                property_id,
                buyer,
                seller,
                amount,
                deposited_amount: 0,
                status: EscrowStatus::Created,
                created_at: now,
                release_time_lock,
                participants,
            },
            config: MultiSigConfigView { required_signatures, signers: participants },
            release_signers: Seq::empty(),
            refund_signers: Seq::empty(),
            override_signers: Seq::empty(),
            documents: Seq::empty(),
            conditions: Seq::empty(),
            dispute: None,
            audit: Seq::empty(),
        }.logged(now, caller, "EscrowCreated"@, Self::created_details(property_id, amount));
        EngineState {
            escrows: self.escrows.push(escrow),
            events: self.events.push(
                EventView::EscrowCreated(
                    EscrowCreated { escrow_id: id, property_id, buyer, seller, amount },
                ),
            ),
            ..self
        }
    }

    // ---- deposit ---------------------------------------------------------

    /// A deposit is refused for an unknown escrow, and for one whose funding
    /// status is neither `Created` nor `Funded`.
    pub open spec fn deposit_refusal(self, escrow_id: u64) -> Option<Error> {
        if !self.has(escrow_id) {
            Some(Error::EscrowNotFound)
        } else if self.escrow(escrow_id).data.status != EscrowStatus::Created && self.escrow(
            escrow_id,
        ).data.status != EscrowStatus::Funded {
            Some(Error::InvalidStatus)
        } else {
            None
        }
    }

    /// Whether the custodied amount can take `amount` more.
    pub open spec fn deposit_fits(self, escrow_id: u64, amount: u128) -> bool {
        self.deposit_refusal(escrow_id).is_none() ==> self.escrow(escrow_id).data.deposited_amount
            + amount <= u128::MAX
    }

    /// The details of the audit entry of a deposit.
    pub open spec fn deposited_details(amount: u128) -> Seq<char> {
        "Amount: "@ + decimal(amount as nat)
    }

    /// The store after a deposit: the amount is added to the custody, and the
    /// escrow is `Active` if the custody has reached the agreed amount, and
    /// `Funded` if not.
    pub open spec fn after_deposit(
        self,
        caller: AccountId,
        now: u64,
        escrow_id: u64,
        amount: u128,
    ) -> EngineState {
        let e = self.escrow(escrow_id);
        let total = (e.data.deposited_amount + amount) as u128;
        let status = if total >= e.data.amount {
            EscrowStatus::Active
        } else {
            EscrowStatus::Funded
        };
        self.put(
            escrow_id,
            EscrowState {
                data: EscrowDataView { deposited_amount: total, status, ..e.data },
                ..e
            }.logged(now, caller, "FundsDeposited"@, Self::deposited_details(amount)),
            EventView::FundsDeposited(FundsDeposited { escrow_id, amount, depositor: caller }),
        )
    }

    // ---- release ---------------------------------------------------------

    /// The first reason, in the order in which they are examined, for which
    /// a release at time `now` is refused before custody is touched.
    pub open spec fn release_refusal(self, escrow_id: u64, now: u64) -> Option<Error> {
        if !self.has(escrow_id) {
            Some(Error::EscrowNotFound)
        } else {
            let e = self.escrow(escrow_id);
            if e.data.status != EscrowStatus::Active {
                Some(Error::InvalidStatus)
            } else if e.dispute_active() {
                Some(Error::DisputeActive)
            } else if e.data.release_time_lock.is_some() && now
                < e.data.release_time_lock.unwrap() {
                Some(Error::TimeLockActive)
            } else if !e.all_conditions_met() {
                Some(Error::ConditionsNotMet)
            } else if !e.threshold_met(ApprovalType::Release) {
                Some(Error::SignatureThresholdNotMet)
            } else {
                None
            }
        }
    }

    /// What a release moves: the whole custodied amount, to the payee.
    pub open spec fn release_transfer(self, escrow_id: u64) -> TransferOrder {
        TransferOrder {
            to: self.escrow(escrow_id).data.seller,
            amount: self.escrow(escrow_id).data.deposited_amount,
        }
    }

    /// The details of the audit entry of a release.
    pub open spec fn released_details(amount: u128) -> Seq<char> {
        "Amount: "@ + decimal(amount as nat) + " to seller"@
    }

    /// The store after a release: the escrow is `Released`; the custodied
    /// amount stays on record.
    pub open spec fn after_release(
        self,
        caller: AccountId,
        now: u64,
        escrow_id: u64,
    ) -> EngineState {
        let e = self.escrow(escrow_id);
        self.put(
            escrow_id,
            e.with_status(EscrowStatus::Released).logged(
                now,
                caller,
                "FundsReleased"@,
                Self::released_details(e.data.deposited_amount),
            ),
            EventView::FundsReleased(
                FundsReleased {
                    escrow_id,
                    amount: e.data.deposited_amount,
                    recipient: e.data.seller,
                },
            ),
        )
    }

    // ---- refund ----------------------------------------------------------

    /// The first reason for which a refund is refused before custody is
    /// touched. Neither disputes nor conditions are looked at.
    pub open spec fn refund_refusal(self, escrow_id: u64) -> Option<Error> {
        if !self.has(escrow_id) {
            Some(Error::EscrowNotFound)
        } else {
            let e = self.escrow(escrow_id);
            if e.data.status != EscrowStatus::Active && e.data.status != EscrowStatus::Funded {
                Some(Error::InvalidStatus)
            } else if !e.threshold_met(ApprovalType::Refund) {
                Some(Error::SignatureThresholdNotMet)
            } else {
                None
            }
        }
    }

    /// What a refund moves: the whole custodied amount, to the payer.
    pub open spec fn refund_transfer(self, escrow_id: u64) -> TransferOrder {
        TransferOrder {
            to: self.escrow(escrow_id).data.buyer,
            amount: self.escrow(escrow_id).data.deposited_amount,
        }
    }

    /// The details of the audit entry of a refund.
    pub open spec fn refunded_details(amount: u128) -> Seq<char> {
        "Amount: "@ + decimal(amount as nat) + " to buyer"@
    }

    /// The store after a refund: the escrow is `Refunded`; the custodied
    /// amount stays on record.
    pub open spec fn after_refund(
        self,
        caller: AccountId,
        now: u64,
        escrow_id: u64,
    ) -> EngineState {
        let e = self.escrow(escrow_id);
        self.put(
            escrow_id,
            e.with_status(EscrowStatus::Refunded).logged(
                now,
                caller,
                "FundsRefunded"@,
                Self::refunded_details(e.data.deposited_amount),
            ),
            EventView::FundsRefunded(
                FundsRefunded {
                    escrow_id,
                    amount: e.data.deposited_amount,
                    recipient: e.data.buyer,
                },
            ),
        )
    }

    // ---- documents -------------------------------------------------------

    /// An upload is refused for an unknown escrow, for a closed one, and to a
    /// caller who is neither a participant nor the payer nor the payee.
    pub open spec fn upload_refusal(self, caller: AccountId, escrow_id: u64) -> Option<Error> {
        if !self.has(escrow_id) {
            Some(Error::EscrowNotFound)
        } else {
            let e = self.escrow(escrow_id);
            if e.is_closed() {
                Some(Error::InvalidStatus)
            } else if !e.is_participant(caller) && !e.is_party(caller) {
                Some(Error::Unauthorized)
            } else {
                None
            }
        }
    }

    /// The details of the audit entry of an upload.
    pub open spec fn uploaded_details(document_type: Seq<char>) -> Seq<char> {
        "Type: "@ + document_type
    }

    /// The store after an upload: one more document, unverified, at the end of
    /// the list.
    pub open spec fn after_upload(
        self,
        caller: AccountId,
        now: u64,
        escrow_id: u64,
        document_hash: crate::primitives::Hash,
        document_type: Seq<char>,
    ) -> EngineState {
        let e = self.escrow(escrow_id);
        self.put(
            escrow_id,
            EscrowState {
                documents: e.documents.push(
                    DocumentHashView {
                        hash: document_hash,
                        document_type,
                        uploaded_by: caller,
                        uploaded_at: now,
                        verified: false,
                    },
                ),
                ..e
            }.logged(now, caller, "DocumentUploaded"@, Self::uploaded_details(document_type)),
            EventView::DocumentUploaded(
                DocumentUploadedView { escrow_id, document_hash, document_type, uploader: caller },
            ),
        )
    }

    /// A verification is refused for an unknown escrow, for a closed one, to a
    /// caller who is no participant, and for a fingerprint that no document
    /// has.
    pub open spec fn verify_refusal(
        self,
        caller: AccountId,
        escrow_id: u64,
        document_hash: crate::primitives::Hash,
    ) -> Option<Error> {
        if !self.has(escrow_id) {
            Some(Error::EscrowNotFound)
        } else {
            let e = self.escrow(escrow_id);
            if e.is_closed() {
                Some(Error::InvalidStatus)
            } else if !e.is_participant(caller) {
                Some(Error::Unauthorized)
            } else if !e.has_document(document_hash) {
                Some(Error::DocumentNotFound)
            } else {
                None
            }
        }
    }

    /// The first document with the given fingerprint becomes verified.
    pub open spec fn after_verify(
        self,
        caller: AccountId,
        now: u64,
        escrow_id: u64,
        document_hash: crate::primitives::Hash,
    ) -> EngineState {
        let e = self.escrow(escrow_id);
        let at = first_document(e.documents, document_hash, 0);
        self.put(
            escrow_id,
            EscrowState {
                documents: e.documents.update(
                    at,
                    DocumentHashView { verified: true, ..e.documents[at] },
                ),
                ..e
            }.logged(now, caller, "DocumentVerified"@, "Document verified"@),
            EventView::DocumentVerified(
                DocumentVerified { escrow_id, document_hash, verifier: caller },
            ),
        )
    }

    // ---- conditions ------------------------------------------------------

    /// A condition is refused for an unknown escrow, for a closed one, and to
    /// a caller who is neither the payer nor the payee.
    pub open spec fn add_condition_refusal(self, caller: AccountId, escrow_id: u64) -> Option<
        Error,
    > {
        if !self.has(escrow_id) {
            Some(Error::EscrowNotFound)
        } else {
            let e = self.escrow(escrow_id);
            if e.is_closed() {
                Some(Error::InvalidStatus)
            } else if !e.is_party(caller) {
                Some(Error::Unauthorized)
            } else {
                None
            }
        }
    }

    /// Whether the condition list of the escrow can take one more entry.
    pub open spec fn condition_fits(self, caller: AccountId, escrow_id: u64) -> bool {
        self.add_condition_refusal(caller, escrow_id).is_none() ==> self.escrow(
            escrow_id,
        ).conditions.len() < u64::MAX
    }

    /// The identifier the next condition of this escrow gets.
    pub open spec fn next_condition_id(self, escrow_id: u64) -> u64 {
        (self.escrow(escrow_id).conditions.len() + 1) as u64
    }

    /// The details of the audit entry of a new condition.
    pub open spec fn condition_added_details(description: Seq<char>) -> Seq<char> {
        "Condition: "@ + description
    }

    /// The store after a condition was added: one more condition, unmet, with
    /// the next identifier.
    pub open spec fn after_add_condition(
        self,
        caller: AccountId,
        now: u64,
        escrow_id: u64,
        description: Seq<char>,
    ) -> EngineState {
        let e = self.escrow(escrow_id);
        let condition_id = self.next_condition_id(escrow_id);
        self.put(
            escrow_id,
            EscrowState {
                conditions: e.conditions.push(
                    ConditionView {
                        id: condition_id,
                        description,
                        met: false,
                        verified_by: None,
                        verified_at: None,
                    },
                ),
                ..e
            }.logged(
                now,
                caller,
                "ConditionAdded"@,
                Self::condition_added_details(description),
            ),
            EventView::ConditionAdded(ConditionAddedView { escrow_id, condition_id, description }),
        )
    }

    /// An attestation is refused for an unknown escrow, for a closed one, to a
    /// caller who is no participant, and for an unknown condition.
    pub open spec fn mark_refusal(
        self,
        caller: AccountId,
        escrow_id: u64,
        condition_id: u64,
    ) -> Option<Error> {
        if !self.has(escrow_id) {
            Some(Error::EscrowNotFound)
        } else {
            let e = self.escrow(escrow_id);
            if e.is_closed() {
                Some(Error::InvalidStatus)
            } else if !e.is_participant(caller) {
                Some(Error::Unauthorized)
            } else if !e.has_condition(condition_id) {
                Some(Error::EscrowNotFound)
            } else {
                None
            }
        }
    }

    /// The details of the audit entry of an attestation.
    pub open spec fn condition_met_details(condition_id: u64) -> Seq<char> {
        "Condition ID: "@ + decimal(condition_id as nat)
    }

    /// A condition that is already met stays as first attested and nothing
    /// else changes; an unmet one becomes met, attested by `caller` at `now`.
    pub open spec fn after_mark(
        self,
        caller: AccountId,
        now: u64,
        escrow_id: u64,
        condition_id: u64,
    ) -> EngineState {
        let e = self.escrow(escrow_id);
        let at = condition_id - 1;
        if e.conditions[at].met {
            self
        } else {
            self.put(
                escrow_id,
                EscrowState {
                    conditions: e.conditions.update(
                        at,
                        ConditionView {
                            met: true,
                            verified_by: Some(caller),
                            verified_at: Some(now),
                            ..e.conditions[at]
                        },
                    ),
                    ..e
                }.logged(
                    now,
                    caller,
                    "ConditionMet"@,
                    Self::condition_met_details(condition_id),
                ),
                EventView::ConditionMet(ConditionMet { escrow_id, condition_id, verified_by: caller }),
            )
        }
    }

    // ---- signatures ------------------------------------------------------

    /// A signature is refused for an unknown escrow, for a closed one, to a
    /// caller who is no signer, and to one who has signed this approval type
    /// already.
    pub open spec fn sign_refusal(
        self,
        caller: AccountId,
        escrow_id: u64,
        approval_type: ApprovalType,
    ) -> Option<Error> {
        if !self.has(escrow_id) {
            Some(Error::EscrowNotFound)
        } else {
            let e = self.escrow(escrow_id);
            if e.is_closed() {
                Some(Error::InvalidStatus)
            } else if !e.is_signer(caller) {
                Some(Error::Unauthorized)
            } else if e.signed(approval_type).contains(caller) {
                Some(Error::AlreadySigned)
            } else {
                None
            }
        }
    }

    /// Whether the signature counter of the escrow can take one more.
    pub open spec fn signature_fits(
        self,
        caller: AccountId,
        escrow_id: u64,
        approval_type: ApprovalType,
    ) -> bool {
        self.sign_refusal(caller, escrow_id, approval_type).is_none() ==> self.escrow(
            escrow_id,
        ).signature_count(approval_type) < u8::MAX
    }

    /// The details of the audit entry of a signature.
    pub open spec fn signed_details(approval_type: ApprovalType) -> Seq<char> {
        "Approval type: "@ + approval_name(approval_type)
    }

    /// The store after a signature: the caller joins the signers of the
    /// approval type.
    pub open spec fn after_sign(
        self,
        caller: AccountId,
        now: u64,
        escrow_id: u64,
        approval_type: ApprovalType,
    ) -> EngineState {
        let e = self.escrow(escrow_id);
        self.put(
            escrow_id,
            e.with_signature(approval_type, caller).logged(
                now,
                caller,
                "SignatureAdded"@,
                Self::signed_details(approval_type),
            ),
            EventView::SignatureAdded(SignatureAdded { escrow_id, approval_type, signer: caller }),
        )
    }

    // ---- disputes --------------------------------------------------------

    /// A dispute is refused for an unknown escrow, for a closed one, to a
    /// caller who is neither the payer nor the payee, and while another
    /// dispute is unresolved.
    pub open spec fn raise_refusal(self, caller: AccountId, escrow_id: u64) -> Option<Error> {
        if !self.has(escrow_id) {
            Some(Error::EscrowNotFound)
        } else {
            let e = self.escrow(escrow_id);
            if e.is_closed() {
                Some(Error::InvalidStatus)
            } else if !e.is_party(caller) {
                Some(Error::Unauthorized)
            } else if e.dispute_active() {
                Some(Error::DisputeActive)
            } else {
                None
            }
        }
    }

    /// The details of the audit entry of a dispute.
    pub open spec fn raised_details(reason: Seq<char>) -> Seq<char> {
        "Reason: "@ + reason
    }

    /// The dispute is recorded beside the funding status, which stays.
    pub open spec fn after_raise(
        self,
        caller: AccountId,
        now: u64,
        escrow_id: u64,
        reason: Seq<char>,
    ) -> EngineState {
        let e = self.escrow(escrow_id);
        self.put(
            escrow_id,
            EscrowState {
                dispute: Some(
                    DisputeInfoView {
                        escrow_id,
                        raised_by: caller,
                        reason,
                        raised_at: now,
                        resolved: false,
                        resolution: None,
                    },
                ),
                ..e
            }.logged(now, caller, "DisputeRaised"@, Self::raised_details(reason)),
            EventView::DisputeRaised(DisputeRaisedView { escrow_id, raised_by: caller, reason }),
        )
    }

    /// A resolution is refused for a closed escrow, to a caller who is not the
    /// administrator, and for an escrow that is unknown or has no dispute.
    pub open spec fn resolve_refusal(self, caller: AccountId, escrow_id: u64) -> Option<Error> {
        if self.has(escrow_id) && self.escrow(escrow_id).is_closed() {
            Some(Error::InvalidStatus)
        } else if caller != self.admin {
            Some(Error::Unauthorized)
        } else if !self.has(escrow_id) || self.escrow(escrow_id).dispute.is_none() {
            Some(Error::EscrowNotFound)
        } else {
            None
        }
    }

    /// The details of the audit entry of a resolution.
    pub open spec fn resolved_details(resolution: Seq<char>) -> Seq<char> {
        "Resolution: "@ + resolution
    }

    /// The dispute becomes resolved and the escrow `Active`; the signatures
    /// collected so far stay.
    pub open spec fn after_resolve(
        self,
        caller: AccountId,
        now: u64,
        escrow_id: u64,
        resolution: Seq<char>,
    ) -> EngineState {
        let e = self.escrow(escrow_id);
        self.put(
            escrow_id,
            EscrowState {
                dispute: Some(
                    DisputeInfoView {
                        resolved: true,
                        resolution: Some(resolution),
                        ..e.dispute.unwrap()
                    },
                ),
                ..e
            }.with_status(EscrowStatus::Active).logged(
                now,
                caller,
                "DisputeResolved"@,
                Self::resolved_details(resolution),
            ),
            EventView::DisputeResolved(DisputeResolvedView { escrow_id, resolution }),
        )
    }

    // ---- override --------------------------------------------------------

    /// An override looks at nothing but the caller, the identifier and
    /// whether the escrow is already closed.
    pub open spec fn override_refusal(self, caller: AccountId, escrow_id: u64) -> Option<Error> {
        if caller != self.admin {
            Some(Error::Unauthorized)
        } else if !self.has(escrow_id) {
            Some(Error::EscrowNotFound)
        } else if self.escrow(escrow_id).is_closed() {
            Some(Error::InvalidStatus)
        } else {
            None
        }
    }

    /// What an override moves: the whole custodied amount, to the chosen party.
    pub open spec fn override_transfer(
        self,
        escrow_id: u64,
        release_to_seller: bool,
    ) -> TransferOrder {
        let e = self.escrow(escrow_id);
        TransferOrder {
            to: if release_to_seller {
                e.data.seller
            } else {
                e.data.buyer
            },
            amount: e.data.deposited_amount,
        }
    }

    /// The details of the audit entry of an override: who received the
    /// funds, how much, and the status that was overridden.
    pub open spec fn override_details(self, escrow_id: u64, release_to_seller: bool) -> Seq<char> {
        let e = self.escrow(escrow_id);
        "Funds sent to: "@ + (if release_to_seller {
            "seller"@
        } else {
            "buyer"@
        }) + ", Amount: "@ + decimal(e.data.deposited_amount as nat) + ", Status before: "@
            + status_name(e.reported_status())
    }

    /// The store after an override: the escrow is `Released` or `Refunded` as
    /// chosen.
    pub open spec fn after_override(
        self,
        caller: AccountId,
        now: u64,
        escrow_id: u64,
        release_to_seller: bool,
    ) -> EngineState {
        let e = self.escrow(escrow_id);
        let status = if release_to_seller {
            EscrowStatus::Released
        } else {
            EscrowStatus::Refunded
        };
        self.put(
            escrow_id,
            e.with_status(status).logged(
                now,
                caller,
                "EmergencyOverride"@,
                self.override_details(escrow_id, release_to_seller),
            ),
            EventView::EmergencyOverride(EmergencyOverride { escrow_id, admin: caller }),
        )
    }

    // ---- administrator ---------------------------------------------------

    /// The role is handed over by the administrator only.
    pub open spec fn set_admin_refusal(self, caller: AccountId) -> Option<Error> {
        if caller != self.admin {
            Some(Error::Unauthorized)
        } else {
            None
        }
    }

    /// The store with another administrator.
    pub open spec fn after_set_admin(self, new_admin: AccountId) -> EngineState {
        EngineState { admin: new_admin, ..self }
    }

    /// What a custody-moving operation that passed its checks returns once
    /// the ledger has answered: a refused transfer fails the operation.
    pub open spec fn settled(credited: Result<(), TransferError>) -> Option<Error> {
        if credited.is_ok() {
            None
        } else {
            Some(Error::InsufficientFunds)
        }
    }

    /// Why a release fails, given the ledger's answer; `None` if it succeeds.
    pub open spec fn release_verdict(
        self,
        escrow_id: u64,
        now: u64,
        credited: Result<(), TransferError>,
    ) -> Option<Error> {
        match self.release_refusal(escrow_id, now) {
            Some(e) => Some(e),
            None => Self::settled(credited),
        }
    }

    /// Why a refund fails, given the ledger's answer; `None` if it succeeds.
    pub open spec fn refund_verdict(
        self,
        escrow_id: u64,
        credited: Result<(), TransferError>,
    ) -> Option<Error> {
        match self.refund_refusal(escrow_id) {
            Some(e) => Some(e),
            None => Self::settled(credited),
        }
    }

    /// Why an override fails, given the ledger's answer; `None` if it succeeds.
    pub open spec fn override_verdict(
        self,
        caller: AccountId,
        escrow_id: u64,
        credited: Result<(), TransferError>,
    ) -> Option<Error> {
        match self.override_refusal(caller, escrow_id) {
            Some(e) => Some(e),
            None => Self::settled(credited),
        }
    }
}

} // verus!
