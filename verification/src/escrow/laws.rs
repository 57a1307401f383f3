//! What holds of the engine in every state and under every call.

use vstd::prelude::*;
use crate::primitives::AccountId;
use crate::escrow::calls::Call;
use crate::escrow::model::{first_document, EngineState, EscrowState};
use crate::escrow::types::DocumentHashView;
use crate::escrow::types::{ApprovalType, Error, EscrowStatus, TransferError};

verus! {

/// Replacing an escrow by a well-formed one keeps the store's invariant.
proof fn lemma_put_keeps_wf(s: EngineState, escrow_id: u64, escrow: EscrowState, call: Call)
    requires
        s.wf(),
        s.has(escrow_id),
        escrow.wf(escrow_id),
        s.next(call).escrows == s.escrows.update(escrow_id - 1, escrow),
    ensures
        s.next(call).wf(),
{
    let n = s.next(call);
    assert forall|i: int| 0 <= i < n.escrows.len() implies (#[trigger] n.escrows[i]).wf(
        (i + 1) as u64,
    ) by {
        if i != escrow_id - 1 {
            assert(n.escrows[i] == s.escrows[i]);
        }
    }
}

proof fn lemma_create_keeps_wf(s: EngineState, call: Call)
    requires
        s.wf(),
        s.fits(call),
        call is Create,
        s.verdict(call).is_none(),
    ensures
        s.next(call).wf(),
{
    let n = s.next(call);
    assert forall|i: int| 0 <= i < n.escrows.len() implies (#[trigger] n.escrows[i]).wf(
        (i + 1) as u64,
    ) by {
        if i < s.escrows.len() {
            assert(n.escrows[i] == s.escrows[i]);
        }
    }
}

proof fn lemma_funds_keep_wf(s: EngineState, call: Call)
    requires
        s.wf(),
        s.fits(call),
        call is Deposit || call is Release || call is Refund || call is EmergencyOverride,
        s.verdict(call).is_none(),
    ensures
        s.next(call).wf(),
{
    let id = call.target().unwrap();
    assert(s.escrows[id - 1].wf(id));
    lemma_put_keeps_wf(s, id, s.next(call).escrow(id), call);
}

proof fn lemma_documents_keep_wf(s: EngineState, call: Call)
    requires
        s.wf(),
        call is UploadDocument || call is VerifyDocument,
        s.verdict(call).is_none(),
    ensures
        s.next(call).wf(),
{
    let id = call.target().unwrap();
    assert(s.escrows[id - 1].wf(id));
    lemma_put_keeps_wf(s, id, s.next(call).escrow(id), call);
}

proof fn lemma_conditions_keep_wf(s: EngineState, call: Call)
    requires
        s.wf(),
        s.fits(call),
        call is AddCondition || call is MarkConditionMet,
        s.verdict(call).is_none(),
    ensures
        s.next(call).wf(),
{
    let id = call.target().unwrap();
    assert(s.escrows[id - 1].wf(id));
    if s.next(call) != s {
        lemma_put_keeps_wf(s, id, s.next(call).escrow(id), call);
    }
}

proof fn lemma_signature_keeps_wf(s: EngineState, call: Call)
    requires
        s.wf(),
        s.fits(call),
        call is SignApproval,
        s.verdict(call).is_none(),
    ensures
        s.next(call).wf(),
{
    let id = call.target().unwrap();
    let before = s.escrows[id - 1];
    assert(before.wf(id));
    let after = s.next(call).escrow(id);
    assert(after.signers_wf(ApprovalType::Release));
    assert(after.signers_wf(ApprovalType::Refund));
    assert(after.signers_wf(ApprovalType::EmergencyOverride));
    lemma_put_keeps_wf(s, id, after, call);
}

proof fn lemma_disputes_keep_wf(s: EngineState, call: Call)
    requires
        s.wf(),
        call is RaiseDispute || call is ResolveDispute,
        s.verdict(call).is_none(),
    ensures
        s.next(call).wf(),
{
    let id = call.target().unwrap();
    assert(s.escrows[id - 1].wf(id));
    lemma_put_keeps_wf(s, id, s.next(call).escrow(id), call);
}

/// Every call keeps the store's invariant.
pub proof fn law_invariant_kept(s: EngineState, call: Call)
    requires
        s.wf(),
        s.fits(call),
    ensures
        s.next(call).wf(),
{
    if s.verdict(call).is_none() {
        match call {
            Call::Create { .. } => lemma_create_keeps_wf(s, call),
            Call::Deposit { .. } => lemma_funds_keep_wf(s, call),
            Call::Release { .. } => lemma_funds_keep_wf(s, call),
            Call::Refund { .. } => lemma_funds_keep_wf(s, call),
            Call::EmergencyOverride { .. } => lemma_funds_keep_wf(s, call),
            Call::UploadDocument { .. } => lemma_documents_keep_wf(s, call),
            Call::VerifyDocument { .. } => lemma_documents_keep_wf(s, call),
            Call::AddCondition { .. } => lemma_conditions_keep_wf(s, call),
            Call::MarkConditionMet { .. } => lemma_conditions_keep_wf(s, call),
            Call::SignApproval { .. } => lemma_signature_keeps_wf(s, call),
            Call::RaiseDispute { .. } => lemma_disputes_keep_wf(s, call),
            Call::ResolveDispute { .. } => lemma_disputes_keep_wf(s, call),
            Call::SetAdmin { .. } => {},
        }
    }
}

/// No call removes an escrow or changes the identifier it is stored under.
pub proof fn law_escrows_are_kept(s: EngineState, call: Call, escrow_id: u64)
    requires
        s.wf(),
        s.has(escrow_id),
    ensures
        s.next(call).has(escrow_id),
        s.next(call).escrow(escrow_id).data.id == escrow_id,
        s.next(call).escrow(escrow_id).data.buyer == s.escrow(escrow_id).data.buyer,
        s.next(call).escrow(escrow_id).data.seller == s.escrow(escrow_id).data.seller,
        s.next(call).escrow(escrow_id).data.amount == s.escrow(escrow_id).data.amount,
        s.next(call).escrow(escrow_id).config == s.escrow(escrow_id).config,
{
    assert(s.escrows[escrow_id - 1].wf(escrow_id));
}

/// The custodied amount of an escrow never decreases, whatever is called.
/// Once the escrow is closed, by release, refund or override, nothing about
/// it changes any more: amount, status and registries are frozen.
pub proof fn law_custody_never_shrinks(s: EngineState, call: Call, escrow_id: u64)
    requires
        s.wf(),
        s.fits(call),
        s.has(escrow_id),
    ensures
        s.next(call).has(escrow_id),
        s.next(call).escrow(escrow_id).data.deposited_amount >= s.escrow(
            escrow_id,
        ).data.deposited_amount,
        s.escrow(escrow_id).is_closed() ==> s.next(call).escrow(escrow_id) == s.escrow(escrow_id),
{
}

/// With a ledger that carries out the transfer, a release succeeds if and
/// only if the escrow exists, is `Active`, has no unresolved dispute, has
/// no time-lock or one that has expired, has every condition met, and has
/// enough release signatures. The first clause that is violated, in this
/// order, decides the error.
pub proof fn law_release_iff(s: EngineState, escrow_id: u64, now: u64)
    requires
        s.wf(),
    ensures
        s.release_verdict(escrow_id, now, Ok(())).is_none() <==> {
            &&& s.has(escrow_id)
            &&& s.escrow(escrow_id).data.status == EscrowStatus::Active
            &&& !s.escrow(escrow_id).dispute_active()
            &&& (s.escrow(escrow_id).data.release_time_lock.is_none() || now >= s.escrow(
                escrow_id,
            ).data.release_time_lock.unwrap())
            &&& s.escrow(escrow_id).all_conditions_met()
            &&& s.escrow(escrow_id).signature_count(ApprovalType::Release) >= s.escrow(
                escrow_id,
            ).config.required_signatures
        },
        !s.has(escrow_id) ==> s.release_refusal(escrow_id, now) == Some(Error::EscrowNotFound),
        s.has(escrow_id) ==> {
            let e = s.escrow(escrow_id);
            let locked = e.data.release_time_lock.is_some() && now
                < e.data.release_time_lock.unwrap();
            let refusal = s.release_refusal(escrow_id, now);
            &&& e.data.status != EscrowStatus::Active ==> refusal == Some(Error::InvalidStatus)
            &&& e.data.status == EscrowStatus::Active && e.dispute_active() ==> refusal == Some(
                Error::DisputeActive,
            )
            &&& e.data.status == EscrowStatus::Active && !e.dispute_active() && locked ==> refusal
                == Some(Error::TimeLockActive)
            &&& e.data.status == EscrowStatus::Active && !e.dispute_active() && !locked
                && !e.all_conditions_met() ==> refusal == Some(Error::ConditionsNotMet)
            &&& e.data.status == EscrowStatus::Active && !e.dispute_active() && !locked
                && e.all_conditions_met() && e.signature_count(ApprovalType::Release)
                < e.config.required_signatures ==> refusal == Some(
                Error::SignatureThresholdNotMet,
            )
        },
{
}

/// A release that passes every check stands or falls with the ledger: if
/// the transfer is refused, the release fails with `InsufficientFunds`
/// and the state stays as it was.
pub proof fn law_release_needs_the_transfer(
    s: EngineState,
    caller: AccountId,
    now: u64,
    escrow_id: u64,
    refused: TransferError,
)
    requires
        s.release_refusal(escrow_id, now).is_none(),
    ensures
        s.release_verdict(escrow_id, now, Err(refused)) == Some(Error::InsufficientFunds),
        s.next(Call::Release { caller, now, escrow_id, credited: Err(refused) }) == s,
{
}

/// A signer counts once per approval type. Right after a signature is
/// accepted the count is one higher; the same signer signing the same
/// approval type again is refused with `AlreadySigned`, and the count and
/// everything else stay as they were.
pub proof fn law_signature_counts_once(
    s: EngineState,
    caller: AccountId,
    now: u64,
    later: u64,
    escrow_id: u64,
    approval_type: ApprovalType,
)
    requires
        s.wf(),
        s.sign_refusal(caller, escrow_id, approval_type).is_none(),
    ensures
        ({
            let once = s.after_sign(caller, now, escrow_id, approval_type);
            let again = Call::SignApproval { caller, now: later, escrow_id, approval_type };
            &&& once.escrow(escrow_id).signature_count(approval_type) == s.escrow(
                escrow_id,
            ).signature_count(approval_type) + 1
            &&& once.verdict(again) == Some(Error::AlreadySigned)
            &&& once.next(again) == once
        }),
{
    let once = s.after_sign(caller, now, escrow_id, approval_type);
    let signed = s.escrow(escrow_id).signed(approval_type);
    assert(signed.push(caller)[signed.len() as int] == caller);
    assert(once.escrow(escrow_id).signed(approval_type) == signed.push(caller));
}

/// Whoever has signed an approval type of an escrow that is not closed is
/// refused with `AlreadySigned` on signing it again, and no signer occurs
/// twice among the signatures that are counted.
pub proof fn law_signed_is_signed(
    s: EngineState,
    caller: AccountId,
    escrow_id: u64,
    approval_type: ApprovalType,
)
    requires
        s.wf(),
        s.has(escrow_id),
    ensures
        s.escrow(escrow_id).signed(approval_type).no_duplicates(),
        s.escrow(escrow_id).signed(approval_type).contains(caller) && !s.escrow(
            escrow_id,
        ).is_closed() ==> s.sign_refusal(caller, escrow_id, approval_type) == Some(
            Error::AlreadySigned,
        ),
{
    let e = s.escrows[escrow_id - 1];
    assert(e.wf(escrow_id));
    assert(e.signers_wf(approval_type));
}

/// The signature count of an approval type never exceeds the number of
/// signers.
pub proof fn law_count_within_signers(s: EngineState, escrow_id: u64, approval_type: ApprovalType)
    requires
        s.wf(),
        s.has(escrow_id),
    ensures
        s.escrow(escrow_id).signature_count(approval_type) <= s.escrow(
            escrow_id,
        ).config.signers.len(),
{
    let e = s.escrows[escrow_id - 1];
    assert(e.wf(escrow_id));
    assert(e.signers_wf(approval_type));
    let signed = e.signed(approval_type);
    let signers = e.config.signers;
    signed.unique_seq_to_set();
    assert(signed.to_set().subset_of(signers.to_set())) by {
        assert forall|a: AccountId| signed.to_set().contains(a) implies signers.to_set().contains(
            a,
        ) by {
            let i = choose|i: int| 0 <= i < signed.len() && signed[i] == a;
            assert(signers.contains(signed[i]));
        }
    }
    vstd::seq_lib::seq_to_set_is_finite(signers);
    vstd::set_lib::lemma_len_subset(signed.to_set(), signers.to_set());
    signers.lemma_cardinality_of_set();
}

/// A closed escrow refuses every further call aimed at it and stays as it
/// is. The error is `InvalidStatus`, except that an override attempted by
/// someone other than the administrator is refused as `Unauthorized`.
pub proof fn law_closed_escrows_refuse(s: EngineState, call: Call, escrow_id: u64)
    requires
        s.wf(),
        s.has(escrow_id),
        s.escrow(escrow_id).is_closed(),
        call.target() == Some(escrow_id),
    ensures
        s.next(call) == s,
        (call is EmergencyOverride && call.caller() != s.admin) ==> s.verdict(call) == Some(
            Error::Unauthorized,
        ),
        !(call is EmergencyOverride && call.caller() != s.admin) ==> s.verdict(call) == Some(
            Error::InvalidStatus,
        ),
{
}

/// An override by anyone but the administrator is refused as `Unauthorized`
/// whatever the state. An override by the administrator of an escrow that
/// exists and is not closed is admitted whatever the signatures,
/// conditions, time-lock and disputes are, and succeeds if the ledger
/// carries out the transfer.
pub proof fn law_override(
    s: EngineState,
    caller: AccountId,
    escrow_id: u64,
    credited: Result<(), TransferError>,
)
    ensures
        caller != s.admin ==> s.override_verdict(caller, escrow_id, credited) == Some(
            Error::Unauthorized,
        ),
        caller == s.admin && s.has(escrow_id) && !s.escrow(escrow_id).is_closed()
            ==> s.override_refusal(caller, escrow_id).is_none() && (credited.is_ok()
            ==> s.override_verdict(caller, escrow_id, credited).is_none()),
{
}

/// A call that fails changes nothing. A call that succeeds queues exactly
/// one notification, about the escrow it was aimed at or has created, and
/// keeps the notifications queued before.
pub proof fn law_one_notification(s: EngineState, call: Call)
    requires
        s.wf(),
    ensures
        s.verdict(call).is_some() ==> s.next(call) == s,
        s.verdict(call).is_none() && s.notifies(call) ==> {
            &&& s.next(call).events.len() == s.events.len() + 1
            &&& s.next(call).events.drop_last() == s.events
            &&& s.next(call).events.last().escrow_id() == (match call.target() {
                Some(escrow_id) => escrow_id,
                None => s.next_id(),
            })
        },
        s.verdict(call).is_none() && !s.notifies(call) ==> s.next(call).events == s.events,
{
    if s.verdict(call).is_none() && s.notifies(call) {
        assert(s.next(call).events.drop_last() =~= s.events);
    }
}

/// `first_document` finds the first document from `from` on that has the
/// fingerprint, and answers the length of the list exactly when there is
/// none.
pub proof fn law_first_document(
    documents: Seq<DocumentHashView>,
    hash: crate::primitives::Hash,
    from: int,
)
    requires
        0 <= from <= documents.len(),
    ensures
        from <= first_document(documents, hash, from) <= documents.len(),
        first_document(documents, hash, from) < documents.len() ==> documents[first_document(
            documents,
            hash,
            from,
        )].hash == hash,
        forall|i: int|
            from <= i < first_document(documents, hash, from) ==> (#[trigger] documents[i]).hash
                != hash,
    decreases documents.len() - from,
{
    if from < documents.len() && documents[from].hash != hash {
        law_first_document(documents, hash, from + 1);
    }
}

impl EscrowState {
    /// Whether this escrow holds everything that `earlier` held: the audit
    /// entries and signatures of `earlier` come first, every document and
    /// condition of `earlier` is still there, and what was verified or met
    /// is still so.
    pub open spec fn keeps(self, earlier: EscrowState) -> bool {
        &&& earlier.audit.is_prefix_of(self.audit)
        &&& earlier.release_signers.is_prefix_of(self.release_signers)
        &&& earlier.refund_signers.is_prefix_of(self.refund_signers)
        &&& earlier.override_signers.is_prefix_of(self.override_signers)
        &&& earlier.documents.len() <= self.documents.len()
        &&& forall|i: int|
            0 <= i < earlier.documents.len() ==> {
                &&& (#[trigger] self.documents[i]).hash == earlier.documents[i].hash
                &&& earlier.documents[i].verified ==> self.documents[i].verified
            }
        &&& earlier.conditions.len() <= self.conditions.len()
        &&& forall|i: int|
            0 <= i < earlier.conditions.len() ==> {
                &&& (#[trigger] self.conditions[i]).id == earlier.conditions[i].id
                &&& earlier.conditions[i].met ==> self.conditions[i] == earlier.conditions[i]
            }
    }
}

proof fn lemma_target_keeps(s: EngineState, call: Call, escrow_id: u64)
    requires
        s.wf(),
        s.has(escrow_id),
        call.target() == Some(escrow_id),
        s.verdict(call).is_none(),
    ensures
        s.next(call).escrow(escrow_id).keeps(s.escrow(escrow_id)),
{
    let before = s.escrow(escrow_id);
    let after = s.next(call).escrow(escrow_id);
    assert(s.escrows[escrow_id - 1].wf(escrow_id));
    if let Call::VerifyDocument { document_hash, .. } = call {
        law_first_document(before.documents, document_hash, 0);
    }
    assert(before.audit.is_prefix_of(after.audit));
    assert(before.release_signers.is_prefix_of(after.release_signers));
    assert(before.refund_signers.is_prefix_of(after.refund_signers));
    assert(before.override_signers.is_prefix_of(after.override_signers));
}

/// What an escrow has on record is never taken back: audit entries,
/// documents and conditions are only ever appended, signatures stay (a
/// dispute and its resolution do not reset them), and a document that is
/// verified or a condition that is met stays so.
pub proof fn law_records_only_grow(s: EngineState, call: Call, escrow_id: u64)
    requires
        s.wf(),
        s.has(escrow_id),
    ensures
        s.next(call).has(escrow_id),
        s.next(call).escrow(escrow_id).keeps(s.escrow(escrow_id)),
{
    if s.verdict(call).is_none() && call.target() == Some(escrow_id) {
        lemma_target_keeps(s, call, escrow_id);
    } else {
        assert(s.next(call).escrow(escrow_id) == s.escrow(escrow_id));
    }
}

} // verus!
