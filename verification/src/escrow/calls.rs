//! The engine as a state machine: every state-changing call as a value,
//! with the verdict on it and the state it leaves.

use vstd::prelude::*;
use crate::primitives::AccountId;
use crate::escrow::model::EngineState;
use crate::escrow::types::{ApprovalType, Error, TransferError};

verus! {

/// One state-changing call with its arguments. A call that moves custody
/// carries the ledger's answer to the transfer it asks for.
pub enum Call {
    Create {
        caller: AccountId,
        now: u64,
        property_id: u64,
        amount: u128,
        buyer: AccountId,
        seller: AccountId,
        participants: Seq<AccountId>,
        required_signatures: u8,
        release_time_lock: Option<u64>,
    },
    Deposit { caller: AccountId, now: u64, escrow_id: u64, amount: u128 },
    Release { caller: AccountId, now: u64, escrow_id: u64, credited: Result<(), TransferError> },
    Refund { caller: AccountId, now: u64, escrow_id: u64, credited: Result<(), TransferError> },
    UploadDocument {
        caller: AccountId,
        now: u64,
        escrow_id: u64,
        document_hash: crate::primitives::Hash,
        document_type: Seq<char>,
    },
    VerifyDocument {
        caller: AccountId,
        now: u64,
        escrow_id: u64,
        document_hash: crate::primitives::Hash,
    },
    AddCondition { caller: AccountId, now: u64, escrow_id: u64, description: Seq<char> },
    MarkConditionMet { caller: AccountId, now: u64, escrow_id: u64, condition_id: u64 },
    SignApproval { caller: AccountId, now: u64, escrow_id: u64, approval_type: ApprovalType },
    RaiseDispute { caller: AccountId, now: u64, escrow_id: u64, reason: Seq<char> },
    ResolveDispute { caller: AccountId, now: u64, escrow_id: u64, resolution: Seq<char> },
    EmergencyOverride {
        caller: AccountId,
        now: u64,
        escrow_id: u64,
        release_to_seller: bool,
        credited: Result<(), TransferError>,
    },
    SetAdmin { caller: AccountId, new_admin: AccountId },
}

impl Call {
    /// The existing escrow the call is aimed at, if it is aimed at one.
    pub open spec fn target(self) -> Option<u64> {
        match self {
            Call::Create { .. } => None,
            Call::Deposit { escrow_id, .. } => Some(escrow_id),
            Call::Release { escrow_id, .. } => Some(escrow_id),
            Call::Refund { escrow_id, .. } => Some(escrow_id),
            Call::UploadDocument { escrow_id, .. } => Some(escrow_id),
            Call::VerifyDocument { escrow_id, .. } => Some(escrow_id),
            Call::AddCondition { escrow_id, .. } => Some(escrow_id),
            Call::MarkConditionMet { escrow_id, .. } => Some(escrow_id),
            Call::SignApproval { escrow_id, .. } => Some(escrow_id),
            Call::RaiseDispute { escrow_id, .. } => Some(escrow_id),
            Call::ResolveDispute { escrow_id, .. } => Some(escrow_id),
            Call::EmergencyOverride { escrow_id, .. } => Some(escrow_id),
            Call::SetAdmin { .. } => None,
        }
    }

    /// Who makes the call.
    pub open spec fn caller(self) -> AccountId {
        match self {
            Call::Create { caller, .. } => caller,
            Call::Deposit { caller, .. } => caller,
            Call::Release { caller, .. } => caller,
            Call::Refund { caller, .. } => caller,
            Call::UploadDocument { caller, .. } => caller,
            Call::VerifyDocument { caller, .. } => caller,
            Call::AddCondition { caller, .. } => caller,
            Call::MarkConditionMet { caller, .. } => caller,
            Call::SignApproval { caller, .. } => caller,
            Call::RaiseDispute { caller, .. } => caller,
            Call::ResolveDispute { caller, .. } => caller,
            Call::EmergencyOverride { caller, .. } => caller,
            Call::SetAdmin { caller, .. } => caller,
        }
    }
}

impl EngineState {
    /// Whether the counters and amounts the call would increase have room.
    pub open spec fn fits(self, call: Call) -> bool {
        match call {
            Call::Create { participants, required_signatures, .. } => self.create_fits(
                participants,
                required_signatures,
            ),
            Call::Deposit { escrow_id, amount, .. } => self.deposit_fits(escrow_id, amount),
            Call::AddCondition { caller, escrow_id, .. } => self.condition_fits(caller, escrow_id),
            Call::SignApproval { caller, escrow_id, approval_type, .. } => self.signature_fits(
                caller,
                escrow_id,
                approval_type,
            ),
            _ => true,
        }
    }

    /// Why the call fails; `None` if it succeeds.
    pub open spec fn verdict(self, call: Call) -> Option<Error> {
        match call {
            Call::Create { participants, required_signatures, .. } => Self::create_refusal(
                participants,
                required_signatures,
            ),
            Call::Deposit { escrow_id, .. } => self.deposit_refusal(escrow_id),
            Call::Release { now, escrow_id, credited, .. } => self.release_verdict(
                escrow_id,
                now,
                credited,
            ),
            Call::Refund { escrow_id, credited, .. } => self.refund_verdict(escrow_id, credited),
            Call::UploadDocument { caller, escrow_id, .. } => self.upload_refusal(caller, escrow_id),
            Call::VerifyDocument { caller, escrow_id, document_hash, .. } => self.verify_refusal(
                caller,
                escrow_id,
                document_hash,
            ),
            Call::AddCondition { caller, escrow_id, .. } => self.add_condition_refusal(
                caller,
                escrow_id,
            ),
            Call::MarkConditionMet { caller, escrow_id, condition_id, .. } => self.mark_refusal(
                caller,
                escrow_id,
                condition_id,
            ),
            Call::SignApproval { caller, escrow_id, approval_type, .. } => self.sign_refusal(
                caller,
                escrow_id,
                approval_type,
            ),
            Call::RaiseDispute { caller, escrow_id, .. } => self.raise_refusal(caller, escrow_id),
            Call::ResolveDispute { caller, escrow_id, .. } => self.resolve_refusal(
                caller,
                escrow_id,
            ),
            Call::EmergencyOverride { caller, escrow_id, credited, .. } => self.override_verdict(
                caller,
                escrow_id,
                credited,
            ),
            Call::SetAdmin { caller, .. } => self.set_admin_refusal(caller),
        }
    }

    /// The state a successful call leaves.
    pub open spec fn after(self, call: Call) -> EngineState {
        match call {
            Call::Create {
                caller,
                now,
                property_id,
                amount,
                buyer,
                seller,
                participants,
                required_signatures,
                release_time_lock,
            } => self.after_create(
                caller,
                now,
                property_id,
                amount,
                buyer,
                seller,
                participants,
                required_signatures,
                release_time_lock,
            ),
            Call::Deposit { caller, now, escrow_id, amount } => self.after_deposit(
                caller,
                now,
                escrow_id,
                amount,
            ),
            Call::Release { caller, now, escrow_id, .. } => self.after_release(
                caller,
                now,
                escrow_id,
            ),
            Call::Refund { caller, now, escrow_id, .. } => self.after_refund(caller, now, escrow_id),
            Call::UploadDocument {
                caller,
                now,
                escrow_id,
                document_hash,
                document_type,
            } => self.after_upload(caller, now, escrow_id, document_hash, document_type),
            Call::VerifyDocument { caller, now, escrow_id, document_hash } => self.after_verify(
                caller,
                now,
                escrow_id,
                document_hash,
            ),
            Call::AddCondition { caller, now, escrow_id, description } => self.after_add_condition(
                caller,
                now,
                escrow_id,
                description,
            ),
            Call::MarkConditionMet { caller, now, escrow_id, condition_id } => self.after_mark(
                caller,
                now,
                escrow_id,
                condition_id,
            ),
            Call::SignApproval { caller, now, escrow_id, approval_type } => self.after_sign(
                caller,
                now,
                escrow_id,
                approval_type,
            ),
            Call::RaiseDispute { caller, now, escrow_id, reason } => self.after_raise(
                caller,
                now,
                escrow_id,
                reason,
            ),
            Call::ResolveDispute { caller, now, escrow_id, resolution } => self.after_resolve(
                caller,
                now,
                escrow_id,
                resolution,
            ),
            Call::EmergencyOverride {
                caller,
                now,
                escrow_id,
                release_to_seller,
                ..
            } => self.after_override(caller, now, escrow_id, release_to_seller),
            Call::SetAdmin { new_admin, .. } => self.after_set_admin(new_admin),
        }
    }

    /// The state the call leaves: a failed call leaves the state as it was.
    pub open spec fn next(self, call: Call) -> EngineState {
        if self.verdict(call).is_some() {
            self
        } else {
            self.after(call)
        }
    }

    /// Whether a successful call queues a notification. Handing over the
    /// administrator's role, and attesting a condition that is already met,
    /// queue none.
    pub open spec fn notifies(self, call: Call) -> bool {
        match call {
            Call::SetAdmin { .. } => false,
            Call::MarkConditionMet { escrow_id, condition_id, .. } => !self.escrow(
                escrow_id,
            ).conditions[condition_id - 1].met,
            _ => true,
        }
    }
}

} // verus!
