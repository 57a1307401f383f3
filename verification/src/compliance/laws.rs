//! What holds of the compliance registry whatever is recorded.

use vstd::prelude::*;
use crate::primitives::AccountId;
use crate::compliance::model::{verification_level, ComplianceState};
use crate::compliance::types::{
    AMLRiskFactors, BiometricMethod, ConsentStatus, DocumentType, SanctionsList,
};

verus! {

/// The verification level lies between 0 and 5, and a risk score between
/// 20 and 80 neither raises nor lowers it.
pub proof fn law_verification_level_bounds(
    document_type: DocumentType,
    biometric_method: BiometricMethod,
    risk_score: u8,
)
    ensures
        0 <= verification_level(document_type, biometric_method, risk_score) <= 5,
        20 <= risk_score <= 80 ==> verification_level(document_type, biometric_method, risk_score)
            == verification_level(document_type, biometric_method, 50),
        verification_level(document_type, biometric_method, 0) >= verification_level(
            document_type,
            biometric_method,
            risk_score,
        ),
{
}

/// An account whose AML check or sanctions screening has failed, or whose
/// verification is revoked, is compliant at no time, until it is verified
/// anew.
pub proof fn law_failure_ends_compliance(
    s: ComplianceState,
    caller: AccountId,
    now: u64,
    account: AccountId,
    factors: AMLRiskFactors,
    list_checked: SanctionsList,
    at: u64,
)
    requires
        s.has_data(account),
    ensures
        !s.after_aml(caller, now, account, false, factors).is_compliant(at, account),
        !s.after_sanctions(caller, now, account, false, list_checked).is_compliant(at, account),
        !s.after_revoke(now, account).is_compliant(at, account),
{
}

/// A fresh verification is not yet compliance: the AML check, the
/// sanctions screening and the consent are still to come. And whatever
/// else is on record, an account is compliant only while its consent is
/// given.
pub proof fn law_compliance_needs_consent(
    s: ComplianceState,
    caller: AccountId,
    now: u64,
    account: AccountId,
    consent: ConsentStatus,
    at: u64,
)
    requires
        s.has_data(account),
        consent != ConsentStatus::Given,
    ensures
        !s.after_consent(caller, now, account, consent).is_compliant(at, account),
{
}

/// Recording something about one account changes the record of no other.
pub proof fn law_records_are_separate(
    s: ComplianceState,
    caller: AccountId,
    now: u64,
    account: AccountId,
    other: AccountId,
    passed: bool,
    factors: AMLRiskFactors,
    list_checked: SanctionsList,
    consent: ConsentStatus,
)
    requires
        other != account,
    ensures
        s.after_aml(caller, now, account, passed, factors).has_data(other) == s.has_data(other),
        s.has_data(other) ==> {
            &&& s.after_aml(caller, now, account, passed, factors).compliance_data[other]
                == s.compliance_data[other]
            &&& s.after_sanctions(caller, now, account, passed, list_checked).compliance_data[other]
                == s.compliance_data[other]
            &&& s.after_consent(caller, now, account, consent).compliance_data[other]
                == s.compliance_data[other]
            &&& s.after_revoke(now, account).compliance_data[other] == s.compliance_data[other]
        },
{
}

} // verus!
