use vstd::prelude::*;
use crate::text::str_eq;

verus! {

/// The envelope of every backend answer: `status` is `"ok"` or `"fail"`,
/// `code` 1 marks a backend fault and 2 a domain conflict.
pub struct ResponseEnvelope {
    pub status: String,
    pub code: u32,
    pub message: String,
}

/// What a backend call came to.
#[derive(Clone, Debug)]
pub enum BackendOutcome {
    Success,
    TransientError,
    LogicConflict(String),
}

pub open spec fn is_fail(status: Seq<char>) -> bool {
    status == "fail"@
}

/// Classification of an envelope, where `label` is a message that the
/// calling endpoint also reads as a conflict (`None`: code 2 alone).
pub open spec fn outcome_spec(
    status: Seq<char>,
    code: u32,
    message: Seq<char>,
    label: Option<Seq<char>>,
) -> BackendOutcomeKind {
    if !is_fail(status) {
        BackendOutcomeKind::Success
    } else if code == 1 {
        BackendOutcomeKind::TransientError
    } else if code == 2 || label == Some(message) {
        BackendOutcomeKind::LogicConflict
    } else {
        BackendOutcomeKind::TransientError
    }
}

/// The tag of a [`BackendOutcome`], without its message.
#[derive(Clone, Copy, Debug, PartialEq, Eq, Structural)]
pub enum BackendOutcomeKind {
    Success,
    TransientError,
    LogicConflict,
}

impl BackendOutcome {
    pub open spec fn kind(&self) -> BackendOutcomeKind {
        match self {
            BackendOutcome::Success => BackendOutcomeKind::Success,
            BackendOutcome::TransientError => BackendOutcomeKind::TransientError,
            BackendOutcome::LogicConflict(_) => BackendOutcomeKind::LogicConflict,
        }
    }
}

/// The outcome that an answer (or its absence) stands for, over plain values.
pub open spec fn response_outcome(
    resp: Option<ResponseEnvelope>,
    label: Option<Seq<char>>,
) -> BackendOutcomeKind {
    match resp {
        None => BackendOutcomeKind::TransientError,
        Some(e) => outcome_spec(e.status@, e.code, e.message@, label),
    }
}

/// Maps an envelope to an outcome by status and code alone: not failed is
/// success, code 2 is a conflict that carries the backend's message, any
/// other failure is transient.
pub fn classify(resp: &ResponseEnvelope) -> (r: BackendOutcome)
    ensures
        r.kind() == outcome_spec(resp.status@, resp.code, resp.message@, None),
        r matches BackendOutcome::LogicConflict(m) ==> m@ == resp.message@,
{
    if !str_eq(resp.status.as_str(), "fail") {
        proof { reveal_strlit("fail"); }
        BackendOutcome::Success
    } else if resp.code == 2 {
        BackendOutcome::LogicConflict(resp.message.clone())
    } else {
        BackendOutcome::TransientError
    }
}

/// As [`classify`], where the calling endpoint also reads a failure whose
/// message is exactly `label` as a conflict, unless its code marks a fault.
pub fn classify_labelled(resp: &ResponseEnvelope, label: &str) -> (r: BackendOutcome)
    ensures
        r.kind() == outcome_spec(resp.status@, resp.code, resp.message@, Some(label@)),
        r matches BackendOutcome::LogicConflict(m) ==> m@ == resp.message@,
{
    let plain = classify(resp);
    match plain {
        BackendOutcome::TransientError => {
            if resp.code != 1 && str_eq(resp.message.as_str(), label) {
                BackendOutcome::LogicConflict(resp.message.clone())
            } else {
                plain
            }
        },
        _ => plain,
    }
}

/// The outcome of a call whose answer may be missing: a transport or decoding
/// failure (`None`) counts as transient.
pub fn outcome_of(resp: &Option<ResponseEnvelope>, label: &str) -> (r: BackendOutcome)
    ensures
        r.kind() == response_outcome(*resp, Some(label@)),
{
    match resp {
        None => BackendOutcome::TransientError,
        Some(e) => classify_labelled(e, label),
    }
}

} // verus!
