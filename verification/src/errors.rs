use vstd::prelude::*;

verus! {

/// The structural fault found in a payload the caller asked to classify.
/// Inbound node payloads with such faults are dropped; for an outbound
/// request the fault is surfaced to the caller, who must see why its own
/// request could not be dispatched.
#[derive(Clone, Copy, PartialEq, Eq, Structural, Debug)]
pub enum ClassifyError {
    /// The payload is not valid JSON.
    NotValidJson,
    /// The payload has no unsigned-integer `"reqId"` field.
    NoReqId,
    /// The payload has no string `"operation"."type"` field.
    NoOpType,
}

impl ClassifyError {
    /// The wording of each fault.
    pub open spec fn spec_message(self) -> Seq<char> {
        match self {
            ClassifyError::NotValidJson => "invalid request json"@,
            ClassifyError::NoReqId => "no reqId in request"@,
            ClassifyError::NoOpType => "no operation type in request"@,
        }
    }

    /// A human-readable description of the fault.
    pub fn message(&self) -> (r: String)
        ensures
            r@ == self.spec_message(),
    {
        match self {
            ClassifyError::NotValidJson => "invalid request json".to_string(),
            ClassifyError::NoReqId => "no reqId in request".to_string(),
            ClassifyError::NoOpType => "no operation type in request".to_string(),
        }
    }
}

} // verus!
