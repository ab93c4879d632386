//! What goes to the inference backend and what comes back.

use crate::json::{Json, JsonValue};
use vstd::prelude::*;

verus! {

/// A request to the backend, as a mathematical value.
pub struct AiRequestView {
    pub model: Seq<char>,
    pub input: JsonValue,
}

/// A request to the backend: the model to run and the input in the shape
/// that the model expects.
#[derive(Debug, PartialEq)]
pub struct AiRequest {
    pub model: String,
    pub input: Json,
}

impl View for AiRequest {
    type V = AiRequestView;

    open spec fn view(&self) -> AiRequestView {
        AiRequestView { model: self.model@, input: self.input@ }
    }
}

/// What the backend returns, as a mathematical value.
pub struct BackendReplyView {
    pub result: JsonValue,
    pub cost: Option<u32>,
}

/// What the backend returns: the result of the model, and what running it
/// cost where the backend tells.
#[derive(Debug, PartialEq)]
pub struct BackendReply {
    pub result: Json,
    pub cost: Option<u32>,
}

impl View for BackendReply {
    type V = BackendReplyView;

    open spec fn view(&self) -> BackendReplyView {
        BackendReplyView { result: self.result@, cost: self.cost }
    }
}

/// The cost that a result reports within itself: the non-negative integer
/// under `neurons_used`, kept to its low 32 bits.
pub open spec fn reported_neurons(result: JsonValue) -> Option<u32> {
    match result.field("neurons_used"@) {
        Some(v) => match v.unsigned() {
            Some(n) => Some((n % 0x1_0000_0000) as u32),
            None => None,
        },
        None => None,
    }
}

impl BackendReply {
    /// The reply of a backend that tells the cost within the result.
    pub fn from_result(result: Json) -> (reply: BackendReply)
        ensures
            reply@ == (BackendReplyView { result: result@, cost: reported_neurons(result@) }),
    {
        let reported = match result.get("neurons_used") {
            Some(v) => v.as_u64(),
            None => None,
        };
        let cost = match reported {
            Some(n) => Some((n % 0x1_0000_0000) as u32),
            None => None,
        };
        BackendReply { result, cost }
    }
}

/// The outcome of an inference, as a mathematical value.
pub struct AiResponseView {
    pub result: JsonValue,
    pub neurons_used: u32,
}

/// The outcome of an inference: what the backend returned and what it cost.
#[derive(Debug, PartialEq)]
pub struct AiResponse {
    pub result: Json,
    pub neurons_used: u32,
}

impl View for AiResponse {
    type V = AiResponseView;

    open spec fn view(&self) -> AiResponseView {
        AiResponseView { result: self.result@, neurons_used: self.neurons_used }
    }
}

} // verus!
