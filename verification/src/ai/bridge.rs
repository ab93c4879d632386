//! The way to the inference backend: the input is put in the shape that the
//! model expects and its cost is estimated before the backend is asked, and
//! the cost is settled once the backend has answered.

use crate::ai::models::{capped, estimate, resolved, ModelRegistry};
use crate::ai::types::{
    AiRequest, AiRequestView, AiResponse, AiResponseView, BackendReply, BackendReplyView,
};
use crate::json::{object1, Json, JsonValue, ObjectBuilder};
use crate::text::{chars_of, contains, occurs_in};
use crate::views::result_view;
use vstd::prelude::*;

verus! {

/// The shape in which a model takes its input.
pub enum InputShape {
    /// An object with the text under `prompt`.
    Prompt,
    /// An object with whatever stands under `text`.
    Text,
    /// The input as the caller gave it.
    Passthrough,
}

/// The shape in which the model `id` takes its input, by the words in the
/// identifier.
pub open spec fn input_shape(id: Seq<char>) -> InputShape {
    if occurs_in(id, "llama"@) || occurs_in(id, "mistral"@) {
        InputShape::Prompt
    } else if occurs_in(id, "bge"@) {
        InputShape::Text
    } else if occurs_in(id, "stable-diffusion"@) {
        InputShape::Prompt
    } else {
        InputShape::Passthrough
    }
}

/// What is said where the input lacks a text under `prompt`.
pub open spec fn missing_prompt() -> Seq<char> {
    "Missing 'prompt' field"@
}

/// What is said where the input lacks a member under `text`.
pub open spec fn missing_text() -> Seq<char> {
    "Missing 'text' field"@
}

/// The input that goes to the backend for the model `id`, or what is said
/// where `input` lacks what the model needs.
pub open spec fn formatted(id: Seq<char>, input: JsonValue) -> Result<JsonValue, Seq<char>> {
    match input_shape(id) {
        InputShape::Prompt => match input.text_field("prompt"@) {
            Some(prompt) => Ok(object1("prompt"@, JsonValue::String(prompt))),
            None => Err(missing_prompt()),
        },
        InputShape::Text => match input.field("text"@) {
            Some(text) => Ok(object1("text"@, text)),
            None => Err(missing_text()),
        },
        InputShape::Passthrough => Ok(input),
    }
}

/// A call that is ready for the backend, as a mathematical value.
pub struct PreparedView {
    pub request: AiRequestView,
    pub estimated_neurons: u32,
}

/// A call that is ready for the backend: the request to send, and the cost
/// to report where the backend reports none.
#[derive(Debug, PartialEq)]
pub struct Prepared {
    pub request: AiRequest,
    pub estimated_neurons: u32,
}

impl View for Prepared {
    type V = PreparedView;

    open spec fn view(&self) -> PreparedView {
        PreparedView { request: self.request@, estimated_neurons: self.estimated_neurons }
    }
}

/// The call that running the model `id` on `input` comes to. The estimate
/// goes by the category of the model's descriptor and by the input as the
/// caller gave it.
pub open spec fn prepared(id: Seq<char>, input: JsonValue) -> Result<PreparedView, Seq<char>> {
    match formatted(id, input) {
        Ok(shaped) => Ok(
            PreparedView {
                request: AiRequestView { model: id, input: shaped },
                estimated_neurons: capped(estimate(resolved(id).category, input)),
            },
        ),
        Err(e) => Err(e),
    }
}

/// The outcome of an inference whose backend returned `reply`: the cost is
/// the one the backend tells, and the estimate where it tells none.
pub open spec fn concluded(estimated_neurons: u32, reply: BackendReplyView) -> AiResponseView {
    AiResponseView {
        result: reply.result,
        neurons_used: match reply.cost {
            Some(n) => n,
            None => estimated_neurons,
        },
    }
}

/// The outcome of an inference whose backend came back with `outcome`: what
/// it returned, settled, or what it said when it failed.
pub open spec fn settled(
    estimated_neurons: u32,
    outcome: Result<BackendReplyView, Seq<char>>,
) -> Result<AiResponseView, Seq<char>> {
    match outcome {
        Ok(reply) => Ok(concluded(estimated_neurons, reply)),
        Err(e) => Err(e),
    }
}

/// The way to the inference backend.
pub struct AiBridge;

impl AiBridge {
    /// Puts `input` in the shape that the model `model_id` expects.
    pub fn format_input_for_model(model_id: &str, input: Json) -> (r: Result<Json, String>)
        ensures
            result_view(r) == formatted(model_id@, input@),
    {
        let id = chars_of(model_id);
        if contains(&id, &chars_of("llama")) || contains(&id, &chars_of("mistral")) {
            Self::only_prompt(input)
        } else if contains(&id, &chars_of("bge")) {
            match input.into_field("text") {
                Some(text) => {
                    let mut b = ObjectBuilder::new();
                    b.put("text", text);
                    Ok(b.finish())
                },
                None => Err("Missing 'text' field".to_owned()),
            }
        } else if contains(&id, &chars_of("stable-diffusion")) {
            Self::only_prompt(input)
        } else {
            Ok(input)
        }
    }

    /// The object that holds the text under `prompt` of `input` and nothing
    /// else.
    fn only_prompt(input: Json) -> (r: Result<Json, String>)
        ensures
            result_view(r) == match input@.text_field("prompt"@) {
                Some(prompt) => Ok::<JsonValue, Seq<char>>(
                    object1("prompt"@, JsonValue::String(prompt)),
                ),
                None => Err(missing_prompt()),
            },
    {
        let prompt = match input.get("prompt") {
            Some(v) => v.as_str(),
            None => None,
        };
        match prompt {
            Some(p) => {
                let mut b = ObjectBuilder::new();
                b.put_str("prompt", p);
                Ok(b.finish())
            },
            None => Err("Missing 'prompt' field".to_owned()),
        }
    }

    /// Makes the call ready for the backend: resolves the model, estimates
    /// the cost on the input as given, and shapes the input.
    pub fn prepare(model_id: &str, input: Json) -> (r: Result<Prepared, String>)
        ensures
            result_view(r) == prepared(model_id@, input@),
    {
        let model = ModelRegistry::get_model(model_id).unwrap();
        let estimated_neurons = model.estimate_neurons(&input);
        match Self::format_input_for_model(model_id, input) {
            Ok(shaped) => Ok(
                Prepared {
                    request: AiRequest { model: model_id.to_owned(), input: shaped },
                    estimated_neurons,
                },
            ),
            Err(e) => Err(e),
        }
    }

    /// Runs the model `model_id` on `input` through `backend`, which is
    /// handed the request and returns the backend's result or what it says
    /// of its failure. Where the input lacks what the model needs, the
    /// backend is not asked. Nothing is assumed of what the backend returns:
    /// the outcome is the one that [`settled`] gives for it.
    pub fn run_inference<F>(model_id: &str, input: Json, backend: F) -> (r: Result<
        AiResponse,
        String,
    >) where F: FnOnce(&AiRequest) -> Result<BackendReply, String>
        requires
            forall|request: &AiRequest| call_requires(backend, (request,)),
        ensures
            match prepared(model_id@, input@) {
                Ok(call) => exists|request: &AiRequest, outcome: Result<BackendReply, String>|
                    {
                        &&& request@ == call.request
                        &&& call_ensures(backend, (request,), outcome)
                        &&& result_view(r) == settled(
                            call.estimated_neurons,
                            result_view(outcome),
                        )
                    },
                Err(e) => result_view(r) == Err::<AiResponseView, Seq<char>>(e),
            },
    {
        match Self::prepare(model_id, input) {
            Ok(call) => {
                let outcome = backend(&call.request);
                match outcome {
                    Ok(reply) => Ok(Self::conclude(call.estimated_neurons, reply)),
                    Err(e) => Err(e),
                }
            },
            Err(e) => Err(e),
        }
    }

    /// Settles the outcome once the backend has returned `reply`.
    pub fn conclude(estimated_neurons: u32, reply: BackendReply) -> (r: AiResponse)
        ensures
            r@ == concluded(estimated_neurons, reply@),
    {
        let neurons_used = match reply.cost {
            Some(n) => n,
            None => estimated_neurons,
        };
        AiResponse { result: reply.result, neurons_used }
    }
}

} // verus!
