use cloudfree_mcp::ai::bridge::{AiBridge, Prepared};
use cloudfree_mcp::ai::types::{AiRequest, AiResponse, BackendReply};
use cloudfree_mcp::json::Json;

fn text(s: &str) -> Json {
    Json::String(s.to_string())
}

fn object(members: Vec<(&str, Json)>) -> Json {
    Json::Object(members.into_iter().map(|(k, v)| (k.to_string(), v)).collect())
}

#[test]
fn format_keeps_only_the_prompt_for_language_models() {
    let input = object(vec![("prompt", text("hi")), ("max_tokens", Json::unsigned(5))]);
    assert_eq!(
        AiBridge::format_input_for_model("@cf/meta/llama-3.1-8b-instruct", input),
        Ok(object(vec![("prompt", text("hi"))]))
    );
    let input = object(vec![("prompt", text("hi")), ("x", Json::Null)]);
    assert_eq!(
        AiBridge::format_input_for_model("acme/mistral-small", input),
        Ok(object(vec![("prompt", text("hi"))]))
    );
}

#[test]
fn format_asks_language_models_for_a_prompt() {
    let missing = Err("Missing 'prompt' field".to_string());
    assert_eq!(AiBridge::format_input_for_model("x/llama", object(vec![])), missing);
    assert_eq!(AiBridge::format_input_for_model("x/llama", Json::Null), missing);
    assert_eq!(
        AiBridge::format_input_for_model("x/llama", object(vec![("prompt", Json::unsigned(1))])),
        missing
    );
    assert_eq!(
        AiBridge::format_input_for_model("x/mistral", object(vec![("text", text("hi"))])),
        missing
    );
}

#[test]
fn format_keeps_only_the_text_for_embedding_models() {
    let input = object(vec![("text", text("hi")), ("other", Json::Bool(true))]);
    assert_eq!(
        AiBridge::format_input_for_model("@cf/baai/bge-base-en-v1.5", input),
        Ok(object(vec![("text", text("hi"))]))
    );
    let many = Json::Array(vec![text("a"), text("b")]);
    assert_eq!(
        AiBridge::format_input_for_model("x/bge", object(vec![("text", Json::Array(vec![text("a"), text("b")]))])),
        Ok(object(vec![("text", many)]))
    );
    assert_eq!(
        AiBridge::format_input_for_model("x/bge", object(vec![("text", Json::Null)])),
        Ok(object(vec![("text", Json::Null)]))
    );
}

#[test]
fn format_asks_embedding_models_for_a_text() {
    assert_eq!(
        AiBridge::format_input_for_model("x/bge", object(vec![("prompt", text("hi"))])),
        Err("Missing 'text' field".to_string())
    );
}

#[test]
fn format_keeps_only_the_prompt_for_image_models() {
    let input = object(vec![("prompt", text("a cat")), ("num_steps", Json::unsigned(4))]);
    assert_eq!(
        AiBridge::format_input_for_model("@cf/stabilityai/stable-diffusion-xl-base-1.0", input),
        Ok(object(vec![("prompt", text("a cat"))]))
    );
    assert_eq!(
        AiBridge::format_input_for_model("x/stable-diffusion", object(vec![])),
        Err("Missing 'prompt' field".to_string())
    );
}

#[test]
fn format_passes_other_input_through() {
    let input = object(vec![("audio", Json::Array(vec![Json::unsigned(1)])), ("x", Json::Null)]);
    assert_eq!(
        AiBridge::format_input_for_model("@cf/openai/whisper", object(vec![("audio", Json::Array(vec![Json::unsigned(1)])), ("x", Json::Null)])),
        Ok(input)
    );
    assert_eq!(AiBridge::format_input_for_model("x/flux", Json::Null), Ok(Json::Null));
    assert_eq!(AiBridge::format_input_for_model("x/qwen", object(vec![])), Ok(object(vec![])));
    assert_eq!(AiBridge::format_input_for_model("", text("raw")), Ok(text("raw")));
}

#[test]
fn format_goes_by_the_first_word_that_matches() {
    assert_eq!(
        AiBridge::format_input_for_model("x/llama-bge", object(vec![("text", text("t")), ("prompt", text("p"))])),
        Ok(object(vec![("prompt", text("p"))]))
    );
    assert_eq!(
        AiBridge::format_input_for_model("x/bge-stable-diffusion", object(vec![("text", text("t")), ("prompt", text("p"))])),
        Ok(object(vec![("text", text("t"))]))
    );
}

#[test]
fn prepare_shapes_the_input_and_estimates_on_what_was_given() {
    let input = object(vec![("text", text("hi")), ("extra", Json::Null)]);
    assert_eq!(
        AiBridge::prepare("@cf/baai/bge-base-en-v1.5", input),
        Ok(Prepared {
            request: AiRequest {
                model: "@cf/baai/bge-base-en-v1.5".to_string(),
                input: object(vec![("text", text("hi"))]),
            },
            estimated_neurons: 0,
        })
    );
    let input = object(vec![("prompt", text("hello world"))]);
    assert_eq!(
        AiBridge::prepare("@cf/meta/llama-3.1-8b-instruct", input),
        Ok(Prepared {
            request: AiRequest {
                model: "@cf/meta/llama-3.1-8b-instruct".to_string(),
                input: object(vec![("prompt", text("hello world"))]),
            },
            estimated_neurons: 102,
        })
    );
}

#[test]
fn prepare_estimates_by_the_category_of_the_descriptor() {
    let prepared = AiBridge::prepare("@cf/qwen/qwen2.5-coder-32b-instruct", object(vec![("prompt", text("hello world"))])).unwrap();
    assert_eq!(prepared.estimated_neurons, 102);
    assert_eq!(prepared.request.input, object(vec![("prompt", text("hello world"))]));
    let prepared = AiBridge::prepare("x/unknown", object(vec![("anything", Json::Null)])).unwrap();
    assert_eq!(prepared.estimated_neurons, 101);
    assert_eq!(prepared.request.input, object(vec![("anything", Json::Null)]));
    let prepared = AiBridge::prepare("@cf/black-forest-labs/flux-1-schnell", Json::Null).unwrap();
    assert_eq!(prepared.estimated_neurons, 5000);
}

#[test]
fn prepare_fails_where_the_input_does_not_serve() {
    assert_eq!(
        AiBridge::prepare("@cf/meta/llama-3.1-8b-instruct", object(vec![])),
        Err("Missing 'prompt' field".to_string())
    );
}

#[test]
fn conclude_takes_the_reported_cost_or_the_estimate() {
    assert_eq!(
        AiBridge::conclude(7, BackendReply { result: text("r"), cost: Some(42) }),
        AiResponse { result: text("r"), neurons_used: 42 }
    );
    assert_eq!(
        AiBridge::conclude(7, BackendReply { result: text("r"), cost: None }),
        AiResponse { result: text("r"), neurons_used: 7 }
    );
    assert_eq!(
        AiBridge::conclude(7, BackendReply { result: text("r"), cost: Some(0) }),
        AiResponse { result: text("r"), neurons_used: 0 }
    );
}

#[test]
fn reply_reads_the_cost_out_of_the_result() {
    let result = object(vec![("response", text("ok")), ("neurons_used", Json::unsigned(12))]);
    let reply = BackendReply::from_result(result);
    assert_eq!(reply.cost, Some(12));
    assert_eq!(reply.result, object(vec![("response", text("ok")), ("neurons_used", Json::unsigned(12))]));
    assert_eq!(BackendReply::from_result(object(vec![("response", text("ok"))])).cost, None);
    assert_eq!(BackendReply::from_result(object(vec![("neurons_used", text("12"))])).cost, None);
    assert_eq!(BackendReply::from_result(object(vec![("neurons_used", Json::signed(-1))])).cost, None);
    assert_eq!(
        BackendReply::from_result(object(vec![("neurons_used", Json::Number(serde_json::Number::from_f64(1.5).unwrap()))])).cost,
        None
    );
    assert_eq!(BackendReply::from_result(Json::Array(vec![])).cost, None);
}

#[test]
fn reply_keeps_the_low_bits_of_a_cost_beyond_range() {
    let result = object(vec![("neurons_used", Json::unsigned(4294967296 + 5))]);
    assert_eq!(BackendReply::from_result(result).cost, Some(5));
    let result = object(vec![("neurons_used", Json::unsigned(4294967295))]);
    assert_eq!(BackendReply::from_result(result).cost, Some(4294967295));
}

#[test]
fn run_inference_hands_the_backend_the_shaped_request() {
    let response = AiBridge::run_inference(
        "@cf/baai/bge-base-en-v1.5",
        object(vec![("text", text("hi")), ("extra", Json::Null)]),
        |request: &AiRequest| {
            assert_eq!(request.model, "@cf/baai/bge-base-en-v1.5");
            assert_eq!(request.input, object(vec![("text", text("hi"))]));
            Ok(BackendReply { result: text("vector"), cost: None })
        },
    );
    assert_eq!(response, Ok(AiResponse { result: text("vector"), neurons_used: 0 }));
}

#[test]
fn run_inference_reports_what_the_backend_tells() {
    let response = AiBridge::run_inference(
        "@cf/meta/llama-3.1-8b-instruct",
        object(vec![("prompt", text("hello world"))]),
        |_request: &AiRequest| Ok(BackendReply { result: text("out"), cost: Some(9) }),
    );
    assert_eq!(response, Ok(AiResponse { result: text("out"), neurons_used: 9 }));
    let response = AiBridge::run_inference(
        "@cf/meta/llama-3.1-8b-instruct",
        object(vec![("prompt", text("hello world"))]),
        |_request: &AiRequest| Err("backend down".to_string()),
    );
    assert_eq!(response, Err("backend down".to_string()));
}

#[test]
fn run_inference_does_not_ask_the_backend_for_unfit_input() {
    let response = AiBridge::run_inference("x/llama", object(vec![]), |_request: &AiRequest| {
        panic!("the backend must not be asked")
    });
    assert_eq!(response, Err("Missing 'prompt' field".to_string()));
}
