use cloudfree_mcp::ai::bridge::Prepared;
use cloudfree_mcp::ai::types::{AiRequest, BackendReply};
use cloudfree_mcp::json::Json;
use cloudfree_mcp::mcp::protocol::{
    CallToolParams, JsonRpcError, JsonRpcRequest, JsonRpcResponse, ReadResourceParams,
};
use cloudfree_mcp::mcp::server::{
    McpServer, Notice, PendingCall, Routed, INTERNAL_ERROR, METHOD_NOT_FOUND,
};

fn text(s: &str) -> Json {
    Json::String(s.to_string())
}

fn object(members: Vec<(&str, Json)>) -> Json {
    Json::Object(members.into_iter().map(|(k, v)| (k.to_string(), v)).collect())
}

fn envelope(id: Option<Json>, method: &str, params: Option<Json>) -> JsonRpcRequest {
    JsonRpcRequest { jsonrpc: "2.0".to_string(), id, method: method.to_string(), params }
}

fn no_backend(_request: &AiRequest) -> Result<BackendReply, String> {
    panic!("the backend must not be asked")
}

fn failure(id: Option<Json>, code: i32, message: &str) -> JsonRpcResponse {
    JsonRpcResponse {
        jsonrpc: "2.0".to_string(),
        id,
        result: None,
        error: Some(JsonRpcError { code, message: message.to_string(), data: None }),
    }
}

fn initialize_document() -> Json {
    object(vec![
        ("protocolVersion", text("2025-03-26")),
        (
            "capabilities",
            object(vec![
                ("tools", object(vec![("listChanged", Json::Bool(false))])),
                ("resources", object(vec![("listChanged", Json::Bool(false))])),
            ]),
        ),
        ("serverInfo", object(vec![("name", text("cloudfree-mcp")), ("version", text("0.1.0"))])),
    ])
}

fn embedding_call() -> JsonRpcRequest {
    envelope(
        Some(Json::unsigned(3)),
        "tools/call",
        Some(object(vec![
            ("name", text("@cf/baai/bge-base-en-v1.5")),
            ("arguments", object(vec![("text", text("hi"))])),
        ])),
    )
}

#[test]
fn error_codes() {
    assert_eq!(METHOD_NOT_FOUND, -32601);
    assert_eq!(INTERNAL_ERROR, -32603);
}

#[test]
fn notifications_get_no_response_whatever_the_method() {
    for method in [
        "notifications/initialized",
        "notifications/cancelled",
        "notifications/unheard-of",
        "initialize",
        "ping",
        "tools/list",
        "tools/call",
        "resources/list",
        "resources/read",
        "no/such/method",
        "",
    ] {
        assert_eq!(McpServer::handle_request(envelope(None, method, None), no_backend), None);
        assert_eq!(McpServer::handle_request(envelope(Some(Json::Null), method, None), no_backend), None);
        let params = Some(object(vec![("name", text("@cf/baai/bge-base-en-v1.5"))]));
        assert_eq!(McpServer::handle_request(envelope(None, method, params), no_backend), None);
    }
}

#[test]
fn notifications_are_told_apart() {
    assert_eq!(
        McpServer::route(envelope(None, "notifications/initialized", None)),
        Routed::Suppressed(Notice::Initialized)
    );
    assert_eq!(
        McpServer::route(envelope(Some(Json::Null), "notifications/cancelled", None)),
        Routed::Suppressed(Notice::Cancelled)
    );
    assert_eq!(McpServer::route(envelope(None, "tools/call", None)), Routed::Suppressed(Notice::Unhandled));
    assert_eq!(McpServer::route(envelope(None, "anything", None)), Routed::Suppressed(Notice::Unhandled));
}

#[test]
fn identifiers_other_than_null_make_a_request() {
    for id in [Json::unsigned(0), text(""), Json::Bool(false), Json::Array(vec![]), Json::empty_object()] {
        let response = McpServer::handle_request(envelope(Some(id), "ping", None), no_backend);
        assert!(response.is_some());
    }
}

#[test]
fn unknown_methods_are_not_found() {
    for method in ["no/such/method", "", "Initialize", "PING", "tools", "tools/list ", "notifications/initialized"] {
        let response = McpServer::handle_request(envelope(Some(Json::unsigned(1)), method, None), no_backend);
        assert_eq!(
            response,
            Some(failure(Some(Json::unsigned(1)), -32601, &format!("Method not found: {}", method)))
        );
    }
}

#[test]
fn initialize_answers_the_capability_document() {
    let response = McpServer::handle_request(envelope(Some(Json::unsigned(1)), "initialize", None), no_backend);
    assert_eq!(
        response,
        Some(JsonRpcResponse {
            jsonrpc: "2.0".to_string(),
            id: Some(Json::unsigned(1)),
            result: Some(initialize_document()),
            error: None,
        })
    );
}

#[test]
fn initialize_answers_the_same_whatever_the_parameters() {
    let plain = McpServer::handle_request(envelope(Some(text("a")), "initialize", None), no_backend);
    for params in [
        Json::Null,
        text("x"),
        Json::Array(vec![]),
        object(vec![("protocolVersion", text("1999-01-01")), ("capabilities", object(vec![("sampling", Json::empty_object())]))]),
    ] {
        let with = McpServer::handle_request(envelope(Some(text("a")), "initialize", Some(params)), no_backend);
        assert_eq!(with, plain);
    }
    assert_eq!(plain.unwrap().result, Some(initialize_document()));
}

#[test]
fn ping_answers_an_empty_object() {
    let response = McpServer::handle_request(envelope(Some(text("p")), "ping", Some(text("ignored"))), no_backend);
    assert_eq!(
        response,
        Some(JsonRpcResponse {
            jsonrpc: "2.0".to_string(),
            id: Some(text("p")),
            result: Some(Json::empty_object()),
            error: None,
        })
    );
}

#[test]
fn tools_list_answers_the_catalog_as_tools() {
    let response = McpServer::handle_request(envelope(Some(Json::unsigned(2)), "tools/list", None), no_backend).unwrap();
    assert_eq!(response.error, None);
    assert_eq!(response.id, Some(Json::unsigned(2)));
    let tools = response.result.unwrap().into_field("tools").unwrap().into_array().unwrap();
    assert_eq!(tools.len(), 12);
    assert_eq!(tools[0].get("name"), Some(&text("@cf/meta/llama-3.1-8b-instruct")));
    assert_eq!(
        tools[0].get("description"),
        Some(&text("Llama 3.1 8B Instruct - Meta's Llama 3.1 8B instruction-tuned model for text generation"))
    );
    assert_eq!(tools[2].get("inputSchema").unwrap().get("required"), Some(&Json::Array(vec![text("text")])));
    assert_eq!(tools[11].get("name"), Some(&text("@cf/bytedance/stable-diffusion-xl-lightning")));
}

#[test]
fn resources_list_answers_the_catalog_as_resources() {
    let response = McpServer::handle_request(envelope(Some(Json::unsigned(2)), "resources/list", None), no_backend).unwrap();
    assert_eq!(response.error, None);
    let resources = response.result.unwrap().into_field("resources").unwrap().into_array().unwrap();
    assert_eq!(resources.len(), 12);
    assert_eq!(
        resources[4],
        object(vec![
            ("uri", text("model://@cf/openai/whisper")),
            ("name", text("Whisper")),
            ("description", text("OpenAI's Whisper model for speech recognition and transcription")),
            ("mimeType", text("application/json")),
        ])
    );
}

#[test]
fn resources_read_answers_the_descriptor() {
    let params = object(vec![("uri", text("model://@cf/openai/whisper"))]);
    let response = McpServer::handle_request(envelope(Some(Json::unsigned(5)), "resources/read", Some(params)), no_backend).unwrap();
    assert_eq!(response.error, None);
    let contents = response.result.unwrap().into_field("contents").unwrap().into_array().unwrap();
    assert_eq!(contents.len(), 1);
    assert_eq!(contents[0].get("uri"), Some(&text("model://@cf/openai/whisper")));
    assert_eq!(contents[0].get("mimeType"), Some(&text("application/json")));
    let decoded: serde_json::Value = serde_json::from_str(contents[0].get("text").unwrap().as_str().unwrap()).unwrap();
    assert_eq!(decoded["id"], serde_json::Value::from("@cf/openai/whisper"));
    assert_eq!(decoded["category"], serde_json::Value::from("audio"));
}

#[test]
fn resources_read_succeeds_for_an_unrecognized_model() {
    let params = object(vec![("uri", text("model://totally-unrecognized-xyz"))]);
    let response = McpServer::handle_request(envelope(Some(Json::unsigned(5)), "resources/read", Some(params)), no_backend).unwrap();
    assert_eq!(response.error, None);
    let contents = response.result.unwrap().into_field("contents").unwrap().into_array().unwrap();
    let decoded: serde_json::Value = serde_json::from_str(contents[0].get("text").unwrap().as_str().unwrap()).unwrap();
    assert_eq!(decoded["id"], serde_json::Value::from("totally-unrecognized-xyz"));
    assert_eq!(decoded["category"], serde_json::Value::from("llm"));
}

#[test]
fn resources_read_fails_outside_the_scheme() {
    let params = object(vec![("uri", text("file:///etc/passwd"))]);
    let response = McpServer::handle_request(envelope(Some(Json::unsigned(5)), "resources/read", Some(params)), no_backend);
    assert_eq!(response, Some(failure(Some(Json::unsigned(5)), -32603, "Resource not found: file:///etc/passwd")));
}

#[test]
fn resources_read_fails_on_unfit_parameters() {
    let cases = vec![
        (None, "Invalid params: missing field `uri`"),
        (Some(Json::empty_object()), "Invalid params: missing field `uri`"),
        (Some(object(vec![("uri", Json::unsigned(1))])), "Invalid params: invalid type: number, expected a string"),
        (Some(object(vec![("uri", Json::Null)])), "Invalid params: invalid type: null, expected a string"),
        (Some(text("model://x")), "Invalid params: invalid type: string, expected struct ReadResourceParams"),
        (Some(Json::Null), "Invalid params: invalid type: null, expected struct ReadResourceParams"),
        (Some(Json::Array(vec![])), "Invalid params: invalid length 0, expected struct ReadResourceParams with 1 element"),
        (Some(Json::Array(vec![text("a"), text("b")])), "Invalid params: invalid length 2, expected fewer elements in array"),
        (Some(Json::Array(vec![Json::Bool(true)])), "Invalid params: invalid type: boolean, expected a string"),
    ];
    for (params, message) in cases {
        let response = McpServer::handle_request(envelope(Some(Json::unsigned(5)), "resources/read", params), no_backend);
        assert_eq!(response, Some(failure(Some(Json::unsigned(5)), -32603, message)));
    }
}

#[test]
fn read_parameters_by_name_and_by_position() {
    assert_eq!(
        ReadResourceParams::from_json(object(vec![("uri", text("model://x")), ("more", Json::Null)])),
        Ok(ReadResourceParams { uri: "model://x".to_string() })
    );
    assert_eq!(
        ReadResourceParams::from_json(Json::Array(vec![text("model://x")])),
        Ok(ReadResourceParams { uri: "model://x".to_string() })
    );
}

#[test]
fn call_parameters_by_name() {
    assert_eq!(
        CallToolParams::from_json(object(vec![("name", text("m")), ("arguments", object(vec![("a", Json::Null)]))])),
        Ok(CallToolParams { name: "m".to_string(), arguments: Some(object(vec![("a", Json::Null)])) })
    );
    assert_eq!(
        CallToolParams::from_json(object(vec![("name", text("m"))])),
        Ok(CallToolParams { name: "m".to_string(), arguments: None })
    );
    assert_eq!(
        CallToolParams::from_json(object(vec![("arguments", Json::Null), ("name", text("m")), ("other", Json::Bool(true))])),
        Ok(CallToolParams { name: "m".to_string(), arguments: None })
    );
    assert_eq!(
        CallToolParams::from_json(object(vec![("name", text("m")), ("arguments", text("any"))])),
        Ok(CallToolParams { name: "m".to_string(), arguments: Some(text("any")) })
    );
}

#[test]
fn call_parameters_by_position() {
    assert_eq!(
        CallToolParams::from_json(Json::Array(vec![text("m"), Json::empty_object()])),
        Ok(CallToolParams { name: "m".to_string(), arguments: Some(Json::empty_object()) })
    );
    assert_eq!(
        CallToolParams::from_json(Json::Array(vec![text("m"), Json::Null])),
        Ok(CallToolParams { name: "m".to_string(), arguments: None })
    );
}

#[test]
fn call_parameters_that_do_not_serve() {
    let cases = vec![
        (Json::empty_object(), "missing field `name`"),
        (object(vec![("arguments", Json::empty_object())]), "missing field `name`"),
        (object(vec![("name", Json::unsigned(1))]), "invalid type: number, expected a string"),
        (object(vec![("name", Json::Array(vec![]))]), "invalid type: sequence, expected a string"),
        (object(vec![("name", Json::empty_object())]), "invalid type: map, expected a string"),
        (Json::Bool(true), "invalid type: boolean, expected struct CallToolParams"),
        (Json::unsigned(1), "invalid type: number, expected struct CallToolParams"),
        (Json::Array(vec![]), "invalid length 0, expected struct CallToolParams with 2 elements"),
        (Json::Array(vec![text("m")]), "invalid length 1, expected struct CallToolParams with 2 elements"),
        (Json::Array(vec![Json::Null]), "invalid type: null, expected a string"),
        (
            Json::Array(vec![text("m"), Json::Null, Json::Null]),
            "invalid length 3, expected fewer elements in array",
        ),
    ];
    for (params, message) in cases {
        assert_eq!(CallToolParams::from_json(params), Err(message.to_string()));
    }
}

#[test]
fn tools_call_for_an_embedding_model_end_to_end() {
    let response = McpServer::handle_request(embedding_call(), |request: &AiRequest| {
        assert_eq!(request.model, "@cf/baai/bge-base-en-v1.5");
        assert_eq!(request.input, object(vec![("text", text("hi"))]));
        Ok(BackendReply { result: object(vec![("data", Json::Array(vec![Json::unsigned(1)]))]), cost: None })
    });
    let expected_text = "{\n  \"data\": [\n    1\n  ]\n}\n\n[Neurons used: 0]";
    assert_eq!(
        response,
        Some(JsonRpcResponse {
            jsonrpc: "2.0".to_string(),
            id: Some(Json::unsigned(3)),
            result: Some(object(vec![(
                "content",
                Json::Array(vec![object(vec![("type", text("text")), ("text", text(expected_text))])])
            )])),
            error: None,
        })
    );
}

#[test]
fn tools_call_is_made_ready_then_completed() {
    let routed = McpServer::route(embedding_call());
    let pending = PendingCall {
        id: Some(Json::unsigned(3)),
        call: Prepared {
            request: AiRequest {
                model: "@cf/baai/bge-base-en-v1.5".to_string(),
                input: object(vec![("text", text("hi"))]),
            },
            estimated_neurons: 0,
        },
    };
    assert_eq!(routed, Routed::Invoke(pending));
    let pending = match McpServer::route(embedding_call()) {
        Routed::Invoke(pending) => pending,
        other => panic!("unexpected {:?}", other),
    };
    let response = McpServer::complete(pending, Ok(BackendReply { result: text("ok"), cost: None }));
    let content = response.result.unwrap().into_field("content").unwrap().into_array().unwrap();
    assert_eq!(content.len(), 1);
    assert_eq!(content[0].get("text"), Some(&text("\"ok\"\n\n[Neurons used: 0]")));
}

#[test]
fn tools_call_tells_the_reported_cost() {
    let response = McpServer::handle_request(embedding_call(), |_request: &AiRequest| {
        Ok(BackendReply { result: text("ok"), cost: Some(1234) })
    })
    .unwrap();
    let content = response.result.unwrap().into_field("content").unwrap().into_array().unwrap();
    assert_eq!(content[0].get("text"), Some(&text("\"ok\"\n\n[Neurons used: 1234]")));
    assert_eq!(content[0].get("type"), Some(&text("text")));
}

#[test]
fn tools_call_tells_the_estimate_where_no_cost_is_reported() {
    let request = envelope(
        Some(Json::unsigned(3)),
        "tools/call",
        Some(object(vec![
            ("name", text("@cf/meta/llama-3.1-8b-instruct")),
            ("arguments", object(vec![("prompt", text("hello world"))])),
        ])),
    );
    let response = McpServer::handle_request(request, |request: &AiRequest| {
        assert_eq!(request.input, object(vec![("prompt", text("hello world"))]));
        Ok(BackendReply::from_result(object(vec![("response", text("hey"))])))
    })
    .unwrap();
    let content = response.result.unwrap().into_field("content").unwrap().into_array().unwrap();
    assert_eq!(
        content[0].get("text"),
        Some(&text("{\n  \"response\": \"hey\"\n}\n\n[Neurons used: 102]"))
    );
}

#[test]
fn tools_call_tells_the_cost_read_out_of_the_result() {
    let response = McpServer::handle_request(embedding_call(), |_request: &AiRequest| {
        Ok(BackendReply::from_result(object(vec![("neurons_used", Json::unsigned(77))])))
    })
    .unwrap();
    let content = response.result.unwrap().into_field("content").unwrap().into_array().unwrap();
    assert_eq!(content[0].get("text"), Some(&text("{\n  \"neurons_used\": 77\n}\n\n[Neurons used: 77]")));
}

#[test]
fn tools_call_without_arguments_takes_an_empty_object() {
    let request = envelope(Some(Json::unsigned(3)), "tools/call", Some(object(vec![("name", text("x/passes-through"))])));
    let response = McpServer::handle_request(request, |request: &AiRequest| {
        assert_eq!(request.model, "x/passes-through");
        assert_eq!(request.input, Json::empty_object());
        Ok(BackendReply { result: Json::Null, cost: None })
    })
    .unwrap();
    let content = response.result.unwrap().into_field("content").unwrap().into_array().unwrap();
    assert_eq!(content[0].get("text"), Some(&text("null\n\n[Neurons used: 101]")));
}

#[test]
fn tools_call_fails_where_a_required_field_is_missing() {
    let request = envelope(
        Some(Json::unsigned(3)),
        "tools/call",
        Some(object(vec![("name", text("@cf/meta/llama-3.1-8b-instruct")), ("arguments", Json::empty_object())])),
    );
    assert_eq!(
        McpServer::handle_request(request, no_backend),
        Some(failure(Some(Json::unsigned(3)), -32603, "AI inference failed: Missing 'prompt' field"))
    );
    let request = envelope(
        Some(Json::unsigned(3)),
        "tools/call",
        Some(object(vec![("name", text("@cf/baai/bge-m3"))])),
    );
    assert_eq!(
        McpServer::handle_request(request, no_backend),
        Some(failure(Some(Json::unsigned(3)), -32603, "AI inference failed: Missing 'text' field"))
    );
}

#[test]
fn tools_call_fails_on_unfit_parameters() {
    assert_eq!(
        McpServer::handle_request(envelope(Some(Json::unsigned(3)), "tools/call", None), no_backend),
        Some(failure(Some(Json::unsigned(3)), -32603, "Invalid params: missing field `name`"))
    );
    assert_eq!(
        McpServer::handle_request(envelope(Some(Json::unsigned(3)), "tools/call", Some(text("x"))), no_backend),
        Some(failure(
            Some(Json::unsigned(3)),
            -32603,
            "Invalid params: invalid type: string, expected struct CallToolParams"
        ))
    );
}

#[test]
fn tools_call_fails_where_the_backend_fails() {
    let response = McpServer::handle_request(embedding_call(), |_request: &AiRequest| Err("backend down".to_string()));
    assert_eq!(response, Some(failure(Some(Json::unsigned(3)), -32603, "AI inference failed: backend down")));
}

#[test]
fn every_request_gets_exactly_one_well_formed_response() {
    let requests = vec![
        envelope(Some(Json::unsigned(1)), "initialize", None),
        envelope(Some(Json::unsigned(1)), "ping", None),
        envelope(Some(Json::unsigned(1)), "tools/list", None),
        envelope(Some(Json::unsigned(1)), "resources/list", None),
        envelope(Some(Json::unsigned(1)), "resources/read", None),
        envelope(Some(Json::unsigned(1)), "tools/call", None),
        envelope(Some(Json::unsigned(1)), "nope", None),
        embedding_call(),
    ];
    for request in requests {
        let id = match &request.id {
            Some(Json::Number(n)) => Some(Json::Number(n.clone())),
            _ => None,
        };
        let response = McpServer::handle_request(request, |_request: &AiRequest| {
            Ok(BackendReply { result: Json::Null, cost: None })
        })
        .unwrap();
        assert_eq!(response.jsonrpc, "2.0");
        assert_eq!(response.id, id);
        assert_ne!(response.result.is_some(), response.error.is_some());
    }
}
