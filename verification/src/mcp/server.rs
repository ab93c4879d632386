//! The dispatcher: tells notifications from requests, routes a request by
//! its method, and assembles the answer.
//!
//! The dispatcher never reaches the inference backend itself. Where a
//! request needs it, [`McpServer::route`] hands out the call to make, and
//! [`McpServer::complete`] turns what the backend returned into the answer.
//! [`McpServer::handle_request`] does both around a backend given as a
//! function.

use crate::ai::bridge::{concluded, prepared, AiBridge, Prepared, PreparedView};
use crate::ai::models::catalog;
use crate::ai::types::{AiRequest, BackendReply, BackendReplyView};
use crate::json::{no_members, object1, Json, JsonValue};
use crate::mcp::params::{call_tool_params, or_empty, params_or_empty, read_resource_params};
use crate::mcp::protocol::{
    contents_document, resources_document, tools_document, CallToolParams, Capabilities,
    ContentBlock, ContentBlockView, InitializeResult, InitializeResultView, JsonRpcErrorView,
    JsonRpcRequest, JsonRpcRequestView, JsonRpcResponse, JsonRpcResponseView, ReadResourceParams,
    ResourcesCapability, ServerInfo, ServerInfoView, ToolResult, ToolResultView, ToolsCapability,
};
use crate::mcp::resources::{
    every_model_address_can_be_read, get_resource_content, list_resources, resource_content,
    resource_uri, resources_of,
};
use crate::mcp::tools::{create_tool_result, list_tools, tool_result, tools_of};
use crate::text::{decimal, push_decimal, str_eq};
use crate::views::{optional_view, result_view};
use vstd::prelude::*;
use vstd::string::StringExecFns;

verus! {

/// The code of an answer to a request whose method is not known.
pub const METHOD_NOT_FOUND: i32 = -32601;

/// The code of an answer to a request whose handler failed.
pub const INTERNAL_ERROR: i32 = -32603;

// ---------------------------------------------------------------------------
// What the handlers answer
// ---------------------------------------------------------------------------

/// What the server states of itself: the protocol version it speaks, that
/// its lists of tools and of resources never change, and who it is.
pub open spec fn capability_statement() -> InitializeResultView {
    InitializeResultView {
        protocol_version: "2025-03-26"@,
        capabilities: Capabilities {
            tools: Some(ToolsCapability { list_changed: Some(false) }),
            resources: Some(ResourcesCapability { subscribe: None, list_changed: Some(false) }),
        },
        server_info: ServerInfoView { name: "cloudfree-mcp"@, version: "0.1.0"@ },
    }
}

/// The capability document.
pub open spec fn initialize_document() -> JsonValue {
    capability_statement().document()
}

/// What `resources/read` answers on `params`.
pub open spec fn resources_read_result(params: Option<JsonValue>) -> Result<JsonValue, Seq<char>> {
    match read_resource_params(params_or_empty(params)) {
        Ok(p) => match resource_content(p.uri) {
            Some(content) => Ok(contents_document(seq![content])),
            None => Err("Resource not found: "@ + p.uri),
        },
        Err(e) => Err("Invalid params: "@ + e),
    }
}

/// The call that `tools/call` makes ready on `params`, or what it says
/// where the parameters or the arguments do not serve.
pub open spec fn tools_call_prepared(params: Option<JsonValue>) -> Result<PreparedView, Seq<char>> {
    match call_tool_params(params_or_empty(params)) {
        Ok(p) => match prepared(p.name, params_or_empty(p.arguments)) {
            Ok(call) => Ok(call),
            Err(e) => Err("AI inference failed: "@ + e),
        },
        Err(e) => Err("Invalid params: "@ + e),
    }
}

/// The line that tells the cost of a call.
pub open spec fn neurons_note(neurons: u32) -> Seq<char> {
    "\n\n[Neurons used: "@ + decimal(neurons as nat) + "]"@
}

/// `block` with `note` at the end of its text.
pub open spec fn with_note(block: ContentBlockView, note: Seq<char>) -> ContentBlockView {
    match block {
        ContentBlockView::Text { text } => ContentBlockView::Text { text: text + note },
    }
}

/// `result` with the cost told at the end of its first block.
pub open spec fn annotated(result: ToolResultView, neurons: u32) -> ToolResultView {
    if result.content.len() > 0 {
        ToolResultView {
            content: result.content.update(0, with_note(result.content[0], neurons_note(neurons))),
            is_error: result.is_error,
        }
    } else {
        result
    }
}

/// What `tools/call` answers once the backend has come back with `outcome`:
/// the result written out as one block of text that ends with the cost, the
/// reported one or else the estimate; or what is said of a backend that
/// failed.
pub open spec fn tools_call_result(
    call: PreparedView,
    outcome: Result<BackendReplyView, Seq<char>>,
) -> Result<JsonValue, Seq<char>> {
    match outcome {
        Ok(reply) => Ok(
            annotated(
                tool_result(reply.result, false),
                concluded(call.estimated_neurons, reply).neurons_used,
            ).document(),
        ),
        Err(e) => Err("AI inference failed: "@ + e),
    }
}

// ---------------------------------------------------------------------------
// Routing
// ---------------------------------------------------------------------------

/// The envelope asks for no answer: it carries no identifier, or null for
/// one.
pub open spec fn is_notification(req: JsonRpcRequestView) -> bool {
    req.id is None || req.id == Some(JsonValue::Null)
}

/// What a notification tells.
#[derive(Debug, Clone, Copy, PartialEq, Eq, Structural)]
pub enum Notice {
    /// The caller has finished initialising.
    Initialized,
    /// The caller has given up on a request.
    Cancelled,
    /// Anything else; it is dropped.
    Unhandled,
}

/// What a notification with the given method tells.
pub open spec fn notice_of(method: Seq<char>) -> Notice {
    if method == "notifications/initialized"@ {
        Notice::Initialized
    } else if method == "notifications/cancelled"@ {
        Notice::Cancelled
    } else {
        Notice::Unhandled
    }
}

/// The methods that a request can name.
pub enum Method {
    Initialize,
    Ping,
    ToolsList,
    ToolsCall,
    ResourcesList,
    ResourcesRead,
}

/// The method that a name stands for, letter for letter.
pub open spec fn method_of(name: Seq<char>) -> Option<Method> {
    if name == "initialize"@ {
        Some(Method::Initialize)
    } else if name == "ping"@ {
        Some(Method::Ping)
    } else if name == "tools/list"@ {
        Some(Method::ToolsList)
    } else if name == "tools/call"@ {
        Some(Method::ToolsCall)
    } else if name == "resources/list"@ {
        Some(Method::ResourcesList)
    } else if name == "resources/read"@ {
        Some(Method::ResourcesRead)
    } else {
        None
    }
}

/// The answer to `id` that a handler's outcome comes to: a success with
/// its value, or an internal error with what it said.
pub open spec fn answered(
    id: Option<JsonValue>,
    outcome: Result<JsonValue, Seq<char>>,
) -> JsonRpcResponseView {
    match outcome {
        Ok(value) => JsonRpcResponseView::success(id, value),
        Err(e) => JsonRpcResponseView::error(id, INTERNAL_ERROR, e),
    }
}

/// A tool call that waits for the backend, as a mathematical value.
pub struct PendingCallView {
    pub id: Option<JsonValue>,
    pub call: PreparedView,
}

/// A tool call that waits for the backend: the identifier to answer, and
/// the call to make.
#[derive(Debug, PartialEq)]
pub struct PendingCall {
    pub id: Option<Json>,
    pub call: Prepared,
}

impl View for PendingCall {
    type V = PendingCallView;

    open spec fn view(&self) -> PendingCallView {
        PendingCallView { id: optional_view(self.id), call: self.call@ }
    }
}

/// Where an envelope has got to, as a mathematical value.
pub enum RoutedView {
    Suppressed(Notice),
    Respond(JsonRpcResponseView),
    Invoke(PendingCallView),
}

/// Where an envelope has got to once it is routed.
#[derive(Debug, PartialEq)]
pub enum Routed {
    /// It was a notification: there is no answer.
    Suppressed(Notice),
    /// It was a request, and this is its answer.
    Respond(JsonRpcResponse),
    /// It was a request that needs the backend: make this call, then
    /// complete it.
    Invoke(PendingCall),
}

impl View for Routed {
    type V = RoutedView;

    open spec fn view(&self) -> RoutedView {
        match self {
            Routed::Suppressed(n) => RoutedView::Suppressed(*n),
            Routed::Respond(r) => RoutedView::Respond(r@),
            Routed::Invoke(p) => RoutedView::Invoke(p@),
        }
    }
}

/// Where the envelope `req` gets to: a notification is suppressed whatever
/// its method; a request with an unknown method is answered with "method
/// not found"; a tool call is made ready for the backend, or answered with
/// an internal error where that fails; every other request is answered by
/// its handler.
pub open spec fn routed(req: JsonRpcRequestView) -> RoutedView {
    if is_notification(req) {
        RoutedView::Suppressed(notice_of(req.method))
    } else {
        match method_of(req.method) {
            Some(Method::Initialize) => RoutedView::Respond(
                answered(req.id, Ok(initialize_document())),
            ),
            Some(Method::Ping) => RoutedView::Respond(
                answered(req.id, Ok(JsonValue::Object(Map::empty()))),
            ),
            Some(Method::ToolsList) => RoutedView::Respond(
                answered(req.id, Ok(tools_document(tools_of(catalog())))),
            ),
            Some(Method::ToolsCall) => match tools_call_prepared(req.params) {
                Ok(call) => RoutedView::Invoke(PendingCallView { id: req.id, call }),
                Err(e) => RoutedView::Respond(answered(req.id, Err(e))),
            },
            Some(Method::ResourcesList) => RoutedView::Respond(
                answered(req.id, Ok(resources_document(resources_of(catalog())))),
            ),
            Some(Method::ResourcesRead) => RoutedView::Respond(
                answered(req.id, resources_read_result(req.params)),
            ),
            None => RoutedView::Respond(
                JsonRpcResponseView::error(
                    req.id,
                    METHOD_NOT_FOUND,
                    "Method not found: "@ + req.method,
                ),
            ),
        }
    }
}

/// The answer to a pending tool call whose backend came back with
/// `outcome`.
pub open spec fn completed(
    pending: PendingCallView,
    outcome: Result<BackendReplyView, Seq<char>>,
) -> JsonRpcResponseView {
    answered(pending.id, tools_call_result(pending.call, outcome))
}

/// `prefix` followed by `rest`.
fn prefixed(prefix: &str, rest: &str) -> (m: String)
    ensures
        m@ == prefix@ + rest@,
{
    let mut m = prefix.to_owned();
    m.append(rest);
    m
}

/// `result` with the cost told at the end of its first block.
fn annotate(result: ToolResult, neurons: u32) -> (r: ToolResult)
    ensures
        r@ == annotated(result@, neurons),
{
    let ghost before = result@;
    let ToolResult { content, is_error } = result;
    let mut content = content;
    if content.len() > 0 {
        let ghost blocks = content@;
        let first = content.remove(0);
        let ContentBlock::Text { text } = first;
        let ghost plain = text@;
        let mut text = text;
        text.append("\n\n[Neurons used: ");
        push_decimal(&mut text, neurons as u64);
        text.append("]");
        assert(text@ =~= plain + neurons_note(neurons));
        content.insert(0, ContentBlock::Text { text });
        let r = ToolResult { content, is_error };
        proof {
            let wanted = annotated(before, neurons).content;
            assert(before.content[0] == blocks[0]@);
            assert(r@.content.len() == wanted.len());
            assert forall|i: int| 0 <= i < wanted.len() implies r@.content[i] == wanted[i] by {
                if i > 0 {
                    assert(r.content@[i] == blocks[i]);
                    assert(before.content[i] == blocks[i]@);
                }
            }
            assert(r@.content =~= wanted);
        }
        r
    } else {
        ToolResult { content, is_error }
    }
}

/// The dispatcher.
pub struct McpServer;

impl McpServer {
    /// Routes the envelope `req`.
    pub fn route(req: JsonRpcRequest) -> (r: Routed)
        ensures
            r@ == routed(req@),
            r@ is Suppressed <==> is_notification(req@),
            r@ matches RoutedView::Respond(answer) ==> answer.well_formed(),
    {
        let JsonRpcRequest { jsonrpc: _, id, method, params } = req;
        let notification = match &id {
            Some(v) => v.is_null(),
            None => true,
        };
        let method = method.as_str();
        if notification {
            let notice = if str_eq(method, "notifications/initialized") {
                Notice::Initialized
            } else if str_eq(method, "notifications/cancelled") {
                Notice::Cancelled
            } else {
                Notice::Unhandled
            };
            return Routed::Suppressed(notice);
        }
        if str_eq(method, "initialize") {
            Routed::Respond(Self::answer(id, Self::handle_initialize()))
        } else if str_eq(method, "ping") {
            Routed::Respond(Self::answer(id, Ok(Json::empty_object())))
        } else if str_eq(method, "tools/list") {
            Routed::Respond(Self::answer(id, Self::handle_tools_list()))
        } else if str_eq(method, "tools/call") {
            match Self::handle_tools_call(params) {
                Ok(call) => Routed::Invoke(PendingCall { id, call }),
                Err(e) => Routed::Respond(Self::answer(id, Err(e))),
            }
        } else if str_eq(method, "resources/list") {
            Routed::Respond(Self::answer(id, Self::handle_resources_list()))
        } else if str_eq(method, "resources/read") {
            Routed::Respond(Self::answer(id, Self::handle_resources_read(params)))
        } else {
            Routed::Respond(
                JsonRpcResponse::error(
                    id,
                    METHOD_NOT_FOUND,
                    prefixed("Method not found: ", method),
                ),
            )
        }
    }

    /// Handles the envelope `req`, asking `backend` where a tool call needs
    /// it. A notification gets `None`, whatever its method; a request gets
    /// exactly one answer. Nothing is assumed of what the backend returns:
    /// the answer to a tool call is the one that [`completed`] gives for it.
    pub fn handle_request<F>(req: JsonRpcRequest, backend: F) -> (r: Option<
        JsonRpcResponse,
    >) where F: FnOnce(&AiRequest) -> Result<BackendReply, String>
        requires
            forall|request: &AiRequest| call_requires(backend, (request,)),
        ensures
            r is None <==> is_notification(req@),
            r matches Some(answer) ==> answer@.well_formed(),
            match routed(req@) {
                RoutedView::Suppressed(_) => r is None,
                RoutedView::Respond(answer) => r is Some && r->0@ == answer,
                RoutedView::Invoke(pending) => r is Some && exists|
                    request: &AiRequest,
                    outcome: Result<BackendReply, String>,
                |
                    {
                        &&& request@ == pending.call.request
                        &&& call_ensures(backend, (request,), outcome)
                        &&& r->0@ == completed(pending, result_view(outcome))
                    },
            },
    {
        match Self::route(req) {
            Routed::Suppressed(_) => None,
            Routed::Respond(answer) => Some(answer),
            Routed::Invoke(pending) => {
                let outcome = backend(&pending.call.request);
                Some(Self::complete(pending, outcome))
            },
        }
    }

    /// Answers a pending tool call whose backend came back with `outcome`:
    /// the result it returned, or what it said when it failed.
    pub fn complete(pending: PendingCall, outcome: Result<BackendReply, String>) -> (r:
        JsonRpcResponse)
        ensures
            r@ == completed(pending@, result_view(outcome)),
            r@.well_formed(),
    {
        let PendingCall { id, call } = pending;
        let handled = match outcome {
            Ok(reply) => {
                let response = AiBridge::conclude(call.estimated_neurons, reply);
                let tool_result = create_tool_result(response.result, false);
                Ok(annotate(tool_result, response.neurons_used).into_json())
            },
            Err(e) => Err(prefixed("AI inference failed: ", e.as_str())),
        };
        Self::answer(id, handled)
    }

    /// The answer to `id` that a handler's outcome comes to.
    fn answer(id: Option<Json>, outcome: Result<Json, String>) -> (r: JsonRpcResponse)
        ensures
            r@ == answered(optional_view(id), result_view(outcome)),
            r@.well_formed(),
    {
        match outcome {
            Ok(value) => JsonRpcResponse::success(id, value),
            Err(e) => JsonRpcResponse::error(id, INTERNAL_ERROR, e),
        }
    }

    fn handle_initialize() -> (r: Result<Json, String>)
        ensures
            result_view(r) == Ok::<JsonValue, Seq<char>>(initialize_document()),
    {
        let statement = InitializeResult {
            protocol_version: "2025-03-26".to_owned(),
            capabilities: Capabilities {
                tools: Some(ToolsCapability { list_changed: Some(false) }),
                resources: Some(ResourcesCapability { subscribe: None, list_changed: Some(false) }),
            },
            server_info: ServerInfo {
                name: "cloudfree-mcp".to_owned(),
                version: "0.1.0".to_owned(),
            },
        };
        Ok(statement.into_json())
    }

    fn handle_tools_list() -> (r: Result<Json, String>)
        ensures
            result_view(r) == Ok::<JsonValue, Seq<char>>(tools_document(tools_of(catalog()))),
    {
        Ok(list_tools().into_json())
    }

    fn handle_tools_call(params: Option<Json>) -> (r: Result<Prepared, String>)
        ensures
            result_view(r) == tools_call_prepared(optional_view(params)),
    {
        match CallToolParams::from_json(or_empty(params)) {
            Ok(p) => {
                let CallToolParams { name, arguments } = p;
                match AiBridge::prepare(name.as_str(), or_empty(arguments)) {
                    Ok(call) => Ok(call),
                    Err(e) => Err(prefixed("AI inference failed: ", e.as_str())),
                }
            },
            Err(e) => Err(prefixed("Invalid params: ", e.as_str())),
        }
    }

    fn handle_resources_list() -> (r: Result<Json, String>)
        ensures
            result_view(r) == Ok::<JsonValue, Seq<char>>(
                resources_document(resources_of(catalog())),
            ),
    {
        Ok(list_resources().into_json())
    }

    fn handle_resources_read(params: Option<Json>) -> (r: Result<Json, String>)
        ensures
            result_view(r) == resources_read_result(optional_view(params)),
    {
        match ReadResourceParams::from_json(or_empty(params)) {
            Ok(p) => match get_resource_content(p.uri.as_str()) {
                Some(contents) => Ok(contents.into_json()),
                None => Err(prefixed("Resource not found: ", p.uri.as_str())),
            },
            Err(e) => Err(prefixed("Invalid params: ", e.as_str())),
        }
    }
}

// ---------------------------------------------------------------------------
// Laws of the dispatcher
// ---------------------------------------------------------------------------

/// A notification is never answered, whatever method it names.
pub proof fn notifications_are_never_answered(req: JsonRpcRequestView)
    requires
        is_notification(req),
    ensures
        routed(req) is Suppressed,
{
}

/// A request is always answered, and by exactly one well-formed envelope
/// that carries the request's identifier: at once, or, for a tool call that
/// reaches the backend, once the backend has come back, whatever it came
/// back with.
pub proof fn requests_are_always_answered(
    req: JsonRpcRequestView,
    outcome: Result<BackendReplyView, Seq<char>>,
)
    requires
        !is_notification(req),
    ensures
        match routed(req) {
            RoutedView::Suppressed(_) => false,
            RoutedView::Respond(answer) => answer.well_formed() && answer.id == req.id,
            RoutedView::Invoke(pending) => completed(pending, outcome).well_formed() && completed(
                pending,
                outcome,
            ).id == req.id,
        },
{
}

/// A request whose method is none of the six that are routed is answered
/// with the error "method not found", and with no result.
pub proof fn unknown_methods_are_not_found(req: JsonRpcRequestView)
    requires
        !is_notification(req),
        req.method != "initialize"@,
        req.method != "ping"@,
        req.method != "tools/list"@,
        req.method != "tools/call"@,
        req.method != "resources/list"@,
        req.method != "resources/read"@,
    ensures
        routed(req) matches RoutedView::Respond(answer) && answer.result is None && answer.error
            == Some(
            JsonRpcErrorView {
                code: -32601i32,
                message: "Method not found: "@ + req.method,
                data: None,
            },
        ),
{
}

/// A handler that fails is answered with the error "internal error" that
/// carries what the handler said, and with no result.
pub proof fn handler_failures_are_internal_errors(id: Option<JsonValue>, said: Seq<char>)
    ensures
        answered(id, Err(said)).result is None,
        answered(id, Err(said)).error == Some(
            JsonRpcErrorView { code: -32603i32, message: said, data: None },
        ),
{
}

/// The capability document in full: the protocol version, the two
/// capabilities with lists that never change, and the server's name and
/// version.
pub proof fn capability_document_in_full()
    ensures
        initialize_document() == JsonValue::Object(
            no_members().insert(
                "protocolVersion"@,
                JsonValue::String("2025-03-26"@),
            ).insert(
                "capabilities"@,
                JsonValue::Object(
                    no_members().insert(
                        "tools"@,
                        JsonValue::Object(
                            no_members().insert(
                                "listChanged"@,
                                JsonValue::Bool(false),
                            ),
                        ),
                    ).insert(
                        "resources"@,
                        JsonValue::Object(
                            no_members().insert(
                                "listChanged"@,
                                JsonValue::Bool(false),
                            ),
                        ),
                    ),
                ),
            ).insert(
                "serverInfo"@,
                JsonValue::Object(
                    no_members().insert(
                        "name"@,
                        JsonValue::String("cloudfree-mcp"@),
                    ).insert("version"@, JsonValue::String("0.1.0"@)),
                ),
            ),
        ),
{
}

/// `initialize` answers with the capability document, whatever parameters
/// the request carries.
pub proof fn initialize_ignores_its_parameters(req: JsonRpcRequestView)
    requires
        !is_notification(req),
        req.method == "initialize"@,
    ensures
        routed(req) == RoutedView::Respond(
            JsonRpcResponseView::success(req.id, initialize_document()),
        ),
{
}

/// Reading the address of a model succeeds whatever the identifier, also
/// where the identifier is in no catalog and mentions no keyword: the answer
/// carries the description of the descriptor that the identifier resolves
/// to, and no error.
pub proof fn reading_a_model_address_succeeds(req: JsonRpcRequestView, id: Seq<char>)
    requires
        !is_notification(req),
        req.method == "resources/read"@,
        req.params == Some(object1("uri"@, JsonValue::String(resource_uri(id)))),
    ensures
        routed(req) matches RoutedView::Respond(answer) && answer.error is None && answer.result
            == Some(contents_document(seq![resource_content(resource_uri(id))->0])),
        resource_content(resource_uri(id)) is Some,
{
    every_model_address_can_be_read(id);
    reveal_strlit("resources/read");
    reveal_strlit("initialize");
    reveal_strlit("ping");
    reveal_strlit("tools/list");
    reveal_strlit("tools/call");
    reveal_strlit("resources/list");
    assert("resources/read"@.len() == 14);
    assert("initialize"@.len() == 10);
    assert("ping"@.len() == 4);
    assert("tools/list"@.len() == 10);
    assert("tools/call"@.len() == 10);
    assert("resources/list"@[10] != "resources/read"@[10]);
}

} // verus!
