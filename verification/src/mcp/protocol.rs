//! The shapes that travel: JSON-RPC envelopes and the payloads of the Model
//! Context Protocol, each with the document it is written as.

use crate::json::{no_members, object1, Json, JsonValue, NumberValue, ObjectBuilder};
use crate::views::{optional_view, views};
use vstd::prelude::*;

verus! {

// ---------------------------------------------------------------------------
// Envelopes
// ---------------------------------------------------------------------------

/// The protocol version that every envelope names.
pub open spec fn version() -> Seq<char> {
    "2.0"@
}

/// An incoming envelope, as a mathematical value.
pub struct JsonRpcRequestView {
    pub jsonrpc: Seq<char>,
    pub id: Option<JsonValue>,
    pub method: Seq<char>,
    pub params: Option<JsonValue>,
}

/// An incoming envelope.
#[derive(Debug, PartialEq)]
pub struct JsonRpcRequest {
    pub jsonrpc: String,
    pub id: Option<Json>,
    pub method: String,
    pub params: Option<Json>,
}

impl View for JsonRpcRequest {
    type V = JsonRpcRequestView;

    open spec fn view(&self) -> JsonRpcRequestView {
        JsonRpcRequestView {
            jsonrpc: self.jsonrpc@,
            id: optional_view(self.id),
            method: self.method@,
            params: optional_view(self.params),
        }
    }
}

/// The error of an outgoing envelope, as a mathematical value.
pub struct JsonRpcErrorView {
    pub code: i32,
    pub message: Seq<char>,
    pub data: Option<JsonValue>,
}

/// The error of an outgoing envelope.
#[derive(Debug, PartialEq)]
pub struct JsonRpcError {
    pub code: i32,
    pub message: String,
    pub data: Option<Json>,
}

impl View for JsonRpcError {
    type V = JsonRpcErrorView;

    open spec fn view(&self) -> JsonRpcErrorView {
        JsonRpcErrorView {
            code: self.code,
            message: self.message@,
            data: optional_view(self.data),
        }
    }
}

/// An outgoing envelope, as a mathematical value.
pub struct JsonRpcResponseView {
    pub jsonrpc: Seq<char>,
    pub id: Option<JsonValue>,
    pub result: Option<JsonValue>,
    pub error: Option<JsonRpcErrorView>,
}

impl JsonRpcResponseView {
    /// The envelope names the protocol version and carries a result or an
    /// error, never both and never neither.
    pub open spec fn well_formed(self) -> bool {
        &&& self.jsonrpc == version()
        &&& (self.result is Some) != (self.error is Some)
    }

    /// The envelope that answers `id` with `result`.
    pub open spec fn success(id: Option<JsonValue>, result: JsonValue) -> JsonRpcResponseView {
        JsonRpcResponseView { jsonrpc: version(), id, result: Some(result), error: None }
    }

    /// The envelope that answers `id` with an error.
    pub open spec fn error(
        id: Option<JsonValue>,
        code: i32,
        message: Seq<char>,
    ) -> JsonRpcResponseView {
        JsonRpcResponseView {
            jsonrpc: version(),
            id,
            result: None,
            error: Some(JsonRpcErrorView { code, message, data: None }),
        }
    }

    /// The document an envelope is written as: `result` and `error` appear
    /// only where they are present, `id` is null where it is absent.
    pub open spec fn document(self) -> JsonValue {
        let head = no_members().insert(
            "jsonrpc"@,
            JsonValue::String(self.jsonrpc),
        ).insert(
            "id"@,
            match self.id {
                Some(id) => id,
                None => JsonValue::Null,
            },
        );
        let with_result = match self.result {
            Some(r) => head.insert("result"@, r),
            None => head,
        };
        JsonValue::Object(
            match self.error {
                Some(e) => with_result.insert("error"@, e.document()),
                None => with_result,
            },
        )
    }
}

impl JsonRpcErrorView {
    /// The document an error is written as: `data` appears only where it is
    /// present.
    pub open spec fn document(self) -> JsonValue {
        let head = no_members().insert(
            "code"@,
            JsonValue::Number(
                if self.code < 0 {
                    NumberValue::NegInt(self.code as i64)
                } else {
                    NumberValue::PosInt(self.code as u64)
                },
            ),
        ).insert("message"@, JsonValue::String(self.message));
        JsonValue::Object(
            match self.data {
                Some(d) => head.insert("data"@, d),
                None => head,
            },
        )
    }
}

/// An outgoing envelope.
#[derive(Debug, PartialEq)]
pub struct JsonRpcResponse {
    pub jsonrpc: String,
    pub id: Option<Json>,
    pub result: Option<Json>,
    pub error: Option<JsonRpcError>,
}

impl View for JsonRpcResponse {
    type V = JsonRpcResponseView;

    open spec fn view(&self) -> JsonRpcResponseView {
        JsonRpcResponseView {
            jsonrpc: self.jsonrpc@,
            id: optional_view(self.id),
            result: optional_view(self.result),
            error: match self.error {
                Some(e) => Some(e@),
                None => None,
            },
        }
    }
}

impl JsonRpcError {
    /// The document this error is written as.
    pub fn into_json(self) -> (j: Json)
        ensures
            j@ == self@.document(),
    {
        let mut b = ObjectBuilder::new();
        b.put("code", Json::signed(self.code as i64));
        b.put("message", Json::String(self.message));
        match self.data {
            Some(d) => b.put("data", d),
            None => {},
        }
        b.finish()
    }
}

impl JsonRpcResponse {
    /// The envelope that answers `id` with `result`.
    pub fn success(id: Option<Json>, result: Json) -> (r: JsonRpcResponse)
        ensures
            r@ == JsonRpcResponseView::success(optional_view(id), result@),
            r@.well_formed(),
    {
        JsonRpcResponse { jsonrpc: "2.0".to_owned(), id, result: Some(result), error: None }
    }

    /// The envelope that answers `id` with the error `code` and `message`.
    pub fn error(id: Option<Json>, code: i32, message: String) -> (r: JsonRpcResponse)
        ensures
            r@ == JsonRpcResponseView::error(optional_view(id), code, message@),
            r@.well_formed(),
    {
        JsonRpcResponse {
            jsonrpc: "2.0".to_owned(),
            id,
            result: None,
            error: Some(JsonRpcError { code, message, data: None }),
        }
    }

    /// The document this envelope is written as.
    pub fn into_json(self) -> (j: Json)
        ensures
            j@ == self@.document(),
    {
        let mut b = ObjectBuilder::new();
        b.put("jsonrpc", Json::String(self.jsonrpc));
        match self.id {
            Some(id) => b.put("id", id),
            None => b.put("id", Json::Null),
        }
        match self.result {
            Some(r) => b.put("result", r),
            None => {},
        }
        match self.error {
            Some(e) => b.put("error", e.into_json()),
            None => {},
        }
        b.finish()
    }
}

// ---------------------------------------------------------------------------
// The capability document
// ---------------------------------------------------------------------------

/// What the server can do with tools.
#[derive(Debug, PartialEq)]
pub struct ToolsCapability {
    pub list_changed: Option<bool>,
}

impl ToolsCapability {
    /// The document this is written as: a member appears only where it is
    /// present.
    pub open spec fn document(self) -> JsonValue {
        JsonValue::Object(
            match self.list_changed {
                Some(b) => no_members().insert(
                    "listChanged"@,
                    JsonValue::Bool(b),
                ),
                None => Map::empty(),
            },
        )
    }

    /// The document this is written as.
    pub fn into_json(self) -> (j: Json)
        ensures
            j@ == self.document(),
    {
        let mut b = ObjectBuilder::new();
        match self.list_changed {
            Some(changed) => b.put("listChanged", Json::Bool(changed)),
            None => {},
        }
        b.finish()
    }
}

/// What the server can do with resources.
#[derive(Debug, PartialEq)]
pub struct ResourcesCapability {
    pub subscribe: Option<bool>,
    pub list_changed: Option<bool>,
}

impl ResourcesCapability {
    /// The document this is written as: a member appears only where it is
    /// present.
    pub open spec fn document(self) -> JsonValue {
        let subscribe = match self.subscribe {
            Some(b) => no_members().insert("subscribe"@, JsonValue::Bool(b)),
            None => Map::empty(),
        };
        JsonValue::Object(
            match self.list_changed {
                Some(b) => subscribe.insert("listChanged"@, JsonValue::Bool(b)),
                None => subscribe,
            },
        )
    }

    /// The document this is written as.
    pub fn into_json(self) -> (j: Json)
        ensures
            j@ == self.document(),
    {
        let mut b = ObjectBuilder::new();
        match self.subscribe {
            Some(subscribe) => b.put("subscribe", Json::Bool(subscribe)),
            None => {},
        }
        match self.list_changed {
            Some(changed) => b.put("listChanged", Json::Bool(changed)),
            None => {},
        }
        b.finish()
    }
}

/// What the server can do.
#[derive(Debug, PartialEq)]
pub struct Capabilities {
    pub tools: Option<ToolsCapability>,
    pub resources: Option<ResourcesCapability>,
}

impl Capabilities {
    /// The document this is written as: a member appears only where it is
    /// present.
    pub open spec fn document(self) -> JsonValue {
        let tools = match self.tools {
            Some(t) => no_members().insert("tools"@, t.document()),
            None => Map::empty(),
        };
        JsonValue::Object(
            match self.resources {
                Some(r) => tools.insert("resources"@, r.document()),
                None => tools,
            },
        )
    }

    /// The document this is written as.
    pub fn into_json(self) -> (j: Json)
        ensures
            j@ == self.document(),
    {
        let mut b = ObjectBuilder::new();
        match self.tools {
            Some(tools) => b.put("tools", tools.into_json()),
            None => {},
        }
        match self.resources {
            Some(resources) => b.put("resources", resources.into_json()),
            None => {},
        }
        b.finish()
    }
}

/// Who the server is, as a mathematical value.
pub struct ServerInfoView {
    pub name: Seq<char>,
    pub version: Seq<char>,
}

impl ServerInfoView {
    /// The document this is written as.
    pub open spec fn document(self) -> JsonValue {
        JsonValue::Object(
            no_members().insert("name"@, JsonValue::String(self.name)).insert(
                "version"@,
                JsonValue::String(self.version),
            ),
        )
    }
}

/// Who the server is.
#[derive(Debug, PartialEq)]
pub struct ServerInfo {
    pub name: String,
    pub version: String,
}

impl View for ServerInfo {
    type V = ServerInfoView;

    open spec fn view(&self) -> ServerInfoView {
        ServerInfoView { name: self.name@, version: self.version@ }
    }
}

impl ServerInfo {
    /// The document this is written as.
    pub fn into_json(self) -> (j: Json)
        ensures
            j@ == self@.document(),
    {
        let mut b = ObjectBuilder::new();
        b.put("name", Json::String(self.name));
        b.put("version", Json::String(self.version));
        b.finish()
    }
}

/// What `initialize` answers with, as a mathematical value.
pub struct InitializeResultView {
    pub protocol_version: Seq<char>,
    pub capabilities: Capabilities,
    pub server_info: ServerInfoView,
}

impl InitializeResultView {
    /// The document this is written as.
    pub open spec fn document(self) -> JsonValue {
        JsonValue::Object(
            no_members().insert(
                "protocolVersion"@,
                JsonValue::String(self.protocol_version),
            ).insert("capabilities"@, self.capabilities.document()).insert(
                "serverInfo"@,
                self.server_info.document(),
            ),
        )
    }
}

/// What `initialize` answers with.
#[derive(Debug, PartialEq)]
pub struct InitializeResult {
    pub protocol_version: String,
    pub capabilities: Capabilities,
    pub server_info: ServerInfo,
}

impl View for InitializeResult {
    type V = InitializeResultView;

    open spec fn view(&self) -> InitializeResultView {
        InitializeResultView {
            protocol_version: self.protocol_version@,
            capabilities: self.capabilities,
            server_info: self.server_info@,
        }
    }
}

impl InitializeResult {
    /// The document this is written as.
    pub fn into_json(self) -> (j: Json)
        ensures
            j@ == self@.document(),
    {
        let mut b = ObjectBuilder::new();
        b.put("protocolVersion", Json::String(self.protocol_version));
        b.put("capabilities", self.capabilities.into_json());
        b.put("serverInfo", self.server_info.into_json());
        b.finish()
    }
}

// ---------------------------------------------------------------------------
// Tools
// ---------------------------------------------------------------------------

/// A tool, as a mathematical value.
pub struct ToolView {
    pub name: Seq<char>,
    pub description: Seq<char>,
    pub input_schema: JsonValue,
}

impl ToolView {
    /// The document a tool is written as.
    pub open spec fn document(self) -> JsonValue {
        JsonValue::Object(
            no_members().insert("name"@, JsonValue::String(self.name)).insert(
                "description"@,
                JsonValue::String(self.description),
            ).insert("inputSchema"@, self.input_schema),
        )
    }
}

/// A tool: a callable capability with the schema of its arguments.
#[derive(Debug, PartialEq)]
pub struct Tool {
    pub name: String,
    pub description: String,
    pub input_schema: Json,
}

impl View for Tool {
    type V = ToolView;

    open spec fn view(&self) -> ToolView {
        ToolView {
            name: self.name@,
            description: self.description@,
            input_schema: self.input_schema@,
        }
    }
}

impl Tool {
    /// The document this tool is written as.
    pub fn into_json(self) -> (j: Json)
        ensures
            j@ == self@.document(),
    {
        let mut b = ObjectBuilder::new();
        b.put("name", Json::String(self.name));
        b.put("description", Json::String(self.description));
        b.put("inputSchema", self.input_schema);
        b.finish()
    }
}

/// The documents of a run of tools.
pub open spec fn tool_documents(tools: Seq<ToolView>) -> Seq<JsonValue> {
    Seq::new(tools.len(), |i: int| tools[i].document())
}

/// The document a list of tools is written as.
pub open spec fn tools_document(tools: Seq<ToolView>) -> JsonValue {
    object1("tools"@, JsonValue::Array(tool_documents(tools)))
}

/// The tools on offer.
#[derive(Debug, PartialEq)]
pub struct ToolsList {
    pub tools: Vec<Tool>,
}

impl ToolsList {
    /// The document this list is written as.
    pub fn into_json(self) -> (j: Json)
        ensures
            j@ == tools_document(views(self.tools@)),
    {
        let ghost all = views(self.tools@);
        let mut written: Vec<Json> = Vec::new();
        for tool in it: self.tools
            invariant
                views(it.seq()) == all,
                views(written@) == tool_documents(all).take(it.index() as int),
        {
            let ghost before = views(written@);
            assert(all[it.index() as int] == tool@);
            written.push(tool.into_json());
            assert(views(written@) =~= before.push(tool@.document()));
            assert(views(written@) =~= tool_documents(all).take(it.index() + 1));
        }
        assert(views(written@) =~= tool_documents(all));
        let mut b = ObjectBuilder::new();
        b.put("tools", Json::array(written));
        b.finish()
    }
}

/// The parameters of a tool call, as a mathematical value.
pub struct CallToolParamsView {
    pub name: Seq<char>,
    pub arguments: Option<JsonValue>,
}

/// The parameters of a tool call.
#[derive(Debug, PartialEq)]
pub struct CallToolParams {
    pub name: String,
    pub arguments: Option<Json>,
}

impl View for CallToolParams {
    type V = CallToolParamsView;

    open spec fn view(&self) -> CallToolParamsView {
        CallToolParamsView { name: self.name@, arguments: optional_view(self.arguments) }
    }
}

/// A block of content, as a mathematical value.
pub enum ContentBlockView {
    Text { text: Seq<char> },
}

impl ContentBlockView {
    /// The document a block is written as.
    pub open spec fn document(self) -> JsonValue {
        match self {
            ContentBlockView::Text { text } => JsonValue::Object(
                no_members().insert("type"@, JsonValue::String("text"@)).insert(
                    "text"@,
                    JsonValue::String(text),
                ),
            ),
        }
    }
}

/// A block of content.
#[derive(Debug, PartialEq)]
pub enum ContentBlock {
    Text { text: String },
}

impl View for ContentBlock {
    type V = ContentBlockView;

    open spec fn view(&self) -> ContentBlockView {
        match self {
            ContentBlock::Text { text } => ContentBlockView::Text { text: text@ },
        }
    }
}

impl ContentBlock {
    /// The document this block is written as.
    pub fn into_json(self) -> (j: Json)
        ensures
            j@ == self@.document(),
    {
        match self {
            ContentBlock::Text { text } => {
                let mut b = ObjectBuilder::new();
                b.put_str("type", "text");
                b.put("text", Json::String(text));
                b.finish()
            },
        }
    }
}

/// The outcome of a tool call, as a mathematical value.
pub struct ToolResultView {
    pub content: Seq<ContentBlockView>,
    pub is_error: Option<bool>,
}

/// The documents of a run of blocks.
pub open spec fn block_documents(blocks: Seq<ContentBlockView>) -> Seq<JsonValue> {
    Seq::new(blocks.len(), |i: int| blocks[i].document())
}

impl ToolResultView {
    /// The document an outcome is written as: `isError` appears only where
    /// it is present.
    pub open spec fn document(self) -> JsonValue {
        let head = no_members().insert(
            "content"@,
            JsonValue::Array(block_documents(self.content)),
        );
        JsonValue::Object(
            match self.is_error {
                Some(e) => head.insert("isError"@, JsonValue::Bool(e)),
                None => head,
            },
        )
    }
}

/// The outcome of a tool call.
#[derive(Debug, PartialEq)]
pub struct ToolResult {
    pub content: Vec<ContentBlock>,
    pub is_error: Option<bool>,
}

impl View for ToolResult {
    type V = ToolResultView;

    open spec fn view(&self) -> ToolResultView {
        ToolResultView { content: views(self.content@), is_error: self.is_error }
    }
}

impl ToolResult {
    /// The document this outcome is written as.
    pub fn into_json(self) -> (j: Json)
        ensures
            j@ == self@.document(),
    {
        let ghost all = views(self.content@);
        let mut written: Vec<Json> = Vec::new();
        for block in it: self.content
            invariant
                views(it.seq()) == all,
                views(written@) == block_documents(all).take(it.index() as int),
        {
            let ghost before = views(written@);
            assert(all[it.index() as int] == block@);
            written.push(block.into_json());
            assert(views(written@) =~= before.push(block@.document()));
            assert(views(written@) =~= block_documents(all).take(it.index() + 1));
        }
        assert(views(written@) =~= block_documents(all));
        let mut b = ObjectBuilder::new();
        b.put("content", Json::array(written));
        match self.is_error {
            Some(e) => b.put("isError", Json::Bool(e)),
            None => {},
        }
        b.finish()
    }
}

// ---------------------------------------------------------------------------
// Resources
// ---------------------------------------------------------------------------

/// A resource, as a mathematical value.
pub struct ResourceView {
    pub uri: Seq<char>,
    pub name: Seq<char>,
    pub description: Option<Seq<char>>,
    pub mime_type: Option<Seq<char>>,
}

impl ResourceView {
    /// The document a resource is written as: `description` and `mimeType`
    /// appear only where they are present.
    pub open spec fn document(self) -> JsonValue {
        let head = no_members().insert("uri"@, JsonValue::String(self.uri)).insert(
            "name"@,
            JsonValue::String(self.name),
        );
        let described = match self.description {
            Some(d) => head.insert("description"@, JsonValue::String(d)),
            None => head,
        };
        JsonValue::Object(
            match self.mime_type {
                Some(m) => described.insert("mimeType"@, JsonValue::String(m)),
                None => described,
            },
        )
    }
}

/// A resource: a readable document with an address.
#[derive(Debug, PartialEq)]
pub struct Resource {
    pub uri: String,
    pub name: String,
    pub description: Option<String>,
    pub mime_type: Option<String>,
}

impl View for Resource {
    type V = ResourceView;

    open spec fn view(&self) -> ResourceView {
        ResourceView {
            uri: self.uri@,
            name: self.name@,
            description: optional_view(self.description),
            mime_type: optional_view(self.mime_type),
        }
    }
}

impl Resource {
    /// The document this resource is written as.
    pub fn into_json(self) -> (j: Json)
        ensures
            j@ == self@.document(),
    {
        let mut b = ObjectBuilder::new();
        b.put("uri", Json::String(self.uri));
        b.put("name", Json::String(self.name));
        match self.description {
            Some(d) => b.put("description", Json::String(d)),
            None => {},
        }
        match self.mime_type {
            Some(m) => b.put("mimeType", Json::String(m)),
            None => {},
        }
        b.finish()
    }
}

/// The documents of a run of resources.
pub open spec fn resource_documents(resources: Seq<ResourceView>) -> Seq<JsonValue> {
    Seq::new(resources.len(), |i: int| resources[i].document())
}

/// The document a list of resources is written as.
pub open spec fn resources_document(resources: Seq<ResourceView>) -> JsonValue {
    object1("resources"@, JsonValue::Array(resource_documents(resources)))
}

/// The resources on offer.
#[derive(Debug, PartialEq)]
pub struct ResourcesList {
    pub resources: Vec<Resource>,
}

impl ResourcesList {
    /// The document this list is written as.
    pub fn into_json(self) -> (j: Json)
        ensures
            j@ == resources_document(views(self.resources@)),
    {
        let ghost all = views(self.resources@);
        let mut written: Vec<Json> = Vec::new();
        for resource in it: self.resources
            invariant
                views(it.seq()) == all,
                views(written@) == resource_documents(all).take(it.index() as int),
        {
            let ghost before = views(written@);
            assert(all[it.index() as int] == resource@);
            written.push(resource.into_json());
            assert(views(written@) =~= before.push(resource@.document()));
            assert(views(written@) =~= resource_documents(all).take(it.index() + 1));
        }
        assert(views(written@) =~= resource_documents(all));
        let mut b = ObjectBuilder::new();
        b.put("resources", Json::array(written));
        b.finish()
    }
}

/// The parameters of a read, as a mathematical value.
pub struct ReadResourceParamsView {
    pub uri: Seq<char>,
}

/// The parameters of a read.
#[derive(Debug, PartialEq)]
pub struct ReadResourceParams {
    pub uri: String,
}

impl View for ReadResourceParams {
    type V = ReadResourceParamsView;

    open spec fn view(&self) -> ReadResourceParamsView {
        ReadResourceParamsView { uri: self.uri@ }
    }
}

/// The content of a resource, as a mathematical value.
pub struct ResourceContentView {
    pub uri: Seq<char>,
    pub mime_type: Seq<char>,
    pub text: Seq<char>,
}

impl ResourceContentView {
    /// The document a content is written as.
    pub open spec fn document(self) -> JsonValue {
        JsonValue::Object(
            no_members().insert("uri"@, JsonValue::String(self.uri)).insert(
                "mimeType"@,
                JsonValue::String(self.mime_type),
            ).insert("text"@, JsonValue::String(self.text)),
        )
    }
}

/// The content of a resource.
#[derive(Debug, PartialEq)]
pub struct ResourceContent {
    pub uri: String,
    pub mime_type: String,
    pub text: String,
}

impl View for ResourceContent {
    type V = ResourceContentView;

    open spec fn view(&self) -> ResourceContentView {
        ResourceContentView { uri: self.uri@, mime_type: self.mime_type@, text: self.text@ }
    }
}

impl ResourceContent {
    /// The document this content is written as.
    pub fn into_json(self) -> (j: Json)
        ensures
            j@ == self@.document(),
    {
        let mut b = ObjectBuilder::new();
        b.put("uri", Json::String(self.uri));
        b.put("mimeType", Json::String(self.mime_type));
        b.put("text", Json::String(self.text));
        b.finish()
    }
}

/// The documents of a run of contents.
pub open spec fn content_documents(contents: Seq<ResourceContentView>) -> Seq<JsonValue> {
    Seq::new(contents.len(), |i: int| contents[i].document())
}

/// The document the contents of a read are written as.
pub open spec fn contents_document(contents: Seq<ResourceContentView>) -> JsonValue {
    object1("contents"@, JsonValue::Array(content_documents(contents)))
}

/// What a read gives.
#[derive(Debug, PartialEq)]
pub struct ResourceContents {
    pub contents: Vec<ResourceContent>,
}

impl ResourceContents {
    /// The document these contents are written as.
    pub fn into_json(self) -> (j: Json)
        ensures
            j@ == contents_document(views(self.contents@)),
    {
        let ghost all = views(self.contents@);
        let mut written: Vec<Json> = Vec::new();
        for content in it: self.contents
            invariant
                views(it.seq()) == all,
                views(written@) == content_documents(all).take(it.index() as int),
        {
            let ghost before = views(written@);
            assert(all[it.index() as int] == content@);
            written.push(content.into_json());
            assert(views(written@) =~= before.push(content@.document()));
            assert(views(written@) =~= content_documents(all).take(it.index() + 1));
        }
        assert(views(written@) =~= content_documents(all));
        let mut b = ObjectBuilder::new();
        b.put("contents", Json::array(written));
        b.finish()
    }
}

} // verus!
