//! The parameters of requests, read out of the documents that carry them.
//!
//! Parameters may be given by name, as an object, or by position, as an
//! array of exactly as many items as there are parameters. What is said of
//! parameters that do not serve names the kind of the document at fault.

use crate::json::{Json, JsonValue};
use crate::mcp::protocol::{
    CallToolParams, CallToolParamsView, ReadResourceParams, ReadResourceParamsView,
};
use crate::text::{decimal, push_decimal};
use crate::views::{optional_view, result_view};
use vstd::prelude::*;
use vstd::string::StringExecFns;

verus! {

/// The word for the kind of a document.
pub open spec fn kind_name(v: JsonValue) -> Seq<char> {
    match v {
        JsonValue::Null => "null"@,
        JsonValue::Bool(_) => "boolean"@,
        JsonValue::Number(_) => "number"@,
        JsonValue::String(_) => "string"@,
        JsonValue::Array(_) => "sequence"@,
        JsonValue::Object(_) => "map"@,
    }
}

/// What is said of a document of the wrong kind.
pub open spec fn invalid_type(v: JsonValue, expected: Seq<char>) -> Seq<char> {
    "invalid type: "@ + kind_name(v) + ", expected "@ + expected
}

/// What is said of an array of the wrong length.
pub open spec fn invalid_length(len: nat, expected: Seq<char>) -> Seq<char> {
    "invalid length "@ + decimal(len) + ", expected "@ + expected
}

/// What is said of an object that lacks a member.
pub open spec fn missing_field(name: Seq<char>) -> Seq<char> {
    "missing field `"@ + name + "`"@
}

/// The text that a document must be.
pub open spec fn required_text(v: JsonValue) -> Result<Seq<char>, Seq<char>> {
    match v {
        JsonValue::String(s) => Ok(s),
        _ => Err(invalid_type(v, "a string"@)),
    }
}

/// A member that may be left out: absent and null both count as left out.
pub open spec fn optional_member(v: Option<JsonValue>) -> Option<JsonValue> {
    match v {
        Some(JsonValue::Null) => None,
        Some(x) => Some(x),
        None => None,
    }
}

/// The parameters that a request carries: the empty object where it
/// carries none.
pub open spec fn params_or_empty(params: Option<JsonValue>) -> JsonValue {
    match params {
        Some(p) => p,
        None => JsonValue::Object(Map::empty()),
    }
}

/// The parameters of a tool call that `params` holds. An object gives them
/// by name, `name` and `arguments`; an array of two gives them by position.
pub open spec fn call_tool_params(params: JsonValue) -> Result<CallToolParamsView, Seq<char>> {
    match params {
        JsonValue::Object(_) => match params.field("name"@) {
            Some(name) => match required_text(name) {
                Ok(name) => Ok(
                    CallToolParamsView {
                        name,
                        arguments: optional_member(params.field("arguments"@)),
                    },
                ),
                Err(e) => Err(e),
            },
            None => Err(missing_field("name"@)),
        },
        JsonValue::Array(items) => if items.len() == 0 {
            Err(invalid_length(0, "struct CallToolParams with 2 elements"@))
        } else {
            match required_text(items[0]) {
                Ok(name) => if items.len() == 1 {
                    Err(invalid_length(1, "struct CallToolParams with 2 elements"@))
                } else if items.len() == 2 {
                    Ok(CallToolParamsView { name, arguments: optional_member(Some(items[1])) })
                } else {
                    Err(invalid_length(items.len(), "fewer elements in array"@))
                },
                Err(e) => Err(e),
            }
        },
        _ => Err(invalid_type(params, "struct CallToolParams"@)),
    }
}

/// The parameters of a read that `params` holds. An object gives the
/// address under `uri`; an array of one gives it by position.
pub open spec fn read_resource_params(params: JsonValue) -> Result<
    ReadResourceParamsView,
    Seq<char>,
> {
    match params {
        JsonValue::Object(_) => match params.field("uri"@) {
            Some(uri) => match required_text(uri) {
                Ok(uri) => Ok(ReadResourceParamsView { uri }),
                Err(e) => Err(e),
            },
            None => Err(missing_field("uri"@)),
        },
        JsonValue::Array(items) => if items.len() == 0 {
            Err(invalid_length(0, "struct ReadResourceParams with 1 element"@))
        } else {
            match required_text(items[0]) {
                Ok(uri) => if items.len() == 1 {
                    Ok(ReadResourceParamsView { uri })
                } else {
                    Err(invalid_length(items.len(), "fewer elements in array"@))
                },
                Err(e) => Err(e),
            }
        },
        _ => Err(invalid_type(params, "struct ReadResourceParams"@)),
    }
}

/// The word for the kind of `v`.
fn kind_of(v: &Json) -> (s: &'static str)
    ensures
        s@ == kind_name(v@),
{
    match v {
        Json::Null => "null",
        Json::Bool(_) => "boolean",
        Json::Number(_) => "number",
        Json::String(_) => "string",
        Json::Array(_) => "sequence",
        Json::Object(_) => "map",
    }
}

fn invalid_type_message(v: &Json, expected: &str) -> (m: String)
    ensures
        m@ == invalid_type(v@, expected@),
{
    let mut m = "invalid type: ".to_owned();
    m.append(kind_of(v));
    m.append(", expected ");
    m.append(expected);
    m
}

fn invalid_length_message(len: usize, expected: &str) -> (m: String)
    ensures
        m@ == invalid_length(len as nat, expected@),
{
    let mut m = "invalid length ".to_owned();
    push_decimal(&mut m, len as u64);
    m.append(", expected ");
    m.append(expected);
    m
}

fn missing_field_message(name: &str) -> (m: String)
    ensures
        m@ == missing_field(name@),
{
    let mut m = "missing field `".to_owned();
    m.append(name);
    m.append("`");
    m
}

/// The text that `v` must be.
fn text_required(v: &Json) -> (r: Result<String, String>)
    ensures
        match r {
            Ok(s) => required_text(v@) == Ok::<Seq<char>, Seq<char>>(s@),
            Err(e) => required_text(v@) == Err::<Seq<char>, Seq<char>>(e@),
        },
{
    match v.as_str() {
        Some(s) => Ok(s.to_owned()),
        None => Err(invalid_type_message(v, "a string")),
    }
}

/// A member that may be left out.
fn member_optional(v: Option<Json>) -> (r: Option<Json>)
    ensures
        optional_view(r) == optional_member(optional_view(v)),
{
    match v {
        Some(x) => if x.is_null() {
            None
        } else {
            Some(x)
        },
        None => None,
    }
}

/// The parameters that a request carries: the empty object where it
/// carries none.
pub fn or_empty(params: Option<Json>) -> (r: Json)
    ensures
        r@ == params_or_empty(optional_view(params)),
{
    match params {
        Some(p) => p,
        None => Json::empty_object(),
    }
}

impl CallToolParams {
    /// Reads the parameters of a tool call out of `params`.
    pub fn from_json(params: Json) -> (r: Result<CallToolParams, String>)
        ensures
            result_view(r) == call_tool_params(params@),
    {
        if params.is_object() {
            let name = match params.get("name") {
                Some(v) => text_required(v),
                None => Err(missing_field_message("name")),
            };
            match name {
                Ok(name) => Ok(
                    CallToolParams {
                        name,
                        arguments: member_optional(params.into_field("arguments")),
                    },
                ),
                Err(e) => Err(e),
            }
        } else {
            let kind_error = invalid_type_message(&params, "struct CallToolParams");
            match params.into_array() {
                Some(items) => {
                    let mut items = items;
                    let len: usize = items.len();
                    if len == 0 {
                        return Err(
                            invalid_length_message(0, "struct CallToolParams with 2 elements"),
                        );
                    }
                    match text_required(&items[0]) {
                        Ok(name) => if len == 1 {
                            Err(invalid_length_message(1, "struct CallToolParams with 2 elements"))
                        } else if len == 2 {
                            let second = items.pop();
                            Ok(CallToolParams { name, arguments: member_optional(second) })
                        } else {
                            Err(invalid_length_message(len, "fewer elements in array"))
                        },
                        Err(e) => Err(e),
                    }
                },
                None => Err(kind_error),
            }
        }
    }
}

impl ReadResourceParams {
    /// Reads the parameters of a read out of `params`.
    pub fn from_json(params: Json) -> (r: Result<ReadResourceParams, String>)
        ensures
            result_view(r) == read_resource_params(params@),
    {
        if params.is_object() {
            match params.get("uri") {
                Some(v) => match text_required(v) {
                    Ok(uri) => Ok(ReadResourceParams { uri }),
                    Err(e) => Err(e),
                },
                None => Err(missing_field_message("uri")),
            }
        } else {
            let kind_error = invalid_type_message(&params, "struct ReadResourceParams");
            match params.into_array() {
                Some(items) => {
                    let len: usize = items.len();
                    if len == 0 {
                        return Err(
                            invalid_length_message(0, "struct ReadResourceParams with 1 element"),
                        );
                    }
                    match text_required(&items[0]) {
                        Ok(uri) => if len == 1 {
                            Ok(ReadResourceParams { uri })
                        } else {
                            Err(invalid_length_message(len, "fewer elements in array"))
                        },
                        Err(e) => Err(e),
                    }
                },
                None => Err(kind_error),
            }
        }
    }
}

} // verus!
