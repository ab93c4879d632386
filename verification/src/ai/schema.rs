//! The schemas that tell a caller what input a model takes.

use crate::json::{no_members, Json, JsonValue, NumberValue, ObjectBuilder};
use crate::views::optional_view;
use vstd::prelude::*;

verus! {

/// The schema of a string property, with its description where it has one.
pub open spec fn string_schema(description: Option<Seq<char>>) -> JsonValue {
    let kind = no_members().insert("type"@, JsonValue::String("string"@));
    JsonValue::Object(
        match description {
            Some(d) => kind.insert("description"@, JsonValue::String(d)),
            None => kind,
        },
    )
}

/// The schema of an integer property with a default, with its description
/// where it has one.
pub open spec fn integer_schema(description: Option<Seq<char>>, default: u64) -> JsonValue {
    let kind = no_members().insert("type"@, JsonValue::String("integer"@));
    let described = match description {
        Some(d) => kind.insert("description"@, JsonValue::String(d)),
        None => kind,
    };
    JsonValue::Object(
        described.insert("default"@, JsonValue::Number(NumberValue::PosInt(default))),
    )
}

/// The schema of an object with the given properties, of which `required`
/// is the one that must be present.
pub open spec fn object_schema(
    properties: Map<Seq<char>, JsonValue>,
    required: Seq<char>,
) -> JsonValue {
    JsonValue::Object(
        no_members().insert("type"@, JsonValue::String("object"@)).insert(
            "properties"@,
            JsonValue::Object(properties),
        ).insert("required"@, JsonValue::Array(seq![JsonValue::String(required)])),
    )
}

/// An integer option of a schema: its name, its description where it has
/// one, and its default.
pub struct IntegerOption<'a> {
    pub name: &'a str,
    pub description: Option<&'a str>,
    pub default: u64,
}

/// The properties of a schema that asks for a `prompt` and may offer one
/// integer option.
pub open spec fn prompt_properties(
    description: Option<Seq<char>>,
    option: Option<IntegerOption>,
) -> Map<Seq<char>, JsonValue> {
    let prompt = no_members().insert(
        "prompt"@,
        string_schema(description),
    );
    match option {
        Some(o) => prompt.insert(o.name@, integer_schema(optional_view(o.description), o.default)),
        None => prompt,
    }
}

/// The schema that asks for a `prompt` and may offer one integer option.
pub open spec fn prompt_schema(
    description: Option<Seq<char>>,
    option: Option<IntegerOption>,
) -> JsonValue {
    object_schema(prompt_properties(description, option), "prompt"@)
}

/// The schema that asks for a `text`.
pub open spec fn text_schema(description: Seq<char>) -> JsonValue {
    object_schema(
        no_members().insert("text"@, string_schema(Some(description))),
        "text"@,
    )
}

/// The properties of a schema that asks for `audio` and may offer a
/// `language`.
pub open spec fn audio_properties(
    description: Seq<char>,
    language: Option<Seq<char>>,
) -> Map<Seq<char>, JsonValue> {
    let audio = no_members().insert(
        "audio"@,
        string_schema(Some(description)),
    );
    match language {
        Some(l) => audio.insert("language"@, string_schema(Some(l))),
        None => audio,
    }
}

/// The schema that asks for `audio` and may offer a `language`.
pub open spec fn audio_schema(description: Seq<char>, language: Option<Seq<char>>) -> JsonValue {
    object_schema(audio_properties(description, language), "audio"@)
}

/// Builds the schema of a string property.
pub fn build_string_schema(description: Option<&str>) -> (j: Json)
    ensures
        j@ == string_schema(optional_view(description)),
{
    let mut b = ObjectBuilder::new();
    b.put_str("type", "string");
    match description {
        Some(d) => b.put_str("description", d),
        None => {},
    }
    b.finish()
}

/// Builds the schema of an integer property with a default.
pub fn build_integer_schema(description: Option<&str>, default: u64) -> (j: Json)
    ensures
        j@ == integer_schema(optional_view(description), default),
{
    let mut b = ObjectBuilder::new();
    b.put_str("type", "integer");
    match description {
        Some(d) => b.put_str("description", d),
        None => {},
    }
    b.put("default", Json::unsigned(default));
    b.finish()
}

/// Builds the schema of an object with the given properties.
pub fn build_object_schema(properties: ObjectBuilder, required: &str) -> (j: Json)
    ensures
        j@ == object_schema(properties.written(), required@),
{
    let mut names: Vec<Json> = Vec::new();
    names.push(Json::string(required));
    let names = Json::array(names);
    assert(names@->Array_0 =~= seq![JsonValue::String(required@)]);
    let mut b = ObjectBuilder::new();
    b.put_str("type", "object");
    b.put("properties", properties.finish());
    b.put("required", names);
    b.finish()
}

/// Builds the schema that asks for a `prompt`.
pub fn build_prompt_schema(description: Option<&str>, option: Option<IntegerOption>) -> (j: Json)
    ensures
        j@ == prompt_schema(optional_view(description), option),
{
    let mut properties = ObjectBuilder::new();
    properties.put("prompt", build_string_schema(description));
    match option {
        Some(o) => properties.put(o.name, build_integer_schema(o.description, o.default)),
        None => {},
    }
    build_object_schema(properties, "prompt")
}

/// Builds the schema that asks for a `text`.
pub fn build_text_schema(description: &str) -> (j: Json)
    ensures
        j@ == text_schema(description@),
{
    let mut properties = ObjectBuilder::new();
    properties.put("text", build_string_schema(Some(description)));
    build_object_schema(properties, "text")
}

/// Builds the schema that asks for `audio`.
pub fn build_audio_schema(description: &str, language: Option<&str>) -> (j: Json)
    ensures
        j@ == audio_schema(description@, optional_view(language)),
{
    let mut properties = ObjectBuilder::new();
    properties.put("audio", build_string_schema(Some(description)));
    match language {
        Some(l) => properties.put("language", build_string_schema(Some(l))),
        None => {},
    }
    build_object_schema(properties, "audio")
}

} // verus!
