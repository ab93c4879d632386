//! The catalog seen as resources, and what reading one gives.

use crate::ai::models::{
    catalog, lemma_catalog_resolves_itself, resolved, ModelInfo, ModelInfoView, ModelRegistry,
};
use crate::json::{no_members, rendered, Json, JsonValue, NumberValue, ObjectBuilder};
use crate::mcp::protocol::{
    Resource, ResourceContent, ResourceContentView, ResourceContents, ResourceView, ResourcesList,
};
use crate::views::views;
use crate::text::{has_prefix, strip_prefix};
use vstd::prelude::*;
use vstd::string::StringExecFns;

verus! {

/// What every resource address begins with.
pub open spec fn scheme() -> Seq<char> {
    "model://"@
}

/// The kind of text that every resource holds.
pub open spec fn mime_type() -> Seq<char> {
    "application/json"@
}

/// The address under which the model `id` is read.
pub open spec fn resource_uri(id: Seq<char>) -> Seq<char> {
    scheme() + id
}

/// The resource that stands for a model.
pub open spec fn resource_of(m: ModelInfoView) -> ResourceView {
    ResourceView {
        uri: resource_uri(m.id),
        name: m.name,
        description: Some(m.description),
        mime_type: Some(mime_type()),
    }
}

/// The resources that stand for `models`, one for each and in their order.
pub open spec fn resources_of(models: Seq<ModelInfoView>) -> Seq<ResourceView> {
    Seq::new(models.len(), |i: int| resource_of(models[i]))
}

/// The document that describes a model.
pub open spec fn model_document(m: ModelInfoView) -> JsonValue {
    JsonValue::Object(
        no_members().insert("id"@, JsonValue::String(m.id)).insert(
            "name"@,
            JsonValue::String(m.name),
        ).insert("description"@, JsonValue::String(m.description)).insert(
            "category"@,
            JsonValue::String(m.category.name()),
        ).insert(
            "baseCost"@,
            JsonValue::Number(NumberValue::PosInt(m.base_neurons as u64)),
        ).insert("inputSchema"@, m.input_schema),
    )
}

/// The model that an address names: what follows the scheme. `None` where
/// the address does not begin with the scheme.
pub open spec fn addressed(uri: Seq<char>) -> Option<Seq<char>> {
    if has_prefix(uri, scheme()) {
        Some(uri.subrange(scheme().len() as int, uri.len() as int))
    } else {
        None
    }
}

/// What reading `uri` gives: the description of the model it names, written
/// out. `None` where the address does not begin with the scheme.
pub open spec fn resource_content(uri: Seq<char>) -> Option<ResourceContentView> {
    match addressed(uri) {
        Some(id) => Some(
            ResourceContentView {
                uri,
                mime_type: mime_type(),
                text: rendered(model_document(resolved(id))),
            },
        ),
        None => None,
    }
}

/// The resource that stands for `model`.
fn resource_for(model: ModelInfo) -> (resource: Resource)
    ensures
        resource@ == resource_of(model@),
{
    let mut uri = "model://".to_owned();
    uri.append(model.id.as_str());
    Resource {
        uri,
        name: model.name,
        description: Some(model.description),
        mime_type: Some("application/json".to_owned()),
    }
}

/// One resource for each model of the catalog, in the catalog's order.
pub fn list_resources() -> (list: ResourcesList)
    ensures
        views(list.resources@) == resources_of(catalog()),
        list.resources@.len() == catalog().len(),
{
    let models = ModelRegistry::get_all_models();
    let ghost all = views(models@);
    let mut resources: Vec<Resource> = Vec::new();
    for model in it: models
        invariant
            views(it.seq()) == all,
            views(resources@) == resources_of(all).take(it.index() as int),
    {
        let ghost before = views(resources@);
        assert(all[it.index() as int] == model@);
        resources.push(resource_for(model));
        assert(views(resources@) =~= before.push(resource_of(model@)));
        assert(views(resources@) =~= resources_of(all).take(it.index() + 1));
    }
    assert(views(resources@) =~= resources_of(all));
    ResourcesList { resources }
}

/// The document that describes `model`.
fn describe(model: ModelInfo) -> (j: Json)
    ensures
        j@ == model_document(model@),
{
    let mut b = ObjectBuilder::new();
    b.put("id", Json::String(model.id));
    b.put("name", Json::String(model.name));
    b.put("description", Json::String(model.description));
    b.put_str("category", model.category.as_str());
    b.put("baseCost", Json::unsigned(model.base_neurons as u64));
    b.put("inputSchema", model.input_schema);
    b.finish()
}

/// What reading `uri` gives: one content, the description of the model that
/// the address names. Every address that begins with the scheme can be
/// read, whatever follows; any other address gives `None`.
pub fn get_resource_content(uri: &str) -> (r: Option<ResourceContents>)
    ensures
        match r {
            Some(c) => resource_content(uri@) is Some && views(c.contents@) == seq![
                resource_content(uri@)->0,
            ],
            None => resource_content(uri@) is None,
        },
{
    match strip_prefix(uri, "model://") {
        Some(model_id) => {
            match ModelRegistry::get_model(model_id) {
                Some(model) => {
                    let text = describe(model).to_pretty_string();
                    let mut contents: Vec<ResourceContent> = Vec::new();
                    contents.push(
                        ResourceContent {
                            uri: uri.to_owned(),
                            mime_type: "application/json".to_owned(),
                            text,
                        },
                    );
                    assert(views(contents@) =~= seq![resource_content(uri@)->0]);
                    Some(ResourceContents { contents })
                },
                None => None,
            }
        },
        None => None,
    }
}

/// The address of a model names that model: every address made with
/// [`resource_uri`] can be read, whatever the identifier, and what is read
/// describes the descriptor that the identifier resolves to.
pub proof fn every_model_address_can_be_read(id: Seq<char>)
    ensures
        addressed(resource_uri(id)) == Some(id),
        resource_content(resource_uri(id)) == Some(
            ResourceContentView {
                uri: resource_uri(id),
                mime_type: mime_type(),
                text: rendered(model_document(resolved(id))),
            },
        ),
{
    let uri = resource_uri(id);
    assert(uri.subrange(0, scheme().len() as int) =~= scheme());
    assert(uri.subrange(scheme().len() as int, uri.len() as int) =~= id);
}

/// The document that describes a model holds the model's identifier under
/// `id`.
pub proof fn model_document_holds_the_identifier(m: ModelInfoView)
    ensures
        model_document(m).field("id"@) == Some(JsonValue::String(m.id)),
{
    reveal_strlit("id");
    reveal_strlit("name");
    reveal_strlit("description");
    reveal_strlit("category");
    reveal_strlit("baseCost");
    reveal_strlit("inputSchema");
    assert("id"@.len() == 2);
    assert("name"@.len() == 4);
    assert("description"@.len() == 11);
    assert("category"@.len() == 8);
    assert("baseCost"@.len() == 8);
    assert("inputSchema"@.len() == 11);
}

/// Each resource of the catalog has the address of its model, and can be
/// read back: what is read is the description of that very model, with the
/// model's identifier under `id`.
pub proof fn resources_can_be_read_back(i: int)
    requires
        0 <= i < catalog().len(),
    ensures
        resources_of(catalog()).len() == catalog().len(),
        resources_of(catalog())[i].uri == "model://"@ + catalog()[i].id,
        resource_content(resources_of(catalog())[i].uri) is Some,
        resource_content(resources_of(catalog())[i].uri)->0.text == rendered(
            model_document(catalog()[i]),
        ),
        model_document(catalog()[i]).field("id"@) == Some(JsonValue::String(catalog()[i].id)),
{
    every_model_address_can_be_read(catalog()[i].id);
    lemma_catalog_resolves_itself(i);
    model_document_holds_the_identifier(catalog()[i]);
}

} // verus!
