//! The catalog seen as tools, and the outcome of a tool call.

use crate::ai::models::{catalog, ModelInfo, ModelInfoView, ModelRegistry};
use crate::json::{rendered, Json, JsonValue};
use crate::mcp::protocol::{
    ContentBlock, ContentBlockView, Tool, ToolResult, ToolResultView, ToolView, ToolsList,
};
use crate::views::views;
use vstd::prelude::*;
use vstd::string::StringExecFns;

verus! {

/// The tool that stands for a model: named by the model's identifier,
/// described by its name and description, with its schema as it is.
pub open spec fn tool_of(m: ModelInfoView) -> ToolView {
    ToolView {
        name: m.id,
        description: m.name + " - "@ + m.description,
        input_schema: m.input_schema,
    }
}

/// The tools that stand for `models`, one for each and in their order.
pub open spec fn tools_of(models: Seq<ModelInfoView>) -> Seq<ToolView> {
    Seq::new(models.len(), |i: int| tool_of(models[i]))
}

/// The tool that stands for `model`.
fn tool_for(model: ModelInfo) -> (tool: Tool)
    ensures
        tool@ == tool_of(model@),
{
    let mut description = model.name;
    description.append(" - ");
    description.append(model.description.as_str());
    Tool { name: model.id, description, input_schema: model.input_schema }
}

/// One tool for each model of the catalog, in the catalog's order.
pub fn list_tools() -> (list: ToolsList)
    ensures
        views(list.tools@) == tools_of(catalog()),
        list.tools@.len() == catalog().len(),
{
    let models = ModelRegistry::get_all_models();
    let ghost all = views(models@);
    let mut tools: Vec<Tool> = Vec::new();
    for model in it: models
        invariant
            views(it.seq()) == all,
            views(tools@) == tools_of(all).take(it.index() as int),
    {
        let ghost before = views(tools@);
        assert(all[it.index() as int] == model@);
        tools.push(tool_for(model));
        assert(views(tools@) =~= before.push(tool_of(model@)));
        assert(views(tools@) =~= tools_of(all).take(it.index() + 1));
    }
    assert(views(tools@) =~= tools_of(all));
    ToolsList { tools }
}

/// The outcome that a tool call with `result` has. Of an error, the text is
/// the result where that is a string, and a fixed notice otherwise; of a
/// success, it is the result written out.
pub open spec fn tool_result(result: JsonValue, is_error: bool) -> ToolResultView {
    ToolResultView {
        content: seq![
            ContentBlockView::Text {
                text: if is_error {
                    match result.text() {
                        Some(s) => s,
                        None => "Unknown error"@,
                    }
                } else {
                    rendered(result)
                },
            },
        ],
        is_error: if is_error {
            Some(true)
        } else {
            None
        },
    }
}

/// Wraps the result of a tool call as one block of text.
pub fn create_tool_result(result: Json, is_error: bool) -> (r: ToolResult)
    ensures
        r@ == tool_result(result@, is_error),
{
    let text = if is_error {
        match result.as_str() {
            Some(s) => s.to_owned(),
            None => "Unknown error".to_owned(),
        }
    } else {
        result.to_pretty_string()
    };
    let mut content: Vec<ContentBlock> = Vec::new();
    content.push(ContentBlock::Text { text });
    let r = ToolResult {
        content,
        is_error: if is_error {
            Some(true)
        } else {
            None
        },
    };
    assert(r@.content =~= tool_result(result@, is_error).content);
    r
}

/// The tools stand one for one for the models of the catalog: there are as
/// many, twelve, and each is named by the identifier of the model at its
/// place.
pub proof fn tools_mirror_the_catalog()
    ensures
        tools_of(catalog()).len() == catalog().len(),
        catalog().len() == 12,
        forall|i: int|
            0 <= i < catalog().len() ==> (#[trigger] tools_of(catalog())[i]).name
                == catalog()[i].id,
{
}

} // verus!
