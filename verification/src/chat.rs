//! The part of a chat completion request that tool calling looks at.

use serde_json::Value;
use vstd::prelude::*;

verus! {

/// What a tool is called and which arguments it takes.
#[derive(Debug)]
pub struct FunctionObject {
    /// The name by which the model calls the tool.
    pub name: String,
    /// The JSON schema of the arguments.
    pub parameters: Option<Value>,
    /// Whether the model has to keep to the schema.
    pub strict: Option<bool>,
}

/// A tool that the request offers to the model.
#[derive(Debug)]
pub struct ChatCompletionTool {
    /// The function behind the tool.
    pub function: FunctionObject,
}

impl ChatCompletionTool {
    /// The tool is marked `strict: true`.
    pub open spec fn is_strict(self) -> bool {
        self.function.strict == Some(true)
    }
}

/// The function that a named tool choice asks for.
#[derive(Debug)]
pub struct FunctionName {
    /// The name of the function.
    pub name: String,
}

/// A tool choice that asks for one tool by name.
#[derive(Debug)]
pub struct ChatCompletionNamedToolChoice {
    /// The function asked for.
    pub function: FunctionName,
}

/// Which tools the model may or has to call.
#[derive(Debug)]
pub enum ChatCompletionToolChoiceOption {
    /// No tool may be called: `tool_choice="none"`.
    Forbidden,
    /// The model decides: `tool_choice="auto"`.
    Auto,
    /// At least one tool has to be called: `tool_choice="required"`.
    Required,
    /// This tool has to be called.
    Named(ChatCompletionNamedToolChoice),
}

/// Some tool has this name.
pub open spec fn has_tool(tools: Seq<ChatCompletionTool>, name: Seq<char>) -> bool {
    exists|i: int| 0 <= i < tools.len() && (#[trigger] tools[i]).function.name@ == name
}

/// The tool at `i` has this name, and none before it has.
pub open spec fn is_first_named(tools: Seq<ChatCompletionTool>, name: Seq<char>, i: int) -> bool {
    &&& 0 <= i < tools.len()
    &&& tools[i].function.name@ == name
    &&& forall|j: int| 0 <= j < i ==> (#[trigger] tools[j]).function.name@ != name
}

/// The first tool of this name, where there is one.
pub open spec fn first_named(tools: Seq<ChatCompletionTool>, name: Seq<char>) -> ChatCompletionTool {
    tools[choose|i: int| is_first_named(tools, name, i)]
}

/// Some tool is marked `strict: true`.
pub open spec fn has_strict_tool(tools: Seq<ChatCompletionTool>) -> bool {
    exists|i: int| 0 <= i < tools.len() && (#[trigger] tools[i]).is_strict()
}

/// Finds the first tool of the given name.
pub fn find_tool<'a>(tools: &'a [ChatCompletionTool], name: &String) -> (found: Option<
    &'a ChatCompletionTool,
>)
    ensures
        found is Some <==> has_tool(tools@, name@),
        found matches Some(tool) ==> *tool == first_named(tools@, name@),
        found is None <==> forall|i: int|
            0 <= i < tools@.len() ==> (#[trigger] tools@[i]).function.name@ != name@,
        found matches Some(tool) ==> exists|k: int|
            {
                &&& 0 <= k < tools@.len()
                &&& *tool == #[trigger] tools@[k]
                &&& tools@[k].function.name@ == name@
                &&& forall|j: int| 0 <= j < k ==> (#[trigger] tools@[j]).function.name@ != name@
            },
{
    let mut i: usize = 0;
    while i < tools.len()
        invariant
            i <= tools@.len(),
            forall|j: int| 0 <= j < i ==> (#[trigger] tools@[j]).function.name@ != name@,
        decreases tools@.len() - i,
    {
        if tools[i].function.name == *name {
            assert(is_first_named(tools@, name@, i as int));
            return Some(&tools[i]);
        }
        i += 1;
    }
    None
}

/// Whether some tool is marked `strict: true`.
pub fn any_strict(tools: &[ChatCompletionTool]) -> (found: bool)
    ensures
        found == has_strict_tool(tools@),
        found <==> exists|i: int|
            0 <= i < tools@.len() && (#[trigger] tools@[i]).function.strict == Some(true),
{
    let mut i: usize = 0;
    while i < tools.len()
        invariant
            i <= tools@.len(),
            forall|j: int| 0 <= j < i ==> !(#[trigger] tools@[j]).is_strict(),
        decreases tools@.len() - i,
    {
        if tools[i].function.strict.unwrap_or(false) {
            return true;
        }
        i += 1;
    }
    false
}

} // verus!
