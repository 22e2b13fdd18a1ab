//! Builds the structural tags that guide, or forbid, tool calls.

use serde_json::Value;
use vstd::prelude::*;

use crate::chat::{
    find_tool, first_named, has_tool, ChatCompletionTool, ChatCompletionToolChoiceOption,
};
use crate::error::{BuildError, BuildErrorModel};
use crate::format::{
    texts, AnyTokensFormat, Format, FormatModel, StructuralTag, TagFormat, ToolCallFamily,
    ToolCallsFormat, ToolTag, ToolTagModel,
};
use crate::json::{bool_value, copy_value, json_bool};

verus! {

/// Controls whether tools get their real parameter schema or an unconstrained one inside
/// structural tags.
#[derive(Debug, Clone, Copy, PartialEq, Eq, Structural)]
pub enum StructuralTagSchemaMode {
    /// The real schema only for tools with `strict: true`; the others get the schema `true`,
    /// which every JSON value meets.
    Auto,
    /// The real schema for all tools, whatever their `strict` flag.
    Strict,
}

impl Default for StructuralTagSchemaMode {
    fn default() -> (mode: Self)
        ensures
            mode == StructuralTagSchemaMode::Auto,
    {
        StructuralTagSchemaMode::Auto
    }
}

/// What a request says about the tool-call tag to build.
#[derive(Debug, Clone, Copy)]
pub struct ToolCallFormatBuildContext<'a> {
    /// The tool choice of the request.
    pub tool_choice: &'a ChatCompletionToolChoiceOption,
    /// All tools of the request.
    pub tools: &'a [ChatCompletionTool],
    /// From the request; `Some(false)` sets `stop_after_first` in the tag.
    pub parallel_tool_calls: Option<bool>,
    /// How strict the schemas of the arguments are.
    pub schema_mode: StructuralTagSchemaMode,
    /// The prompt leaves the model inside a block of reasoning.
    pub starts_in_reasoning: bool,
}

/// The mathematical content of a [`ToolCallFormatBuildContext`].
pub struct ContextModel {
    /// The tool choice of the request.
    pub tool_choice: ChatCompletionToolChoiceOption,
    /// All tools of the request.
    pub tools: Seq<ChatCompletionTool>,
    /// Whether several calls may be made, where the request says so.
    pub parallel_tool_calls: Option<bool>,
    /// How strict the schemas of the arguments are.
    pub schema_mode: StructuralTagSchemaMode,
    /// The prompt leaves the model inside a block of reasoning.
    pub starts_in_reasoning: bool,
}

impl<'a> View for ToolCallFormatBuildContext<'a> {
    type V = ContextModel;

    open spec fn view(&self) -> ContextModel {
        ContextModel {
            tool_choice: *self.tool_choice,
            tools: self.tools@,
            parallel_tool_calls: self.parallel_tool_calls,
            schema_mode: self.schema_mode,
            starts_in_reasoning: self.starts_in_reasoning,
        }
    }
}

impl ContextModel {
    /// Parallel calls are switched off.
    pub open spec fn single_call(self) -> bool {
        self.parallel_tool_calls == Some(false)
    }

    /// Every tool keeps its own schema.
    pub open spec fn all_strict(self) -> bool {
        self.schema_mode == StructuralTagSchemaMode::Strict
    }

    /// The tools that the tool choice lets through, in the order of the request, and whether
    /// one of them has to be called.
    pub open spec fn included(self) -> Result<(Seq<ChatCompletionTool>, bool), BuildErrorModel> {
        match self.tool_choice {
            ChatCompletionToolChoiceOption::Forbidden => Ok((Seq::empty(), false)),
            ChatCompletionToolChoiceOption::Auto => Ok((self.tools, false)),
            ChatCompletionToolChoiceOption::Required => if self.tools.len() == 0 {
                Err(BuildErrorModel::RequiredWithoutTools)
            } else {
                Ok((self.tools, true))
            },
            ChatCompletionToolChoiceOption::Named(named) => {
                let name = named.function.name@;
                if has_tool(self.tools, name) {
                    Ok((seq![first_named(self.tools, name)], true))
                } else {
                    Err(BuildErrorModel::NamedToolMissing(name))
                }
            },
        }
    }
}

impl<'a> ToolCallFormatBuildContext<'a> {
    /// Whether to stop after the first tool-call tag.
    pub fn stop_after_first(&self) -> (stop: bool)
        ensures
            stop == self@.single_call(),
            stop <==> self.parallel_tool_calls == Some(false),
    {
        match self.parallel_tool_calls {
            Some(parallel) => !parallel,
            None => false,
        }
    }

    /// Whether all tools use the schema that the request gives them.
    pub fn strict_schema(&self) -> (strict: bool)
        ensures
            strict == self@.all_strict(),
            strict <==> self.schema_mode == StructuralTagSchemaMode::Strict,
    {
        self.schema_mode == StructuralTagSchemaMode::Strict
    }
}

/// The mathematical content of what [`resolve_tools_to_include`] returns.
pub open spec fn inclusion(
    result: Result<(Vec<&ChatCompletionTool>, bool), BuildError>,
) -> Result<(Seq<ChatCompletionTool>, bool), BuildErrorModel> {
    match result {
        Ok((tools, required)) => Ok((tools@.unref(), required)),
        Err(error) => Err(error@),
    }
}

/// References to all of `tools`, in order.
fn all_tools<'a>(tools: &'a [ChatCompletionTool]) -> (all: Vec<&'a ChatCompletionTool>)
    ensures
        all@.unref() == tools@,
{
    let mut all: Vec<&'a ChatCompletionTool> = Vec::new();
    let mut i: usize = 0;
    while i < tools.len()
        invariant
            i <= tools@.len(),
            all@.len() == i,
            forall|j: int| 0 <= j < i ==> *(#[trigger] all@[j]) == tools@[j],
        decreases tools@.len() - i,
    {
        all.push(&tools[i]);
        i += 1;
    }
    all
}

/// Selects the tools for the tool choice, and says whether at least one call is required.
pub fn resolve_tools_to_include<'a>(ctx: &ToolCallFormatBuildContext<'a>) -> (result: Result<
    (Vec<&'a ChatCompletionTool>, bool),
    BuildError,
>)
    ensures
        inclusion(result) == ctx@.included(),
{
    match ctx.tool_choice {
        ChatCompletionToolChoiceOption::Forbidden => {
            let none: Vec<&'a ChatCompletionTool> = Vec::new();
            assert(none@.unref() =~= Seq::empty());
            Ok((none, false))
        },
        ChatCompletionToolChoiceOption::Auto => Ok((all_tools(ctx.tools), false)),
        ChatCompletionToolChoiceOption::Required => {
            if ctx.tools.is_empty() {
                return Err(BuildError::RequiredWithoutTools);
            }
            Ok((all_tools(ctx.tools), true))
        },
        ChatCompletionToolChoiceOption::Named(named) => {
            match find_tool(ctx.tools, &named.function.name) {
                Some(tool) => {
                    let mut one: Vec<&'a ChatCompletionTool> = Vec::new();
                    one.push(tool);
                    assert(one@.unref() =~= seq![*tool]);
                    Ok((one, true))
                },
                None => Err(BuildError::NamedToolMissing(named.function.name.clone())),
            }
        },
    }
}

/// The schema that the arguments of a tool have to meet: its own where it is to be kept to and
/// there is one, else `true`, which every JSON value meets.
pub open spec fn argument_schema(tool: ChatCompletionTool, strict_schema: bool) -> Value {
    if strict_schema || tool.is_strict() {
        match tool.function.parameters {
            Some(parameters) => parameters,
            None => json_bool(true),
        }
    } else {
        json_bool(true)
    }
}

/// Resolves the argument schema of one tool.
pub fn resolve_tool_schema(tool: &ChatCompletionTool, strict_schema: bool) -> (schema: Value)
    ensures
        schema == argument_schema(*tool, strict_schema),
        schema == if tool.function.parameters is Some && (strict_schema || tool.function.strict
            == Some(true)) {
            tool.function.parameters->Some_0
        } else {
            json_bool(true)
        },
{
    let use_tool_schema: bool = strict_schema || tool.function.strict.unwrap_or(false);
    if use_tool_schema {
        match &tool.function.parameters {
            Some(parameters) => copy_value(parameters),
            None => bool_value(true),
        }
    } else {
        bool_value(true)
    }
}

/// What a call of `tool` has to look like.
pub open spec fn tool_tag(tool: ChatCompletionTool, strict_schema: bool) -> ToolTagModel {
    ToolTagModel { name: tool.function.name@, schema: argument_schema(tool, strict_schema) }
}

/// One [`ToolTag`] for each tool, in order.
fn tool_tags(tools: &Vec<&ChatCompletionTool>, strict_schema: bool) -> (tags: Vec<ToolTag>)
    ensures
        tags@.map_values(|t: ToolTag| t@) == tools@.unref().map_values(
            |t: ChatCompletionTool| tool_tag(t, strict_schema),
        ),
{
    let mut tags: Vec<ToolTag> = Vec::new();
    let mut i: usize = 0;
    while i < tools.len()
        invariant
            i <= tools@.len(),
            tags@.len() == i,
            forall|j: int| 0 <= j < i ==> (#[trigger] tags@[j])@ == tool_tag(*tools@[j], strict_schema),
        decreases tools@.len() - i,
    {
        let tool: &ChatCompletionTool = tools[i];
        tags.push(
            ToolTag {
                name: tool.function.name.clone(),
                schema: resolve_tool_schema(tool, strict_schema),
            },
        );
        i += 1;
    }
    assert(tags@.map_values(|t: ToolTag| t@) =~= tools@.unref().map_values(
        |t: ChatCompletionTool| tool_tag(t, strict_schema),
    ));
    tags
}

/// Settings of the format that has one triggered tag per tool.
#[derive(Debug, Clone)]
pub struct TriggeredTagsConfig {
    /// Tokens that never occur where tool calls are forbidden.
    pub tool_call_ban_tokens: Vec<String>,
}

/// Settings of DeepSeek's DSML format.
#[derive(Debug, Clone)]
pub struct DsmlToolCallsConfig {
    /// Tokens that never occur where tool calls are forbidden.
    pub tool_call_ban_tokens: Vec<String>,
}

/// Builds the tool-call tags of a model family.
#[derive(Debug, Clone)]
pub enum StructuralTagBuilder {
    /// One tag template per tool.
    TriggeredTags(TriggeredTagsConfig),
    /// DeepSeek DSML: a triggered wrapper and a list of invocations.
    DsmlToolCalls(DsmlToolCallsConfig),
}

/// The mathematical content of what [`StructuralTagBuilder::build_tool_call_format`] returns.
pub open spec fn build_outcome(
    result: Result<Option<StructuralTag>, BuildError>,
) -> Result<Option<FormatModel>, BuildErrorModel> {
    match result {
        Ok(Some(tag)) => Ok(Some(tag@)),
        Ok(None) => Ok(None),
        Err(error) => Err(error@),
    }
}

/// The format of a text that holds none of `tokens`.
pub open spec fn ban_format(tokens: Seq<Seq<char>>) -> FormatModel {
    FormatModel::Tag {
        begin: Seq::empty(),
        content: Box::new(FormatModel::AnyTokens { exclude_tokens: tokens }),
        end: Seq::empty(),
    }
}

impl StructuralTagBuilder {
    /// The markup that the builder writes.
    pub open spec fn family(self) -> ToolCallFamily {
        match self {
            StructuralTagBuilder::TriggeredTags(_) => ToolCallFamily::TriggeredTags,
            StructuralTagBuilder::DsmlToolCalls(_) => ToolCallFamily::DsmlToolCalls,
        }
    }

    /// The tokens that never occur where tool calls are forbidden.
    pub open spec fn banned(self) -> Seq<Seq<char>> {
        match self {
            StructuralTagBuilder::TriggeredTags(config) => texts(config.tool_call_ban_tokens@),
            StructuralTagBuilder::DsmlToolCalls(config) => texts(config.tool_call_ban_tokens@),
        }
    }

    /// The calls that the request lets through, once its tools are settled.
    pub open spec fn calls_of(
        self,
        ctx: ContextModel,
        tools: Seq<ChatCompletionTool>,
        required: bool,
    ) -> FormatModel {
        FormatModel::ToolCalls {
            family: self.family(),
            tags: tools.map_values(|t: ChatCompletionTool| tool_tag(t, ctx.all_strict())),
            at_least_one: required,
            stop_after_first: ctx.single_call(),
            starts_in_reasoning: ctx.starts_in_reasoning,
        }
    }

    /// The tool-call format of a request: one tag for each tool that the tool choice lets
    /// through, nothing where it lets none through, and an error where what it asks for is not
    /// there.
    pub open spec fn tool_call_format(self, ctx: ContextModel) -> Result<
        Option<FormatModel>,
        BuildErrorModel,
    > {
        match ctx.included() {
            Err(error) => Err(error),
            Ok((tools, required)) => if tools.len() == 0 {
                Ok(None)
            } else {
                Ok(Some(self.calls_of(ctx, tools, required)))
            },
        }
    }

    /// Builds the structural tag for a request.
    ///
    /// There is none for `tool_choice="none"` (see [`build_tool_call_ban`](Self::build_tool_call_ban)),
    /// nor for `tool_choice="auto"` without tools. It is an error to name a tool that is not
    /// there, or to require a call without tools.
    pub fn build_tool_call_format(&self, ctx: &ToolCallFormatBuildContext<'_>) -> (result: Result<
        Option<StructuralTag>,
        BuildError,
    >)
        ensures
            build_outcome(result) == self.tool_call_format(ctx@),
            result is Ok && result->Ok_0 is None <==> {
                ||| *ctx.tool_choice is Forbidden
                ||| *ctx.tool_choice is Auto && ctx.tools@.len() == 0
            },
            result is Err <==> {
                ||| *ctx.tool_choice is Required && ctx.tools@.len() == 0
                ||| *ctx.tool_choice matches ChatCompletionToolChoiceOption::Named(named)
                    && !has_tool(ctx.tools@, named.function.name@)
            },
            result matches Ok(Some(tag)) ==> {
                &&& tag.format is ToolCalls
                &&& tag.format->ToolCalls_0.family == ToolCallFamily::DsmlToolCalls
                    <==> self is DsmlToolCalls
                &&& tag.format->ToolCalls_0.family == ToolCallFamily::TriggeredTags
                    <==> self is TriggeredTags
                &&& tag.format->ToolCalls_0.at_least_one <==> *ctx.tool_choice is Required
                    || *ctx.tool_choice is Named
                &&& tag.format->ToolCalls_0.stop_after_first <==> ctx.parallel_tool_calls == Some(
                    false,
                )
                &&& tag.format->ToolCalls_0.starts_in_reasoning <==> ctx.starts_in_reasoning
            },
    {
        let (tools, required) = match resolve_tools_to_include(ctx) {
            Ok(included) => included,
            Err(error) => {
                return Err(error);
            },
        };
        if tools.is_empty() {
            return Ok(None);
        }
        let family: ToolCallFamily = match self {
            StructuralTagBuilder::TriggeredTags(_) => ToolCallFamily::TriggeredTags,
            StructuralTagBuilder::DsmlToolCalls(_) => ToolCallFamily::DsmlToolCalls,
        };
        let calls = ToolCallsFormat {
            family,
            tags: tool_tags(&tools, ctx.strict_schema()),
            at_least_one: required,
            stop_after_first: ctx.stop_after_first(),
            starts_in_reasoning: ctx.starts_in_reasoning,
        };
        Ok(Some(StructuralTag { format: Format::ToolCalls(calls) }))
    }

    /// Builds a structural tag that keeps the model from calling tools, for
    /// `tool_choice="none"`. There is none where no tokens are banned.
    pub fn build_tool_call_ban(&self) -> (result: Option<StructuralTag>)
        ensures
            result is None <==> self.banned().len() == 0,
            result matches Some(tag) ==> tag@ == ban_format(self.banned()),
            result is None <==> match *self {
                StructuralTagBuilder::TriggeredTags(config) => config.tool_call_ban_tokens@.len()
                    == 0,
                StructuralTagBuilder::DsmlToolCalls(config) => config.tool_call_ban_tokens@.len()
                    == 0,
            },
            result matches Some(tag) ==> {
                &&& tag.format is Tag
                &&& tag.format->Tag_0.begin@.len() == 0
                &&& tag.format->Tag_0.end@.len() == 0
                &&& *tag.format->Tag_0.content is AnyTokens
                &&& (*tag.format->Tag_0.content)->AnyTokens_0.exclude_tokens@ == match *self {
                    StructuralTagBuilder::TriggeredTags(config) => config.tool_call_ban_tokens@,
                    StructuralTagBuilder::DsmlToolCalls(config) => config.tool_call_ban_tokens@,
                }
            },
    {
        let tokens = self.ban_tokens();
        if tokens.is_empty() {
            return None;
        }
        let mut exclude_tokens: Vec<String> = Vec::new();
        let mut i: usize = 0;
        while i < tokens.len()
            invariant
                i <= tokens@.len(),
                exclude_tokens@ =~= tokens@.take(i as int),
            decreases tokens@.len() - i,
        {
            exclude_tokens.push(tokens[i].clone());
            i += 1;
        }
        assert(exclude_tokens@ =~= tokens@);
        let content = Format::AnyTokens(AnyTokensFormat { exclude_tokens });
        let tag = StructuralTag {
            format: Format::Tag(
                TagFormat { begin: String::new(), content: Box::new(content), end: String::new() },
            ),
        };
        proof {
            reveal_with_fuel(Format::model, 2);
        }
        Some(tag)
    }

    /// The tokens to ban for `tool_choice="none"`.
    pub fn ban_tokens(&self) -> (tokens: &[String])
        ensures
            texts(tokens@) == self.banned(),
            tokens@ == match *self {
                StructuralTagBuilder::TriggeredTags(config) => config.tool_call_ban_tokens@,
                StructuralTagBuilder::DsmlToolCalls(config) => config.tool_call_ban_tokens@,
            },
    {
        match self {
            StructuralTagBuilder::TriggeredTags(config) => config.tool_call_ban_tokens.as_slice(),
            StructuralTagBuilder::DsmlToolCalls(config) => config.tool_call_ban_tokens.as_slice(),
        }
    }
}

} // verus!
