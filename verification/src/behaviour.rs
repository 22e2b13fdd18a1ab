//! What each operation does, in terms of its arguments and results alone.
//!
//! The other modules state their contracts over models: views, formats, decisions. Here the same
//! is said of the plain values that go in and come out, so that a model which left something
//! out, or said something else, would be found out.

use serde_json::Value;
use vstd::prelude::*;

use crate::builder::{
    argument_schema, ban_format, build_outcome, inclusion, ContextModel, StructuralTagBuilder,
    StructuralTagSchemaMode, ToolCallFormatBuildContext,
};
use crate::chat::{
    first_named, has_strict_tool, has_tool, is_first_named, ChatCompletionTool,
    ChatCompletionToolChoiceOption,
};
use crate::config::{StructuralTagMode, StructuralTagScope};
use crate::error::{BuildError, BuildErrorModel, DynamoError, ErrorType};
use crate::format::{texts, Format, StructuralTag, ToolCallFamily, ToolTag};
use crate::json::json_bool;
use crate::laws::first_named_is_offered;
use crate::preprocessor::{
    ban_failure_text, ban_outcome, format_failure_text, format_outcome, guides_calls, refusal,
    settled, OpenAIPreprocessor, StructuralTagApplyResult,
};
use crate::request::{GuidedDecodingOptions, NvCreateChatCompletionRequest, PreprocessedRequest};

verus! {

/// A tool of some name is found exactly where the list holds one, and of several it is the one
/// that stands first.
pub proof fn found_tool_is_the_first_of_its_name(tools: Seq<ChatCompletionTool>, name: Seq<char>)
    ensures
        has_tool(tools, name) <==> exists|i: int|
            0 <= i < tools.len() && (#[trigger] tools[i]).function.name@ == name,
        has_tool(tools, name) ==> exists|k: int|
            {
                &&& 0 <= k < tools.len()
                &&& first_named(tools, name) == #[trigger] tools[k]
                &&& tools[k].function.name@ == name
                &&& forall|j: int| 0 <= j < k ==> (#[trigger] tools[j]).function.name@ != name
            },
{
    if has_tool(tools, name) {
        first_named_is_offered(tools, name);
        let k = choose|k: int| #[trigger]
            is_first_named(tools, name, k) && first_named(tools, name) == tools[k];
        assert(first_named(tools, name) == tools[k]);
    }
}

/// With `tool_choice="auto"` in the narrow scope a request is guided exactly where a tool at any
/// position is marked `strict: true`, or parallel calls are switched off. In the wide scope it
/// is always guided. Forced calls are guided in both scopes, forbidden ones in neither.
pub proof fn strict_tools_and_single_calls_are_guided(
    scope: StructuralTagScope,
    tool_choice: ChatCompletionToolChoiceOption,
    tools: Seq<ChatCompletionTool>,
    parallel_tool_calls: Option<bool>,
)
    ensures
        tool_choice is Auto && scope is Always ==> guides_calls(
            scope,
            tool_choice,
            tools,
            parallel_tool_calls,
        ),
        tool_choice is Auto && scope is Auto ==> (guides_calls(
            scope,
            tool_choice,
            tools,
            parallel_tool_calls,
        ) <==> {
            ||| parallel_tool_calls == Some(false)
            ||| exists|i: int|
                0 <= i < tools.len() && (#[trigger] tools[i]).function.strict == Some(true)
        }),
        tool_choice is Required || tool_choice is Named ==> guides_calls(
            scope,
            tool_choice,
            tools,
            parallel_tool_calls,
        ),
        tool_choice is Forbidden ==> !guides_calls(scope, tool_choice, tools, parallel_tool_calls),
{
    if tool_choice is Auto && scope is Auto && has_strict_tool(tools) {
        let i = choose|i: int| 0 <= i < tools.len() && (#[trigger] tools[i]).is_strict();
        assert(tools[i].function.strict == Some(true));
    }
    if exists|i: int| 0 <= i < tools.len() && (#[trigger] tools[i]).function.strict == Some(true) {
        let i = choose|i: int|
            0 <= i < tools.len() && (#[trigger] tools[i]).function.strict == Some(true);
        assert(tools[i].is_strict());
    }
}

/// Whether a request is guided does not depend on the order of its tools, nor on how often one
/// of them is listed.
pub proof fn guidance_ignores_the_order_of_tools(
    scope: StructuralTagScope,
    tool_choice: ChatCompletionToolChoiceOption,
    left: Seq<ChatCompletionTool>,
    right: Seq<ChatCompletionTool>,
    parallel_tool_calls: Option<bool>,
)
    requires
        forall|t: ChatCompletionTool| left.contains(t) <==> right.contains(t),
    ensures
        guides_calls(scope, tool_choice, left, parallel_tool_calls) == guides_calls(
            scope,
            tool_choice,
            right,
            parallel_tool_calls,
        ),
{
    if has_strict_tool(left) {
        let i = choose|i: int| 0 <= i < left.len() && (#[trigger] left[i]).is_strict();
        assert(left.contains(left[i]));
        let j = choose|j: int| 0 <= j < right.len() && right[j] == left[i];
        assert(right[j].is_strict());
    }
    if has_strict_tool(right) {
        let i = choose|i: int| 0 <= i < right.len() && (#[trigger] right[i]).is_strict();
        assert(right.contains(right[i]));
        let j = choose|j: int| 0 <= j < left.len() && left[j] == right[i];
        assert(left[j].is_strict());
    }
}

/// More tools, or a call for a single tool call, never take guidance away.
pub proof fn guidance_grows_with_the_tools(
    scope: StructuralTagScope,
    tool_choice: ChatCompletionToolChoiceOption,
    tools: Seq<ChatCompletionTool>,
    more: Seq<ChatCompletionTool>,
    parallel_tool_calls: Option<bool>,
)
    requires
        guides_calls(scope, tool_choice, tools, parallel_tool_calls),
    ensures
        guides_calls(scope, tool_choice, tools + more, parallel_tool_calls),
        guides_calls(scope, tool_choice, more + tools, parallel_tool_calls),
        guides_calls(scope, tool_choice, tools, Some(false)),
{
    if has_strict_tool(tools) {
        let i = choose|i: int| 0 <= i < tools.len() && (#[trigger] tools[i]).is_strict();
        assert((tools + more)[i].is_strict());
        assert((more + tools)[more.len() + i].is_strict());
    }
}

/// A choice that forces a call is refused for want of the tools it needs, and then for a
/// constraint of the user's own, each with a text of its own. No other choice is refused.
pub proof fn refusals_and_their_texts(
    tool_choice: ChatCompletionToolChoiceOption,
    tools: Seq<ChatCompletionTool>,
    constrained: bool,
)
    ensures
        refusal(tool_choice, tools, constrained) == match tool_choice {
            ChatCompletionToolChoiceOption::Forbidden => None::<Seq<char>>,
            ChatCompletionToolChoiceOption::Auto => None,
            ChatCompletionToolChoiceOption::Required => if tools.len() == 0 {
                Some("tool_choice is \"required\" but tools is empty"@)
            } else if constrained {
                Some(
                    "response_format cannot be used in the same request as tool_choice=\"required\" or a named tool_choice."@,
                )
            } else {
                None
            },
            ChatCompletionToolChoiceOption::Named(named) => if forall|i: int|
                0 <= i < tools.len() ==> (#[trigger] tools[i]).function.name@
                    != named.function.name@ {
                Some(
                    "tool named \""@ + named.function.name@
                        + "\" in tool_choice is not present in tools"@,
                )
            } else if constrained {
                Some(
                    "response_format cannot be used in the same request as tool_choice=\"required\" or a named tool_choice."@,
                )
            } else {
                None
            },
        },
{
}

/// A tool that has to be kept to, by the mode or by its own flag, keeps the schema that the
/// request gives; a tool without one, or that need not be kept to, gets the schema `true`.
pub proof fn schema_of_one_tool(tool: ChatCompletionTool, strict_schema: bool)
    ensures
        strict_schema || tool.function.strict == Some(true) ==> match tool.function.parameters {
            Some(parameters) => argument_schema(tool, strict_schema) == parameters,
            None => argument_schema(tool, strict_schema) == json_bool(true),
        },
        !strict_schema && tool.function.strict != Some(true) ==> argument_schema(
            tool,
            strict_schema,
        ) == json_bool(true),
{
}

/// `resolve_tools_to_include` gives all tools in order for `auto` and `required`, the first of
/// the name for a named choice, and none for `none`. A call is required exactly for `required`
/// and a named choice. It fails exactly where there are no tools to require, or none of the name.
pub proof fn included_tools(
    ctx: ToolCallFormatBuildContext,
    result: Result<(Vec<&ChatCompletionTool>, bool), BuildError>,
)
    requires
        inclusion(result) == ctx@.included(),
    ensures
        match *ctx.tool_choice {
            ChatCompletionToolChoiceOption::Forbidden => {
                &&& result is Ok
                &&& result->Ok_0.0@.len() == 0
                &&& !result->Ok_0.1
            },
            ChatCompletionToolChoiceOption::Auto => {
                &&& result is Ok
                &&& result->Ok_0.0@.len() == ctx.tools@.len()
                &&& forall|i: int|
                    0 <= i < ctx.tools@.len() ==> *(#[trigger] result->Ok_0.0@[i]) == ctx.tools@[i]
                &&& !result->Ok_0.1
            },
            ChatCompletionToolChoiceOption::Required => if ctx.tools@.len() == 0 {
                result is Err && result->Err_0 is RequiredWithoutTools
            } else {
                &&& result is Ok
                &&& result->Ok_0.0@.len() == ctx.tools@.len()
                &&& forall|i: int|
                    0 <= i < ctx.tools@.len() ==> *(#[trigger] result->Ok_0.0@[i]) == ctx.tools@[i]
                &&& result->Ok_0.1
            },
            ChatCompletionToolChoiceOption::Named(named) => if forall|i: int|
                0 <= i < ctx.tools@.len() ==> (#[trigger] ctx.tools@[i]).function.name@
                    != named.function.name@ {
                &&& result is Err
                &&& result->Err_0 is NamedToolMissing
                &&& result->Err_0->NamedToolMissing_0@ == named.function.name@
            } else {
                &&& result is Ok
                &&& result->Ok_0.0@.len() == 1
                &&& result->Ok_0.1
                &&& exists|k: int|
                    {
                        &&& 0 <= k < ctx.tools@.len()
                        &&& *result->Ok_0.0@[0] == #[trigger] ctx.tools@[k]
                        &&& ctx.tools@[k].function.name@ == named.function.name@
                        &&& forall|j: int|
                            0 <= j < k ==> (#[trigger] ctx.tools@[j]).function.name@
                                != named.function.name@
                    }
            },
        },
{
    if result is Ok {
        let included = result->Ok_0.0@;
        assert forall|i: int| 0 <= i < included.len() implies *(#[trigger] included[i])
            == included.unref()[i] by {}
        assert(included.unref().len() == included.len());
        if *ctx.tool_choice is Named {
            let name = (*ctx.tool_choice)->Named_0.function.name@;
            found_tool_is_the_first_of_its_name(ctx.tools@, name);
            assert(*included[0] == first_named(ctx.tools@, name));
        }
    }
}

/// A tool-call tag is in the DSML markup exactly where its builder is a DSML builder, and in
/// that of triggered tags exactly where it is a builder of those, whatever their settings.
pub proof fn tag_is_in_the_markup_of_its_builder(
    builder: StructuralTagBuilder,
    ctx: ToolCallFormatBuildContext,
    result: Result<Option<StructuralTag>, BuildError>,
)
    requires
        build_outcome(result) == builder.tool_call_format(ctx@),
        result is Ok && result->Ok_0 is Some,
    ensures
        result->Ok_0->Some_0.format is ToolCalls,
        result->Ok_0->Some_0.format->ToolCalls_0.family == ToolCallFamily::DsmlToolCalls
            <==> builder is DsmlToolCalls,
        result->Ok_0->Some_0.format->ToolCalls_0.family == ToolCallFamily::TriggeredTags
            <==> builder is TriggeredTags,
{
}

/// Two builders of the same kind build the same tags, whatever tokens they ban.
pub proof fn ban_tokens_do_not_change_tool_calls(
    left: StructuralTagBuilder,
    right: StructuralTagBuilder,
    ctx: ToolCallFormatBuildContext,
)
    requires
        left is DsmlToolCalls <==> right is DsmlToolCalls,
    ensures
        left.tool_call_format(ctx@) == right.tool_call_format(ctx@),
{
}

/// A tool-call tag asks for a call exactly where the tool choice is `required` or names a tool,
/// and ends at the first call exactly where parallel calls are switched off. It says whether the
/// model starts out in reasoning as the request does.
pub proof fn tag_has_the_wishes_of_the_request(
    builder: StructuralTagBuilder,
    ctx: ToolCallFormatBuildContext,
    result: Result<Option<StructuralTag>, BuildError>,
)
    requires
        build_outcome(result) == builder.tool_call_format(ctx@),
        result is Ok && result->Ok_0 is Some,
    ensures
        result->Ok_0->Some_0.format is ToolCalls,
        result->Ok_0->Some_0.format->ToolCalls_0.at_least_one <==> {
            ||| *ctx.tool_choice is Required
            ||| *ctx.tool_choice is Named
        },
        result->Ok_0->Some_0.format->ToolCalls_0.stop_after_first <==> ctx.parallel_tool_calls
            == Some(false),
        result->Ok_0->Some_0.format->ToolCalls_0.starts_in_reasoning <==> ctx.starts_in_reasoning,
{
}

/// What a tag says of all tools, once its model is taken apart.
proof fn plain_tags_of_all_tools(
    builder: StructuralTagBuilder,
    ctx: ContextModel,
    tag: StructuralTag,
)
    requires
        builder.tool_call_format(ctx) == Ok::<_, BuildErrorModel>(Some(tag@)),
        ctx.tool_choice is Auto || ctx.tool_choice is Required,
    ensures
        tag.format is ToolCalls,
        tag.format->ToolCalls_0.tags@.len() == ctx.tools.len(),
        forall|i: int|
            #![trigger tag.format->ToolCalls_0.tags@[i]]
            #![trigger ctx.tools[i]]
            0 <= i < ctx.tools.len() ==> {
                let tool_tag = tag.format->ToolCalls_0.tags@[i];
                let function = ctx.tools[i].function;
                &&& tool_tag.name@ == function.name@
                &&& function.parameters is None ==> tool_tag.schema == json_bool(true)
                &&& function.parameters is Some ==> match ctx.schema_mode {
                    StructuralTagSchemaMode::Strict => tool_tag.schema == function.parameters->Some_0,
                    StructuralTagSchemaMode::Auto => if function.strict == Some(true) {
                        tool_tag.schema == function.parameters->Some_0
                    } else {
                        tool_tag.schema == json_bool(true)
                    },
                }
            },
{
    let tags = tag.format->ToolCalls_0.tags@;
    let models = tags.map_values(|t: ToolTag| t@);
    assert(models.len() == tags.len());
    assert forall|i: int|
        #![trigger tags[i]]
        #![trigger ctx.tools[i]]
        0 <= i < ctx.tools.len() implies tags[i].name@ == ctx.tools[i].function.name@
        && tags[i].schema == argument_schema(ctx.tools[i], ctx.all_strict()) by {
        assert(models[i] == tags[i]@);
    }
}

/// What a tag says of a named tool, once its model is taken apart.
proof fn plain_tag_of_a_named_tool(
    builder: StructuralTagBuilder,
    ctx: ContextModel,
    tag: StructuralTag,
)
    requires
        builder.tool_call_format(ctx) == Ok::<_, BuildErrorModel>(Some(tag@)),
        ctx.tool_choice is Named,
    ensures
        tag.format is ToolCalls,
        tag.format->ToolCalls_0.tags@.len() == 1,
        exists|k: int|
            #![trigger ctx.tools[k]]
            {
                let tool_tag = tag.format->ToolCalls_0.tags@[0];
                let name = ctx.tool_choice->Named_0.function.name@;
                let function = ctx.tools[k].function;
                &&& 0 <= k < ctx.tools.len()
                &&& function.name@ == name
                &&& forall|j: int| 0 <= j < k ==> (#[trigger] ctx.tools[j]).function.name@ != name
                &&& tool_tag.name@ == name
                &&& function.parameters is None ==> tool_tag.schema == json_bool(true)
                &&& function.parameters is Some ==> match ctx.schema_mode {
                    StructuralTagSchemaMode::Strict => tool_tag.schema == function.parameters->Some_0,
                    StructuralTagSchemaMode::Auto => if function.strict == Some(true) {
                        tool_tag.schema == function.parameters->Some_0
                    } else {
                        tool_tag.schema == json_bool(true)
                    },
                }
            },
{
    let name = ctx.tool_choice->Named_0.function.name@;
    let tags = tag.format->ToolCalls_0.tags@;
    let models = tags.map_values(|t: ToolTag| t@);
    found_tool_is_the_first_of_its_name(ctx.tools, name);
    let k = choose|k: int|
        {
            &&& 0 <= k < ctx.tools.len()
            &&& first_named(ctx.tools, name) == #[trigger] ctx.tools[k]
            &&& ctx.tools[k].function.name@ == name
            &&& forall|j: int| 0 <= j < k ==> (#[trigger] ctx.tools[j]).function.name@ != name
        };
    assert(models.len() == tags.len());
    assert(models[0] == tags[0]@);
    assert(tags[0].schema == argument_schema(ctx.tools[k], ctx.all_strict()));
}

/// With `auto` and `required` there is a tag for each tool, in order and under its name. Its
/// schema is the tool's own, where there is one, in the mode `Strict` or for a tool marked
/// `strict: true`, and otherwise the schema `true`.
pub proof fn tags_of_all_tools(
    builder: StructuralTagBuilder,
    ctx: ToolCallFormatBuildContext,
    result: Result<Option<StructuralTag>, BuildError>,
)
    requires
        build_outcome(result) == builder.tool_call_format(ctx@),
        result is Ok && result->Ok_0 is Some,
        *ctx.tool_choice is Auto || *ctx.tool_choice is Required,
    ensures
        result->Ok_0->Some_0.format is ToolCalls,
        result->Ok_0->Some_0.format->ToolCalls_0.tags@.len() == ctx.tools@.len(),
        forall|i: int|
            #![trigger result->Ok_0->Some_0.format->ToolCalls_0.tags@[i]]
            #![trigger ctx.tools@[i]]
            0 <= i < ctx.tools@.len() ==> {
                let tag = result->Ok_0->Some_0.format->ToolCalls_0.tags@[i];
                let function = ctx.tools@[i].function;
                &&& tag.name@ == function.name@
                &&& function.parameters is None ==> tag.schema == json_bool(true)
                &&& function.parameters is Some ==> match ctx.schema_mode {
                    StructuralTagSchemaMode::Strict => tag.schema == function.parameters->Some_0,
                    StructuralTagSchemaMode::Auto => if function.strict == Some(true) {
                        tag.schema == function.parameters->Some_0
                    } else {
                        tag.schema == json_bool(true)
                    },
                }
            },
{
    plain_tags_of_all_tools(builder, ctx@, result->Ok_0->Some_0);
}

/// With a named choice there is one tag, for the first tool of the name. Its schema is the tool's
/// own, where there is one, in the mode `Strict` or for a tool marked `strict: true`, and
/// otherwise the schema `true`.
pub proof fn tag_of_a_named_tool(
    builder: StructuralTagBuilder,
    ctx: ToolCallFormatBuildContext,
    result: Result<Option<StructuralTag>, BuildError>,
)
    requires
        build_outcome(result) == builder.tool_call_format(ctx@),
        result is Ok && result->Ok_0 is Some,
        *ctx.tool_choice is Named,
    ensures
        result->Ok_0->Some_0.format is ToolCalls,
        result->Ok_0->Some_0.format->ToolCalls_0.tags@.len() == 1,
        exists|k: int|
            #![trigger ctx.tools@[k]]
            {
                let tag = result->Ok_0->Some_0.format->ToolCalls_0.tags@[0];
                let name = (*ctx.tool_choice)->Named_0.function.name@;
                let function = ctx.tools@[k].function;
                &&& 0 <= k < ctx.tools@.len()
                &&& function.name@ == name
                &&& forall|j: int| 0 <= j < k ==> (#[trigger] ctx.tools@[j]).function.name@ != name
                &&& tag.name@ == name
                &&& function.parameters is None ==> tag.schema == json_bool(true)
                &&& function.parameters is Some ==> match ctx.schema_mode {
                    StructuralTagSchemaMode::Strict => tag.schema == function.parameters->Some_0,
                    StructuralTagSchemaMode::Auto => if function.strict == Some(true) {
                        tag.schema == function.parameters->Some_0
                    } else {
                        tag.schema == json_bool(true)
                    },
                }
            },
{
    plain_tag_of_a_named_tool(builder, ctx@, result->Ok_0->Some_0);
}

/// There is no tag exactly for `none`, and for `auto` without tools. The error is that a call is
/// required without tools exactly for `required` without tools, and that a tool is missing
/// exactly for a named choice of which there is no tool, with the name that was asked for.
pub proof fn where_no_tag_is_built(
    builder: StructuralTagBuilder,
    ctx: ToolCallFormatBuildContext,
    result: Result<Option<StructuralTag>, BuildError>,
)
    requires
        build_outcome(result) == builder.tool_call_format(ctx@),
    ensures
        result is Ok && result->Ok_0 is None <==> {
            ||| *ctx.tool_choice is Forbidden
            ||| *ctx.tool_choice is Auto && ctx.tools@.len() == 0
        },
        result is Err && result->Err_0 is RequiredWithoutTools <==> *ctx.tool_choice is Required
            && ctx.tools@.len() == 0,
        result is Err && result->Err_0 is NamedToolMissing <==> *ctx.tool_choice is Named && forall|
            i: int,
        |
            0 <= i < ctx.tools@.len() ==> (#[trigger] ctx.tools@[i]).function.name@
                != (*ctx.tool_choice)->Named_0.function.name@,
        result is Err && result->Err_0 is NamedToolMissing ==> result->Err_0->NamedToolMissing_0@
            == (*ctx.tool_choice)->Named_0.function.name@,
{
}

/// The tag that forbids tool calls forces no text: it begins and ends with the empty one. What it
/// lets through is any tokens but exactly those of the settings, in their order.
pub proof fn ban_tag_forces_no_text(
    builder: StructuralTagBuilder,
    tokens: Seq<String>,
    tag: StructuralTag,
)
    requires
        match builder {
            StructuralTagBuilder::TriggeredTags(config) => config.tool_call_ban_tokens@ == tokens,
            StructuralTagBuilder::DsmlToolCalls(config) => config.tool_call_ban_tokens@ == tokens,
        },
        tag@ == ban_format(builder.banned()),
    ensures
        tag.format is Tag,
        tag.format->Tag_0.begin@.len() == 0,
        tag.format->Tag_0.end@.len() == 0,
        *tag.format->Tag_0.content is AnyTokens,
        (*tag.format->Tag_0.content)->AnyTokens_0.exclude_tokens@.len() == tokens.len(),
        forall|i: int|
            #![trigger (*tag.format->Tag_0.content)->AnyTokens_0.exclude_tokens@[i]]
            #![trigger tokens[i]]
            0 <= i < tokens.len()
                ==> (*tag.format->Tag_0.content)->AnyTokens_0.exclude_tokens@[i]@ == tokens[i]@,
{
    reveal_with_fuel(Format::model, 2);
    let excluded = (*tag.format->Tag_0.content)->AnyTokens_0.exclude_tokens@;
    assert(texts(excluded) == texts(tokens));
    assert(texts(excluded).len() == excluded.len());
    assert(texts(tokens).len() == tokens.len());
    assert forall|i: int|
        #![trigger excluded[i]]
        #![trigger tokens[i]]
        0 <= i < tokens.len() implies excluded[i]@ == tokens[i]@ by {
        assert(texts(excluded)[i] == excluded[i]@);
        assert(texts(tokens)[i] == tokens[i]@);
    }
}

/// There is a ban exactly where the settings hold a token to ban, and the tokens are theirs, in
/// their order.
pub proof fn banned_tokens_are_those_of_the_settings(
    builder: StructuralTagBuilder,
    tokens: Seq<String>,
)
    requires
        match builder {
            StructuralTagBuilder::TriggeredTags(config) => config.tool_call_ban_tokens@ == tokens,
            StructuralTagBuilder::DsmlToolCalls(config) => config.tool_call_ban_tokens@ == tokens,
        },
    ensures
        builder.banned().len() == tokens.len(),
        forall|i: int| 0 <= i < tokens.len() ==> #[trigger] builder.banned()[i] == tokens[i]@,
{
}

/// A request carries a constraint of its own exactly where its guided decoding says so. Setting a
/// structural tag sets that tag and leaves the constraint as it was.
pub proof fn setting_a_tag_keeps_the_constraint(request: PreprocessedRequest, tag: Value)
    ensures
        request.constrained() <==> match request.sampling_options.guided_decoding {
            Some(options) => options.user_constraint,
            None => false,
        },
        request.with_structural_tag(tag).sampling_options.guided_decoding is Some,
        request.with_structural_tag(tag).sampling_options.guided_decoding->Some_0.structural_tag
            == Some(tag),
        request.with_structural_tag(tag).sampling_options.guided_decoding->Some_0.user_constraint
            <==> match request.sampling_options.guided_decoding {
            Some(options) => options.user_constraint,
            None => false,
        },
{
}

/// `apply_tool_call_ban` hands the encoder a tag that forces no text and excludes exactly the
/// tokens of the settings. What comes back is set and nothing else changes; a failure is reported
/// and nothing changes. Without tokens nothing happens at all.
pub proof fn applied_bans<F: FnOnce(StructuralTag) -> Result<Value, String>>(
    builder: StructuralTagBuilder,
    tokens: Seq<String>,
    encode: F,
    before: PreprocessedRequest,
    constrained: bool,
    after: PreprocessedRequest,
    result: Result<bool, DynamoError>,
)
    requires
        match builder {
            StructuralTagBuilder::TriggeredTags(config) => config.tool_call_ban_tokens@ == tokens,
            StructuralTagBuilder::DsmlToolCalls(config) => config.tool_call_ban_tokens@ == tokens,
        },
        constrained == match before.sampling_options.guided_decoding {
            Some(options) => options.user_constraint,
            None => false,
        },
        ban_outcome(builder, encode, before, after, result),
    ensures
        tokens.len() == 0 ==> {
            &&& result is Ok
            &&& !result->Ok_0
            &&& after == before
        },
        tokens.len() > 0 ==> exists|tag: StructuralTag, encoded: Result<Value, String>|
            {
                &&& #[trigger] encode.ensures((tag,), encoded)
                &&& tag.format is Tag
                &&& tag.format->Tag_0.begin@.len() == 0
                &&& tag.format->Tag_0.end@.len() == 0
                &&& *tag.format->Tag_0.content is AnyTokens
                &&& (*tag.format->Tag_0.content)->AnyTokens_0.exclude_tokens@.len() == tokens.len()
                &&& forall|i: int|
                    #![trigger (*tag.format->Tag_0.content)->AnyTokens_0.exclude_tokens@[i]]
                    #![trigger tokens[i]]
                    0 <= i < tokens.len()
                        ==> (*tag.format->Tag_0.content)->AnyTokens_0.exclude_tokens@[i]@ == tokens[i]@
                &&& match encoded {
                    Ok(value) => {
                        &&& result is Ok
                        &&& result->Ok_0 == true
                        &&& after.sampling_options.guided_decoding == Some(
                            GuidedDecodingOptions { user_constraint: constrained, structural_tag: Some(value) },
                        )
                    },
                    Err(text) => {
                        &&& result is Err
                        &&& result->Err_0.error_type == ErrorType::Unknown
                        &&& result->Err_0.message@ == "failed to build tool-call ban structural tag: "@ + text@
                        &&& after == before
                    },
                }
            },
{
    banned_tokens_are_those_of_the_settings(builder, tokens);
    if tokens.len() > 0 {
        let format = ban_format(builder.banned());
        let (tag, encoded) = choose|tag: StructuralTag, encoded: Result<Value, String>|
            {
                &&& tag@ == format
                &&& #[trigger] encode.ensures((tag,), encoded)
                &&& settled(before, after, encoded, true, ban_failure_text(), result)
            };
        ban_tag_forces_no_text(builder, tokens, tag);
        assert(encode.ensures((tag,), encoded));
    }
}

/// `apply_tool_call_format` hands the encoder the tag that `build_tool_call_format` builds, does
/// nothing where it builds none, and reports why it cannot build one.
pub proof fn applied_formats<F: FnOnce(StructuralTag) -> Result<Value, String>>(
    parser_name: Seq<char>,
    builder: StructuralTagBuilder,
    ctx: ToolCallFormatBuildContext,
    built: Result<Option<StructuralTag>, BuildError>,
    encode: F,
    before: PreprocessedRequest,
    constrained: bool,
    after: PreprocessedRequest,
    result: Result<bool, DynamoError>,
)
    requires
        build_outcome(built) == builder.tool_call_format(ctx@),
        constrained == match before.sampling_options.guided_decoding {
            Some(options) => options.user_constraint,
            None => false,
        },
        format_outcome(parser_name, builder, ctx@, encode, before, after, result),
    ensures
        match built {
            Err(error) => {
                &&& result is Err
                &&& result->Err_0.error_type == ErrorType::Unknown
                &&& after == before
                &&& match error {
                    BuildError::RequiredWithoutTools => result->Err_0.message@
                        == "failed to build structural_tag for parser '"@ + parser_name + "': "@
                        + "tool_choice is \"required\" but tools is empty"@,
                    BuildError::NamedToolMissing(name) => result->Err_0.message@
                        == "failed to build structural_tag for parser '"@ + parser_name + "': "@
                        + ("tool named \""@ + name@
                        + "\" in tool_choice is not present in tools"@),
                }
            },
            Ok(None) => {
                &&& result is Ok
                &&& !result->Ok_0
                &&& after == before
            },
            Ok(Some(built_tag)) => exists|tag: StructuralTag, encoded: Result<Value, String>|
                {
                    &&& #[trigger] encode.ensures((tag,), encoded)
                    &&& built_tag.format is ToolCalls
                    &&& tag.format is ToolCalls
                    &&& tag.format->ToolCalls_0.family == built_tag.format->ToolCalls_0.family
                    &&& tag.format->ToolCalls_0.at_least_one
                        == built_tag.format->ToolCalls_0.at_least_one
                    &&& tag.format->ToolCalls_0.stop_after_first
                        == built_tag.format->ToolCalls_0.stop_after_first
                    &&& tag.format->ToolCalls_0.starts_in_reasoning
                        == built_tag.format->ToolCalls_0.starts_in_reasoning
                    &&& tag.format->ToolCalls_0.tags@.len()
                        == built_tag.format->ToolCalls_0.tags@.len()
                    &&& forall|i: int|
                        #![trigger tag.format->ToolCalls_0.tags@[i]]
                        #![trigger built_tag.format->ToolCalls_0.tags@[i]]
                        0 <= i < tag.format->ToolCalls_0.tags@.len() ==> {
                            &&& tag.format->ToolCalls_0.tags@[i].name@
                                == built_tag.format->ToolCalls_0.tags@[i].name@
                            &&& tag.format->ToolCalls_0.tags@[i].schema
                                == built_tag.format->ToolCalls_0.tags@[i].schema
                        }
                    &&& match encoded {
                        Ok(value) => {
                            &&& result is Ok
                            &&& result->Ok_0 == true
                            &&& after.sampling_options.guided_decoding == Some(
                                GuidedDecodingOptions { user_constraint: constrained, structural_tag: Some(value) },
                            )
                        },
                        Err(text) => {
                            &&& result is Err
                            &&& result->Err_0.error_type == ErrorType::Unknown
                            &&& result->Err_0.message@ == "failed to build structural_tag for parser '"@ + parser_name + "': "@ + text@
                            &&& after == before
                        },
                    }
                },
        },
{
    if built is Ok && built->Ok_0 is Some {
        let built_tag = built->Ok_0->Some_0;
        let format = built_tag@;
        let (tag, encoded) = choose|tag: StructuralTag, encoded: Result<Value, String>|
            {
                &&& tag@ == format
                &&& #[trigger] encode.ensures((tag,), encoded)
                &&& settled(before, after, encoded, true, format_failure_text(parser_name), result)
            };
        let left = tag.format->ToolCalls_0.tags@;
        let right = built_tag.format->ToolCalls_0.tags@;
        let left_models = left.map_values(|t: ToolTag| t@);
        let right_models = right.map_values(|t: ToolTag| t@);
        assert(left_models == right_models);
        assert(left_models.len() == left.len() && right_models.len() == right.len());
        assert forall|i: int|
            #![trigger left[i]]
            #![trigger right[i]]
            0 <= i < left.len() implies left[i].name@ == right[i].name@ && left[i].schema
            == right[i].schema by {
            assert(left_models[i] == left[i]@);
            assert(right_models[i] == right[i]@);
        }
        assert(encode.ensures((tag,), encoded));
    }
}

/// `try_apply_structural_tag` does nothing where structural tags are off, no parser is set, the
/// parser is not known or it has no builder.
pub proof fn requests_without_a_builder_pass<F: FnOnce(StructuralTag) -> Result<Value, String>>(
    preprocessor: OpenAIPreprocessor,
    request: NvCreateChatCompletionRequest,
    reasoning: bool,
    encode: F,
    before: PreprocessedRequest,
    after: PreprocessedRequest,
    result: Result<StructuralTagApplyResult, DynamoError>,
)
    requires
        preprocessor.runtime_config.structural_tag_mode == StructuralTagMode::Off
            || match preprocessor.tool_call_parser {
            None => true,
            Some(parser) => !preprocessor.tool_parsers@.contains_key(parser@)
                || preprocessor.tool_parsers@[parser@].structural_tag_builder is None,
        },
        preprocessor.outcome(request, reasoning, encode, before, after, result),
    ensures
        result is Ok,
        result->Ok_0 == StructuralTagApplyResult::NotApplied,
        after == before,
{
}

/// `try_apply_structural_tag` with `tool_choice="none"`: nothing happens beside a constraint of
/// the user's own, without tools or without tokens to ban. Otherwise the encoder gets a tag that
/// forces no text and excludes exactly those tokens.
pub proof fn requests_that_forbid_calls<F: FnOnce(StructuralTag) -> Result<Value, String>>(
    preprocessor: OpenAIPreprocessor,
    parser: String,
    builder: StructuralTagBuilder,
    request: NvCreateChatCompletionRequest,
    tools: Seq<ChatCompletionTool>,
    tokens: Seq<String>,
    constrained: bool,
    reasoning: bool,
    encode: F,
    before: PreprocessedRequest,
    after: PreprocessedRequest,
    result: Result<StructuralTagApplyResult, DynamoError>,
)
    requires
        preprocessor.runtime_config.structural_tag_mode != StructuralTagMode::Off,
        preprocessor.tool_call_parser == Some(parser),
        preprocessor.tool_parsers@.contains_key(parser@),
        preprocessor.tool_parsers@[parser@].structural_tag_builder == Some(builder),
        match builder {
            StructuralTagBuilder::TriggeredTags(config) => config.tool_call_ban_tokens@ == tokens,
            StructuralTagBuilder::DsmlToolCalls(config) => config.tool_call_ban_tokens@ == tokens,
        },
        match request.inner.tools {
            Some(offered) => tools == offered@,
            None => tools.len() == 0,
        },
        constrained == match before.sampling_options.guided_decoding {
            Some(options) => options.user_constraint,
            None => false,
        },
        request.inner.tool_choice is Some,
        request.inner.tool_choice->Some_0 is Forbidden,
        preprocessor.outcome(request, reasoning, encode, before, after, result),
    ensures
        constrained || tools.len() == 0 || tokens.len() == 0 ==> {
            &&& result is Ok
            &&& result->Ok_0 == StructuralTagApplyResult::NotApplied
            &&& after == before
        },
        !constrained && tools.len() > 0 && tokens.len() > 0 ==> exists|
            tag: StructuralTag,
            encoded: Result<Value, String>,
        |
            {
                &&& #[trigger] encode.ensures((tag,), encoded)
                &&& tag.format is Tag
                &&& tag.format->Tag_0.begin@.len() == 0
                &&& tag.format->Tag_0.end@.len() == 0
                &&& *tag.format->Tag_0.content is AnyTokens
                &&& (*tag.format->Tag_0.content)->AnyTokens_0.exclude_tokens@.len() == tokens.len()
                &&& forall|i: int|
                    #![trigger (*tag.format->Tag_0.content)->AnyTokens_0.exclude_tokens@[i]]
                    #![trigger tokens[i]]
                    0 <= i < tokens.len()
                        ==> (*tag.format->Tag_0.content)->AnyTokens_0.exclude_tokens@[i]@ == tokens[i]@
                &&& match encoded {
                    Ok(value) => {
                        &&& result is Ok
                        &&& result->Ok_0 == StructuralTagApplyResult::ToolCallBan
                        &&& after.sampling_options.guided_decoding == Some(
                            GuidedDecodingOptions { user_constraint: false, structural_tag: Some(value) },
                        )
                    },
                    Err(text) => {
                        &&& result is Err
                        &&& result->Err_0.error_type == ErrorType::Unknown
                        &&& result->Err_0.message@ == "failed to build tool-call ban structural tag: "@ + text@
                        &&& after == before
                    },
                }
            },
{
    banned_tokens_are_those_of_the_settings(builder, tokens);
    if !constrained && tools.len() > 0 && tokens.len() > 0 {
        let format = ban_format(builder.banned());
        let (tag, encoded) = choose|tag: StructuralTag, encoded: Result<Value, String>|
            {
                &&& tag@ == format
                &&& #[trigger] encode.ensures((tag,), encoded)
                &&& settled(
                    before,
                    after,
                    encoded,
                    StructuralTagApplyResult::ToolCallBan,
                    ban_failure_text(),
                    result,
                )
            };
        ban_tag_forces_no_text(builder, tokens, tag);
        assert(encode.ensures((tag,), encoded));
    }
}

/// `try_apply_structural_tag` refuses a request that requires a call without tools, that names a
/// tool which is not there, or that forces a call beside a constraint of the user's own, in this
/// order, each with a text of its own, and changes nothing.
pub proof fn requests_that_are_refused<F: FnOnce(StructuralTag) -> Result<Value, String>>(
    preprocessor: OpenAIPreprocessor,
    parser: String,
    builder: StructuralTagBuilder,
    request: NvCreateChatCompletionRequest,
    tools: Seq<ChatCompletionTool>,
    constrained: bool,
    reasoning: bool,
    encode: F,
    before: PreprocessedRequest,
    after: PreprocessedRequest,
    result: Result<StructuralTagApplyResult, DynamoError>,
)
    requires
        preprocessor.runtime_config.structural_tag_mode != StructuralTagMode::Off,
        preprocessor.tool_call_parser == Some(parser),
        preprocessor.tool_parsers@.contains_key(parser@),
        preprocessor.tool_parsers@[parser@].structural_tag_builder == Some(builder),
        match request.inner.tools {
            Some(offered) => tools == offered@,
            None => tools.len() == 0,
        },
        constrained == match before.sampling_options.guided_decoding {
            Some(options) => options.user_constraint,
            None => false,
        },
        request.inner.tool_choice is Some,
        match request.inner.tool_choice->Some_0 {
            ChatCompletionToolChoiceOption::Required => tools.len() == 0 || constrained,
            ChatCompletionToolChoiceOption::Named(named) => constrained || forall|i: int|
                0 <= i < tools.len() ==> (#[trigger] tools[i]).function.name@
                    != named.function.name@,
            _ => false,
        },
        preprocessor.outcome(request, reasoning, encode, before, after, result),
    ensures
        after == before,
        result is Err,
        result->Err_0.error_type == ErrorType::InvalidArgument,
        result->Err_0.message@ == match request.inner.tool_choice->Some_0 {
            ChatCompletionToolChoiceOption::Named(named) => if forall|i: int|
                0 <= i < tools.len() ==> (#[trigger] tools[i]).function.name@
                    != named.function.name@ {
                "tool named \""@ + named.function.name@
                    + "\" in tool_choice is not present in tools"@
            } else {
                "response_format cannot be used in the same request as tool_choice=\"required\" or a named tool_choice."@
            },
            _ => if tools.len() == 0 {
                "tool_choice is \"required\" but tools is empty"@
            } else {
                "response_format cannot be used in the same request as tool_choice=\"required\" or a named tool_choice."@
            },
        },
{
    assert(request.offered() =~= tools);
}

/// `try_apply_structural_tag` leaves alone a request that forces nothing and forbids nothing
/// where the user has a constraint of their own, where there are no tools, or where in the narrow
/// scope no tool is marked `strict: true` and parallel calls are not switched off.
pub proof fn requests_that_need_no_guidance<F: FnOnce(StructuralTag) -> Result<Value, String>>(
    preprocessor: OpenAIPreprocessor,
    parser: String,
    builder: StructuralTagBuilder,
    request: NvCreateChatCompletionRequest,
    tools: Seq<ChatCompletionTool>,
    constrained: bool,
    reasoning: bool,
    encode: F,
    before: PreprocessedRequest,
    after: PreprocessedRequest,
    result: Result<StructuralTagApplyResult, DynamoError>,
)
    requires
        preprocessor.runtime_config.structural_tag_mode != StructuralTagMode::Off,
        preprocessor.tool_call_parser == Some(parser),
        preprocessor.tool_parsers@.contains_key(parser@),
        preprocessor.tool_parsers@[parser@].structural_tag_builder == Some(builder),
        match request.inner.tools {
            Some(offered) => tools == offered@,
            None => tools.len() == 0,
        },
        constrained == match before.sampling_options.guided_decoding {
            Some(options) => options.user_constraint,
            None => false,
        },
        request.inner.tool_choice is None || request.inner.tool_choice->Some_0 is Auto,
        constrained || tools.len() == 0 || {
            &&& preprocessor.runtime_config.structural_tag_scope == StructuralTagScope::Auto
            &&& request.inner.parallel_tool_calls != Some(false)
            &&& forall|i: int|
                0 <= i < tools.len() ==> (#[trigger] tools[i]).function.strict != Some(true)
        },
        preprocessor.outcome(request, reasoning, encode, before, after, result),
    ensures
        result is Ok,
        result->Ok_0 == StructuralTagApplyResult::NotApplied,
        after == before,
{
    assert(request.offered() =~= tools);
    strict_tools_and_single_calls_are_guided(
        preprocessor.runtime_config.structural_tag_scope,
        request.choice(),
        tools,
        request.inner.parallel_tool_calls,
    );
}

/// `try_apply_structural_tag` guides a request with tools and without a constraint of the user's
/// own where it requires a call, or where it leaves the choice to the model and the scope is wide,
/// some tool is marked `strict: true` or parallel calls are switched off. The tag has one entry
/// per tool of the request, asks for a call exactly where the request itself requires one, and
/// ends at the first call exactly where the request itself switches parallel calls off.
pub proof fn requests_that_are_guided<F: FnOnce(StructuralTag) -> Result<Value, String>>(
    preprocessor: OpenAIPreprocessor,
    parser: String,
    builder: StructuralTagBuilder,
    request: NvCreateChatCompletionRequest,
    tools: Seq<ChatCompletionTool>,
    reasoning: bool,
    encode: F,
    before: PreprocessedRequest,
    after: PreprocessedRequest,
    result: Result<StructuralTagApplyResult, DynamoError>,
)
    requires
        preprocessor.runtime_config.structural_tag_mode != StructuralTagMode::Off,
        preprocessor.tool_call_parser == Some(parser),
        preprocessor.tool_parsers@.contains_key(parser@),
        preprocessor.tool_parsers@[parser@].structural_tag_builder == Some(builder),
        match request.inner.tools {
            Some(offered) => tools == offered@,
            None => tools.len() == 0,
        },
        match before.sampling_options.guided_decoding {
            Some(options) => !options.user_constraint,
            None => true,
        },
        tools.len() > 0,
        match request.inner.tool_choice {
            Some(ChatCompletionToolChoiceOption::Required) => true,
            Some(ChatCompletionToolChoiceOption::Auto) | None => {
                ||| preprocessor.runtime_config.structural_tag_scope == StructuralTagScope::Always
                ||| request.inner.parallel_tool_calls == Some(false)
                ||| exists|i: int|
                    0 <= i < tools.len() && (#[trigger] tools[i]).function.strict == Some(true)
            },
            _ => false,
        },
        preprocessor.outcome(request, reasoning, encode, before, after, result),
    ensures
        exists|tag: StructuralTag, encoded: Result<Value, String>|
            {
                &&& #[trigger] encode.ensures((tag,), encoded)
                &&& tag.format is ToolCalls
                &&& tag.format->ToolCalls_0.family == ToolCallFamily::DsmlToolCalls
                    <==> builder is DsmlToolCalls
                &&& tag.format->ToolCalls_0.family == ToolCallFamily::TriggeredTags
                    <==> builder is TriggeredTags
                &&& tag.format->ToolCalls_0.stop_after_first <==> request.inner.parallel_tool_calls
                    == Some(false)
                &&& tag.format->ToolCalls_0.starts_in_reasoning <==> reasoning
                &&& tag.format->ToolCalls_0.at_least_one <==> {
                    &&& request.inner.tool_choice is Some
                    &&& request.inner.tool_choice->Some_0 is Required
                }
                &&& tag.format->ToolCalls_0.tags@.len() == tools.len()
                &&& forall|i: int|
                    #![trigger tag.format->ToolCalls_0.tags@[i]]
                    #![trigger tools[i]]
                    0 <= i < tools.len() ==> {
                        let tool_tag = tag.format->ToolCalls_0.tags@[i];
                        let function = tools[i].function;
                        &&& tool_tag.name@ == function.name@
                        &&& function.parameters is None ==> tool_tag.schema == json_bool(true)
                        &&& function.parameters is Some ==> match preprocessor.runtime_config.structural_tag_schema {
                            StructuralTagSchemaMode::Strict => tool_tag.schema == function.parameters->Some_0,
                            StructuralTagSchemaMode::Auto => if function.strict == Some(true) {
                                tool_tag.schema == function.parameters->Some_0
                            } else {
                                tool_tag.schema == json_bool(true)
                            },
                        }
                    }
                &&& match encoded {
                    Ok(value) => {
                        &&& result is Ok
                        &&& result->Ok_0 == StructuralTagApplyResult::ToolCallFormat
                        &&& after.sampling_options.guided_decoding == Some(
                            GuidedDecodingOptions { user_constraint: false, structural_tag: Some(value) },
                        )
                    },
                    Err(text) => {
                        &&& result is Err
                        &&& result->Err_0.error_type == ErrorType::Unknown
                        &&& result->Err_0.message@ == "failed to build structural_tag for parser '"@ + parser@ + "': "@ + text@
                        &&& after == before
                    },
                }
            },
{
    assert(request.offered() =~= tools);
    strict_tools_and_single_calls_are_guided(
        preprocessor.runtime_config.structural_tag_scope,
        request.choice(),
        tools,
        request.inner.parallel_tool_calls,
    );
    let ctx = preprocessor.context(request, reasoning);
    let format = builder.tool_call_format(ctx)->Ok_0->Some_0;
    let (tag, encoded) = choose|tag: StructuralTag, encoded: Result<Value, String>|
        {
            &&& tag@ == format
            &&& #[trigger] encode.ensures((tag,), encoded)
            &&& settled(
                before,
                after,
                encoded,
                StructuralTagApplyResult::ToolCallFormat,
                format_failure_text(parser@),
                result,
            )
        };
    plain_tags_of_all_tools(builder, ctx, tag);
    assert(encode.ensures((tag,), encoded));
}

/// `try_apply_structural_tag` guides a request that names a tool which is there, in any scope,
/// where the user has no constraint of their own. The tag has one entry, for the first tool of the
/// name, asks for a call, and ends at the first call exactly where the request itself switches
/// parallel calls off.
pub proof fn requests_that_name_a_tool<F: FnOnce(StructuralTag) -> Result<Value, String>>(
    preprocessor: OpenAIPreprocessor,
    parser: String,
    builder: StructuralTagBuilder,
    request: NvCreateChatCompletionRequest,
    tools: Seq<ChatCompletionTool>,
    name: Seq<char>,
    reasoning: bool,
    encode: F,
    before: PreprocessedRequest,
    after: PreprocessedRequest,
    result: Result<StructuralTagApplyResult, DynamoError>,
)
    requires
        preprocessor.runtime_config.structural_tag_mode != StructuralTagMode::Off,
        preprocessor.tool_call_parser == Some(parser),
        preprocessor.tool_parsers@.contains_key(parser@),
        preprocessor.tool_parsers@[parser@].structural_tag_builder == Some(builder),
        match request.inner.tools {
            Some(offered) => tools == offered@,
            None => tools.len() == 0,
        },
        match before.sampling_options.guided_decoding {
            Some(options) => !options.user_constraint,
            None => true,
        },
        request.inner.tool_choice is Some,
        request.inner.tool_choice->Some_0 is Named,
        request.inner.tool_choice->Some_0->Named_0.function.name@ == name,
        exists|i: int| 0 <= i < tools.len() && (#[trigger] tools[i]).function.name@ == name,
        preprocessor.outcome(request, reasoning, encode, before, after, result),
    ensures
        exists|tag: StructuralTag, encoded: Result<Value, String>|
            {
                &&& #[trigger] encode.ensures((tag,), encoded)
                &&& tag.format is ToolCalls
                &&& tag.format->ToolCalls_0.family == ToolCallFamily::DsmlToolCalls
                    <==> builder is DsmlToolCalls
                &&& tag.format->ToolCalls_0.family == ToolCallFamily::TriggeredTags
                    <==> builder is TriggeredTags
                &&& tag.format->ToolCalls_0.stop_after_first <==> request.inner.parallel_tool_calls
                    == Some(false)
                &&& tag.format->ToolCalls_0.starts_in_reasoning <==> reasoning
                &&& tag.format->ToolCalls_0.at_least_one
                &&& tag.format->ToolCalls_0.tags@.len() == 1
                &&& tag.format->ToolCalls_0.tags@[0].name@ == name
                &&& exists|k: int|
                    #![trigger tools[k]]
                    {
                        let tool_tag = tag.format->ToolCalls_0.tags@[0];
                        let function = tools[k].function;
                        &&& 0 <= k < tools.len()
                        &&& function.name@ == name
                        &&& forall|j: int|
                            0 <= j < k ==> (#[trigger] tools[j]).function.name@ != name
                        &&& function.parameters is None ==> tool_tag.schema == json_bool(true)
                        &&& function.parameters is Some ==> match preprocessor.runtime_config.structural_tag_schema {
                            StructuralTagSchemaMode::Strict => tool_tag.schema == function.parameters->Some_0,
                            StructuralTagSchemaMode::Auto => if function.strict == Some(true) {
                                tool_tag.schema == function.parameters->Some_0
                            } else {
                                tool_tag.schema == json_bool(true)
                            },
                        }
                    }
                &&& match encoded {
                    Ok(value) => {
                        &&& result is Ok
                        &&& result->Ok_0 == StructuralTagApplyResult::ToolCallFormat
                        &&& after.sampling_options.guided_decoding == Some(
                            GuidedDecodingOptions { user_constraint: false, structural_tag: Some(value) },
                        )
                    },
                    Err(text) => {
                        &&& result is Err
                        &&& result->Err_0.error_type == ErrorType::Unknown
                        &&& result->Err_0.message@ == "failed to build structural_tag for parser '"@ + parser@ + "': "@ + text@
                        &&& after == before
                    },
                }
            },
{
    assert(request.offered() =~= tools);
    let ctx = preprocessor.context(request, reasoning);
    let format = builder.tool_call_format(ctx)->Ok_0->Some_0;
    let (tag, encoded) = choose|tag: StructuralTag, encoded: Result<Value, String>|
        {
            &&& tag@ == format
            &&& #[trigger] encode.ensures((tag,), encoded)
            &&& settled(
                before,
                after,
                encoded,
                StructuralTagApplyResult::ToolCallFormat,
                format_failure_text(parser@),
                result,
            )
        };
    plain_tag_of_a_named_tool(builder, ctx, tag);
    assert(encode.ensures((tag,), encoded));
}

} // verus!
