//! What holds of the library as a whole.

use serde_json::Value;
use vstd::prelude::*;

use crate::builder::{argument_schema, ContextModel, StructuralTagBuilder, StructuralTagSchemaMode};
use crate::chat::{
    first_named, has_tool, is_first_named, ChatCompletionTool, ChatCompletionToolChoiceOption,
};
use crate::config::{StructuralTagMode, StructuralTagScope};
use crate::error::{BuildErrorModel, DynamoError};
use crate::format::{FormatModel, StructuralTag, ToolTagModel};
use crate::json::json_bool;
use crate::preprocessor::{
    ban_outcome, conflict_text, format_outcome, guides_calls, refusal, settled, Decision,
    OpenAIPreprocessor, StructuralTagApplyResult,
};
use crate::request::{NvCreateChatCompletionRequest, PreprocessedRequest};

verus! {

/// The tool choice forces a call.
pub open spec fn forces_call(tool_choice: ChatCompletionToolChoiceOption) -> bool {
    tool_choice is Required || tool_choice is Named
}

/// Where there is a tool of some name there is a first one.
proof fn first_named_exists(tools: Seq<ChatCompletionTool>, name: Seq<char>, i: int)
    requires
        0 <= i < tools.len(),
        tools[i].function.name@ == name,
    ensures
        exists|k: int| is_first_named(tools, name, k),
    decreases i,
{
    if exists|j: int| 0 <= j < i && (#[trigger] tools[j]).function.name@ == name {
        let j = choose|j: int| 0 <= j < i && (#[trigger] tools[j]).function.name@ == name;
        first_named_exists(tools, name, j);
    } else {
        assert(is_first_named(tools, name, i));
    }
}

/// The first tool of a name is one of the tools and has that name, and no tool before it has.
pub proof fn first_named_is_offered(tools: Seq<ChatCompletionTool>, name: Seq<char>)
    requires
        has_tool(tools, name),
    ensures
        exists|k: int| #[trigger]
            is_first_named(tools, name, k) && first_named(tools, name) == tools[k],
{
    let i = choose|i: int| 0 <= i < tools.len() && (#[trigger] tools[i]).function.name@ == name;
    first_named_exists(tools, name, i);
}

/// With `tool_choice="auto"` or `"required"` every tool of the request gets exactly one tag, in
/// the order of the request, under its own name.
pub proof fn every_tool_has_its_tag(
    builder: StructuralTagBuilder,
    ctx: ContextModel,
    format: FormatModel,
)
    requires
        ctx.tool_choice is Auto || ctx.tool_choice is Required,
        builder.tool_call_format(ctx) == Ok::<_, BuildErrorModel>(Some(format)),
    ensures
        format is ToolCalls,
        format->tags.len() == ctx.tools.len(),
        forall|i: int|
            0 <= i < ctx.tools.len() ==> (#[trigger] format->tags[i]).name
                == ctx.tools[i].function.name@,
{
}

/// With a named tool choice there is exactly one tag, and it is that of the first tool of the
/// name.
pub proof fn named_choice_has_one_tag(
    builder: StructuralTagBuilder,
    ctx: ContextModel,
    format: FormatModel,
)
    requires
        ctx.tool_choice is Named,
        builder.tool_call_format(ctx) == Ok::<_, BuildErrorModel>(Some(format)),
    ensures
        format is ToolCalls,
        format->tags.len() == 1,
        format->tags[0].name == ctx.tool_choice->Named_0.function.name@,
        exists|k: int| #[trigger]
            is_first_named(ctx.tools, ctx.tool_choice->Named_0.function.name@, k)
                && format->tags[0].schema == argument_schema(ctx.tools[k], ctx.all_strict()),
{
    first_named_is_offered(ctx.tools, ctx.tool_choice->Named_0.function.name@);
}

/// Whatever the tool choice, each tag belongs to a tool of the request: it has the tool's name
/// and the schema that the mode gives that tool.
pub proof fn every_tag_is_of_an_offered_tool(
    builder: StructuralTagBuilder,
    ctx: ContextModel,
    format: FormatModel,
    i: int,
)
    requires
        builder.tool_call_format(ctx) == Ok::<_, BuildErrorModel>(Some(format)),
        0 <= i < format->tags.len(),
    ensures
        format is ToolCalls,
        exists|k: int|
            0 <= k < ctx.tools.len() && format->tags[i] == (ToolTagModel {
                name: (#[trigger] ctx.tools[k]).function.name@,
                schema: argument_schema(ctx.tools[k], ctx.all_strict()),
            }),
{
    if ctx.tool_choice is Named {
        first_named_is_offered(ctx.tools, ctx.tool_choice->Named_0.function.name@);
    } else {
        assert(format->tags[i].name == ctx.tools[i].function.name@);
    }
}

/// In the mode `Strict` the schema of a tool's arguments does not depend on its `strict` flag:
/// it is the one that the request gives.
pub proof fn strict_mode_keeps_every_schema(tool: ChatCompletionTool, parameters: Value)
    requires
        tool.function.parameters == Some(parameters),
    ensures
        argument_schema(tool, true) == parameters,
{
}

/// In the mode `Auto` a tool marked `strict: true` keeps the schema that the request gives, and
/// any other takes every JSON value.
pub proof fn auto_mode_keeps_strict_schemas(tool: ChatCompletionTool)
    ensures
        tool.function.strict == Some(true) ==> argument_schema(tool, false) == argument_schema(
            tool,
            true,
        ),
        tool.function.strict != Some(true) ==> argument_schema(tool, false) == json_bool(true),
{
}

/// A tool without a schema takes every JSON value, in either mode.
pub proof fn no_schema_is_no_constraint(tool: ChatCompletionTool, strict_schema: bool)
    requires
        tool.function.parameters is None,
    ensures
        argument_schema(tool, strict_schema) == json_bool(true),
{
}

/// A tag asks for a call exactly where the tool choice forces one, ends at the first call
/// exactly where the request switches parallel calls off, and keeps to the builder's markup.
pub proof fn tag_follows_the_request(
    builder: StructuralTagBuilder,
    ctx: ContextModel,
    format: FormatModel,
)
    requires
        builder.tool_call_format(ctx) == Ok::<_, BuildErrorModel>(Some(format)),
    ensures
        format is ToolCalls,
        format->family == builder.family(),
        format->at_least_one <==> forces_call(ctx.tool_choice),
        format->stop_after_first <==> ctx.parallel_tool_calls == Some(false),
        format->starts_in_reasoning == ctx.starts_in_reasoning,
{
}

/// A forced tool choice passes validation, in a request without a constraint of its own,
/// exactly where a tag can be built for it; where none can be built, validation gives the
/// reason in the same words.
pub proof fn validation_agrees_with_building(builder: StructuralTagBuilder, ctx: ContextModel)
    requires
        forces_call(ctx.tool_choice),
    ensures
        match builder.tool_call_format(ctx) {
            Ok(format) => format is Some && refusal(ctx.tool_choice, ctx.tools, false) is None,
            Err(error) => refusal(ctx.tool_choice, ctx.tools, false) == Some(error.text()),
        },
{
}

/// What is wrong with the tools is reported before the conflict with the user's own constraint.
pub proof fn missing_tools_come_before_conflicts(
    tool_choice: ChatCompletionToolChoiceOption,
    tools: Seq<ChatCompletionTool>,
)
    requires
        forces_call(tool_choice),
    ensures
        refusal(tool_choice, tools, true) == match refusal(tool_choice, tools, false) {
            Some(text) => Some(text),
            None => Some(conflict_text()),
        },
{
}

/// A request that does not force a call is never refused.
pub proof fn only_forced_calls_are_refused(
    preprocessor: OpenAIPreprocessor,
    request: NvCreateChatCompletionRequest,
    constrained: bool,
    reasoning: bool,
)
    ensures
        preprocessor.decision(request, constrained, reasoning) is Refuse ==> forces_call(
            request.choice(),
        ),
{
}

/// Where structural tags are off, no parser is set, or the parser has no builder, no request
/// gets a tag and none is refused.
pub proof fn nothing_happens_without_a_builder(
    preprocessor: OpenAIPreprocessor,
    request: NvCreateChatCompletionRequest,
    constrained: bool,
    reasoning: bool,
)
    requires
        preprocessor.runtime_config.structural_tag_mode == StructuralTagMode::Off
            || preprocessor.tool_call_parser is None || preprocessor.builder_for(
            preprocessor.tool_call_parser->Some_0@,
        ) is None,
    ensures
        preprocessor.decision(request, constrained, reasoning) is Skip,
{
}

/// A constraint of the user's own is never overridden: such a request gets no tag. It is
/// refused if it forces a call while structural tags are in use, and otherwise left alone.
pub proof fn user_constraints_are_never_overridden(
    preprocessor: OpenAIPreprocessor,
    request: NvCreateChatCompletionRequest,
    reasoning: bool,
)
    ensures
        if preprocessor.active_builder() is Some && forces_call(request.choice()) {
            preprocessor.decision(request, true, reasoning) is Refuse
        } else {
            preprocessor.decision(request, true, reasoning) is Skip
        },
{
}

/// While structural tags are in use, a request that forces a call is either refused or guided.
/// It never passes without a tag.
pub proof fn forced_calls_are_guided_or_refused(
    preprocessor: OpenAIPreprocessor,
    request: NvCreateChatCompletionRequest,
    constrained: bool,
    reasoning: bool,
)
    requires
        preprocessor.active_builder() is Some,
        forces_call(request.choice()),
    ensures
        ({
            let decision = preprocessor.decision(request, constrained, reasoning);
            decision is Refuse || decision is Guide
        }),
{
}

/// With `tool_choice="none"` a request is never guided to a tool call; without it, tool calls
/// are never forbidden.
pub proof fn bans_are_for_forbidden_calls(
    preprocessor: OpenAIPreprocessor,
    request: NvCreateChatCompletionRequest,
    constrained: bool,
    reasoning: bool,
)
    ensures
        request.choice() is Forbidden ==> !(preprocessor.decision(
            request,
            constrained,
            reasoning,
        ) is Guide),
        !(request.choice() is Forbidden) ==> !(preprocessor.decision(
            request,
            constrained,
            reasoning,
        ) is Ban),
{
}

/// A request that is guided is guided by the tag that its builder builds for it.
pub proof fn guidance_is_what_the_builder_builds(
    preprocessor: OpenAIPreprocessor,
    request: NvCreateChatCompletionRequest,
    constrained: bool,
    reasoning: bool,
)
    requires
        preprocessor.decision(request, constrained, reasoning) is Guide,
    ensures
        preprocessor.active_builder() is Some,
        preprocessor.active_builder()->Some_0.tool_call_format(
            preprocessor.context(request, reasoning),
        ) == Ok::<_, BuildErrorModel>(
            Some(preprocessor.decision(request, constrained, reasoning)->Guide_0),
        ),
{
}

/// `full` spells out what `short` may leave out: the tool choice `auto`, or an empty list of
/// tools. Otherwise the two requests say the same.
pub open spec fn spells_out(
    full: NvCreateChatCompletionRequest,
    short: NvCreateChatCompletionRequest,
) -> bool {
    &&& short.inner.parallel_tool_calls == full.inner.parallel_tool_calls
    &&& full.inner.tool_choice is Some
    &&& full.inner.tools is Some
    &&& match short.inner.tool_choice {
        Some(choice) => full.inner.tool_choice->Some_0 == choice,
        None => full.inner.tool_choice->Some_0 is Auto,
    }
    &&& match short.inner.tools {
        Some(tools) => full.inner.tools->Some_0@ == tools@,
        None => full.inner.tools->Some_0@.len() == 0,
    }
}

/// A request that leaves out the tool choice is treated as `tool_choice="auto"`, and one that
/// leaves out the tools as one with an empty list of them: both call for the same.
pub proof fn omissions_have_defaults(
    preprocessor: OpenAIPreprocessor,
    short: NvCreateChatCompletionRequest,
    full: NvCreateChatCompletionRequest,
    constrained: bool,
    reasoning: bool,
)
    requires
        spells_out(full, short),
    ensures
        preprocessor.decision(short, constrained, reasoning) == preprocessor.decision(
            full,
            constrained,
            reasoning,
        ),
{
}

/// The scope `Always` guides every request that the scope `Auto` guides.
pub proof fn wider_scope_guides_more(
    tool_choice: ChatCompletionToolChoiceOption,
    tools: Seq<ChatCompletionTool>,
    parallel_tool_calls: Option<bool>,
)
    requires
        guides_calls(StructuralTagScope::Auto, tool_choice, tools, parallel_tool_calls),
    ensures
        guides_calls(StructuralTagScope::Always, tool_choice, tools, parallel_tool_calls),
{
}

/// Setting a structural tag keeps the user's own constraint, and the last tag set is the one
/// that counts.
pub proof fn the_last_tag_counts(request: PreprocessedRequest, first: Value, last: Value)
    ensures
        request.with_structural_tag(last).structural_tag() == Some(last),
        request.with_structural_tag(last).constrained() == request.constrained(),
        request.with_structural_tag(first).with_structural_tag(last)
            == request.with_structural_tag(last),
{
}

/// What a request calls for does not change once its tag has been applied.
pub proof fn applying_keeps_the_decision<T>(
    preprocessor: OpenAIPreprocessor,
    request: NvCreateChatCompletionRequest,
    reasoning: bool,
    before: PreprocessedRequest,
    after: PreprocessedRequest,
    encoded: Result<Value, String>,
    done: T,
    failure: Seq<char>,
    result: Result<T, DynamoError>,
)
    requires
        settled(before, after, encoded, done, failure, result),
    ensures
        preprocessor.decision(request, after.constrained(), reasoning) == preprocessor.decision(
            request,
            before.constrained(),
            reasoning,
        ),
{
}

/// Two results are the same, errors by what they say.
pub open spec fn same_result<T>(left: Result<T, DynamoError>, right: Result<T, DynamoError>) -> bool {
    match (left, right) {
        (Ok(l), Ok(r)) => l == r,
        (Err(l), Err(r)) => l@ == r@,
        _ => false,
    }
}

/// Two encodings are the same, failures by what they say.
pub open spec fn same_encoding(left: Result<Value, String>, right: Result<Value, String>) -> bool {
    match (left, right) {
        (Ok(l), Ok(r)) => l == r,
        (Err(l), Err(r)) => l@ == r@,
        _ => false,
    }
}

/// What `encode` gives depends on the tag alone.
pub open spec fn encodes_by_tag<F: FnOnce(StructuralTag) -> Result<Value, String>>(
    encode: F,
) -> bool {
    forall|
        left: StructuralTag,
        right: StructuralTag,
        left_encoded: Result<Value, String>,
        right_encoded: Result<Value, String>,
    |
        left@ == right@ && #[trigger] encode.ensures((left,), left_encoded)
            && #[trigger] encode.ensures((right,), right_encoded) ==> same_encoding(
            left_encoded,
            right_encoded,
        )
}

/// What comes of a request is settled by the request and by what its tag is encoded as.
pub proof fn settling_is_determined<T>(
    before: PreprocessedRequest,
    left_after: PreprocessedRequest,
    right_after: PreprocessedRequest,
    left_encoded: Result<Value, String>,
    right_encoded: Result<Value, String>,
    done: T,
    failure: Seq<char>,
    left: Result<T, DynamoError>,
    right: Result<T, DynamoError>,
)
    requires
        same_encoding(left_encoded, right_encoded),
        settled(before, left_after, left_encoded, done, failure, left),
        settled(before, right_after, right_encoded, done, failure, right),
    ensures
        left_after == right_after,
        same_result(left, right),
{
}

/// To settle the same encoding a second time changes nothing and gives the same result.
pub proof fn settling_twice_changes_nothing<T>(
    before: PreprocessedRequest,
    after: PreprocessedRequest,
    again: PreprocessedRequest,
    first_encoded: Result<Value, String>,
    second_encoded: Result<Value, String>,
    done: T,
    failure: Seq<char>,
    first: Result<T, DynamoError>,
    second: Result<T, DynamoError>,
)
    requires
        same_encoding(first_encoded, second_encoded),
        settled(before, after, first_encoded, done, failure, first),
        settled(after, again, second_encoded, done, failure, second),
    ensures
        again == after,
        same_result(first, second),
{
}

/// Calling `apply_tool_call_ban` again, with an encoder that goes by the tag alone, returns the
/// same and leaves the request as it was after the first call.
pub proof fn banning_twice_changes_nothing<F: FnOnce(StructuralTag) -> Result<Value, String>>(
    builder: StructuralTagBuilder,
    encode: F,
    before: PreprocessedRequest,
    after: PreprocessedRequest,
    again: PreprocessedRequest,
    first: Result<bool, DynamoError>,
    second: Result<bool, DynamoError>,
)
    requires
        encodes_by_tag(encode),
        ban_outcome(builder, encode, before, after, first),
        ban_outcome(builder, encode, after, again, second),
    ensures
        again == after,
        same_result(first, second),
{
}

/// Calling `apply_tool_call_format` again, with an encoder that goes by the tag alone, returns
/// the same and leaves the request as it was after the first call.
pub proof fn guiding_twice_changes_nothing<F: FnOnce(StructuralTag) -> Result<Value, String>>(
    parser_name: Seq<char>,
    builder: StructuralTagBuilder,
    ctx: ContextModel,
    encode: F,
    before: PreprocessedRequest,
    after: PreprocessedRequest,
    again: PreprocessedRequest,
    first: Result<bool, DynamoError>,
    second: Result<bool, DynamoError>,
)
    requires
        encodes_by_tag(encode),
        format_outcome(parser_name, builder, ctx, encode, before, after, first),
        format_outcome(parser_name, builder, ctx, encode, after, again, second),
    ensures
        again == after,
        same_result(first, second),
{
}

/// Calling `try_apply_structural_tag` again with the same chat request, and an encoder that goes
/// by the tag alone, returns the same and leaves the request as it was after the first call.
pub proof fn applying_twice_changes_nothing<F: FnOnce(StructuralTag) -> Result<Value, String>>(
    preprocessor: OpenAIPreprocessor,
    request: NvCreateChatCompletionRequest,
    reasoning: bool,
    encode: F,
    before: PreprocessedRequest,
    after: PreprocessedRequest,
    again: PreprocessedRequest,
    first: Result<StructuralTagApplyResult, DynamoError>,
    second: Result<StructuralTagApplyResult, DynamoError>,
)
    requires
        encodes_by_tag(encode),
        preprocessor.outcome(request, reasoning, encode, before, after, first),
        preprocessor.outcome(request, reasoning, encode, after, again, second),
    ensures
        again == after,
        same_result(first, second),
{
}

/// Two chat requests that call for the same get the same: with an encoder that goes by the tag
/// alone, `try_apply_structural_tag` returns the same for both and leaves equal requests.
pub proof fn same_decision_same_outcome<F: FnOnce(StructuralTag) -> Result<Value, String>>(
    preprocessor: OpenAIPreprocessor,
    left_request: NvCreateChatCompletionRequest,
    right_request: NvCreateChatCompletionRequest,
    reasoning: bool,
    encode: F,
    before: PreprocessedRequest,
    left_after: PreprocessedRequest,
    right_after: PreprocessedRequest,
    left: Result<StructuralTagApplyResult, DynamoError>,
    right: Result<StructuralTagApplyResult, DynamoError>,
)
    requires
        encodes_by_tag(encode),
        preprocessor.decision(left_request, before.constrained(), reasoning)
            == preprocessor.decision(right_request, before.constrained(), reasoning),
        preprocessor.outcome(left_request, reasoning, encode, before, left_after, left),
        preprocessor.outcome(right_request, reasoning, encode, before, right_after, right),
    ensures
        left_after == right_after,
        same_result(left, right),
{
}

/// To leave out the tool choice is to choose `auto`, and to leave out the tools is to offer
/// none: with an encoder that goes by the tag alone, `try_apply_structural_tag` returns the same
/// either way and leaves equal requests.
pub proof fn omissions_change_no_outcome<F: FnOnce(StructuralTag) -> Result<Value, String>>(
    preprocessor: OpenAIPreprocessor,
    short: NvCreateChatCompletionRequest,
    full: NvCreateChatCompletionRequest,
    reasoning: bool,
    encode: F,
    before: PreprocessedRequest,
    short_after: PreprocessedRequest,
    full_after: PreprocessedRequest,
    short_result: Result<StructuralTagApplyResult, DynamoError>,
    full_result: Result<StructuralTagApplyResult, DynamoError>,
)
    requires
        encodes_by_tag(encode),
        spells_out(full, short),
        preprocessor.outcome(short, reasoning, encode, before, short_after, short_result),
        preprocessor.outcome(full, reasoning, encode, before, full_after, full_result),
    ensures
        short_after == full_after,
        same_result(short_result, full_result),
{
    omissions_have_defaults(preprocessor, short, full, before.constrained(), reasoning);
    same_decision_same_outcome(
        preprocessor,
        short,
        full,
        reasoning,
        encode,
        before,
        short_after,
        full_after,
        short_result,
        full_result,
    );
}

} // verus!
