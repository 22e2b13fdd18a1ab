//! The policy: which requests get a structural tag, and which.

use serde_json::Value;
use vstd::prelude::*;
use vstd::string::StringExecFns;

use crate::builder::{ban_format, ContextModel, StructuralTagBuilder, ToolCallFormatBuildContext};
use crate::chat::{
    any_strict, find_tool, has_strict_tool, has_tool, ChatCompletionTool,
    ChatCompletionToolChoiceOption,
};
use crate::config::{ModelRuntimeConfig, StructuralTagMode, StructuralTagScope, ToolParserMap};
use crate::error::{invalid_argument, BuildError, BuildErrorModel, DynamoError, ErrorType};
use crate::format::{FormatModel, StructuralTag};
use crate::request::{NvCreateChatCompletionRequest, PreprocessedRequest};

verus! {

/// What was done to a request.
#[derive(Debug, Clone, Copy, PartialEq, Eq, Structural)]
pub enum StructuralTagApplyResult {
    /// Nothing.
    NotApplied,
    /// It got a tag that forbids tool calls; there will be no calls to parse.
    ToolCallBan,
    /// It got a tag that guides tool calls; the output is to be parsed for calls.
    ToolCallFormat,
}

/// What a request calls for.
pub enum Decision {
    /// No structural tag.
    Skip,
    /// An error with this text.
    Refuse(Seq<char>),
    /// A tag of this format, which forbids tool calls.
    Ban(FormatModel),
    /// A tag of this format, which guides tool calls.
    Guide(FormatModel),
}

/// The text that refuses a forced tool call beside a constraint of the user's.
pub open spec fn conflict_text() -> Seq<char> {
    "response_format cannot be used in the same request as tool_choice=\"required\" or a named tool_choice."@
}

/// The text that a failure to build the tag that forbids tool calls begins with.
pub open spec fn ban_failure_text() -> Seq<char> {
    "failed to build tool-call ban structural tag: "@
}

/// The text that a failure to build a tag for the named parser begins with.
pub open spec fn format_failure_text(parser_name: Seq<char>) -> Seq<char> {
    "failed to build structural_tag for parser '"@ + parser_name + "': "@
}

/// The text that refuses a request, where its tool choice forces a call that cannot be made or
/// that the user's own constraint rules out.
pub open spec fn refusal(
    tool_choice: ChatCompletionToolChoiceOption,
    tools: Seq<ChatCompletionTool>,
    constrained: bool,
) -> Option<Seq<char>> {
    match tool_choice {
        ChatCompletionToolChoiceOption::Forbidden => None,
        ChatCompletionToolChoiceOption::Auto => None,
        ChatCompletionToolChoiceOption::Required => if tools.len() == 0 {
            Some(BuildErrorModel::RequiredWithoutTools.text())
        } else if constrained {
            Some(conflict_text())
        } else {
            None
        },
        ChatCompletionToolChoiceOption::Named(named) => if !has_tool(
            tools,
            named.function.name@,
        ) {
            Some(BuildErrorModel::NamedToolMissing(named.function.name@).text())
        } else if constrained {
            Some(conflict_text())
        } else {
            None
        },
    }
}

/// Tool calls are guided: always where one is forced, never where none may be made, and where
/// the model decides, if the scope is wide, some tool is strict or a single call is asked for.
pub open spec fn guides_calls(
    scope: StructuralTagScope,
    tool_choice: ChatCompletionToolChoiceOption,
    tools: Seq<ChatCompletionTool>,
    parallel_tool_calls: Option<bool>,
) -> bool {
    match tool_choice {
        ChatCompletionToolChoiceOption::Forbidden => false,
        ChatCompletionToolChoiceOption::Required => true,
        ChatCompletionToolChoiceOption::Named(_) => true,
        ChatCompletionToolChoiceOption::Auto => {
            ||| scope == StructuralTagScope::Always
            ||| has_strict_tool(tools)
            ||| parallel_tool_calls == Some(false)
        },
    }
}

/// `result` and `after` are what comes of a request once its tag has been encoded: the encoded
/// tag is set and nothing else changes, or, where there is none, the failure is reported and
/// nothing changes at all.
pub open spec fn settled<T>(
    before: PreprocessedRequest,
    after: PreprocessedRequest,
    encoded: Result<Value, String>,
    done: T,
    failure: Seq<char>,
    result: Result<T, DynamoError>,
) -> bool {
    match encoded {
        Ok(value) => {
            &&& result == Ok::<T, DynamoError>(done)
            &&& after == before.with_structural_tag(value)
        },
        Err(text) => {
            &&& result is Err
            &&& result->Err_0@ == (ErrorType::Unknown, failure + text@)
            &&& after == before
        },
    }
}

/// `result` and `after` are what comes of a request whose tag has this format: a tag of the
/// format is handed to `encode`, and what comes back is settled.
pub open spec fn encoded_outcome<F: FnOnce(StructuralTag) -> Result<Value, String>, T>(
    encode: F,
    format: FormatModel,
    before: PreprocessedRequest,
    after: PreprocessedRequest,
    done: T,
    failure: Seq<char>,
    result: Result<T, DynamoError>,
) -> bool {
    exists|tag: StructuralTag, encoded: Result<Value, String>|
        {
            &&& tag@ == format
            &&& #[trigger] encode.ensures((tag,), encoded)
            &&& settled(before, after, encoded, done, failure, result)
        }
}

/// `result` and `after` are what comes of applying the tag that forbids tool calls.
pub open spec fn ban_outcome<F: FnOnce(StructuralTag) -> Result<Value, String>>(
    builder: StructuralTagBuilder,
    encode: F,
    before: PreprocessedRequest,
    after: PreprocessedRequest,
    result: Result<bool, DynamoError>,
) -> bool {
    if builder.banned().len() == 0 {
        &&& result == Ok::<bool, DynamoError>(false)
        &&& after == before
    } else {
        encoded_outcome(
            encode,
            ban_format(builder.banned()),
            before,
            after,
            true,
            ban_failure_text(),
            result,
        )
    }
}

/// `result` and `after` are what comes of building and applying the tag that guides tool calls.
pub open spec fn format_outcome<F: FnOnce(StructuralTag) -> Result<Value, String>>(
    parser_name: Seq<char>,
    builder: StructuralTagBuilder,
    ctx: ContextModel,
    encode: F,
    before: PreprocessedRequest,
    after: PreprocessedRequest,
    result: Result<bool, DynamoError>,
) -> bool {
    match builder.tool_call_format(ctx) {
        Err(error) => {
            &&& result is Err
            &&& result->Err_0@ == (
                ErrorType::Unknown,
                format_failure_text(parser_name) + error.text(),
            )
            &&& after == before
        },
        Ok(None) => {
            &&& result == Ok::<bool, DynamoError>(false)
            &&& after == before
        },
        Ok(Some(format)) => encoded_outcome(
            encode,
            format,
            before,
            after,
            true,
            format_failure_text(parser_name),
            result,
        ),
    }
}

/// Prepares chat requests for the engine.
pub struct OpenAIPreprocessor {
    /// The settings of the model.
    pub runtime_config: ModelRuntimeConfig,
    /// The parser that finds the tool calls in the output, where one is set.
    pub tool_call_parser: Option<String>,
    /// The parsers there are.
    pub tool_parsers: ToolParserMap,
}

impl OpenAIPreprocessor {
    /// The builder of a parser: there is one where the parser is known and has one.
    pub open spec fn builder_for(self, parser_name: Seq<char>) -> Option<StructuralTagBuilder> {
        if self.tool_parsers@.contains_key(parser_name) {
            self.tool_parsers@[parser_name].structural_tag_builder
        } else {
            None
        }
    }

    /// The builder in use: there is one where structural tags are on, a parser is set and the
    /// parser has a builder.
    pub open spec fn active_builder(self) -> Option<StructuralTagBuilder> {
        match self.tool_call_parser {
            Some(parser_name) => if self.runtime_config.structural_tag_mode
                == StructuralTagMode::Off {
                None
            } else {
                self.builder_for(parser_name@)
            },
            None => None,
        }
    }

    /// The request in the terms of the builder.
    pub open spec fn context(
        self,
        request: NvCreateChatCompletionRequest,
        prompt_injected_reasoning: bool,
    ) -> ContextModel {
        ContextModel {
            tool_choice: request.choice(),
            tools: request.offered(),
            parallel_tool_calls: request.inner.parallel_tool_calls,
            schema_mode: self.runtime_config.structural_tag_schema,
            starts_in_reasoning: prompt_injected_reasoning,
        }
    }

    /// What a request calls for. A constraint of the user's own comes before a tag that is not
    /// forced, and conflicts with one that is.
    pub open spec fn decision(
        self,
        request: NvCreateChatCompletionRequest,
        constrained: bool,
        prompt_injected_reasoning: bool,
    ) -> Decision {
        let choice = request.choice();
        let tools = request.offered();
        match self.active_builder() {
            None => Decision::Skip,
            Some(builder) => if choice is Forbidden {
                if constrained || tools.len() == 0 || builder.banned().len() == 0 {
                    Decision::Skip
                } else {
                    Decision::Ban(ban_format(builder.banned()))
                }
            } else {
                match refusal(choice, tools, constrained) {
                    Some(text) => Decision::Refuse(text),
                    None => if constrained || tools.len() == 0 || !guides_calls(
                        self.runtime_config.structural_tag_scope,
                        choice,
                        tools,
                        request.inner.parallel_tool_calls,
                    ) {
                        Decision::Skip
                    } else {
                        let ctx = self.context(request, prompt_injected_reasoning);
                        let (included, required) = ctx.included()->Ok_0;
                        Decision::Guide(builder.calls_of(ctx, included, required))
                    },
                }
            },
        }
    }

    /// `result` and `after` are what comes of the request `before` once what the chat request
    /// calls for has been done.
    pub open spec fn outcome<F: FnOnce(StructuralTag) -> Result<Value, String>>(
        self,
        request: NvCreateChatCompletionRequest,
        prompt_injected_reasoning: bool,
        encode: F,
        before: PreprocessedRequest,
        after: PreprocessedRequest,
        result: Result<StructuralTagApplyResult, DynamoError>,
    ) -> bool {
        match self.decision(request, before.constrained(), prompt_injected_reasoning) {
            Decision::Skip => {
                &&& result == Ok::<_, DynamoError>(StructuralTagApplyResult::NotApplied)
                &&& after == before
            },
            Decision::Refuse(text) => {
                &&& result is Err
                &&& result->Err_0@ == (ErrorType::InvalidArgument, text)
                &&& after == before
            },
            Decision::Ban(format) => encoded_outcome(
                encode,
                format,
                before,
                after,
                StructuralTagApplyResult::ToolCallBan,
                ban_failure_text(),
                result,
            ),
            Decision::Guide(format) => encoded_outcome(
                encode,
                format,
                before,
                after,
                StructuralTagApplyResult::ToolCallFormat,
                format_failure_text(self.tool_call_parser->Some_0@),
                result,
            ),
        }
    }

    /// Applies a structural tag to the request where it calls for one.
    ///
    /// `encode` turns a finished tag into the JSON document that the engine takes, or says why
    /// it cannot.
    pub fn try_apply_structural_tag<F: FnOnce(StructuralTag) -> Result<Value, String>>(
        &self,
        request: &NvCreateChatCompletionRequest,
        common_request: &mut PreprocessedRequest,
        prompt_injected_reasoning: bool,
        encode: F,
    ) -> (result: Result<StructuralTagApplyResult, DynamoError>)
        requires
            forall|tag: StructuralTag| #[trigger] encode.requires((tag,)),
        ensures
            self.outcome(
                *request,
                prompt_injected_reasoning,
                encode,
                *old(common_request),
                *final(common_request),
                result,
            ),
            final(common_request).constrained() == old(common_request).constrained(),
            result is Err || result->Ok_0 is NotApplied
                ==> *final(common_request) == *old(common_request),
            result is Ok && !(result->Ok_0 is NotApplied)
                ==> final(common_request).structural_tag() is Some,
            result is Err && result->Err_0.error_type == ErrorType::InvalidArgument
                <==> self.decision(
                *request,
                old(common_request).constrained(),
                prompt_injected_reasoning,
            ) is Refuse,
    {
        if self.runtime_config.structural_tag_mode == StructuralTagMode::Off {
            return Ok(StructuralTagApplyResult::NotApplied);
        }
        let parser_name: &str = match &self.tool_call_parser {
            Some(parser_name) => parser_name.as_str(),
            None => {
                return Ok(StructuralTagApplyResult::NotApplied);
            },
        };
        let builder: &StructuralTagBuilder = match self.structural_tag_builder_for_parser(
            parser_name,
        ) {
            Some(builder) => builder,
            None => {
                return Ok(StructuralTagApplyResult::NotApplied);
            },
        };

        let auto = ChatCompletionToolChoiceOption::Auto;
        let tool_choice: &ChatCompletionToolChoiceOption = match &request.inner.tool_choice {
            Some(tool_choice) => tool_choice,
            None => &auto,
        };
        let no_tools: Vec<ChatCompletionTool> = Vec::new();
        let tools: &[ChatCompletionTool] = match &request.inner.tools {
            Some(tools) => tools.as_slice(),
            None => no_tools.as_slice(),
        };

        let has_user_constraint: bool = common_request.has_user_constraint();

        match tool_choice {
            ChatCompletionToolChoiceOption::Forbidden => {
                // A response format already rules tool calls out.
                if has_user_constraint || tools.is_empty() {
                    return Ok(StructuralTagApplyResult::NotApplied);
                }
                return match Self::apply_tool_call_ban(builder, common_request, encode) {
                    Ok(true) => Ok(StructuralTagApplyResult::ToolCallBan),
                    Ok(false) => Ok(StructuralTagApplyResult::NotApplied),
                    Err(error) => Err(error),
                };
            },
            ChatCompletionToolChoiceOption::Auto => {
                // No call is forced, so the user's own constraint comes first.
                if has_user_constraint {
                    return Ok(StructuralTagApplyResult::NotApplied);
                }
            },
            ChatCompletionToolChoiceOption::Required
            | ChatCompletionToolChoiceOption::Named(_) => {
                match Self::validate_tool_choice(tool_choice, tools, has_user_constraint) {
                    Ok(()) => {},
                    Err(error) => {
                        return Err(error);
                    },
                }
            },
        }

        if !Self::should_apply_tool_call_format(
            self.runtime_config.structural_tag_scope,
            tool_choice,
            tools,
            request.inner.parallel_tool_calls,
        ) {
            return Ok(StructuralTagApplyResult::NotApplied);
        }
        let ctx = ToolCallFormatBuildContext {
            tool_choice,
            tools,
            parallel_tool_calls: request.inner.parallel_tool_calls,
            schema_mode: self.runtime_config.structural_tag_schema,
            starts_in_reasoning: prompt_injected_reasoning,
        };
        match Self::apply_tool_call_format(parser_name, builder, &ctx, common_request, encode) {
            Ok(true) => Ok(StructuralTagApplyResult::ToolCallFormat),
            Ok(false) => Ok(StructuralTagApplyResult::NotApplied),
            Err(error) => Err(error),
        }
    }

    /// Finds the builder of a parser.
    pub fn structural_tag_builder_for_parser(&self, parser_name: &str) -> (builder: Option<
        &StructuralTagBuilder,
    >)
        ensures
            builder is Some <==> self.builder_for(parser_name@) is Some,
            builder matches Some(found) ==> Some(*found) == self.builder_for(parser_name@),
            builder is Some <==> self.tool_parsers@.contains_key(parser_name@)
                && self.tool_parsers@[parser_name@].structural_tag_builder is Some,
            builder matches Some(found) ==> Some(*found)
                == self.tool_parsers@[parser_name@].structural_tag_builder,
    {
        match self.tool_parsers.get(parser_name) {
            Some(config) => config.structural_tag_builder.as_ref(),
            None => None,
        }
    }

    /// Applies the tag that forbids tool calls, if there is one, and says whether it did.
    pub fn apply_tool_call_ban<F: FnOnce(StructuralTag) -> Result<Value, String>>(
        builder: &StructuralTagBuilder,
        common_request: &mut PreprocessedRequest,
        encode: F,
    ) -> (result: Result<bool, DynamoError>)
        requires
            forall|tag: StructuralTag| #[trigger] encode.requires((tag,)),
        ensures
            ban_outcome(*builder, encode, *old(common_request), *final(common_request), result),
    {
        match builder.build_tool_call_ban() {
            Some(tag) => match encode(tag) {
                Ok(value) => {
                    common_request.set_structural_tag(value);
                    Ok(true)
                },
                Err(text) => {
                    let mut message = "failed to build tool-call ban structural tag: ".to_owned();
                    message.append(text.as_str());
                    Err(DynamoError { error_type: ErrorType::Unknown, message })
                },
            },
            None => Ok(false),
        }
    }

    /// Builds and applies the tag that guides tool calls, if one is needed, and says whether it
    /// did.
    pub fn apply_tool_call_format<F: FnOnce(StructuralTag) -> Result<Value, String>>(
        parser_name: &str,
        builder: &StructuralTagBuilder,
        ctx: &ToolCallFormatBuildContext<'_>,
        common_request: &mut PreprocessedRequest,
        encode: F,
    ) -> (result: Result<bool, DynamoError>)
        requires
            forall|tag: StructuralTag| #[trigger] encode.requires((tag,)),
        ensures
            format_outcome(
                parser_name@,
                *builder,
                ctx@,
                encode,
                *old(common_request),
                *final(common_request),
                result,
            ),
    {
        let encoded: Result<Value, String> = match builder.build_tool_call_format(ctx) {
            Ok(Some(tag)) => encode(tag),
            Ok(None) => {
                return Ok(false);
            },
            Err(error) => Err(error.message()),
        };
        match encoded {
            Ok(value) => {
                common_request.set_structural_tag(value);
                Ok(true)
            },
            Err(text) => {
                let mut message = "failed to build structural_tag for parser '".to_owned();
                message.append(parser_name);
                message.append("': ");
                message.append(text.as_str());
                Err(DynamoError { error_type: ErrorType::Unknown, message })
            },
        }
    }

    /// Checks requests that force a tool call.
    pub fn validate_tool_choice(
        tool_choice: &ChatCompletionToolChoiceOption,
        tools: &[ChatCompletionTool],
        has_user_constraint: bool,
    ) -> (result: Result<(), DynamoError>)
        ensures
            match refusal(*tool_choice, tools@, has_user_constraint) {
                Some(text) => {
                    &&& result is Err
                    &&& result->Err_0@ == (ErrorType::InvalidArgument, text)
                },
                None => result is Ok,
            },
            result is Err <==> {
                ||| *tool_choice is Required && (tools@.len() == 0 || has_user_constraint)
                ||| *tool_choice is Named && (has_user_constraint || forall|i: int|
                    0 <= i < tools@.len() ==> (#[trigger] tools@[i]).function.name@
                        != (*tool_choice)->Named_0.function.name@)
            },
            result matches Err(error) ==> error.error_type == ErrorType::InvalidArgument,
    {
        match tool_choice {
            ChatCompletionToolChoiceOption::Required => {
                if tools.is_empty() {
                    return Err(invalid_argument(BuildError::RequiredWithoutTools.message()));
                }
            },
            ChatCompletionToolChoiceOption::Named(named) => {
                if find_tool(tools, &named.function.name).is_none() {
                    let error = BuildError::NamedToolMissing(named.function.name.clone());
                    return Err(invalid_argument(error.message()));
                }
            },
            _ => {
                return Ok(());
            },
        }
        if has_user_constraint {
            return Err(
                invalid_argument(
                    "response_format cannot be used in the same request as tool_choice=\"required\" or a named tool_choice.".to_owned(),
                ),
            );
        }
        Ok(())
    }

    /// Decides whether a request gets a tag that guides tool calls.
    pub fn should_apply_tool_call_format(
        scope: StructuralTagScope,
        tool_choice: &ChatCompletionToolChoiceOption,
        tools: &[ChatCompletionTool],
        parallel_tool_calls: Option<bool>,
    ) -> (apply: bool)
        ensures
            apply == guides_calls(scope, *tool_choice, tools@, parallel_tool_calls),
            apply <==> {
                ||| *tool_choice is Required
                ||| *tool_choice is Named
                ||| *tool_choice is Auto && {
                    ||| scope == StructuralTagScope::Always
                    ||| parallel_tool_calls == Some(false)
                    ||| exists|i: int|
                        0 <= i < tools@.len() && (#[trigger] tools@[i]).function.strict == Some(
                            true,
                        )
                }
            },
    {
        match tool_choice {
            ChatCompletionToolChoiceOption::Forbidden => false,
            ChatCompletionToolChoiceOption::Required
            | ChatCompletionToolChoiceOption::Named(_) => true,
            ChatCompletionToolChoiceOption::Auto => match scope {
                StructuralTagScope::Always => true,
                StructuralTagScope::Auto => {
                    let explicit_single_call: bool = match parallel_tool_calls {
                        Some(parallel) => !parallel,
                        None => false,
                    };
                    any_strict(tools) || explicit_single_call
                },
            },
        }
    }
}

} // verus!
