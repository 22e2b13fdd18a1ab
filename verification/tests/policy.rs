use serde_json::Value;
use structural_tag::builder::{
    DsmlToolCallsConfig, StructuralTagBuilder, StructuralTagSchemaMode,
    ToolCallFormatBuildContext, TriggeredTagsConfig,
};
use structural_tag::chat::{
    ChatCompletionNamedToolChoice, ChatCompletionTool, ChatCompletionToolChoiceOption,
    FunctionName, FunctionObject,
};
use structural_tag::config::{
    ModelRuntimeConfig, StructuralTagMode, StructuralTagScope, ToolCallConfig, ToolParserMap,
};
use structural_tag::error::{invalid_argument, DynamoError, ErrorType};
use structural_tag::format::{Format, StructuralTag};
use structural_tag::preprocessor::{OpenAIPreprocessor, StructuralTagApplyResult};
use structural_tag::request::{
    CreateChatCompletionRequest, GuidedDecodingOptions, NvCreateChatCompletionRequest,
    PreprocessedRequest, SamplingOptions,
};

const CONFLICT: &str = "response_format cannot be used in the same request as \
                        tool_choice=\"required\" or a named tool_choice.";

fn tool(name: &str, strict: Option<bool>) -> ChatCompletionTool {
    ChatCompletionTool {
        function: FunctionObject { name: name.to_string(), parameters: None, strict },
    }
}

fn named(name: &str) -> ChatCompletionToolChoiceOption {
    ChatCompletionToolChoiceOption::Named(ChatCompletionNamedToolChoice {
        function: FunctionName { name: name.to_string() },
    })
}

fn preprocessor(
    mode: StructuralTagMode,
    scope: StructuralTagScope,
    parser: Option<&str>,
) -> OpenAIPreprocessor {
    let mut tool_parsers = ToolParserMap::new();
    tool_parsers.insert(
        "hermes".to_string(),
        ToolCallConfig {
            structural_tag_builder: Some(StructuralTagBuilder::TriggeredTags(
                TriggeredTagsConfig { tool_call_ban_tokens: vec!["<tool_call>".to_string()] },
            )),
        },
    );
    tool_parsers.insert(
        "deepseek".to_string(),
        ToolCallConfig {
            structural_tag_builder: Some(StructuralTagBuilder::DsmlToolCalls(
                DsmlToolCallsConfig { tool_call_ban_tokens: vec![] },
            )),
        },
    );
    tool_parsers.insert("plain".to_string(), ToolCallConfig { structural_tag_builder: None });
    OpenAIPreprocessor {
        runtime_config: ModelRuntimeConfig {
            structural_tag_mode: mode,
            structural_tag_scope: scope,
            structural_tag_schema: StructuralTagSchemaMode::Auto,
        },
        tool_call_parser: parser.map(|p| p.to_string()),
        tool_parsers,
    }
}

fn wide() -> OpenAIPreprocessor {
    preprocessor(StructuralTagMode::On, StructuralTagScope::Always, Some("hermes"))
}

fn narrow() -> OpenAIPreprocessor {
    preprocessor(StructuralTagMode::On, StructuralTagScope::Auto, Some("hermes"))
}

fn request(
    tool_choice: Option<ChatCompletionToolChoiceOption>,
    tools: Vec<ChatCompletionTool>,
    parallel_tool_calls: Option<bool>,
) -> NvCreateChatCompletionRequest {
    NvCreateChatCompletionRequest {
        inner: CreateChatCompletionRequest {
            tool_choice,
            tools: Some(tools),
            parallel_tool_calls,
        },
    }
}

fn fresh() -> PreprocessedRequest {
    PreprocessedRequest { sampling_options: SamplingOptions { guided_decoding: None } }
}

fn constrained() -> PreprocessedRequest {
    PreprocessedRequest {
        sampling_options: SamplingOptions {
            guided_decoding: Some(GuidedDecodingOptions {
                user_constraint: true,
                structural_tag: None,
            }),
        },
    }
}

fn tag_of(request: &PreprocessedRequest) -> Option<Value> {
    request.sampling_options.guided_decoding.as_ref().and_then(|gd| gd.structural_tag.clone())
}

fn encode(tag: StructuralTag) -> Result<Value, String> {
    match tag.format {
        Format::ToolCalls(calls) => Ok(Value::String(
            calls.tags.iter().map(|t| t.name.clone()).collect::<Vec<_>>().join(","),
        )),
        Format::Tag(tag) => match *tag.content {
            Format::AnyTokens(any) => Ok(Value::String(format!("!{}", any.exclude_tokens.join(",")))),
            _ => Err("unexpected content".to_string()),
        },
        Format::AnyTokens(_) => Err("unexpected format".to_string()),
    }
}

fn apply(
    preprocessor: &OpenAIPreprocessor,
    request: &NvCreateChatCompletionRequest,
    common: &mut PreprocessedRequest,
) -> Result<StructuralTagApplyResult, DynamoError> {
    preprocessor.try_apply_structural_tag(request, common, false, encode)
}

fn expect_skip(
    preprocessor: &OpenAIPreprocessor,
    request: &NvCreateChatCompletionRequest,
    mut common: PreprocessedRequest,
) {
    let before = common.has_user_constraint();
    let applied = apply(preprocessor, request, &mut common).unwrap();
    assert_eq!(applied, StructuralTagApplyResult::NotApplied);
    assert_eq!(tag_of(&common), None);
    assert_eq!(common.has_user_constraint(), before);
}

fn expect_refusal(
    request: &NvCreateChatCompletionRequest,
    mut common: PreprocessedRequest,
    message: &str,
) {
    let error = apply(&wide(), request, &mut common).unwrap_err();
    assert_eq!(error.error_type, ErrorType::InvalidArgument);
    assert_eq!(error.message, message);
    assert_eq!(tag_of(&common), None);
}

#[test]
fn invalid_argument_blames_the_request() {
    let error = invalid_argument("no".to_string());
    assert_eq!(error.error_type, ErrorType::InvalidArgument);
    assert_eq!(error.message, "no");
}

#[test]
fn parsers_are_found_by_name() {
    let mut parsers = ToolParserMap::new();
    assert!(parsers.get("x").is_none());
    parsers.insert("x".to_string(), ToolCallConfig { structural_tag_builder: None });
    assert!(parsers.get("x").is_some());
    assert!(parsers.get("y").is_none());
}

#[test]
fn builders_are_found_for_parsers_that_have_one() {
    let pre = wide();
    assert!(matches!(
        pre.structural_tag_builder_for_parser("hermes"),
        Some(StructuralTagBuilder::TriggeredTags(_))
    ));
    assert!(matches!(
        pre.structural_tag_builder_for_parser("deepseek"),
        Some(StructuralTagBuilder::DsmlToolCalls(_))
    ));
    assert!(pre.structural_tag_builder_for_parser("plain").is_none());
    assert!(pre.structural_tag_builder_for_parser("unknown").is_none());
}

#[test]
fn setting_a_tag_keeps_the_constraint_and_replaces_the_tag() {
    let mut common = fresh();
    common.set_structural_tag(Value::Bool(false));
    assert_eq!(tag_of(&common), Some(Value::Bool(false)));
    assert!(!common.has_user_constraint());
    common.set_structural_tag(Value::Null);
    assert_eq!(tag_of(&common), Some(Value::Null));
    let mut common = constrained();
    common.set_structural_tag(Value::Null);
    assert!(common.has_user_constraint());
}

#[test]
fn default_guidance_is_none() {
    let options = GuidedDecodingOptions::default();
    assert!(!options.has_user_constraint());
    assert!(options.structural_tag.is_none());
}

#[test]
fn nothing_happens_when_tags_are_off() {
    let pre = preprocessor(StructuralTagMode::Off, StructuralTagScope::Always, Some("hermes"));
    expect_skip(&pre, &request(Some(ChatCompletionToolChoiceOption::Required), vec![], None), fresh());
}

#[test]
fn nothing_happens_without_a_parser() {
    let pre = preprocessor(StructuralTagMode::On, StructuralTagScope::Always, None);
    expect_skip(&pre, &request(Some(named("x")), vec![], None), fresh());
}

#[test]
fn nothing_happens_without_a_builder() {
    for parser in ["plain", "unknown"] {
        let pre = preprocessor(StructuralTagMode::On, StructuralTagScope::Always, Some(parser));
        let forced = request(
            Some(ChatCompletionToolChoiceOption::Required),
            vec![tool("a", Some(true))],
            None,
        );
        expect_skip(&pre, &forced, fresh());
    }
}

#[test]
fn forbidden_calls_are_banned() {
    let mut common = fresh();
    let forbidden =
        request(Some(ChatCompletionToolChoiceOption::Forbidden), vec![tool("a", None)], None);
    let applied = apply(&narrow(), &forbidden, &mut common).unwrap();
    assert_eq!(applied, StructuralTagApplyResult::ToolCallBan);
    assert_eq!(tag_of(&common), Some(Value::String("!<tool_call>".to_string())));
}

#[test]
fn no_ban_where_none_is_needed() {
    let forbidden = |tools| request(Some(ChatCompletionToolChoiceOption::Forbidden), tools, None);
    expect_skip(&wide(), &forbidden(vec![tool("a", None)]), constrained());
    expect_skip(&wide(), &forbidden(vec![]), fresh());
    let no_tokens = preprocessor(StructuralTagMode::On, StructuralTagScope::Always, Some("deepseek"));
    expect_skip(&no_tokens, &forbidden(vec![tool("a", None)]), fresh());
}

#[test]
fn auto_calls_are_guided_in_the_wide_scope() {
    let mut common = fresh();
    let auto = request(None, vec![tool("a", None), tool("b", None)], None);
    let applied = apply(&wide(), &auto, &mut common).unwrap();
    assert_eq!(applied, StructuralTagApplyResult::ToolCallFormat);
    assert_eq!(tag_of(&common), Some(Value::String("a,b".to_string())));
}

#[test]
fn auto_calls_are_guided_in_the_narrow_scope_on_request() {
    let lax = request(None, vec![tool("a", None)], Some(true));
    expect_skip(&narrow(), &lax, fresh());
    for (strict, parallel) in [(Some(true), None), (Some(false), Some(false))] {
        let mut common = fresh();
        let asked = request(None, vec![tool("a", strict)], parallel);
        let applied = apply(&narrow(), &asked, &mut common).unwrap();
        assert_eq!(applied, StructuralTagApplyResult::ToolCallFormat);
    }
}

#[test]
fn auto_calls_give_way_to_a_user_constraint() {
    expect_skip(&wide(), &request(None, vec![tool("a", Some(true))], Some(false)), constrained());
}

#[test]
fn auto_calls_without_tools_are_left_alone() {
    expect_skip(&wide(), &request(None, vec![], Some(false)), fresh());
    let bare = NvCreateChatCompletionRequest {
        inner: CreateChatCompletionRequest {
            tool_choice: None,
            tools: None,
            parallel_tool_calls: None,
        },
    };
    expect_skip(&wide(), &bare, fresh());
}

#[test]
fn forced_calls_are_guided_in_any_scope() {
    let required =
        request(Some(ChatCompletionToolChoiceOption::Required), vec![tool("a", None)], None);
    let one = request(Some(named("b")), vec![tool("a", None), tool("b", None)], None);
    for (forced, expected) in [(required, "a"), (one, "b")] {
        let mut common = fresh();
        let applied = apply(&narrow(), &forced, &mut common).unwrap();
        assert_eq!(applied, StructuralTagApplyResult::ToolCallFormat);
        assert_eq!(tag_of(&common), Some(Value::String(expected.to_string())));
    }
}

#[test]
fn required_calls_without_tools_are_refused() {
    let required = request(Some(ChatCompletionToolChoiceOption::Required), vec![], None);
    expect_refusal(&required, fresh(), "tool_choice is \"required\" but tools is empty");
    let required = request(Some(ChatCompletionToolChoiceOption::Required), vec![], None);
    expect_refusal(&required, constrained(), "tool_choice is \"required\" but tools is empty");
}

#[test]
fn missing_named_tools_are_refused() {
    let missing = request(Some(named("x")), vec![tool("a", None)], None);
    let message = "tool named \"x\" in tool_choice is not present in tools";
    expect_refusal(&missing, fresh(), message);
    expect_refusal(&missing, constrained(), message);
}

#[test]
fn forced_calls_conflict_with_a_user_constraint() {
    let required =
        request(Some(ChatCompletionToolChoiceOption::Required), vec![tool("a", None)], None);
    expect_refusal(&required, constrained(), CONFLICT);
    expect_refusal(&request(Some(named("a")), vec![tool("a", None)], None), constrained(), CONFLICT);
}

#[test]
fn failures_to_encode_are_reported() {
    let mut common = fresh();
    let forced =
        request(Some(ChatCompletionToolChoiceOption::Required), vec![tool("a", None)], None);
    let error = wide()
        .try_apply_structural_tag(&forced, &mut common, false, |_| Err("too deep".to_string()))
        .unwrap_err();
    assert_eq!(error.error_type, ErrorType::Unknown);
    assert_eq!(error.message, "failed to build structural_tag for parser 'hermes': too deep");
    assert_eq!(tag_of(&common), None);

    let forbidden =
        request(Some(ChatCompletionToolChoiceOption::Forbidden), vec![tool("a", None)], None);
    let error = wide()
        .try_apply_structural_tag(&forbidden, &mut common, false, |_| Err("too deep".to_string()))
        .unwrap_err();
    assert_eq!(error.error_type, ErrorType::Unknown);
    assert_eq!(error.message, "failed to build tool-call ban structural tag: too deep");
    assert_eq!(tag_of(&common), None);
}

#[test]
fn failures_to_build_are_reported() {
    let builder = StructuralTagBuilder::DsmlToolCalls(DsmlToolCallsConfig {
        tool_call_ban_tokens: vec![],
    });
    let choice = ChatCompletionToolChoiceOption::Required;
    let ctx = ToolCallFormatBuildContext {
        tool_choice: &choice,
        tools: &[],
        parallel_tool_calls: None,
        schema_mode: StructuralTagSchemaMode::Auto,
        starts_in_reasoning: false,
    };
    let mut common = fresh();
    let error =
        OpenAIPreprocessor::apply_tool_call_format("deepseek", &builder, &ctx, &mut common, encode)
            .unwrap_err();
    assert_eq!(error.error_type, ErrorType::Unknown);
    assert_eq!(
        error.message,
        "failed to build structural_tag for parser 'deepseek': \
         tool_choice is \"required\" but tools is empty"
    );
    assert_eq!(tag_of(&common), None);
}

#[test]
fn applying_says_whether_it_did() {
    let builder = StructuralTagBuilder::DsmlToolCalls(DsmlToolCallsConfig {
        tool_call_ban_tokens: vec![],
    });
    let mut common = fresh();
    assert!(!OpenAIPreprocessor::apply_tool_call_ban(&builder, &mut common, encode).unwrap());
    assert_eq!(tag_of(&common), None);
    let builder = StructuralTagBuilder::DsmlToolCalls(DsmlToolCallsConfig {
        tool_call_ban_tokens: vec!["z".to_string()],
    });
    assert!(OpenAIPreprocessor::apply_tool_call_ban(&builder, &mut common, encode).unwrap());
    assert_eq!(tag_of(&common), Some(Value::String("!z".to_string())));
}

#[test]
fn choices_that_force_nothing_are_valid() {
    for choice in [ChatCompletionToolChoiceOption::Forbidden, ChatCompletionToolChoiceOption::Auto] {
        assert!(OpenAIPreprocessor::validate_tool_choice(&choice, &[], true).is_ok());
    }
    let tools = [tool("a", None)];
    assert!(OpenAIPreprocessor::validate_tool_choice(&named("a"), &tools, false).is_ok());
}

#[test]
fn scopes_differ_for_lax_requests_alone() {
    let auto = ChatCompletionToolChoiceOption::Auto;
    let lax = [tool("a", None)];
    let strict = [tool("a", Some(true))];
    let should = OpenAIPreprocessor::should_apply_tool_call_format;
    assert!(should(StructuralTagScope::Always, &auto, &lax, None));
    assert!(!should(StructuralTagScope::Auto, &auto, &lax, None));
    assert!(!should(StructuralTagScope::Auto, &auto, &lax, Some(true)));
    assert!(should(StructuralTagScope::Auto, &auto, &lax, Some(false)));
    assert!(should(StructuralTagScope::Auto, &auto, &strict, None));
    let forbidden = ChatCompletionToolChoiceOption::Forbidden;
    assert!(!should(StructuralTagScope::Always, &forbidden, &strict, Some(false)));
    assert!(should(StructuralTagScope::Auto, &ChatCompletionToolChoiceOption::Required, &[], None));
    assert!(should(StructuralTagScope::Auto, &named("x"), &[], None));
}

#[test]
fn reasoning_reaches_the_tag() {
    for reasoning in [false, true] {
        let mut common = fresh();
        let auto = request(None, vec![tool("a", None)], None);
        wide()
            .try_apply_structural_tag(&auto, &mut common, reasoning, |tag| match tag.format {
                Format::ToolCalls(calls) => Ok(Value::Bool(calls.starts_in_reasoning)),
                _ => Err("unexpected format".to_string()),
            })
            .unwrap();
        assert_eq!(tag_of(&common), Some(Value::Bool(reasoning)));
    }
}

#[test]
fn applying_twice_gives_the_same_tag() {
    let mut common = fresh();
    let auto = request(None, vec![tool("a", None)], None);
    apply(&wide(), &auto, &mut common).unwrap();
    let first = tag_of(&common);
    let again = apply(&wide(), &auto, &mut common).unwrap();
    assert_eq!(again, StructuralTagApplyResult::ToolCallFormat);
    assert_eq!(tag_of(&common), first);
}

#[test]
fn banning_twice_gives_the_same_tag() {
    let builder = StructuralTagBuilder::TriggeredTags(TriggeredTagsConfig {
        tool_call_ban_tokens: vec!["x".to_string(), "y".to_string()],
    });
    let mut common = fresh();
    assert!(OpenAIPreprocessor::apply_tool_call_ban(&builder, &mut common, encode).unwrap());
    let first = tag_of(&common);
    assert!(OpenAIPreprocessor::apply_tool_call_ban(&builder, &mut common, encode).unwrap());
    assert_eq!(tag_of(&common), first);
    assert_eq!(first, Some(Value::String("!x,y".to_string())));

    let fail = |_: StructuralTag| Err("too deep".to_string());
    let error = OpenAIPreprocessor::apply_tool_call_ban(&builder, &mut common, fail).unwrap_err();
    let again = OpenAIPreprocessor::apply_tool_call_ban(&builder, &mut common, fail).unwrap_err();
    assert_eq!(error.message, again.message);
    assert_eq!(tag_of(&common), first);
}

#[test]
fn guiding_twice_gives_the_same_tag() {
    let builder = StructuralTagBuilder::DsmlToolCalls(DsmlToolCallsConfig {
        tool_call_ban_tokens: vec![],
    });
    let choice = ChatCompletionToolChoiceOption::Auto;
    let tools = vec![tool("a", None), tool("b", None)];
    let ctx = ToolCallFormatBuildContext {
        tool_choice: &choice,
        tools: &tools,
        parallel_tool_calls: None,
        schema_mode: StructuralTagSchemaMode::Auto,
        starts_in_reasoning: false,
    };
    let mut common = fresh();
    for _ in 0..2 {
        let applied = OpenAIPreprocessor::apply_tool_call_format(
            "deepseek", &builder, &ctx, &mut common, encode,
        );
        assert!(applied.unwrap());
        assert_eq!(tag_of(&common), Some(Value::String("a,b".to_string())));
    }
}

#[test]
fn omissions_give_the_same_outcome() {
    let auto = || Some(ChatCompletionToolChoiceOption::Auto);
    for tools in [vec![], vec!["a", "b"]] {
        let tools = || tools.iter().map(|name| tool(name, None)).collect::<Vec<_>>();
        for start in [fresh, constrained] {
            let mut short = start();
            let mut full = start();
            let short_result = apply(&wide(), &request(None, tools(), None), &mut short).unwrap();
            let full_result = apply(&wide(), &request(auto(), tools(), None), &mut full).unwrap();
            assert_eq!(short_result, full_result);
            assert_eq!(tag_of(&short), tag_of(&full));
        }
    }
    for choice in [
        ChatCompletionToolChoiceOption::Required,
        ChatCompletionToolChoiceOption::Forbidden,
    ] {
        let mut bare = request(Some(choice), vec![], None);
        let with_list = apply(&wide(), &bare, &mut fresh()).map_err(|e| e.message);
        bare.inner.tools = None;
        let without_list = apply(&wide(), &bare, &mut fresh()).map_err(|e| e.message);
        assert_eq!(with_list, without_list);
    }
}
