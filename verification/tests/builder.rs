use serde_json::Value;
use structural_tag::builder::{
    resolve_tool_schema, resolve_tools_to_include, DsmlToolCallsConfig, StructuralTagBuilder,
    StructuralTagSchemaMode, ToolCallFormatBuildContext, TriggeredTagsConfig,
};
use structural_tag::chat::{
    any_strict, find_tool, ChatCompletionNamedToolChoice, ChatCompletionTool,
    ChatCompletionToolChoiceOption, FunctionName, FunctionObject,
};
use structural_tag::error::BuildError;
use structural_tag::format::{Format, StructuralTag, ToolCallFamily, ToolCallsFormat};

fn schema(text: &str) -> Value {
    serde_json::from_str(text).unwrap()
}

fn city_schema() -> Value {
    schema(r#"{"type":"object","properties":{"city":{"type":"string"}},"required":["city"]}"#)
}

fn tool(name: &str, parameters: Option<Value>, strict: Option<bool>) -> ChatCompletionTool {
    ChatCompletionTool { function: FunctionObject { name: name.to_string(), parameters, strict } }
}

fn named(name: &str) -> ChatCompletionToolChoiceOption {
    ChatCompletionToolChoiceOption::Named(ChatCompletionNamedToolChoice {
        function: FunctionName { name: name.to_string() },
    })
}

fn context<'a>(
    tool_choice: &'a ChatCompletionToolChoiceOption,
    tools: &'a [ChatCompletionTool],
) -> ToolCallFormatBuildContext<'a> {
    ToolCallFormatBuildContext {
        tool_choice,
        tools,
        parallel_tool_calls: None,
        schema_mode: StructuralTagSchemaMode::Auto,
        starts_in_reasoning: false,
    }
}

fn triggered(tokens: &[&str]) -> StructuralTagBuilder {
    StructuralTagBuilder::TriggeredTags(TriggeredTagsConfig {
        tool_call_ban_tokens: tokens.iter().map(|t| t.to_string()).collect(),
    })
}

fn dsml(tokens: &[&str]) -> StructuralTagBuilder {
    StructuralTagBuilder::DsmlToolCalls(DsmlToolCallsConfig {
        tool_call_ban_tokens: tokens.iter().map(|t| t.to_string()).collect(),
    })
}

fn calls(tag: StructuralTag) -> ToolCallsFormat {
    match tag.format {
        Format::ToolCalls(calls) => calls,
        _ => panic!("not a tool-call format"),
    }
}

#[test]
fn schema_mode_defaults_to_auto() {
    assert_eq!(StructuralTagSchemaMode::default(), StructuralTagSchemaMode::Auto);
}

#[test]
fn find_tool_takes_the_first_of_a_name() {
    let tools = vec![
        tool("a", None, None),
        tool("b", Some(city_schema()), None),
        tool("b", None, Some(true)),
    ];
    let found = find_tool(&tools, &"b".to_string()).unwrap();
    assert_eq!(found.function.parameters, Some(city_schema()));
    assert!(find_tool(&tools, &"c".to_string()).is_none());
    assert!(find_tool(&[], &"a".to_string()).is_none());
}

#[test]
fn any_strict_looks_for_true_alone() {
    assert!(!any_strict(&[]));
    assert!(!any_strict(&[tool("a", None, None), tool("b", None, Some(false))]));
    assert!(any_strict(&[tool("a", None, None), tool("b", None, Some(true))]));
}

#[test]
fn stop_after_first_needs_an_explicit_false() {
    let choice = ChatCompletionToolChoiceOption::Auto;
    let mut ctx = context(&choice, &[]);
    assert!(!ctx.stop_after_first());
    ctx.parallel_tool_calls = Some(true);
    assert!(!ctx.stop_after_first());
    ctx.parallel_tool_calls = Some(false);
    assert!(ctx.stop_after_first());
}

#[test]
fn strict_schema_follows_the_mode() {
    let choice = ChatCompletionToolChoiceOption::Auto;
    let mut ctx = context(&choice, &[]);
    assert!(!ctx.strict_schema());
    ctx.schema_mode = StructuralTagSchemaMode::Strict;
    assert!(ctx.strict_schema());
}

#[test]
fn forbidden_choice_includes_no_tools() {
    let choice = ChatCompletionToolChoiceOption::Forbidden;
    let tools = vec![tool("a", None, None)];
    let (included, required) = resolve_tools_to_include(&context(&choice, &tools)).unwrap();
    assert!(included.is_empty());
    assert!(!required);
}

#[test]
fn auto_choice_includes_all_tools_in_order() {
    let choice = ChatCompletionToolChoiceOption::Auto;
    let tools = vec![tool("a", None, None), tool("b", None, None)];
    let (included, required) = resolve_tools_to_include(&context(&choice, &tools)).unwrap();
    let names: Vec<&str> = included.iter().map(|t| t.function.name.as_str()).collect();
    assert_eq!(names, vec!["a", "b"]);
    assert!(!required);
}

#[test]
fn required_choice_includes_all_tools_and_requires_a_call() {
    let choice = ChatCompletionToolChoiceOption::Required;
    let tools = vec![tool("a", None, None), tool("b", None, None)];
    let (included, required) = resolve_tools_to_include(&context(&choice, &tools)).unwrap();
    assert_eq!(included.len(), 2);
    assert!(required);
}

#[test]
fn required_choice_without_tools_is_an_error() {
    let choice = ChatCompletionToolChoiceOption::Required;
    let error = resolve_tools_to_include(&context(&choice, &[])).unwrap_err();
    assert!(matches!(error, BuildError::RequiredWithoutTools));
    assert_eq!(error.message(), "tool_choice is \"required\" but tools is empty");
}

#[test]
fn named_choice_includes_that_tool_alone() {
    let choice = named("b");
    let tools = vec![tool("a", None, None), tool("b", None, None)];
    let (included, required) = resolve_tools_to_include(&context(&choice, &tools)).unwrap();
    assert_eq!(included.len(), 1);
    assert_eq!(included[0].function.name, "b");
    assert!(required);
}

#[test]
fn named_choice_of_a_missing_tool_is_an_error() {
    let choice = named("get_weather");
    let tools = vec![tool("a", None, None)];
    let error = resolve_tools_to_include(&context(&choice, &tools)).unwrap_err();
    assert!(matches!(&error, BuildError::NamedToolMissing(name) if name == "get_weather"));
    assert_eq!(
        error.message(),
        "tool named \"get_weather\" in tool_choice is not present in tools"
    );
}

#[test]
fn lax_tool_takes_any_arguments_in_auto_mode() {
    for strict in [None, Some(false)] {
        let lax = tool("a", Some(city_schema()), strict);
        assert_eq!(resolve_tool_schema(&lax, false), Value::Bool(true));
        assert_eq!(resolve_tool_schema(&lax, true), city_schema());
    }
}

#[test]
fn strict_tool_keeps_its_schema_in_auto_mode() {
    let strict = tool("a", Some(city_schema()), Some(true));
    assert_eq!(resolve_tool_schema(&strict, false), city_schema());
    assert_eq!(resolve_tool_schema(&strict, true), city_schema());
}

#[test]
fn tool_without_schema_takes_any_arguments() {
    let bare = tool("a", None, Some(true));
    assert_eq!(resolve_tool_schema(&bare, false), Value::Bool(true));
    assert_eq!(resolve_tool_schema(&bare, true), Value::Bool(true));
}

#[test]
fn format_holds_one_tag_per_tool() {
    let choice = ChatCompletionToolChoiceOption::Auto;
    let tools = vec![
        tool("a", Some(city_schema()), Some(true)),
        tool("b", Some(city_schema()), None),
    ];
    let tag = triggered(&[]).build_tool_call_format(&context(&choice, &tools)).unwrap().unwrap();
    let calls = calls(tag);
    assert_eq!(calls.family, ToolCallFamily::TriggeredTags);
    assert_eq!(calls.tags.len(), 2);
    assert_eq!(calls.tags[0].name, "a");
    assert_eq!(calls.tags[0].schema, city_schema());
    assert_eq!(calls.tags[1].name, "b");
    assert_eq!(calls.tags[1].schema, Value::Bool(true));
    assert!(!calls.at_least_one);
    assert!(!calls.stop_after_first);
    assert!(!calls.starts_in_reasoning);
}

#[test]
fn format_carries_the_wishes_of_the_request() {
    let choice = ChatCompletionToolChoiceOption::Required;
    let tools = vec![tool("a", Some(city_schema()), None)];
    let mut ctx = context(&choice, &tools);
    ctx.parallel_tool_calls = Some(false);
    ctx.schema_mode = StructuralTagSchemaMode::Strict;
    ctx.starts_in_reasoning = true;
    let calls = calls(dsml(&[]).build_tool_call_format(&ctx).unwrap().unwrap());
    assert_eq!(calls.family, ToolCallFamily::DsmlToolCalls);
    assert_eq!(calls.tags[0].schema, city_schema());
    assert!(calls.at_least_one);
    assert!(calls.stop_after_first);
    assert!(calls.starts_in_reasoning);
}

#[test]
fn format_of_a_named_choice_has_the_first_tool_of_the_name() {
    let choice = named("b");
    let tools = vec![
        tool("a", None, None),
        tool("b", Some(city_schema()), Some(true)),
        tool("b", None, None),
    ];
    let tag = triggered(&[]).build_tool_call_format(&context(&choice, &tools)).unwrap().unwrap();
    let calls = calls(tag);
    assert_eq!(calls.tags.len(), 1);
    assert_eq!(calls.tags[0].name, "b");
    assert_eq!(calls.tags[0].schema, city_schema());
    assert!(calls.at_least_one);
}

#[test]
fn no_format_where_nothing_may_be_called() {
    let forbidden = ChatCompletionToolChoiceOption::Forbidden;
    let auto = ChatCompletionToolChoiceOption::Auto;
    let tools = vec![tool("a", None, None)];
    let builder = triggered(&["<tool_call>"]);
    assert!(builder.build_tool_call_format(&context(&forbidden, &tools)).unwrap().is_none());
    assert!(builder.build_tool_call_format(&context(&auto, &[])).unwrap().is_none());
}

#[test]
fn format_errors_are_those_of_the_tool_choice() {
    let required = ChatCompletionToolChoiceOption::Required;
    let missing = named("x");
    let builder = dsml(&[]);
    let error = builder.build_tool_call_format(&context(&required, &[])).unwrap_err();
    assert!(matches!(error, BuildError::RequiredWithoutTools));
    let error = builder.build_tool_call_format(&context(&missing, &[])).unwrap_err();
    assert!(matches!(error, BuildError::NamedToolMissing(_)));
}

#[test]
fn ban_tokens_are_those_of_the_settings() {
    assert_eq!(triggered(&["x", "y"]).ban_tokens(), ["x".to_string(), "y".to_string()]);
    assert_eq!(dsml(&["z"]).ban_tokens(), ["z".to_string()]);
    assert!(triggered(&[]).ban_tokens().is_empty());
}

#[test]
fn ban_excludes_every_ban_token() {
    let tag = triggered(&["<tool_call>", "</tool_call>"]).build_tool_call_ban().unwrap();
    let outer = match tag.format {
        Format::Tag(outer) => outer,
        _ => panic!("not a tag"),
    };
    assert_eq!(outer.begin, "");
    assert_eq!(outer.end, "");
    match *outer.content {
        Format::AnyTokens(any) => {
            assert_eq!(any.exclude_tokens, vec!["<tool_call>", "</tool_call>"])
        }
        _ => panic!("not a choice of tokens"),
    }
}

#[test]
fn no_ban_without_ban_tokens() {
    assert!(triggered(&[]).build_tool_call_ban().is_none());
    assert!(dsml(&[]).build_tool_call_ban().is_none());
    assert!(dsml(&["z"]).build_tool_call_ban().is_some());
}
