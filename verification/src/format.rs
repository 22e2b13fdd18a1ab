//! Structural tags: descriptions of the text that guided decoding lets through.

use serde_json::Value;
use vstd::prelude::*;

verus! {

/// The views of some strings, in order.
pub open spec fn texts(strings: Seq<String>) -> Seq<Seq<char>> {
    strings.map_values(|s: String| s@)
}

/// Any tokens but some.
#[derive(Debug)]
pub struct AnyTokensFormat {
    /// The tokens that may not occur.
    pub exclude_tokens: Vec<String>,
}

/// Content between two fixed texts.
#[derive(Debug)]
pub struct TagFormat {
    /// The text before the content.
    pub begin: String,
    /// The content.
    pub content: Box<Format>,
    /// The text after the content.
    pub end: String,
}

/// The markup in which a family of models writes its tool calls.
#[derive(Debug, Clone, Copy, PartialEq, Eq, Structural)]
pub enum ToolCallFamily {
    /// One tag per tool, opened by a trigger.
    TriggeredTags,
    /// DeepSeek's DSML: a triggered wrapper round a list of invocations.
    DsmlToolCalls,
}

/// What a call of one tool has to look like, whatever the markup round it.
#[derive(Debug)]
pub struct ToolTag {
    /// The name of the tool.
    pub name: String,
    /// The JSON schema that the arguments have to meet.
    pub schema: Value,
}

/// Calls of some tools, to be written in the markup of a model family.
#[derive(Debug)]
pub struct ToolCallsFormat {
    /// The markup.
    pub family: ToolCallFamily,
    /// The tools that may be called, in the order of the request.
    pub tags: Vec<ToolTag>,
    /// At least one call has to be made.
    pub at_least_one: bool,
    /// Nothing may follow the first call.
    pub stop_after_first: bool,
    /// The model starts out inside a block of reasoning.
    pub starts_in_reasoning: bool,
}

/// What the text may look like.
#[derive(Debug)]
pub enum Format {
    /// Any tokens but some.
    AnyTokens(AnyTokensFormat),
    /// Content between two fixed texts.
    Tag(TagFormat),
    /// Calls of some tools.
    ToolCalls(ToolCallsFormat),
}

/// A whole structural tag.
#[derive(Debug)]
pub struct StructuralTag {
    /// What the text may look like.
    pub format: Format,
}

/// The mathematical content of a [`ToolTag`].
pub struct ToolTagModel {
    /// The name of the tool.
    pub name: Seq<char>,
    /// The schema of its arguments.
    pub schema: Value,
}

impl View for ToolTag {
    type V = ToolTagModel;

    open spec fn view(&self) -> ToolTagModel {
        ToolTagModel { name: self.name@, schema: self.schema }
    }
}

/// The mathematical content of a [`Format`].
pub enum FormatModel {
    /// Any tokens but these.
    AnyTokens { exclude_tokens: Seq<Seq<char>> },
    /// Content between two fixed texts.
    Tag { begin: Seq<char>, content: Box<FormatModel>, end: Seq<char> },
    /// Calls of some tools.
    ToolCalls {
        family: ToolCallFamily,
        tags: Seq<ToolTagModel>,
        at_least_one: bool,
        stop_after_first: bool,
        starts_in_reasoning: bool,
    },
}

impl Format {
    /// The mathematical content of the format.
    pub open spec fn model(self) -> FormatModel
        decreases self,
    {
        match self {
            Format::AnyTokens(any) => FormatModel::AnyTokens {
                exclude_tokens: texts(any.exclude_tokens@),
            },
            Format::Tag(tag) => FormatModel::Tag {
                begin: tag.begin@,
                content: Box::new((*tag.content).model()),
                end: tag.end@,
            },
            Format::ToolCalls(calls) => FormatModel::ToolCalls {
                family: calls.family,
                tags: calls.tags@.map_values(|t: ToolTag| t@),
                at_least_one: calls.at_least_one,
                stop_after_first: calls.stop_after_first,
                starts_in_reasoning: calls.starts_in_reasoning,
            },
        }
    }
}

impl View for StructuralTag {
    type V = FormatModel;

    open spec fn view(&self) -> FormatModel {
        self.format.model()
    }
}

} // verus!
