//! Requests: as they come in, and as they go on to the engine.

use serde_json::Value;
use vstd::prelude::*;

use crate::chat::{ChatCompletionTool, ChatCompletionToolChoiceOption};

verus! {

/// The body of a chat completion request, as far as tool calling goes.
#[derive(Debug)]
pub struct CreateChatCompletionRequest {
    /// Which tools the model may or has to call.
    pub tool_choice: Option<ChatCompletionToolChoiceOption>,
    /// The tools on offer.
    pub tools: Option<Vec<ChatCompletionTool>>,
    /// Whether several calls may be made in one answer.
    pub parallel_tool_calls: Option<bool>,
}

/// A chat completion request.
#[derive(Debug)]
pub struct NvCreateChatCompletionRequest {
    /// The body of the request.
    pub inner: CreateChatCompletionRequest,
}

impl NvCreateChatCompletionRequest {
    /// The tool choice; the model decides where the request does not say.
    pub open spec fn choice(self) -> ChatCompletionToolChoiceOption {
        match self.inner.tool_choice {
            Some(choice) => choice,
            None => ChatCompletionToolChoiceOption::Auto,
        }
    }

    /// The tools; none where the request does not say.
    pub open spec fn offered(self) -> Seq<ChatCompletionTool> {
        match self.inner.tools {
            Some(tools) => tools@,
            None => Seq::empty(),
        }
    }
}

/// How the engine is to constrain what it generates.
#[derive(Debug)]
pub struct GuidedDecodingOptions {
    /// The request carries a constraint of its own, such as a response format.
    pub user_constraint: bool,
    /// The structural tag to follow.
    pub structural_tag: Option<Value>,
}

impl Default for GuidedDecodingOptions {
    fn default() -> (options: Self)
        ensures
            options == (GuidedDecodingOptions { user_constraint: false, structural_tag: None }),
    {
        GuidedDecodingOptions { user_constraint: false, structural_tag: None }
    }
}

impl GuidedDecodingOptions {
    /// Whether the request carries a constraint of its own.
    pub fn has_user_constraint(&self) -> (constrained: bool)
        ensures
            constrained == self.user_constraint,
    {
        self.user_constraint
    }
}

/// How the engine is to choose tokens.
#[derive(Debug)]
pub struct SamplingOptions {
    /// Constraints on the output.
    pub guided_decoding: Option<GuidedDecodingOptions>,
}

/// A request on its way to the engine.
#[derive(Debug)]
pub struct PreprocessedRequest {
    /// How the engine is to choose tokens.
    pub sampling_options: SamplingOptions,
}

impl PreprocessedRequest {
    /// The request carries a constraint of its own.
    pub open spec fn constrained(self) -> bool {
        match self.sampling_options.guided_decoding {
            Some(options) => options.user_constraint,
            None => false,
        }
    }

    /// The structural tag to follow.
    pub open spec fn structural_tag(self) -> Option<Value> {
        match self.sampling_options.guided_decoding {
            Some(options) => options.structural_tag,
            None => None,
        }
    }

    /// The same request with this structural tag to follow.
    pub open spec fn with_structural_tag(self, tag: Value) -> PreprocessedRequest {
        PreprocessedRequest {
            sampling_options: SamplingOptions {
                guided_decoding: Some(
                    GuidedDecodingOptions {
                        user_constraint: self.constrained(),
                        structural_tag: Some(tag),
                    },
                ),
            },
        }
    }

    /// Whether the request carries a constraint of its own.
    pub fn has_user_constraint(&self) -> (constrained: bool)
        ensures
            constrained == self.constrained(),
            constrained <==> match self.sampling_options.guided_decoding {
                Some(options) => options.user_constraint,
                None => false,
            },
    {
        match &self.sampling_options.guided_decoding {
            Some(options) => options.has_user_constraint(),
            None => false,
        }
    }

    /// Sets the structural tag to follow.
    pub fn set_structural_tag(&mut self, tag: Value)
        ensures
            *final(self) == old(self).with_structural_tag(tag),
            final(self).sampling_options.guided_decoding is Some,
            final(self).sampling_options.guided_decoding->Some_0.structural_tag == Some(tag),
            final(self).sampling_options.guided_decoding->Some_0.user_constraint <==> match old(self).sampling_options.guided_decoding {
                Some(options) => options.user_constraint,
                None => false,
            },
    {
        let mut options = match self.sampling_options.guided_decoding.take() {
            Some(options) => options,
            None => GuidedDecodingOptions::default(),
        };
        options.structural_tag = Some(tag);
        self.sampling_options.guided_decoding = Some(options);
    }
}

} // verus!
