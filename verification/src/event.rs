use std::sync::Arc;

use vstd::prelude::*;
use zed_llm_client::CompletionRequestStatus;

use crate::ids::LanguageModelToolUseId;
use crate::usage::TokenUsage;

verus! {

/// Configuration for caching language model messages.
#[derive(Clone, Debug, PartialEq, Eq, Structural)]
pub struct LanguageModelCacheConfiguration {
    pub max_cache_anchors: usize,
    pub should_speculate: bool,
    pub min_total_token: u64,
}

/// Indicates the format used to define the input schema for a language model tool.
#[derive(Debug, PartialEq, Eq, Structural, Clone, Copy, Hash)]
pub enum LanguageModelToolSchemaFormat {
    /// A JSON schema, see https://json-schema.org
    JsonSchema,
    /// A subset of an OpenAPI 3.0 schema object supported by Google AI, see https://ai.google.dev/api/caching#Schema
    JsonSchemaSubset,
}

/// Why a model stopped producing output.
#[derive(Debug, PartialEq, Eq, Structural, Clone, Copy)]
pub enum StopReason {
    EndTurn,
    MaxTokens,
    ToolUse,
    Refusal,
}

/// A tool that a model asks to have used, with the input for it.
#[derive(Debug, PartialEq, Eq, Hash)]
pub struct LanguageModelToolUse {
    pub id: LanguageModelToolUseId,
    pub name: Arc<str>,
    pub raw_input: String,
    pub input: serde_json::Value,
    pub is_input_complete: bool,
}

impl Clone for LanguageModelToolUse {
    fn clone(&self) -> (copy: Self)
        ensures
            copy == *self,
    {
        LanguageModelToolUse {
            id: self.id.clone(),
            name: self.name.clone(),
            raw_input: self.raw_input.clone(),
            input: self.input.clone(),
            is_input_complete: self.is_input_complete,
        }
    }
}

/// A completion event from a language model.
#[derive(Debug, PartialEq)]
pub enum LanguageModelCompletionEvent {
    StatusUpdate(CompletionRequestStatus),
    Stop(StopReason),
    Text(String),
    Thinking { text: String, signature: Option<String> },
    ToolUse(LanguageModelToolUse),
    StartMessage { message_id: String },
    UsageUpdate(TokenUsage),
}

impl Clone for LanguageModelCompletionEvent {
    fn clone(&self) -> (copy: Self)
        ensures
            copy == *self,
    {
        match self {
            Self::StatusUpdate(status) => Self::StatusUpdate(status.clone()),
            Self::Stop(reason) => Self::Stop(*reason),
            Self::Text(text) => Self::Text(text.clone()),
            Self::Thinking { text, signature } => Self::Thinking {
                text: text.clone(),
                signature: signature.clone(),
            },
            Self::ToolUse(tool_use) => Self::ToolUse(tool_use.clone()),
            Self::StartMessage { message_id } => Self::StartMessage {
                message_id: message_id.clone(),
            },
            Self::UsageUpdate(usage) => Self::UsageUpdate(*usage),
        }
    }
}

} // verus!
