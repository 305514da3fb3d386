pub mod anthropic;
pub mod error;
pub mod event;
pub mod ids;
pub mod model;
pub mod outside;
pub mod stream;
pub mod text;
pub mod usage;

pub use crate::anthropic::{AnthropicError, ApiError, ApiErrorCode};
pub use crate::error::{
    AuthenticateError, LanguageModelCompletionError, LanguageModelKnownError,
};
pub use crate::event::{
    LanguageModelCacheConfiguration, LanguageModelCompletionEvent, LanguageModelToolSchemaFormat,
    LanguageModelToolUse, StopReason,
};
pub use crate::ids::{
    LanguageModelId, LanguageModelName, LanguageModelProviderId, LanguageModelProviderName,
    LanguageModelToolUseId, ZED_CLOUD_PROVIDER_ID,
};
pub use crate::model::{
    IconName, LanguageModel, LanguageModelProvider, LanguageModelProviderState,
    LanguageModelProviderTosView, LanguageModelTool,
};
pub use crate::stream::{
    stream_completion_text, EventResult, LanguageModelTextStream, PendingText, TextResult,
    TextStreamStep,
};
pub use crate::usage::TokenUsage;
