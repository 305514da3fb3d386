use std::sync::Arc;

use vstd::prelude::*;

use crate::event::{LanguageModelCacheConfiguration, LanguageModelToolSchemaFormat};
use crate::ids::{
    LanguageModelId, LanguageModelName, LanguageModelProviderId, LanguageModelProviderName,
};

verus! {

/// A language model that completions can be asked of.
pub trait LanguageModel: Send + Sync {
    /// What the surrounding application is.
    type App;

    /// The application, as it is seen from a task.
    type AsyncApp;

    /// What a completion is asked for with.
    type Request;

    /// How a request says which tool to use.
    type ToolChoice;

    /// The number of tokens in a request, once it is there.
    type TokenCount;

    /// The events of a completion, once they are there.
    type Completion;

    fn id(&self) -> LanguageModelId;

    fn name(&self) -> LanguageModelName;

    fn provider_id(&self) -> LanguageModelProviderId;

    fn provider_name(&self) -> LanguageModelProviderName;

    fn telemetry_id(&self) -> String;

    fn api_key(&self, _cx: &Self::App) -> (api_key: Option<String>)
        default_ensures
            api_key is None,
    {
        None
    }

    /// Whether this model supports images
    fn supports_images(&self) -> bool;

    /// Whether this model supports tools.
    fn supports_tools(&self) -> bool;

    /// Whether this model supports choosing which tool to use.
    fn supports_tool_choice(&self, choice: Self::ToolChoice) -> bool;

    /// Returns whether this model supports "burn mode";
    fn supports_max_mode(&self) -> (supported: bool)
        default_ensures
            !supported,
    {
        false
    }

    fn tool_input_format(&self) -> (format: LanguageModelToolSchemaFormat)
        default_ensures
            format == LanguageModelToolSchemaFormat::JsonSchema,
    {
        LanguageModelToolSchemaFormat::JsonSchema
    }

    fn max_token_count(&self) -> u64;

    fn max_output_tokens(&self) -> (tokens: Option<u64>)
        default_ensures
            tokens is None,
    {
        None
    }

    fn count_tokens(&self, request: Self::Request, cx: &Self::App) -> Self::TokenCount;

    fn stream_completion(&self, request: Self::Request, cx: &Self::AsyncApp) -> Self::Completion;

    fn cache_configuration(&self) -> (configuration: Option<LanguageModelCacheConfiguration>)
        default_ensures
            configuration is None,
    {
        None
    }
}

/// A tool that a language model can be offered.
pub trait LanguageModelTool: 'static {
    fn name() -> String;

    fn description() -> String;
}

/// The icon that stands for a provider.
#[derive(Debug, PartialEq, Eq, Clone)]
pub enum IconName {
    ZedAssistant,
    /// Any other icon, by its name.
    Named(String),
}

/// Where the terms of service of a provider are shown.
#[derive(PartialEq, Eq, Structural)]
pub enum LanguageModelProviderTosView {
    /// When there are some past interactions in the Agent Panel.
    ThreadtEmptyState,
    /// When there are no past interactions in the Agent Panel.
    ThreadFreshStart,
    PromptEditorPopup,
    Configuration,
}

/// A provider of language models.
pub trait LanguageModelProvider: 'static {
    /// What the surrounding application is.
    type App;

    /// A window of the application.
    type Window;

    /// What is shown in a window.
    type AnyView;

    /// A piece of what is shown.
    type AnyElement;

    /// A model of the provider.
    type Model: ?Sized;

    /// The attempt to authenticate, which may end in an `AuthenticateError`.
    type Authentication;

    /// The attempt to forget the credentials.
    type Reset;

    fn id(&self) -> LanguageModelProviderId;

    fn name(&self) -> LanguageModelProviderName;

    fn icon(&self) -> (icon: IconName)
        default_ensures
            icon == IconName::ZedAssistant,
    {
        IconName::ZedAssistant
    }

    fn default_model(&self, cx: &Self::App) -> Option<Arc<Self::Model>>;

    fn default_fast_model(&self, cx: &Self::App) -> Option<Arc<Self::Model>>;

    fn provided_models(&self, cx: &Self::App) -> Vec<Arc<Self::Model>>;

    fn recommended_models(&self, _cx: &Self::App) -> (models: Vec<Arc<Self::Model>>)
        default_ensures
            models@ == Seq::<Arc<Self::Model>>::empty(),
    {
        Vec::new()
    }

    fn is_authenticated(&self, cx: &Self::App) -> bool;

    fn authenticate(&self, cx: &mut Self::App) -> Self::Authentication;

    fn configuration_view(&self, window: &mut Self::Window, cx: &mut Self::App) -> Self::AnyView;

    fn must_accept_terms(&self, _cx: &Self::App) -> (required: bool)
        default_ensures
            !required,
    {
        false
    }

    fn render_accept_terms(
        &self,
        _view: LanguageModelProviderTosView,
        _cx: &mut Self::App,
    ) -> (element: Option<Self::AnyElement>)
        default_ensures
            element is None,
            *final(_cx) == *old(_cx),
    {
        None
    }

    fn reset_credentials(&self, cx: &mut Self::App) -> Self::Reset;
}

/// The state of a provider, as far as others can watch it.
pub trait LanguageModelProviderState: 'static {
    /// What is watched for changes of the state.
    type ObservableEntity;

    fn observable_entity(&self) -> Option<Self::ObservableEntity>;
}

} // verus!
