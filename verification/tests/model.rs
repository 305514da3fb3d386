use std::sync::Arc;

use language_model::{
    AuthenticateError, IconName, LanguageModel, LanguageModelId, LanguageModelName,
    LanguageModelProvider, LanguageModelProviderId, LanguageModelProviderName,
    LanguageModelProviderState, LanguageModelProviderTosView, LanguageModelTool,
    LanguageModelToolSchemaFormat,
};

struct Plain;

impl LanguageModel for Plain {
    type App = ();
    type AsyncApp = ();
    type Request = String;
    type ToolChoice = bool;
    type TokenCount = usize;
    type Completion = String;

    fn id(&self) -> LanguageModelId {
        LanguageModelId("plain".to_string())
    }
    fn name(&self) -> LanguageModelName {
        LanguageModelName("Plain".to_string())
    }
    fn provider_id(&self) -> LanguageModelProviderId {
        LanguageModelProviderId("none".to_string())
    }
    fn provider_name(&self) -> LanguageModelProviderName {
        LanguageModelProviderName("None".to_string())
    }
    fn telemetry_id(&self) -> String {
        "none/plain".to_string()
    }
    fn supports_images(&self) -> bool {
        false
    }
    fn supports_tools(&self) -> bool {
        true
    }
    fn supports_tool_choice(&self, choice: bool) -> bool {
        choice
    }
    fn max_token_count(&self) -> u64 {
        1000
    }
    fn count_tokens(&self, request: String, _cx: &()) -> usize {
        request.len()
    }
    fn stream_completion(&self, request: String, _cx: &()) -> String {
        request
    }
}

impl LanguageModelProvider for Plain {
    type App = u8;
    type Window = ();
    type AnyView = ();
    type AnyElement = ();
    type Model = Plain;
    type Authentication = Result<(), AuthenticateError>;
    type Reset = ();

    fn id(&self) -> LanguageModelProviderId {
        LanguageModelProviderId("none".to_string())
    }
    fn name(&self) -> LanguageModelProviderName {
        LanguageModelProviderName("None".to_string())
    }
    fn default_model(&self, _cx: &u8) -> Option<Arc<Plain>> {
        Some(Arc::new(Plain))
    }
    fn default_fast_model(&self, _cx: &u8) -> Option<Arc<Plain>> {
        None
    }
    fn provided_models(&self, _cx: &u8) -> Vec<Arc<Plain>> {
        vec![Arc::new(Plain)]
    }
    fn is_authenticated(&self, _cx: &u8) -> bool {
        false
    }
    fn authenticate(&self, _cx: &mut u8) -> Result<(), AuthenticateError> {
        Err(AuthenticateError::CredentialsNotFound)
    }
    fn configuration_view(&self, _window: &mut (), _cx: &mut u8) {}
    fn reset_credentials(&self, _cx: &mut u8) {}
}

impl LanguageModelProviderState for Plain {
    type ObservableEntity = u32;

    fn observable_entity(&self) -> Option<u32> {
        Some(1)
    }
}

impl LanguageModelTool for Plain {
    fn name() -> String {
        "grep".to_string()
    }
    fn description() -> String {
        "searches".to_string()
    }
}

#[test]
fn model_offers_little_unless_it_says_so() {
    assert_eq!(LanguageModel::api_key(&Plain, &()), None);
    assert!(!Plain.supports_max_mode());
    assert_eq!(Plain.tool_input_format(), LanguageModelToolSchemaFormat::JsonSchema);
    assert_eq!(Plain.max_output_tokens(), None);
    assert_eq!(Plain.cache_configuration(), None);
}

#[test]
fn provider_asks_little_unless_it_says_so() {
    let mut app = 3;
    assert_eq!(Plain.icon(), IconName::ZedAssistant);
    assert!(Plain.recommended_models(&app).is_empty());
    assert!(!Plain.must_accept_terms(&app));
    let view = LanguageModelProviderTosView::Configuration;
    assert!(Plain.render_accept_terms(view, &mut app).is_none());
    assert_eq!(app, 3);
}

#[test]
fn users_implement_the_rest() {
    assert_eq!(<Plain as LanguageModelTool>::name(), "grep");
    assert_eq!(Plain.observable_entity(), Some(1));
    assert!(matches!(
        Plain.authenticate(&mut 0),
        Err(AuthenticateError::CredentialsNotFound)
    ));
    let model: &dyn LanguageModel<
        App = (),
        AsyncApp = (),
        Request = String,
        ToolChoice = bool,
        TokenCount = usize,
        Completion = String,
    > = &Plain;
    assert_eq!(model.stream_completion("hi".to_string(), &()), "hi");
}
