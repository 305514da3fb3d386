use std::sync::Arc;

use language_model::{
    LanguageModelId, LanguageModelName, LanguageModelProviderId, LanguageModelProviderName,
    LanguageModelToolUseId, ZED_CLOUD_PROVIDER_ID,
};

#[test]
fn tool_use_ids_keep_their_text() {
    let shared: Arc<str> = Arc::from("toolu_01");
    assert_eq!(LanguageModelToolUseId::from("toolu_01").to_string(), "toolu_01");
    assert_eq!(LanguageModelToolUseId::from(String::from("toolu_02")).to_string(), "toolu_02");
    assert_eq!(LanguageModelToolUseId::from(shared.clone()).to_string(), "toolu_01");
    assert_eq!(LanguageModelToolUseId::from(String::new().into_boxed_str()).to_string(), "");
    assert_eq!(LanguageModelToolUseId::from(shared), LanguageModelToolUseId::from("toolu_01"));
    assert_ne!(LanguageModelToolUseId::from("a"), LanguageModelToolUseId::from("b"));
}

#[test]
fn model_and_provider_names_keep_their_text() {
    assert_eq!(LanguageModelId::from(String::from("m")).0, "m");
    assert_eq!(LanguageModelName::from(String::from("Model")).0, "Model");
    assert_eq!(LanguageModelProviderId::from(String::from("p")).0, "p");
    assert_eq!(LanguageModelProviderName::from(String::from("Provider")).0, "Provider");
}

#[test]
fn provider_id_is_shown_as_its_text() {
    let id = LanguageModelProviderId::from(ZED_CLOUD_PROVIDER_ID.to_string());
    assert_eq!(id.to_string(), "zed.dev");
}

#[test]
fn ids_are_ordered_by_their_text() {
    assert!(LanguageModelId("a".to_string()) < LanguageModelId("b".to_string()));
    assert!(LanguageModelProviderName("b".to_string()) > LanguageModelProviderName("a".to_string()));
}
