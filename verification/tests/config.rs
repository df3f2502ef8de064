use chris::config_manager::{Config, Provider};
use chris::error::AppError;

#[test]
fn defaults_select_openrouter() {
    let c = Config::default();
    assert_eq!(c.provider, Provider::OpenRouter);
    assert_eq!(c.openrouter_model, "deepseek/deepseek-r1:free");
    assert_eq!(c.openai_model, "gpt-3.5-turbo");
    assert_eq!(c.max_tokens, 1000);
    assert!(c.enable_personalization);
    assert!(c.store_history);
    assert_eq!(c.log_level, "info");
}

#[test]
fn api_url_follows_provider() {
    let mut c = Config::default();
    c.provider = Provider::OpenRouter;
    assert_eq!(c.get_api_url(), "https://openrouter.ai/api/v1/chat/completions");
    c.provider = Provider::OpenAI;
    assert_eq!(c.get_api_url(), "https://api.openai.com/v1/chat/completions");
}

#[test]
fn api_key_follows_provider() {
    let mut c = Config::default();
    c.openai_api_key = "ka".to_string();
    c.openrouter_api_key = "kr".to_string();
    c.provider = Provider::OpenAI;
    assert_eq!(c.get_api_key(), "ka");
    c.provider = Provider::OpenRouter;
    assert_eq!(c.get_api_key(), "kr");
}

#[test]
fn site_identity_is_fixed() {
    let c = Config::default();
    assert_eq!(c.get_site_url(), "example.com");
    assert_eq!(c.get_site_name(), "CommanderChris");
}

#[test]
fn missing_key_rejected_per_provider() {
    let mut c = Config::default();
    c.provider = Provider::OpenAI;
    match c.validate() {
        Err(AppError::Config(m)) => assert!(m.contains("OpenAI API key is required")),
        other => panic!("unexpected: {:?}", other),
    }
    c.provider = Provider::OpenRouter;
    match c.validate() {
        Err(AppError::Config(m)) => assert!(m.contains("OpenRouter API key is required")),
        other => panic!("unexpected: {:?}", other),
    }
}

#[test]
fn present_key_accepted() {
    let mut c = Config::default();
    c.provider = Provider::OpenAI;
    c.openai_api_key = "k".to_string();
    assert!(c.validate().is_ok());
    c.provider = Provider::OpenRouter;
    c.openrouter_api_key = "k".to_string();
    assert!(c.validate().is_ok());
}

#[test]
fn default_provider_is_openai() {
    assert_eq!(Provider::default(), Provider::OpenAI);
}

#[test]
fn model_override_follows_provider() {
    let mut c = Config::default();
    c.provider = Provider::OpenAI;
    c.set_model("gpt-4o".to_string());
    assert_eq!(c.openai_model, "gpt-4o");
    assert_eq!(c.openrouter_model, "deepseek/deepseek-r1:free");
    c.provider = Provider::OpenRouter;
    c.set_model("meta/llama".to_string());
    assert_eq!(c.openrouter_model, "meta/llama");
    assert_eq!(c.openai_model, "gpt-4o");
}

#[test]
fn describe_redacts_and_labels() {
    let mut c = Config::default();
    c.openrouter_api_key = "SECRET".to_string();
    let text = c.describe();
    assert!(text.starts_with("Provider: OpenRouter\n"));
    assert!(text.contains("Model: deepseek/deepseek-r1:free\n"));
    assert!(text.contains("Max Tokens: 1000\n"));
    assert!(text.contains("API URL: https://openrouter.ai/api/v1/chat/completions\n"));
    assert!(text.contains("OpenRouter API Key: [REDACTED]\n"));
    assert!(!text.contains("SECRET"));
    assert!(text.contains("History File: \".chris/history\"\n"));
    assert!(text.ends_with("Log Level: info\n"));
}

#[test]
fn describe_reports_missing_key() {
    let mut c = Config::default();
    c.provider = Provider::OpenAI;
    let text = c.describe();
    assert!(text.contains("OpenAI API Key: Not set\n"));
    assert!(text.contains("API URL: https://api.openai.com/v1/chat/completions\n"));
}
