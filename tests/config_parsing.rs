use fusellm::chat::build_chat_messages;
use fusellm::state::{Message, MessageRole};
use fusellm::config::{GlobalConfig, ModelConfig, Temperature};
use fusellm::error::FuseLlmError;
use fusellm::settings::{apply_model_settings, parse_global_config};

fn temp(t: &str) -> Option<Temperature> {
    Some(Temperature { text: t.to_string() })
}

#[test]
fn test_valid_config_deserialization() {
    let toml_str = r#"
default_model = "gpt-4"
temperature = 1.2
api_key = "sk-12345"
"#;
    let config = parse_global_config(toml_str).unwrap();
    assert_eq!(config.default_model, Some("gpt-4".to_string()));
    assert_eq!(config.default_config.temperature.unwrap().text, "1.2");
    assert_eq!(config.api_key, "sk-12345".to_string());
}

#[test]
fn test_config_validation() {
    let mut config = GlobalConfig::default();
    config.default_config.temperature = temp("2.5");
    assert!(config.validate().is_err());

    config.default_config.temperature = temp("1.5");
    assert!(config.validate().is_ok());
}

#[test]
fn test_model_config_merge() {
    let mut base_config = ModelConfig {
        temperature: temp("0.8"),
        system_prompt: Some("You are a helpful assistant.".to_string()),
    };

    let override_config = ModelConfig { temperature: None, system_prompt: Some("You are a pirate.".to_string()) };

    base_config.merge(&override_config);

    assert_eq!(base_config.temperature.unwrap().text, "0.8");
    assert_eq!(base_config.system_prompt, Some("You are a pirate.".to_string()));
}

#[test]
fn merge_with_unset_override_keeps_base() {
    let mut base = ModelConfig { temperature: temp("0.3"), system_prompt: Some("terse".to_string()) };
    base.merge(&ModelConfig::unset());
    assert_eq!(base.temperature.unwrap().text, "0.3");
    assert_eq!(base.system_prompt, Some("terse".to_string()));
}

#[test]
fn temperature_range_edges() {
    for ok in ["0", "0.0", "2", "2.0", "2.000", "1.99", "02.0", "0.123456", "-0.0", "-0"] {
        assert!(Temperature { text: ok.to_string() }.in_range(), "{ok}");
    }
    for bad in ["5.0", "2.5", "2.01", "-0.5", "-1", "-", "nan", "inf", "", ".5", "1.", "1.2.3", "10"] {
        assert!(!Temperature { text: bad.to_string() }.in_range(), "{bad}");
    }
}

#[test]
fn model_settings_document_applies_fields() {
    let base = ModelConfig::default();
    let c = apply_model_settings(&base, "temperature = 0.5\nsystem_prompt = \"be brief\"\n").unwrap();
    assert_eq!(c.temperature.unwrap().text, "0.5");
    assert_eq!(c.system_prompt, Some("be brief".to_string()));
}

#[test]
fn integer_temperature_is_accepted() {
    let c = apply_model_settings(&ModelConfig::unset(), "temperature = 1\n").unwrap();
    assert_eq!(c.temperature.unwrap().text, "1");
}

#[test]
fn out_of_range_temperature_is_invalid_input() {
    let r = apply_model_settings(&ModelConfig::default(), "temperature = 5.0\n");
    assert!(matches!(r, Err(FuseLlmError::InvalidInput(_))));
}

#[test]
fn wrong_type_setting_is_invalid_input() {
    let r = apply_model_settings(&ModelConfig::default(), "temperature = \"hot\"\n");
    assert!(matches!(r, Err(FuseLlmError::InvalidInput(_))));
}

#[test]
fn malformed_document_is_invalid_input() {
    let r = parse_global_config("this is = = not toml");
    assert!(matches!(r, Err(FuseLlmError::InvalidInput(_))));
}

#[test]
fn global_document_sets_models_and_search() {
    let c = parse_global_config("models = [\"gpt-4\", \"gpt-3.5\"]\nservice_url = \"tcp://127.0.0.1:5555\"\n").unwrap();
    assert_eq!(c.models, vec!["gpt-4".to_string(), "gpt-3.5".to_string()]);
    assert_eq!(c.semantic_search.service_url, Some("tcp://127.0.0.1:5555".to_string()));
    assert_eq!(c.default_config.temperature.unwrap().text, "1.0");
}

#[test]
fn model_list_with_non_strings_is_invalid_input() {
    let r = parse_global_config("models = [\"gpt-4\", 3]\n");
    assert!(matches!(r, Err(FuseLlmError::InvalidInput(_))));
}

#[test]
fn effective_config_layers_left_to_right() {
    let mut g = GlobalConfig::default();
    g.set_model_override("gpt-4".to_string(), ModelConfig { temperature: temp("0.2"), system_prompt: None });
    let own = ModelConfig { temperature: None, system_prompt: Some("pirate".to_string()) };
    let c = g.effective_config("gpt-4", &own);
    assert_eq!(c.temperature.unwrap().text, "0.2");
    assert_eq!(c.system_prompt, Some("pirate".to_string()));
    let d = g.effective_config("other", &ModelConfig::unset());
    assert_eq!(d.temperature.unwrap().text, "1.0");
}

#[test]
fn repeated_or_reserved_model_names_are_refused() {
    assert!(matches!(parse_global_config("models = [\"a\", \"a\"]\n"), Err(FuseLlmError::InvalidInput(_))));
    assert!(matches!(parse_global_config("models = [\"default\"]\n"), Err(FuseLlmError::InvalidInput(_))));
    let mut g = GlobalConfig::default();
    g.models = vec!["x".to_string(), "x".to_string()];
    assert!(g.validate().is_err());
}

#[test]
fn unknown_keys_are_refused() {
    let r = parse_global_config("[default_config]\ntemperature = 1.0\n");
    assert!(matches!(r, Err(FuseLlmError::InvalidInput(_))));
    let r = apply_model_settings(&ModelConfig::default(), "temprature = 1.0\n");
    assert!(matches!(r, Err(FuseLlmError::InvalidInput(_))));
}

#[test]
fn empty_system_prompt_is_sent() {
    let config = ModelConfig { temperature: None, system_prompt: Some(String::new()) };
    let turns = vec![Message { role: MessageRole::User, content: "hi".to_string() }];
    let messages = build_chat_messages(&config, &turns);
    assert_eq!(messages.len(), 2);
    assert_eq!(messages[0].role, MessageRole::System);
    assert_eq!(messages[0].content, "");
    let none = build_chat_messages(&ModelConfig::unset(), &turns);
    assert_eq!(none.len(), 1);
}
