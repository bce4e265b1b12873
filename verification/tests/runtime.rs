use agent_core::completion::should_write_memory_note;
use agent_core::domain::{MemorySearchHit, PlanStepKind, ProviderType, ResourceStatus};
use agent_core::prompts::fallback_response;
use agent_core::routing::{
    find_configured_provider, select_provider_model, ConfiguredModel, ConfiguredProvider,
    ModelsConfig, ProviderSelection,
};
use agent_core::run_flow::{context_step_summary, should_delegate_to_subagent};
use agent_core::store::StoreState;
use agent_core::test_support::{moonshot_provider_config_toml, multi_provider_config_toml};

fn provider_type_of(name: &str) -> ProviderType {
    match name {
        "openRouter" => ProviderType::OpenRouter,
        "openAi" => ProviderType::OpenAi,
        "anthropic" => ProviderType::Anthropic,
        "gemini" => ProviderType::Gemini,
        "azureOpenAi" => ProviderType::AzureOpenAi,
        "moonshot" => ProviderType::Moonshot,
        other => panic!("unknown provider type {other}"),
    }
}

fn text(value: &toml::Value, key: &str) -> Option<String> {
    value.get(key).and_then(|v| v.as_str()).map(|v| v.to_string())
}

fn parse_config(source: &str) -> ModelsConfig {
    let document: toml::Value = toml::from_str(source).expect("parse models config");
    let providers = document["providers"]
        .as_array()
        .expect("providers")
        .iter()
        .map(|provider| ConfiguredProvider {
            provider_type: provider_type_of(provider["provider_type"].as_str().expect("type")),
            display_name: text(provider, "display_name").expect("display name"),
            base_url: text(provider, "base_url"),
            api_key_env: text(provider, "api_key_env"),
            default_model: text(provider, "default_model"),
            models: provider
                .get("models")
                .and_then(|m| m.as_array())
                .map(|models| {
                    models
                        .iter()
                        .map(|model| ConfiguredModel {
                            name: text(model, "name").expect("model name"),
                            context_window: model["context_window"].as_integer().expect("window")
                                as u64,
                            supports_tools: model["supports_tools"].as_bool().expect("tools"),
                            supports_embeddings: model["supports_embeddings"]
                                .as_bool()
                                .expect("embeddings"),
                            capabilities: model["capabilities"]
                                .as_array()
                                .expect("capabilities")
                                .iter()
                                .map(|c| c.as_str().expect("capability").to_string())
                                .collect(),
                        })
                        .collect()
                })
                .unwrap_or_default(),
        })
        .collect();
    ModelsConfig { providers }
}

#[test]
fn fallback_response_mentions_provider_and_memory_hits() {
    let selection = ProviderSelection {
        provider_id: uuid::Uuid::new_v4().as_u128(),
        provider_name: "OpenRouter".to_string(),
        provider_type: ProviderType::OpenRouter,
        model_name: "demo-model".to_string(),
        base_url: "https://openrouter.ai/api/v1".to_string(),
        api_key_env: Some("OPENROUTER_API_KEY".to_string()),
    };
    let memory_hits = vec![MemorySearchHit {
        document_id: uuid::Uuid::new_v4().as_u128(),
        chunk_id: uuid::Uuid::new_v4().as_u128(),
        document_title: "Architecture".to_string(),
        namespace: "global".to_string(),
        content: "Rust backend".to_string(),
    }];

    let response = fallback_response(Some(&selection), &memory_hits, "Explain the stack", 2);

    assert!(response.contains("Selected provider OpenRouter using model demo-model."));
    assert!(response.contains("Relevant memory hits: Architecture [global]."));
    assert!(response.contains("You said: Explain the stack"));
}

#[test]
fn fallback_response_handles_missing_provider_selection() {
    let response = fallback_response(None, &[], "Hello", 0);
    assert!(response.contains("No active provider/model pair was available."));
    assert!(response.contains("No long-term memory hits matched strongly enough"));
}

#[test]
fn fallback_response_exact_text() {
    let hits = vec![
        MemorySearchHit {
            document_id: 1,
            chunk_id: 2,
            document_title: "A".to_string(),
            namespace: "global".to_string(),
            content: String::new(),
        },
        MemorySearchHit {
            document_id: 3,
            chunk_id: 4,
            document_title: "B".to_string(),
            namespace: "session".to_string(),
            content: String::new(),
        },
    ];
    assert_eq!(
        fallback_response(None, &hits, "Hi", 12),
        "This run was processed by the decoupled agent-core runtime. It is currently configured with 12 provider account(s). No active provider/model pair was available. Relevant memory hits: A [global], B [session]. The runtime will fall back to this local response path whenever upstream model invocation is unavailable.\n\nYou said: Hi"
    );
}

#[test]
fn select_provider_model_prefers_first_available_configured_provider() {
    let config = parse_config(multi_provider_config_toml());
    let store = StoreState::seeded(&config);
    let providers = store.list_providers();
    let loaded = Ok(config);

    let selection = select_provider_model(&loaded, &providers, &[]).expect("select provider");

    assert_eq!(selection.provider_name, "OpenAI");
    assert_eq!(selection.model_name, "gpt-4.1");
}

#[test]
fn select_provider_model_uses_openrouter_when_api_key_is_present() {
    let config = parse_config(multi_provider_config_toml());
    let store = StoreState::seeded(&config);
    let providers = store.list_providers();
    let env = vec![("OPENROUTER_API_KEY".to_string(), "test-key".to_string())];
    let loaded = Ok(config);

    let selection = select_provider_model(&loaded, &providers, &env).expect("select provider");

    assert_eq!(selection.provider_name, "OpenRouter");
    assert_eq!(
        selection.model_name,
        "nvidia/nemotron-3-super-120b-a12b:free"
    );
}

#[test]
fn select_provider_model_uses_moonshot_when_api_key_is_present() {
    let config = parse_config(moonshot_provider_config_toml());
    let store = StoreState::seeded(&config);
    let providers = store.list_providers();
    let env = vec![("MOONSHOT_API_KEY".to_string(), "test-key".to_string())];
    let loaded = Ok(config);

    let selection = select_provider_model(&loaded, &providers, &env).expect("select provider");

    assert_eq!(selection.provider_name, "Moonshot");
    assert_eq!(selection.model_name, "kimi-k2.5");
    assert_eq!(selection.base_url, "https://api.moonshot.ai/v1");
    assert_eq!(selection.api_key_env.as_deref(), Some("MOONSHOT_API_KEY"));
}

#[test]
fn selection_skips_empty_keys_and_inactive_accounts() {
    let config = parse_config(moonshot_provider_config_toml());
    let mut store = StoreState::seeded(&config);
    let loaded = Ok(config);
    let empty_key = vec![("MOONSHOT_API_KEY".to_string(), String::new())];
    assert!(select_provider_model(&loaded, &store.list_providers(), &empty_key).is_none());

    let env = vec![("MOONSHOT_API_KEY".to_string(), "k".to_string())];
    store.providers[0].status = ResourceStatus::Disabled;
    assert!(select_provider_model(&loaded, &store.list_providers(), &env).is_none());
}

#[test]
fn selection_falls_back_to_account_models_and_default_base_url() {
    let mut config = parse_config(moonshot_provider_config_toml());
    config.providers[0].default_model = None;
    config.providers[0].api_key_env = None;
    let mut store = StoreState::seeded(&config);
    store.providers[0].base_url = None;
    let loaded = Ok(config);
    let selection =
        select_provider_model(&loaded, &store.list_providers(), &[]).expect("selection");
    assert_eq!(selection.model_name, "kimi-k2.5");
    assert_eq!(selection.base_url, "https://openrouter.ai/api/v1");
}

#[test]
fn find_configured_provider_matches_kind_and_name() {
    let found = find_configured_provider(
        Ok(parse_config(multi_provider_config_toml())),
        ProviderType::OpenAi,
        "OpenAI",
    )
    .expect("configured provider");
    assert_eq!(found.default_model.as_deref(), Some("gpt-4.1"));
    assert!(find_configured_provider(
        Ok(parse_config(multi_provider_config_toml())),
        ProviderType::OpenAi,
        "OpenRouter",
    )
    .is_none());
}

#[test]
fn an_unloadable_configuration_selects_nothing() {
    let config = parse_config(multi_provider_config_toml());
    let store = StoreState::seeded(&config);
    let failed: agent_core::error::CoreResult<agent_core::routing::ModelsConfig> = Err(
        agent_core::error::CoreError::new(500, "failed to read models config".to_string()),
    );
    assert!(select_provider_model(&failed, &store.list_providers(), &[]).is_none());
    let failed_again: agent_core::error::CoreResult<agent_core::routing::ModelsConfig> = Err(
        agent_core::error::CoreError::new(500, "invalid models config".to_string()),
    );
    assert!(find_configured_provider(failed_again, ProviderType::OpenAi, "OpenAI").is_none());
}

#[test]
fn configured_models_mark_the_default() {
    let config = parse_config(multi_provider_config_toml());
    let models = config.providers[1].to_models();
    assert_eq!(models.len(), 1);
    assert_eq!(models[0].model_name, "gpt-4.1");
    assert!(models[0].is_default);
    assert_eq!(models[0].context_window, 128000);
    assert!(models[0].supports_tools);
    assert_eq!(models[0].capabilities, vec!["chat".to_string(), "tools".to_string()]);
}

#[test]
fn memory_note_is_written_only_when_asked() {
    assert!(should_write_memory_note("Please REMEMBER this"));
    assert!(should_write_memory_note("save it"));
    assert!(should_write_memory_note("store\tthat"));
    assert!(should_write_memory_note("Memorize the plan"));
    assert!(!should_write_memory_note("remembering is hard"));
    assert!(!should_write_memory_note("Explain the stack"));
    assert!(!should_write_memory_note(""));
}

#[test]
fn subagent_delegation_rule() {
    assert!(should_delegate_to_subagent("Use a SubAgent for this"));
    assert!(!should_delegate_to_subagent("short request"));
    assert!(should_delegate_to_subagent(&"a".repeat(121)));
    assert!(!should_delegate_to_subagent(&"a".repeat(120)));
    assert!(should_delegate_to_subagent(&"é".repeat(61)));
}

#[test]
fn context_step_summary_counts() {
    assert_eq!(
        context_step_summary(6, 0),
        "Loaded 6 recent messages and 0 memory hits."
    );
}

#[test]
fn default_plan_steps_are_found_by_kind() {
    let mut store = StoreState::new();
    let session = store.create_session(agent_core::domain::CreateSessionRequest { title: None });
    let accepted = store
        .enqueue_user_message(
            session.id,
            agent_core::domain::PostMessageRequest {
                content: "hello".to_string(),
            },
        )
        .expect("enqueue");
    let plan = store.get_task_plan(accepted.run.task_id).expect("plan");
    let (context, respond) = agent_core::run_flow::default_plan_step_ids(&plan);
    let context_step = plan
        .steps
        .iter()
        .find(|s| s.kind == PlanStepKind::ContextBuild)
        .expect("context step");
    let respond_step = plan
        .steps
        .iter()
        .find(|s| s.kind == PlanStepKind::Respond)
        .expect("respond step");
    assert_eq!(context, Some(context_step.id));
    assert_eq!(respond, Some(respond_step.id));
}
