use agent_core::domain::{
    CreateMcpServerRequest, CreateProviderRequest, CreateSkillRequest, CreateSubagentRequest,
    ProviderType, ResourceStatus, UpdateProviderRequest, UpdateSkillRequest,
    UpdateSubagentRequest,
};
use agent_core::store::StoreState;

#[test]
fn skills_are_created_updated_and_listed_by_name() {
    let mut store = StoreState::new();
    let b = store.create_skill(CreateSkillRequest {
        name: "b-skill".to_string(),
        description: "second".to_string(),
    });
    store.create_skill(CreateSkillRequest {
        name: "a-skill".to_string(),
        description: "first".to_string(),
    });
    let names: Vec<String> = store.list_skills().into_iter().map(|s| s.name).collect();
    assert_eq!(names, vec!["a-skill".to_string(), "b-skill".to_string()]);

    let updated = store
        .update_skill(
            b.id,
            UpdateSkillRequest {
                description: None,
                status: Some(ResourceStatus::Disabled),
            },
        )
        .expect("update skill");
    assert_eq!(updated.description, "second");
    assert_eq!(updated.status, ResourceStatus::Disabled);
    let missing = store
        .update_skill(
            99,
            UpdateSkillRequest {
                description: None,
                status: None,
            },
        )
        .expect_err("unknown skill");
    assert_eq!(missing.status, 404);
    assert_eq!(missing.message, "skill not found");
}

#[test]
fn subagents_keep_unchanged_fields_on_update() {
    let mut store = StoreState::new();
    let created = store.create_subagent(CreateSubagentRequest {
        name: "analyst".to_string(),
        description: "looks things up".to_string(),
        scope: "notes".to_string(),
        max_steps: 4,
    });
    let updated = store
        .update_subagent(
            created.id,
            UpdateSubagentRequest {
                description: None,
                scope: Some("web".to_string()),
                max_steps: None,
                status: None,
            },
        )
        .expect("update subagent");
    assert_eq!(updated.scope, "web");
    assert_eq!(updated.max_steps, 4);
    assert_eq!(updated.description, "looks things up");
    assert_eq!(store.get_subagent(created.id).expect("get").scope, "web");
}

#[test]
fn providers_are_created_and_updated() {
    let mut store = StoreState::new();
    let provider = store.create_provider(CreateProviderRequest {
        provider_type: ProviderType::Anthropic,
        display_name: "Anthropic".to_string(),
        base_url: None,
    });
    assert_eq!(provider.status, ResourceStatus::Active);
    assert!(provider.models.is_empty());
    let updated = store
        .update_provider(
            provider.id,
            UpdateProviderRequest {
                display_name: None,
                base_url: Some("https://api.example.test".to_string()),
                status: None,
            },
        )
        .expect("update provider");
    assert_eq!(updated.display_name, "Anthropic");
    assert_eq!(updated.base_url.as_deref(), Some("https://api.example.test"));
    assert_eq!(store.get_provider(provider.id).expect("get").base_url, updated.base_url);
    assert_eq!(store.get_provider(5).expect_err("unknown").status, 404);
}

#[test]
fn mcp_servers_report_reachability_and_capabilities() {
    let mut store = StoreState::new();
    let server = store.create_mcp_server(CreateMcpServerRequest {
        name: "files".to_string(),
        transport: "stdio".to_string(),
        command: "serve".to_string(),
    });
    let result = store.test_mcp_server(server.id).expect("test server");
    assert!(result.ok);
    assert_eq!(
        result.message,
        "files is reachable in this prototype via stdio transport."
    );
    let missing = store.test_mcp_server(1).expect_err("unknown server");
    assert_eq!(missing.message, "mcp server not found");
}
