use agent_core::test_support::{
    moonshot_provider_config_toml, multi_provider_config_toml, EnvVarGuard,
    OpenRouterTransportRequest, TestOpenRouterOutcome, TestOpenRouterResponse,
    TestOpenRouterTransport,
};

fn request(endpoint: &str, body: &str) -> OpenRouterTransportRequest {
    OpenRouterTransportRequest {
        endpoint: endpoint.to_string(),
        body: body.as_bytes().to_vec(),
    }
}

#[test]
fn transport_plays_outcomes_in_order_and_records_requests() {
    let mut transport = TestOpenRouterTransport::new(vec![
        TestOpenRouterOutcome::Response(TestOpenRouterResponse::json(200, "{\"a\":1}")),
        TestOpenRouterOutcome::Error("simulated upstream failure".to_string()),
    ]);

    let first = transport
        .send_chat_completion(request("/chat/completions", "{\"n\":1}"))
        .expect("first answer");
    assert_eq!(first.status, 200);
    assert_eq!(first.body, b"{\"a\":1}".to_vec());

    let second = transport
        .send_chat_completion(request("/chat/completions", "{\"n\":2}"))
        .expect_err("second fails");
    assert_eq!(second.status, 502);
    assert_eq!(second.message, "simulated upstream failure");

    let third = transport
        .send_chat_completion(request("/chat/completions", "{\"n\":3}"))
        .expect_err("nothing queued");
    assert_eq!(
        third.message,
        "no queued OpenRouter response (default status 500 Internal Server Error)"
    );

    let recorded = transport.recorded_requests();
    assert_eq!(recorded.len(), 3);
    assert_eq!(recorded[1].body, b"{\"n\":2}".to_vec());
    assert_eq!(recorded[2].endpoint, "/chat/completions");
}

#[test]
fn transport_replaces_invalid_status_codes() {
    let mut transport = TestOpenRouterTransport::new(vec![
        TestOpenRouterOutcome::Response(TestOpenRouterResponse::json(42, "{}")),
        TestOpenRouterOutcome::Response(TestOpenRouterResponse::json(404, "{}")),
    ]);
    let first = transport.send_chat_completion(request("/x", "")).expect("answer");
    assert_eq!(first.status, 200);
    let second = transport.send_chat_completion(request("/x", "")).expect("answer");
    assert_eq!(second.status, 404);
}

#[test]
fn json_response_holds_the_text_bytes() {
    let response = TestOpenRouterResponse::json(201, "é");
    assert_eq!(response.status, 201);
    assert_eq!(response.body, "é".as_bytes().to_vec());
}

#[test]
fn config_texts_name_their_providers() {
    assert!(multi_provider_config_toml().contains("display_name = \"OpenRouter\""));
    assert!(multi_provider_config_toml().contains("default_model = \"gpt-4.1\""));
    assert!(moonshot_provider_config_toml().contains("api_key_env = \"MOONSHOT_API_KEY\""));
    let parsed: toml::Value = toml::from_str(multi_provider_config_toml()).expect("valid toml");
    assert_eq!(parsed["providers"].as_array().map(|p| p.len()), Some(2));
}

#[test]
fn env_guard_remembers_the_earlier_value() {
    let guard = EnvVarGuard::new("MOONSHOT_API_KEY".to_string(), Some("old".to_string()));
    assert_eq!(guard.restore_value().as_deref(), Some("old"));
    let unset = EnvVarGuard::new("OPENROUTER_API_KEY".to_string(), None);
    assert_eq!(unset.restore_value(), None);
}
