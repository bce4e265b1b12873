use agent_core::domain::{
    CreateMemoryDocumentRequest, MemorySearchHit, CreateSessionRequest, MemoryScope, MessageRecord, MessageRole,
    PostMessageRequest, RunEventEnvelope, RunStatus, SessionStatus, TaskStatus,
};
use agent_core::routing::{ConfiguredModel, ConfiguredProvider, ModelsConfig};
use agent_core::domain::ProviderType;
use agent_core::store::StoreState;

fn store_with_session() -> (StoreState, u128) {
    let mut store = StoreState::new();
    let session = store.create_session(CreateSessionRequest {
        title: Some("Test Session".to_string()),
    });
    (store, session.id)
}

fn post(store: &mut StoreState, session_id: u128, content: &str) -> agent_core::domain::RunAccepted {
    store
        .enqueue_user_message(
            session_id,
            PostMessageRequest {
                content: content.to_string(),
            },
        )
        .expect("enqueue message")
}

#[test]
fn enqueued_run_is_active_and_names_its_task() {
    let (mut store, session_id) = store_with_session();
    let accepted = post(
        &mut store,
        session_id,
        "  one two three four five six seven eight nine  ",
    );
    assert!(store.run_is_active(accepted.run.id));
    assert_eq!(
        accepted.user_message.content,
        "one two three four five six seven eight nine"
    );
    let task = store.get_task(accepted.run.task_id).expect("task");
    assert_eq!(task.title, "one two three four five six seven eight...");
    assert_eq!(task.status, TaskStatus::Running);
}

#[test]
fn blank_messages_are_refused() {
    let (mut store, session_id) = store_with_session();
    let error = store
        .enqueue_user_message(
            session_id,
            PostMessageRequest {
                content: "  \n ".to_string(),
            },
        )
        .expect_err("blank message");
    assert_eq!(error.status, 400);
    assert_eq!(error.message, "message content cannot be empty");
    let missing = store
        .enqueue_user_message(
            7,
            PostMessageRequest {
                content: "hi".to_string(),
            },
        )
        .expect_err("unknown session");
    assert_eq!(missing.status, 404);
    assert_eq!(missing.message, "session not found");
}

#[test]
fn completing_a_run_stores_the_reply_once() {
    let (mut store, session_id) = store_with_session();
    let accepted = post(&mut store, session_id, "Explain the stack");
    let reply = store
        .finalize_run_reply(session_id, accepted.run.id, "It is Rust all the way down.".to_string())
        .expect("finalize")
        .expect("reply stored");
    assert_eq!(reply.role, MessageRole::Assistant);
    assert_eq!(reply.content, "It is Rust all the way down.");
    assert!(!store.run_is_active(accepted.run.id));
    let run = store.get_run(accepted.run.id).expect("run");
    assert_eq!(run.status, RunStatus::Completed);
    let task = store.get_task(accepted.run.task_id).expect("task");
    assert_eq!(task.summary, "It is Rust all the way down.");
    assert_eq!(task.status, TaskStatus::Completed);

    let messages_before = store.messages.len();
    let second = store
        .finalize_run_reply(session_id, accepted.run.id, "again".to_string())
        .expect("second finalize");
    assert!(second.is_none());
    assert_eq!(store.messages.len(), messages_before);
}

#[test]
fn a_cancelled_run_drops_its_late_reply() {
    let (mut store, session_id) = store_with_session();
    let accepted = post(&mut store, session_id, "Cancel me");
    let cancelled = store.cancel_run(accepted.run.id).expect("cancel");
    assert_eq!(cancelled.status, RunStatus::Cancelled);
    assert!(!store.run_is_active(accepted.run.id));
    let messages_before = store.messages.len();
    let late = store
        .finalize_run_reply(session_id, accepted.run.id, "too late".to_string())
        .expect("finalize after cancel");
    assert!(late.is_none());
    assert_eq!(store.messages.len(), messages_before);
    let conflict = store
        .append_assistant_message_and_complete_run(session_id, accepted.run.id, "x".to_string())
        .expect_err("conflict");
    assert_eq!(conflict.status, 409);
    assert_eq!(conflict.message, "run is no longer active");
}

#[test]
fn memory_note_of_a_run() {
    let (mut store, session_id) = store_with_session();
    let note = store
        .write_run_memory_note(session_id, "Please remember the plan", "The plan is set.")
        .expect("note");
    assert!(note.title.starts_with("Run note "));
    assert_eq!(note.title.len(), "Run note ".len() + "2024-01-01 00:00:00".len());
    assert_eq!(note.namespace, "session");
    assert_eq!(note.source, "run-summary");
    assert_eq!(note.memory_scope, MemoryScope::Session);
    assert_eq!(note.owner_session_id, Some(session_id));
    assert_eq!(
        note.content,
        "User request: Please remember the plan\n\nAssistant response: The plan is set."
    );
    assert_eq!(note.summary, "The plan is set.");
    assert_eq!(note.chunk_count, 0);
    assert_eq!(store.memory_documents.len(), 1);
}

#[test]
fn run_context_keeps_the_last_six_messages_and_sorts_providers() {
    let config = ModelsConfig {
        providers: vec![
            ConfiguredProvider {
                provider_type: ProviderType::OpenRouter,
                display_name: "Zeta".to_string(),
                base_url: None,
                api_key_env: None,
                default_model: None,
                models: vec![],
            },
            ConfiguredProvider {
                provider_type: ProviderType::OpenAi,
                display_name: "Alpha".to_string(),
                base_url: None,
                api_key_env: None,
                default_model: Some("m".to_string()),
                models: vec![ConfiguredModel {
                    name: "m".to_string(),
                    context_window: 1,
                    supports_tools: false,
                    supports_embeddings: false,
                    capabilities: vec![],
                }],
            },
        ],
    };
    let mut store = StoreState::seeded(&config);
    let session_id = store.sessions[0].id;
    for i in 0..7 {
        store.messages.push(MessageRecord {
            id: 1000 + i,
            session_id,
            role: MessageRole::User,
            content: format!("m{i}"),
            created_at: i as i64,
            run_id: None,
        });
    }
    let context = store
        .build_run_context(
            session_id,
            (0..8u128)
                .map(|i| MemorySearchHit {
                    document_id: i,
                    chunk_id: i,
                    document_title: format!("doc{i}"),
                    namespace: "global".to_string(),
                    content: String::new(),
                })
                .collect(),
            vec![
                ("research-skill".to_string(), true),
                ("planning-skill".to_string(), false),
            ],
        )
        .expect("context");
    let contents: Vec<&str> = context
        .recent_messages
        .iter()
        .map(|m| m.content.as_str())
        .collect();
    assert_eq!(contents, vec!["m1", "m2", "m3", "m4", "m5", "m6"]);
    let names: Vec<&str> = context
        .providers
        .iter()
        .map(|p| p.display_name.as_str())
        .collect();
    assert_eq!(names, vec!["Alpha", "Zeta"]);
    assert_eq!(
        context.effective_skill_names,
        vec!["research-skill".to_string(), "planning-skill".to_string()]
    );
    assert_eq!(context.pinned_skill_names, vec!["research-skill".to_string()]);
    let hit_ids: Vec<u128> = context.memory_hits.iter().map(|h| h.document_id).collect();
    assert_eq!(hit_ids, vec![0, 1, 2, 3, 4, 5]);
    let missing = store
        .build_run_context(1, vec![], vec![])
        .expect_err("unknown session");
    assert_eq!(missing.status, 404);
}

#[test]
fn seeded_store_holds_the_starter_records() {
    let store = StoreState::seeded(&ModelsConfig { providers: vec![] });
    assert_eq!(store.sessions.len(), 1);
    assert_eq!(store.sessions[0].title, "Implementation Sandbox");
    assert_eq!(store.sessions[0].status, SessionStatus::Active);
    assert_eq!(store.messages.len(), 1);
    assert_eq!(store.messages[0].role, MessageRole::Assistant);
    let skills: Vec<String> = store.list_skills().into_iter().map(|s| s.name).collect();
    assert_eq!(
        skills,
        vec!["planning-skill".to_string(), "research-skill".to_string()]
    );
    assert_eq!(store.subagents[0].name, "research-analyst");
    assert_eq!(store.subagents[0].max_steps, 8);
    assert_eq!(store.memory_documents.len(), 2);
    assert_eq!(
        store.memory_documents[0].summary,
        "The Asuka platform aims to support a Rust backend service, a Next.js chat UI, skill registration, subagent delegation,..."
    );
    assert_eq!(store.mcp_servers[0].capabilities.len(), 3);
    assert!(store.providers.is_empty());
}

#[test]
fn memory_documents_are_summarized_and_scoped() {
    let (mut store, session_id) = store_with_session();
    let document = store
        .create_memory_document(CreateMemoryDocumentRequest {
            title: " Notes ".to_string(),
            content: " a b c ".to_string(),
            namespace: Some("session".to_string()),
            source: None,
            memory_scope: None,
            owner_session_id: Some(session_id),
            owner_task_id: None,
            is_pinned: None,
        })
        .expect("create document");
    assert_eq!(document.title, "Notes");
    assert_eq!(document.summary, "a b c");
    assert_eq!(document.memory_scope, MemoryScope::Session);
    assert_eq!(document.source, "manual");

    let refused = store
        .create_memory_document(CreateMemoryDocumentRequest {
            title: "Private".to_string(),
            content: "text".to_string(),
            namespace: Some("session".to_string()),
            source: None,
            memory_scope: None,
            owner_session_id: None,
            owner_task_id: None,
            is_pinned: None,
        })
        .expect_err("session scope without owner");
    assert_eq!(refused.message, "session-scoped memory requires ownerSessionId");
}

#[test]
fn run_events_are_listed_in_sequence_order() {
    let (mut store, session_id) = store_with_session();
    let accepted = post(&mut store, session_id, "stream please");
    for (sequence, delta) in [(3u64, "world"), (1, "hello")] {
        store
            .append_run_event(RunEventEnvelope {
                event_type: "message.delta".to_string(),
                run_id: accepted.run.id,
                session_id,
                timestamp: sequence as i64,
                sequence,
                payload_json: format!("{{\"delta\":\"{delta}\"}}"),
            })
            .expect("append event");
    }
    let events = store.list_run_events(accepted.run.id, None).expect("events");
    let sequences: Vec<u64> = events.iter().map(|e| e.sequence).collect();
    assert_eq!(sequences, vec![1, 3]);
}

#[test]
fn deleting_a_session_removes_it() {
    let (mut store, session_id) = store_with_session();
    post(&mut store, session_id, "hello");
    store.delete_session(session_id).expect("delete");
    assert!(store.sessions.is_empty());
    assert!(store.messages.is_empty());
    assert!(store.runs.is_empty());
    assert!(store.tasks.is_empty());
    let missing = store.get_session(session_id).expect_err("gone");
    assert_eq!(missing.status, 404);
}
