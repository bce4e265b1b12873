use agent_core::domain::{
    ArtifactKind, ArtifactProducerKind, ArtifactRecord, ArtifactRenderMode, CreateSessionRequest,
    PlanStepKind, PostMessageRequest, RunStepStatus,
};
use agent_core::paths::{
    display_relative_path, join_normalized, resolve_lexically, resolve_workspace_path, to_relative,
    PathProbe,
};
use agent_core::run_flow::{next_run_action, RunAction, RunStage, StageOutcome};
use agent_core::store::StoreState;
use agent_core::error::CoreError;
use agent_core::prompts::{fallback_response, response_or_fallback};
use agent_core::tool_driver::{DriverStep, ToolLoopDriver, ToolLoopEvent};
use agent_core::test_support::{
    OpenRouterTransportRequest, TestOpenRouterOutcome, TestOpenRouterResponse,
    TestOpenRouterTransport,
};
use agent_core::tool_loop::{
    report_tool_outcome, ToolLoop, ToolLoopAction, ToolOutcome, MAX_TOOL_STEPS,
};
use agent_core::tools::workspace_file_artifact;

fn store_with_run(content: &str) -> (StoreState, u128, u128, u128) {
    let mut store = StoreState::new();
    let session = store.create_session(CreateSessionRequest {
        title: Some("Flow".to_string()),
    });
    let accepted = store
        .enqueue_user_message(
            session.id,
            PostMessageRequest {
                content: content.to_string(),
            },
        )
        .expect("enqueue message");
    (store, session.id, accepted.run.task_id, accepted.run.id)
}

fn artifact(id: u128, session_id: u128, task_id: u128, run_id: u128, updated_at: i64) -> ArtifactRecord {
    ArtifactRecord {
        id,
        session_id,
        task_id,
        run_id,
        path: format!("notes/{id}.md"),
        display_name: format!("{id}.md"),
        description: "note".to_string(),
        kind: ArtifactKind::Document,
        render_mode: ArtifactRenderMode::Markdown,
        media_type: "text/markdown".to_string(),
        size_bytes: 1,
        producer_kind: ArtifactProducerKind::Run,
        producer_ref_id: None,
        created_at: 1,
        updated_at,
    }
}

#[test]
fn artifacts_with_equal_timestamps_keep_their_order() {
    let (mut store, session_id, task_id, run_id) = store_with_run("keep order");
    for (id, at) in [(11u128, 5i64), (12, 9), (13, 5), (14, 5), (15, 1)] {
        store
            .upsert_artifact(artifact(id, session_id, task_id, run_id, at))
            .expect("upsert artifact");
    }
    let listed = store.list_run_artifacts(run_id).expect("list");
    let ids: Vec<u128> = listed.iter().map(|a| a.id).collect();
    assert_eq!(ids, vec![12, 11, 13, 14, 15]);
}

#[test]
fn relative_paths_keep_the_text_after_the_root() {
    assert_eq!(display_relative_path("/w", "/w/a//b.txt"), "a//b.txt");
    assert_eq!(display_relative_path("/w", "/wx/a.txt"), "/wx/a.txt");
    assert_eq!(to_relative("/w", "/w/src//lib.rs"), "src//lib.rs");
    assert_eq!(to_relative("/w", "/w"), ".");
}

#[test]
fn joined_paths_are_normalized_without_a_containment_check() {
    assert_eq!(join_normalized("/w", "../missing"), "/missing");
    assert_eq!(join_normalized("/w", "a/./b/../c"), "/w/a/c");
    assert_eq!(join_normalized("/w", "/etc/x"), "/etc/x");
    let outside = resolve_lexically("/w", "../missing").expect_err("outside the root");
    assert_eq!(outside.status, 400);
}

#[test]
fn run_flow_goes_through_its_stages() {
    assert!(matches!(
        next_run_action(RunStage::Announce, StageOutcome::Done, false),
        RunAction::Perform(RunStage::LoadRun)
    ));
    assert!(matches!(
        next_run_action(RunStage::RetrieveMemory, StageOutcome::Done, true),
        RunAction::Perform(RunStage::Delegate)
    ));
    assert!(matches!(
        next_run_action(RunStage::RetrieveMemory, StageOutcome::Done, false),
        RunAction::Perform(RunStage::ConfirmActive)
    ));
    assert!(matches!(
        next_run_action(RunStage::Delegate, StageOutcome::Done, true),
        RunAction::Perform(RunStage::ConfirmActive)
    ));
    assert!(matches!(
        next_run_action(RunStage::Stream, StageOutcome::Done, false),
        RunAction::Perform(RunStage::Finalize)
    ));
    assert!(matches!(
        next_run_action(RunStage::Finalize, StageOutcome::Done, false),
        RunAction::Stop
    ));
}

#[test]
fn run_flow_stops_or_fails_the_run() {
    assert!(matches!(
        next_run_action(RunStage::Stream, StageOutcome::Inactive, false),
        RunAction::Stop
    ));
    assert!(matches!(
        next_run_action(RunStage::LoadRun, StageOutcome::Failed("run not found".to_string()), false),
        RunAction::Stop
    ));
    match next_run_action(RunStage::BuildContext, StageOutcome::Failed("no context".to_string()), false) {
        RunAction::FailRun { message, close_step } => {
            assert_eq!(message, "no context");
            assert!(close_step);
        }
        _ => panic!("expected the run to fail"),
    }
    match next_run_action(RunStage::ApplySelection, StageOutcome::Failed("no model".to_string()), false) {
        RunAction::FailRun { message, close_step } => {
            assert_eq!(message, "no model");
            assert!(!close_step);
        }
        _ => panic!("expected the run to fail"),
    }
    match next_run_action(RunStage::Respond, StageOutcome::Failed("upstream".to_string()), true) {
        RunAction::FailRun { close_step, .. } => assert!(close_step),
        _ => panic!("expected the run to fail"),
    }
}

#[test]
fn a_run_moves_forward_to_its_end() {
    let mut stage = RunStage::Announce;
    let mut seen = vec![stage];
    loop {
        match next_run_action(stage, StageOutcome::Done, true) {
            RunAction::Perform(next) => {
                stage = next;
                seen.push(next);
            }
            RunAction::Stop => break,
            RunAction::FailRun { .. } => panic!("nothing failed"),
        }
    }
    assert_eq!(seen.len(), 15);
    assert_eq!(stage, RunStage::Finalize);
}

#[test]
fn subagent_steps_are_opened_and_closed() {
    let (mut store, _, _, run_id) = store_with_run("Please ask a subagent to research this topic");
    let step = store
        .open_subagent_step(run_id, "Please ask a subagent to research this topic")
        .expect("open subagent step");
    assert_eq!(step.title, "Delegate to research-analyst");
    assert_eq!(step.kind, PlanStepKind::Subagent);
    assert_eq!(step.plan_step_id, None);
    assert_eq!(step.status, RunStepStatus::Running);
    assert_eq!(step.input_summary, "Please ask a subagent to research this topic");
    let done = store.close_subagent_step(step.id).expect("close subagent step");
    assert_eq!(done.status, RunStepStatus::Completed);
    assert_eq!(
        done.output_summary.as_deref(),
        Some("Subagent produced a scoped summary for the parent run.")
    );
    let missing = store.open_subagent_step(run_id + 1, "x").expect_err("unknown run");
    assert_eq!(missing.status, 404);
}

#[test]
fn tool_call_artifacts_are_recorded_for_the_run() {
    let (mut store, session_id, task_id, run_id) = store_with_run("Write a note");
    let arguments = "{\"content\":\"# Tool Output\\n\\nPersisted during tool execution.\\n\",\"path\":\"notes/tool-output.md\"}";
    let step = store
        .start_tool_step(run_id, "write_file", arguments)
        .expect("start tool step");
    let report = report_tool_outcome(&ToolOutcome::Completed {
        ok: true,
        payload: "{\"bytesWritten\":48,\"path\":\"notes/tool-output.md\"}".to_string(),
    });
    let invocation = store
        .record_tool_invocation(
            step.id,
            "write_file".to_string(),
            "local".to_string(),
            arguments.to_string(),
            report.result_json.clone(),
            report.ok,
            report.error.clone(),
        )
        .expect("record invocation");
    let written = workspace_file_artifact(
        "notes/tool-output.md",
        "tool-output.md",
        "# Tool Output\n\nPersisted during tool execution.\n",
    );
    let files = store
        .record_tool_artifacts(session_id, task_id, &invocation, &[written])
        .expect("record artifacts");
    assert_eq!(files.len(), 2);
    let record = &files[0];
    let snapshot = &files[1];
    assert!(record.artifact.path.ends_with("/result.json"));
    assert!(record.artifact.path.starts_with("runs/"));
    assert_eq!(record.artifact.display_name, "result.json");
    assert_eq!(record.artifact.media_type, "application/json");
    assert!(record.content.contains("\"toolName\": \"write_file\""));
    assert!(record.content.contains("\"path\": \"notes/tool-output.md\""));
    assert_eq!(record.artifact.size_bytes, record.content.len() as u64);
    assert!(snapshot
        .artifact
        .path
        .ends_with("/outputs/workspace/notes/tool-output.md"));
    assert_eq!(snapshot.artifact.render_mode, ArtifactRenderMode::Markdown);
    assert!(snapshot.content.contains("# Tool Output"));
    assert!(snapshot.content.contains("Persisted during tool execution."));
    assert_eq!(snapshot.artifact.producer_kind, ArtifactProducerKind::Tool);
    assert_eq!(snapshot.artifact.producer_ref_id, Some(invocation.id));
    assert_eq!(record.artifact.producer_ref_id, snapshot.artifact.producer_ref_id);

    let listed = store.list_run_artifacts(run_id).expect("list artifacts");
    assert_eq!(listed.len(), 2);
    let missing = store
        .record_tool_artifacts(session_id + 1, task_id, &invocation, &[])
        .expect_err("unknown session");
    assert_eq!(missing.status, 404);
}

#[test]
fn a_tool_loop_records_one_call_per_step_until_the_budget_ends() {
    let mut tool_loop = ToolLoop::new();
    let mut rounds = 0;
    while tool_loop.next_prompt("go", "[]").is_ok() {
        match tool_loop.read_reply("{\"type\":\"tool\",\"tool\":\"list\"}") {
            ToolLoopAction::Tool { tool_name, arguments } => {
                tool_loop.record_tool_call(
                    tool_name,
                    arguments,
                    &ToolOutcome::Completed {
                        ok: true,
                        payload: "{}".to_string(),
                    },
                );
            }
            _ => panic!("expected a tool call"),
        }
        rounds += 1;
    }
    assert_eq!(rounds, MAX_TOOL_STEPS);
    assert_eq!(tool_loop.steps_taken, 8);
    assert_eq!(tool_loop.transcript.len(), 8);
}

#[test]
fn recorded_requests_are_kept_in_order_and_not_drained() {
    let mut transport = TestOpenRouterTransport::new(vec![TestOpenRouterOutcome::Response(
        TestOpenRouterResponse::json(200, "{}"),
    )]);
    for n in 0..3 {
        let _ = transport.send_chat_completion(OpenRouterTransportRequest {
            endpoint: format!("/e{n}"),
            body: format!("{{\"n\":{n}}}").into_bytes(),
        });
    }
    let first = transport.recorded_requests();
    let second = transport.recorded_requests();
    let endpoints: Vec<String> = first.iter().map(|r| r.endpoint.clone()).collect();
    assert_eq!(endpoints, vec!["/e0", "/e1", "/e2"]);
    assert_eq!(first[2].body, b"{\"n\":2}".to_vec());
    assert_eq!(second.len(), 3);
    assert_eq!(second[0].endpoint, first[0].endpoint);
}

#[test]
fn todo_paths_name_the_session_in_hyphenated_hex() {
    assert_eq!(
        agent_core::tools::default_todo_path(0x0123456789abcdef0fedcba987654321),
        ".asuka/todos/01234567-89ab-cdef-0fed-cba987654321.md"
    );
    assert_eq!(
        agent_core::tools::default_todo_path(0),
        ".asuka/todos/00000000-0000-0000-0000-000000000000.md"
    );
}

#[test]
fn workspace_paths_are_resolved_as_the_file_system_answers() {
    let root_failed = resolve_workspace_path(
        "/gone",
        Err("No such file or directory (os error 2)".to_string()),
        "a.txt",
        true,
        PathProbe::Missing,
    )
    .expect_err("root cannot be resolved");
    assert_eq!(root_failed.status, 500);
    assert_eq!(
        root_failed.message,
        "failed to resolve workspace root /gone: No such file or directory (os error 2)"
    );

    let nested = resolve_workspace_path("/w", Ok("/w".to_string()), ".asuka/nested/file.txt", true, PathProbe::Missing)
        .expect("missing path allowed");
    assert_eq!(nested, "/w/.asuka/nested/file.txt");
    let escaping = resolve_workspace_path("/w", Ok("/w".to_string()), "../x", true, PathProbe::Missing)
        .expect_err("outside the root");
    assert_eq!(escaping.status, 400);
    assert_eq!(escaping.message, "path /x is outside the workspace root /w");

    let missing = resolve_workspace_path("/w", Ok("/w".to_string()), "../missing", false, PathProbe::Missing)
        .expect_err("missing path");
    assert_eq!(missing.status, 404);
    assert_eq!(missing.message, "path not found");

    let unresolved = resolve_workspace_path(
        "/w",
        Ok("/w".to_string()),
        "a/../b",
        false,
        PathProbe::Unresolved("permission denied".to_string()),
    )
    .expect_err("cannot resolve");
    assert_eq!(unresolved.status, 400);
    assert_eq!(unresolved.message, "failed to resolve path /w/b: permission denied");

    let linked_out = resolve_workspace_path(
        "/w",
        Ok("/w".to_string()),
        "link",
        false,
        PathProbe::Canonical("/etc/passwd".to_string()),
    )
    .expect_err("symlink out of the workspace");
    assert_eq!(linked_out.status, 400);

    let inside = resolve_workspace_path(
        "/w",
        Ok("/w".to_string()),
        "notes",
        false,
        PathProbe::Canonical("/w/notes".to_string()),
    )
    .expect("existing path");
    assert_eq!(inside, "/w/notes");
}

const RG_OUTPUT: &str = "{\"type\":\"begin\",\"data\":{\"path\":{\"text\":\"/w/src/a.rs\"}}}\n{\"type\":\"match\",\"data\":{\"path\":{\"text\":\"/w/src/a.rs\"},\"lines\":{\"text\":\"fn main() {  \\n\"},\"line_number\":3}}\nnot json\n{\"type\":\"match\",\"data\":{\"path\":{\"text\":\"/w/src/b.rs\"},\"lines\":{\"text\":\"let x = 1;\\r\\n\"},\"line_number\":7}}\n{\"type\":\"end\",\"data\":{}}\n";

#[test]
fn ripgrep_output_gives_its_matches() {
    let (found, truncated) = agent_core::ripgrep::ripgrep_matches("/w", "/w", RG_OUTPUT, 100);
    assert!(!truncated);
    assert_eq!(found.len(), 2);
    assert_eq!(found[0].path, "src/a.rs");
    assert_eq!(found[0].line, 3);
    assert_eq!(found[0].text, "fn main() {");
    assert_eq!(found[1].path, "src/b.rs");
    assert_eq!(found[1].line, 7);
    assert_eq!(found[1].text, "let x = 1;");

    let (in_src, _) = agent_core::ripgrep::ripgrep_matches("/w", "/w/src", RG_OUTPUT, 100);
    assert_eq!(in_src[0].path, "a.rs");

    let (first, cut) = agent_core::ripgrep::ripgrep_matches("/w", "/w", RG_OUTPUT, 1);
    assert_eq!(first.len(), 1);
    assert!(cut);

    let bare = agent_core::ripgrep::parse_match_line("/w", "/w", "{\"type\":\"match\"}")
        .expect("a match without data");
    assert_eq!(bare.path, "");
    assert_eq!(bare.line, 0);
    assert_eq!(bare.text, "");
    assert!(agent_core::ripgrep::parse_match_line("/w", "/w", "{\"type\":\"context\"}").is_none());
}

#[test]
fn a_failed_model_falls_back_with_its_message() {
    let (answer, failure) = response_or_fallback(None, None, &[], "Hi", 2);
    assert_eq!(answer, fallback_response(None, &[], "Hi", 2));
    assert!(failure.is_none());
    let selection = agent_core::routing::ProviderSelection {
        provider_id: 1,
        provider_name: "OpenAI".to_string(),
        provider_type: agent_core::domain::ProviderType::OpenAi,
        model_name: "gpt-4.1".to_string(),
        base_url: "https://api.openai.com/v1".to_string(),
        api_key_env: None,
    };
    let (answer, failure) =
        response_or_fallback(Some(&selection), Some(Ok("model says hi".to_string())), &[], "Hi", 2);
    assert_eq!(answer, "model says hi");
    assert!(failure.is_none());
    let (answer, failure) = response_or_fallback(
        Some(&selection),
        Some(Err(CoreError::new(502, "simulated upstream failure".to_string()))),
        &[],
        "Hi",
        2,
    );
    assert_eq!(answer, fallback_response(Some(&selection), &[], "Hi", 2));
    assert!(answer.contains("Selected provider"));
    assert_eq!(failure.as_deref(), Some("simulated upstream failure"));
}

#[test]
fn the_driven_tool_loop_asks_eight_times_then_fails() {
    let mut driver = ToolLoopDriver::new();
    let mut event = ToolLoopEvent::Begin;
    let mut asks = 0;
    let mut runs = 0;
    let mut records = 0;
    let error = loop {
        event = match driver.advance(event, "go", "[]") {
            DriverStep::AskModel(prompt) => {
                asks += 1;
                assert!(prompt.contains(&format!("Current step budget: {asks}/8.")));
                ToolLoopEvent::Replied("{\"type\":\"tool\",\"tool\":\"list\"}".to_string())
            }
            DriverStep::RunTool { tool_name, .. } => {
                runs += 1;
                assert_eq!(tool_name, "list");
                ToolLoopEvent::ToolRan(ToolOutcome::Completed {
                    ok: true,
                    payload: "{}".to_string(),
                })
            }
            DriverStep::Record(report) => {
                records += 1;
                assert!(report.ok);
                ToolLoopEvent::Recorded
            }
            DriverStep::Finish(_) => panic!("no final answer was given"),
            DriverStep::Fail(error) => break error,
        };
    };
    assert_eq!((asks, runs, records), (8, 8, 8));
    assert_eq!(error.status, 400);
    assert_eq!(error.message, "tool loop exceeded max step budget of 8");
    assert_eq!(driver.tool_loop.transcript.len(), 8);
}

#[test]
fn the_driven_tool_loop_finishes_on_a_final_answer() {
    let mut driver = ToolLoopDriver::new();
    assert!(matches!(driver.advance(ToolLoopEvent::Begin, "go", "[]"), DriverStep::AskModel(_)));
    match driver.advance(
        ToolLoopEvent::Replied("{\"type\":\"final\",\"content\":\"done\"}".to_string()),
        "go",
        "[]",
    ) {
        DriverStep::Finish(content) => assert_eq!(content, "done"),
        _ => panic!("expected the final answer"),
    }
}

#[test]
fn json_strings_are_escaped_as_serde_json_writes_them() {
    let report = report_tool_outcome(&ToolOutcome::Failed {
        message: "bad \"path\"\\\n\u{1}".to_string(),
    });
    assert_eq!(
        report.result_json,
        "{\"error\":\"bad \\\"path\\\"\\\\\\n\\u0001\",\"ok\":false}"
    );
}
