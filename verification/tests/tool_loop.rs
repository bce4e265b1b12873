use agent_core::domain::{CreateSessionRequest, PlanStepKind, PostMessageRequest, RunStepStatus};
use agent_core::store::StoreState;
use agent_core::tool_loop::{
    build_tool_loop_prompt, extract_json_object, format_transcript, parse_tool_loop_action,
    report_tool_outcome, strip_code_fences, truncate_middle, ToolLoop, ToolLoopAction,
    ToolLoopEntry, ToolOutcome, MAX_TOOL_STEPS,
};
use serde_json::Value;

#[test]
fn parse_tool_loop_action_accepts_tool_and_final_json() {
    match parse_tool_loop_action(
        r#"{"type":"tool","tool":"read_file","arguments":{"path":"README.md"}}"#,
    )
    .expect("parse tool action")
    {
        ToolLoopAction::Tool {
            tool_name,
            arguments,
        } => {
            assert_eq!(tool_name, "read_file");
            let arguments: Value = serde_json::from_str(&arguments).expect("arguments json");
            assert_eq!(arguments["path"], "README.md");
        }
        _ => panic!("expected tool action"),
    }

    match parse_tool_loop_action(r#"{"type":"final","content":"done"}"#)
        .expect("parse final action")
    {
        ToolLoopAction::Final { content } => assert_eq!(content, "done"),
        _ => panic!("expected final action"),
    }
}

#[test]
fn parse_accepts_fenced_reply_and_aliases() {
    let raw = "```json\n{\"action\":\"tool\",\"toolName\":\"list\"}\n```";
    match parse_tool_loop_action(raw).expect("parse fenced action") {
        ToolLoopAction::Tool {
            tool_name,
            arguments,
        } => {
            assert_eq!(tool_name, "list");
            assert_eq!(arguments, "{}");
        }
        _ => panic!("expected tool action"),
    }
}

#[test]
fn parse_reads_json_object_inside_prose() {
    let raw = "Sure: {\"type\":\"final\",\"content\":\"all set\"} thanks";
    match parse_tool_loop_action(raw).expect("parse embedded action") {
        ToolLoopAction::Final { content } => assert_eq!(content, "all set"),
        _ => panic!("expected final action"),
    }
}

#[test]
fn parse_final_without_content_keeps_cleaned_reply() {
    match parse_tool_loop_action("  {\"type\":\"final\"}  ").expect("parse final") {
        ToolLoopAction::Final { content } => assert_eq!(content, "{\"type\":\"final\"}"),
        _ => panic!("expected final action"),
    }
}

#[test]
fn parse_missing_type_means_final() {
    match parse_tool_loop_action("{\"content\":\"hello\"}").expect("parse") {
        ToolLoopAction::Final { content } => assert_eq!(content, "hello"),
        _ => panic!("expected final action"),
    }
}

#[test]
fn parse_rejects_invalid_json() {
    let error = parse_tool_loop_action("not json at all").expect_err("invalid json");
    assert_eq!(error.status, 400);
    assert!(error
        .message
        .starts_with("model did not return valid tool-loop JSON: "));
}

#[test]
fn parse_rejects_tool_without_name() {
    let error = parse_tool_loop_action("{\"type\":\"tool\",\"arguments\":{}}").expect_err("no tool");
    assert_eq!(error.status, 400);
    assert_eq!(error.message, "tool action is missing 'tool'");
}

#[test]
fn strip_code_fences_cases() {
    assert_eq!(strip_code_fences("```json\n{\"a\":1}\n```"), "{\"a\":1}");
    assert_eq!(strip_code_fences("```\nhello\n```"), "hello");
    assert_eq!(strip_code_fences("  plain text  "), "plain text");
    assert_eq!(strip_code_fences("```unterminated"), "```unterminated");
}

#[test]
fn extract_json_object_cases() {
    assert_eq!(
        extract_json_object("noise {\"a\":1} tail").as_deref(),
        Some("{\"a\":1}")
    );
    assert_eq!(extract_json_object("}{").as_deref(), Some(""));
    assert_eq!(extract_json_object("no braces"), None);
    assert_eq!(extract_json_object("{ only open"), None);
    assert_eq!(extract_json_object("} x {"), None);
}

#[test]
fn truncate_middle_keeps_both_ends() {
    assert_eq!(
        truncate_middle("abcdefghij", 4),
        "ab\n... truncated ...\nij"
    );
    assert_eq!(truncate_middle("short", 10), "short");
    assert_eq!(truncate_middle("héllo", 5), "héllo");
}

#[test]
fn truncation_stays_within_limit_plus_marker() {
    let long: String = "x".repeat(25_000);
    let shortened = truncate_middle(&long, 10_000);
    assert_eq!(
        shortened.chars().count(),
        10_000 + "\n... truncated ...\n".chars().count()
    );
}

#[test]
fn report_of_completed_and_failed_calls() {
    let ok = report_tool_outcome(&ToolOutcome::Completed {
        ok: true,
        payload: "{\"content\":\"x\"}".to_string(),
    });
    assert_eq!(ok.result_json, "{\"ok\":true,\"payload\":{\"content\":\"x\"}}");
    assert!(ok.ok);
    assert_eq!(ok.error, None);

    let failed = report_tool_outcome(&ToolOutcome::Failed {
        message: "boom \"quoted\"".to_string(),
    });
    assert_eq!(failed.result_json, "{\"error\":\"boom \\\"quoted\\\"\",\"ok\":false}");
    assert!(!failed.ok);
    assert_eq!(failed.error.as_deref(), Some("boom \"quoted\""));
}

#[test]
fn transcript_is_pretty_json_with_sorted_keys() {
    assert_eq!(format_transcript(&[]), "[]");
    let entries = vec![ToolLoopEntry {
        tool_name: "read_file".to_string(),
        arguments: "{\"path\":\"note.txt\"}".to_string(),
        result: "{\"ok\":true,\"payload\":{\"content\":\"tool loop smoke\\n\"}}".to_string(),
    }];
    let text = format_transcript(&entries);
    assert!(text.contains("\"toolName\": \"read_file\""));
    assert!(text.contains("\"content\": \"tool loop smoke"));
    assert!(text.starts_with("[\n  {\n    \"arguments\": {"));
}

#[test]
fn prompt_carries_budget_tools_transcript_and_request() {
    let prompt = build_tool_loop_prompt("Read note.txt and finish.", "[]", &[], 1, 8);
    assert!(prompt.starts_with("You are operating a local agent workspace with executable tools.\n"));
    assert!(prompt.contains("- Current step budget: 1/8.\n\nAvailable tools:\n[]\n\n"));
    assert!(prompt.contains("Completed tool transcript:\n[]\n\n"));
    assert!(prompt.ends_with("Original user request:\nRead note.txt and finish.\n"));
}

#[test]
fn tool_loop_runs_tool_then_finishes() {
    let mut tool_loop = ToolLoop::new();
    let first = tool_loop
        .next_prompt("Read note.txt and finish.", "[]")
        .expect("first prompt");
    assert!(first.contains("Current step budget: 1/8."));

    let action = tool_loop.read_reply(
        "{\"type\":\"tool\",\"tool\":\"read_file\",\"arguments\":{\"path\":\"note.txt\"}}",
    );
    let (tool_name, arguments) = match action {
        ToolLoopAction::Tool {
            tool_name,
            arguments,
        } => (tool_name, arguments),
        _ => panic!("expected a tool call"),
    };
    assert_eq!(tool_name, "read_file");
    let report = tool_loop.record_tool_call(
        tool_name,
        arguments,
        &ToolOutcome::Completed {
            ok: true,
            payload: "{\"content\":\"tool loop smoke\\n\",\"path\":\"note.txt\"}".to_string(),
        },
    );
    assert!(report.ok);
    assert_eq!(tool_loop.transcript.len(), 1);

    let second = tool_loop
        .next_prompt("Read note.txt and finish.", "[]")
        .expect("second prompt");
    assert!(second.contains("Current step budget: 2/8."));
    assert!(second.contains("\"toolName\": \"read_file\""));
    assert!(second.contains("\"content\": \"tool loop smoke"));

    match tool_loop.read_reply("{\"type\":\"final\",\"content\":\"done after tool\"}") {
        ToolLoopAction::Final { content } => assert_eq!(content, "done after tool"),
        _ => panic!("expected the final answer"),
    }
    assert_eq!(tool_loop.steps_taken, 2);
}

#[test]
fn unparsable_reply_is_taken_as_final_answer() {
    let mut tool_loop = ToolLoop::new();
    match tool_loop.read_reply("  just some prose  ") {
        ToolLoopAction::Final { content } => assert_eq!(content, "just some prose"),
        _ => panic!("expected the final answer"),
    }
}

#[test]
fn tool_loop_stops_after_budget() {
    let mut tool_loop = ToolLoop::new();
    for _ in 0..MAX_TOOL_STEPS {
        tool_loop.next_prompt("go", "[]").expect("prompt within budget");
        tool_loop.read_reply("{\"type\":\"tool\",\"tool\":\"list\"}");
    }
    let error = tool_loop.next_prompt("go", "[]").expect_err("budget exhausted");
    assert_eq!(error.status, 400);
    assert_eq!(error.message, "tool loop exceeded max step budget of 8");
}

#[test]
fn tool_steps_are_started_and_closed_in_the_store() {
    let mut store = StoreState::new();
    let session = store.create_session(CreateSessionRequest {
        title: Some("Tool Loop Test".to_string()),
    });
    let accepted = store
        .enqueue_user_message(
            session.id,
            PostMessageRequest {
                content: "Read note.txt and finish.".to_string(),
            },
        )
        .expect("enqueue message");
    let step = store
        .start_tool_step(accepted.run.id, "read_file", "{\"path\":\"note.txt\"}")
        .expect("start tool step");
    assert_eq!(step.title, "Invoke tool read_file");
    assert_eq!(step.input_summary, "{\"path\":\"note.txt\"}");
    assert_eq!(step.kind, PlanStepKind::Tool);
    assert_eq!(step.plan_step_id, None);

    let report = report_tool_outcome(&ToolOutcome::Completed {
        ok: true,
        payload: "{\"content\":\"hi\"}".to_string(),
    });
    let invocation = store
        .record_tool_invocation(
            step.id,
            "read_file".to_string(),
            "local".to_string(),
            "{\"path\":\"note.txt\"}".to_string(),
            report.result_json.clone(),
            report.ok,
            report.error.clone(),
        )
        .expect("record invocation");
    assert_eq!(invocation.run_id, accepted.run.id);
    let done = store.finish_tool_step(step.id, &report).expect("finish step");
    assert_eq!(done.status, RunStepStatus::Completed);
    assert_eq!(
        done.output_summary.as_deref(),
        Some("{\"ok\":true,\"payload\":{\"content\":\"hi\"}}")
    );

    let failed_step = store
        .start_tool_step(accepted.run.id, "write_file", "{}")
        .expect("start second step");
    assert_eq!(failed_step.sequence, 2);
    let failure = report_tool_outcome(&ToolOutcome::Failed {
        message: "unknown tool 'write_file'".to_string(),
    });
    let closed = store
        .finish_tool_step(failed_step.id, &failure)
        .expect("close failed step");
    assert_eq!(closed.status, RunStepStatus::Failed);
    assert_eq!(closed.error.as_deref(), Some("unknown tool 'write_file'"));
}
