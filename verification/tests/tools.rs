use agent_core::domain::{ArtifactKind, ArtifactRenderMode};
use agent_core::paths::{
    display_relative_path, normalize_path, resolve_lexically, to_relative,
};
use agent_core::tools::{
    clamp_usize, default_todo_path, find_tool, flag, optional_string, optional_u64,
    read_todo_request, render_todo_list, required_string, select_lines, tool_descriptors,
    write_mode, ToolArtifact, ToolResult, WriteMode,
};

#[test]
fn clamp_usize_caps_and_defaults() {
    assert_eq!(clamp_usize(None, 200, 500), 200);
    assert_eq!(clamp_usize(Some(50), 200, 500), 50);
    assert_eq!(clamp_usize(Some(5000), 200, 500), 500);
    assert_eq!(clamp_usize(Some(0), 200, 500), 0);
}

#[test]
fn artifact_size_counts_utf8_bytes() {
    let artifact = ToolArtifact::utf8(
        "notes/a.md".to_string(),
        "a.md".to_string(),
        "A note".to_string(),
        ArtifactKind::Document,
        ArtifactRenderMode::Markdown,
        "text/markdown; charset=utf-8".to_string(),
        "héllo".to_string(),
    );
    assert_eq!(artifact.size_bytes(), 6);
    assert_eq!(artifact.relative_path, "notes/a.md");
}

#[test]
fn tool_results_carry_payload_and_artifacts() {
    let result = ToolResult::success("{\"x\":1}".to_string());
    assert!(result.ok);
    assert!(result.artifacts.is_empty());
    let with = result.with_artifacts(vec![ToolArtifact::utf8(
        "p".to_string(),
        "p".to_string(),
        "d".to_string(),
        ArtifactKind::Data,
        ArtifactRenderMode::Json,
        "application/json".to_string(),
        "{}".to_string(),
    )]);
    assert_eq!(with.artifacts.len(), 1);
    assert_eq!(with.payload, "{\"x\":1}");
}

#[test]
fn descriptors_are_sorted_by_id() {
    let ids: Vec<String> = tool_descriptors().into_iter().map(|d| d.id).collect();
    assert_eq!(
        ids,
        vec![
            "delete_path", "glob", "list", "mkdir", "move_path", "read_file", "read_todos",
            "ripgrep", "stat", "write_file", "write_todos"
        ]
    );
    for descriptor in tool_descriptors() {
        let schema: serde_json::Value =
            serde_json::from_str(&descriptor.input_schema).expect("schema is JSON");
        assert_eq!(schema["type"], "object");
    }
}

#[test]
fn unknown_tools_are_refused() {
    let descriptors = tool_descriptors();
    let index = find_tool(&descriptors, "read_file").expect("known tool");
    assert_eq!(descriptors[index].id, "read_file");
    let error = find_tool(&descriptors, "rm_rf").expect_err("unknown");
    assert_eq!(error.status, 400);
    assert_eq!(error.message, "unknown tool 'rm_rf'");
}

#[test]
fn todo_requests_and_markdown() {
    let session = uuid::Uuid::parse_str("67e55044-10b1-426f-9247-bb680e5fe0c8").unwrap();
    assert_eq!(
        default_todo_path(session.as_u128()),
        ".asuka/todos/67e55044-10b1-426f-9247-bb680e5fe0c8.md"
    );
    let request = read_todo_request(
        "{\"items\":[\"write tests\",{\"text\":\"ship\",\"done\":true}]}",
        session.as_u128(),
    )
    .expect("todo request");
    assert_eq!(request.title, "Session Todos");
    assert_eq!(request.path, ".asuka/todos/67e55044-10b1-426f-9247-bb680e5fe0c8.md");
    let markdown = render_todo_list(&request.title, &request.items).expect("markdown");
    assert_eq!(markdown, "# Session Todos\n\n- [ ] write tests\n- [x] ship\n");

    let empty = read_todo_request("{\"items\":[]}", 1).expect_err("no items");
    assert_eq!(empty.message, "write_todos requires at least one item");
    let missing = read_todo_request("{}", 1).expect_err("missing items");
    assert_eq!(missing.message, "write_todos requires 'items'");
    let bad = render_todo_list("T", &["42".to_string()]).expect_err("bad item");
    assert_eq!(bad.message, "todo items must be strings or {text, done} objects");
    let no_text = render_todo_list("T", &["{\"done\":true}".to_string()]).expect_err("no text");
    assert_eq!(no_text.message, "todo object items require 'text'");
}

#[test]
fn line_selection_follows_str_lines() {
    let content = "one\r\ntwo\nthree\n";
    assert_eq!(select_lines(content, 1, None), ("one\ntwo\nthree".to_string(), 3));
    assert_eq!(select_lines(content, 2, Some(2)), ("two".to_string(), 2));
    assert_eq!(select_lines(content, 0, Some(1)), ("one".to_string(), 1));
    assert_eq!(select_lines(content, 5, None), (String::new(), 3));
    assert_eq!(select_lines(content, 3, Some(99)), ("three".to_string(), 3));
    assert_eq!(select_lines("", 1, None), (String::new(), 0));
}

#[test]
fn paths_are_normalized_lexically() {
    assert_eq!(normalize_path("/work/./a/../b"), "/work/b");
    assert_eq!(normalize_path("a/../../b"), "b");
    assert_eq!(normalize_path("/.."), "/");
    assert_eq!(normalize_path("/work/x/.."), "/work");
    assert_eq!(normalize_path("./a/./b/"), "a/b");
}

#[test]
fn resolution_stays_inside_the_workspace() {
    assert_eq!(
        resolve_lexically("/work", ".asuka/nested/file.txt").expect("inside"),
        "/work/.asuka/nested/file.txt"
    );
    assert_eq!(resolve_lexically("/work", "/work/a").expect("absolute inside"), "/work/a");
    let error = resolve_lexically("/work", "../etc/passwd").expect_err("outside");
    assert_eq!(error.status, 400);
    assert_eq!(
        error.message,
        "path /etc/passwd is outside the workspace root /work"
    );
    let prefix = resolve_lexically("/work", "/workshop").expect_err("sibling with same prefix");
    assert_eq!(prefix.message, "path /workshop is outside the workspace root /work");
}

#[test]
fn relative_display_of_paths() {
    assert_eq!(display_relative_path("/work", "/work/notes/a.md"), "notes/a.md");
    assert_eq!(display_relative_path("/work", "/work"), "/work");
    assert_eq!(display_relative_path("/work", "/other/x"), "/other/x");
    assert_eq!(to_relative("/work", "/work"), ".");
    assert_eq!(to_relative("/work", "/work/src"), "src");
}

#[test]
fn tool_arguments_are_read_with_defaults() {
    let input = "{\"path\":\"a.txt\",\"maxBytes\":64,\"recursive\":true,\"mode\":\"append\"}";
    assert_eq!(required_string(input, "read_file", "path").expect("path"), "a.txt");
    let missing = required_string("{}", "read_file", "path").expect_err("missing");
    assert_eq!(missing.message, "read_file requires 'path'");
    assert_eq!(optional_string("{}", "path", "."), ".");
    assert_eq!(optional_u64(input, "maxBytes"), Some(64));
    assert_eq!(optional_u64(input, "startLine"), None);
    assert_eq!(optional_u64("{\"n\":-1}", "n"), None);
    assert!(flag(input, "recursive"));
    assert!(!flag("{\"recursive\":\"yes\"}", "recursive"));
    assert_eq!(write_mode(input).expect("mode"), WriteMode::Append);
    assert_eq!(write_mode("{}").expect("default mode"), WriteMode::Overwrite);
    let bad = write_mode("{\"mode\":\"truncate\"}").expect_err("bad mode");
    assert_eq!(bad.message, "write_file mode must be overwrite or append");
}
