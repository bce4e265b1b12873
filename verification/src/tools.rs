//! The local tools a run may call: their catalog, the reading of their
//! arguments, and the pure parts of their work (limits, todo lists, line
//! selection). Touching the file system is left to the caller.
use vstd::prelude::*;
use vstd::utf8::encode_utf8;

use crate::domain::{ArtifactKind, ArtifactRenderMode};
use crate::error::{CoreError, CoreResult, STATUS_BAD_REQUEST};
use crate::ids::{format_uuid, uuid_text};
use crate::json::{
    json_array, json_as_bool, json_as_str, json_as_u64, json_boolean, json_elements, json_get,
    json_is_object, json_member, json_object, json_string, json_unsigned,
};
use crate::ordering::{by_name, sort_by_name, Named};

verus! {

/// `value` capped at `max`, or `default` when there is none (or it does not
/// fit in a `usize`).
pub open spec fn clamped(value: Option<u64>, default: usize, max: usize) -> usize {
    match value {
        Some(v) => if v > usize::MAX {
            default
        } else if v > max {
            max
        } else {
            v as usize
        },
        None => default,
    }
}

/// Caps an optional limit, with a default.
pub fn clamp_usize(value: Option<u64>, default: usize, max: usize) -> (r: usize)
    ensures
        r == clamped(value, default, max),
{
    match value {
        Some(v) => {
            if v > usize::MAX as u64 {
                default
            } else if v > max as u64 {
                max
            } else {
                v as usize
            }
        },
        None => default,
    }
}

/// What an artifact of a tool holds.
#[derive(Debug)]
pub enum ToolArtifactContent {
    Utf8(String),
}

/// A file a tool leaves in the session's workspace.
#[derive(Debug)]
pub struct ToolArtifact {
    pub relative_path: String,
    pub display_name: String,
    pub description: String,
    pub kind: ArtifactKind,
    pub render_mode: ArtifactRenderMode,
    pub media_type: String,
    pub content: ToolArtifactContent,
}

impl ToolArtifact {
    /// A text artifact.
    pub fn utf8(
        relative_path: String,
        display_name: String,
        description: String,
        kind: ArtifactKind,
        render_mode: ArtifactRenderMode,
        media_type: String,
        content: String,
    ) -> (a: ToolArtifact)
        ensures
            a.relative_path == relative_path,
            a.display_name == display_name,
            a.description == description,
            a.kind == kind,
            a.render_mode == render_mode,
            a.media_type == media_type,
            a.content == ToolArtifactContent::Utf8(content),
    {
        ToolArtifact {
            relative_path,
            display_name,
            description,
            kind,
            render_mode,
            media_type,
            content: ToolArtifactContent::Utf8(content),
        }
    }

    /// The size of the artifact's content in bytes (UTF-8).
    pub fn size_bytes(&self) -> (n: u64)
        ensures
            match self.content {
                ToolArtifactContent::Utf8(text) => n as nat == (encode_utf8(text@).len() as usize) as nat,
            },
    {
        match &self.content {
            ToolArtifactContent::Utf8(value) => value.as_str().len() as u64,
        }
    }
}

/// What a tool returns: whether it succeeded, its payload as JSON text, and
/// the artifacts it leaves.
#[derive(Debug)]
pub struct ToolResult {
    pub ok: bool,
    pub payload: String,
    pub artifacts: Vec<ToolArtifact>,
}

impl ToolResult {
    /// A successful result with this payload and no artifacts.
    pub fn success(payload: String) -> (r: ToolResult)
        ensures
            r.ok,
            r.payload == payload,
            r.artifacts@.len() == 0,
    {
        ToolResult { ok: true, payload, artifacts: Vec::new() }
    }

    /// The result with these artifacts.
    pub fn with_artifacts(self, artifacts: Vec<ToolArtifact>) -> (r: ToolResult)
        ensures
            r.ok == self.ok,
            r.payload == self.payload,
            r.artifacts == artifacts,
    {
        ToolResult { artifacts, ..self }
    }
}

/// A tool as the model is told of it: its id, what it does, and the JSON
/// schema of its arguments (as text).
#[derive(Debug)]
pub struct ToolDescriptor {
    pub id: String,
    pub description: String,
    pub input_schema: String,
}

impl Named for ToolDescriptor {
    open spec fn name_view(&self) -> Seq<char> {
        self.id@
    }

    fn name_ref(&self) -> (n: &String) {
        &self.id
    }
}

fn descriptor(id: &str, description: &str, input_schema: &str) -> (d: ToolDescriptor)
    ensures
        d.id@ == id@,
        d.description@ == description@,
        d.input_schema@ == input_schema@,
{
    ToolDescriptor {
        id: String::from_str(id),
        description: String::from_str(description),
        input_schema: String::from_str(input_schema),
    }
}

/// A descriptor as the contracts see it: id, description, schema text.
pub open spec fn descriptor_view(d: ToolDescriptor) -> (Seq<char>, Seq<char>, Seq<char>) {
    (d.id@, d.description@, d.input_schema@)
}

/// The tools, in the order they are registered: each one's id, what it
/// does, and the JSON schema of its arguments.
pub open spec fn tool_catalog() -> Seq<(Seq<char>, Seq<char>, Seq<char>)> {
    seq![
        (
            "stat"@,
            "Read metadata about a file or directory in the workspace."@,
            "{\"type\":\"object\",\"required\":[\"path\"],\"properties\":{\"path\":{\"type\":\"string\",\"description\":\"Workspace-relative path to inspect.\"}}}"@,
        ),
        (
            "mkdir"@,
            "Create a directory in the workspace."@,
            "{\"type\":\"object\",\"required\":[\"path\"],\"properties\":{\"path\":{\"type\":\"string\",\"description\":\"Workspace-relative directory path to create.\"}}}"@,
        ),
        (
            "move_path"@,
            "Move or rename a file or directory inside the workspace."@,
            "{\"type\":\"object\",\"required\":[\"from\",\"to\"],\"properties\":{\"from\":{\"type\":\"string\",\"description\":\"Workspace-relative source path.\"},\"to\":{\"type\":\"string\",\"description\":\"Workspace-relative destination path.\"}}}"@,
        ),
        (
            "delete_path"@,
            "Delete a file or directory inside the workspace."@,
            "{\"type\":\"object\",\"required\":[\"path\"],\"properties\":{\"path\":{\"type\":\"string\",\"description\":\"Workspace-relative path to delete.\"},\"recursive\":{\"type\":\"boolean\",\"description\":\"Required to delete directories recursively.\"}}}"@,
        ),
        (
            "glob"@,
            "Match workspace files using a glob pattern."@,
            "{\"type\":\"object\",\"required\":[\"pattern\"],\"properties\":{\"pattern\":{\"type\":\"string\",\"description\":\"Workspace-relative glob pattern, e.g. crates/**/*.rs\"},\"maxResults\":{\"type\":\"integer\",\"description\":\"Maximum number of matches to return. Defaults to 200.\"}}}"@,
        ),
        (
            "list"@,
            "List files and directories under a workspace-relative path."@,
            "{\"type\":\"object\",\"properties\":{\"path\":{\"type\":\"string\",\"description\":\"Workspace-relative directory path. Defaults to '.'.\"},\"maxEntries\":{\"type\":\"integer\",\"description\":\"Maximum number of entries to return. Defaults to 200.\"}}}"@,
        ),
        (
            "read_file"@,
            "Read a UTF-8 text file from the workspace."@,
            "{\"type\":\"object\",\"required\":[\"path\"],\"properties\":{\"path\":{\"type\":\"string\",\"description\":\"Workspace-relative file path.\"},\"startLine\":{\"type\":\"integer\",\"description\":\"Optional 1-based starting line.\"},\"endLine\":{\"type\":\"integer\",\"description\":\"Optional 1-based ending line.\"},\"maxBytes\":{\"type\":\"integer\",\"description\":\"Optional maximum bytes to return. Defaults to 12000.\"}}}"@,
        ),
        (
            "write_file"@,
            "Write a UTF-8 text file in the workspace."@,
            "{\"type\":\"object\",\"required\":[\"path\",\"content\"],\"properties\":{\"path\":{\"type\":\"string\",\"description\":\"Workspace-relative file path.\"},\"content\":{\"type\":\"string\",\"description\":\"Text content to write.\"},\"mode\":{\"type\":\"string\",\"enum\":[\"overwrite\",\"append\"],\"description\":\"Write mode. Defaults to overwrite.\"}}}"@,
        ),
        (
            "ripgrep"@,
            "Search text in the workspace using ripgrep."@,
            "{\"type\":\"object\",\"required\":[\"pattern\"],\"properties\":{\"pattern\":{\"type\":\"string\",\"description\":\"Pattern to search for.\"},\"path\":{\"type\":\"string\",\"description\":\"Workspace-relative search root. Defaults to '.'.\"},\"maxResults\":{\"type\":\"integer\",\"description\":\"Maximum number of matches to return. Defaults to 100.\"}}}"@,
        ),
        (
            "write_todos"@,
            "Write a markdown todo list for the current session."@,
            "{\"type\":\"object\",\"required\":[\"items\"],\"properties\":{\"path\":{\"type\":\"string\",\"description\":\"Optional workspace-relative todo file path. Defaults to .asuka/todos/<session>.md.\"},\"items\":{\"type\":\"array\",\"description\":\"Todo items to write.\",\"items\":{\"oneOf\":[{\"type\":\"string\"},{\"type\":\"object\",\"properties\":{\"text\":{\"type\":\"string\"},\"done\":{\"type\":\"boolean\"}}}]}},\"title\":{\"type\":\"string\",\"description\":\"Optional title line.\"}}}"@,
        ),
        (
            "read_todos"@,
            "Read the markdown todo list for the current session."@,
            "{\"type\":\"object\",\"properties\":{\"path\":{\"type\":\"string\",\"description\":\"Optional workspace-relative todo file path. Defaults to .asuka/todos/<session>.md.\"}}}"@,
        ),
    ]
}

/// The descriptors of all tools, sorted by id.
pub fn tool_descriptors() -> (r: Vec<ToolDescriptor>)
    ensures
        r@.map_values(|d: ToolDescriptor| descriptor_view(d)).to_multiset()
            == tool_catalog().to_multiset(),
        vstd::relations::sorted_by(r@, by_name::<ToolDescriptor>()),
{
    let mut all: Vec<ToolDescriptor> = Vec::new();
    all.push(descriptor(
        "stat",
        "Read metadata about a file or directory in the workspace.",
        "{\"type\":\"object\",\"required\":[\"path\"],\"properties\":{\"path\":{\"type\":\"string\",\"description\":\"Workspace-relative path to inspect.\"}}}",
    ));
    all.push(descriptor(
        "mkdir",
        "Create a directory in the workspace.",
        "{\"type\":\"object\",\"required\":[\"path\"],\"properties\":{\"path\":{\"type\":\"string\",\"description\":\"Workspace-relative directory path to create.\"}}}",
    ));
    all.push(descriptor(
        "move_path",
        "Move or rename a file or directory inside the workspace.",
        "{\"type\":\"object\",\"required\":[\"from\",\"to\"],\"properties\":{\"from\":{\"type\":\"string\",\"description\":\"Workspace-relative source path.\"},\"to\":{\"type\":\"string\",\"description\":\"Workspace-relative destination path.\"}}}",
    ));
    all.push(descriptor(
        "delete_path",
        "Delete a file or directory inside the workspace.",
        "{\"type\":\"object\",\"required\":[\"path\"],\"properties\":{\"path\":{\"type\":\"string\",\"description\":\"Workspace-relative path to delete.\"},\"recursive\":{\"type\":\"boolean\",\"description\":\"Required to delete directories recursively.\"}}}",
    ));
    all.push(descriptor(
        "glob",
        "Match workspace files using a glob pattern.",
        "{\"type\":\"object\",\"required\":[\"pattern\"],\"properties\":{\"pattern\":{\"type\":\"string\",\"description\":\"Workspace-relative glob pattern, e.g. crates/**/*.rs\"},\"maxResults\":{\"type\":\"integer\",\"description\":\"Maximum number of matches to return. Defaults to 200.\"}}}",
    ));
    all.push(descriptor(
        "list",
        "List files and directories under a workspace-relative path.",
        "{\"type\":\"object\",\"properties\":{\"path\":{\"type\":\"string\",\"description\":\"Workspace-relative directory path. Defaults to '.'.\"},\"maxEntries\":{\"type\":\"integer\",\"description\":\"Maximum number of entries to return. Defaults to 200.\"}}}",
    ));
    all.push(descriptor(
        "read_file",
        "Read a UTF-8 text file from the workspace.",
        "{\"type\":\"object\",\"required\":[\"path\"],\"properties\":{\"path\":{\"type\":\"string\",\"description\":\"Workspace-relative file path.\"},\"startLine\":{\"type\":\"integer\",\"description\":\"Optional 1-based starting line.\"},\"endLine\":{\"type\":\"integer\",\"description\":\"Optional 1-based ending line.\"},\"maxBytes\":{\"type\":\"integer\",\"description\":\"Optional maximum bytes to return. Defaults to 12000.\"}}}",
    ));
    all.push(descriptor(
        "write_file",
        "Write a UTF-8 text file in the workspace.",
        "{\"type\":\"object\",\"required\":[\"path\",\"content\"],\"properties\":{\"path\":{\"type\":\"string\",\"description\":\"Workspace-relative file path.\"},\"content\":{\"type\":\"string\",\"description\":\"Text content to write.\"},\"mode\":{\"type\":\"string\",\"enum\":[\"overwrite\",\"append\"],\"description\":\"Write mode. Defaults to overwrite.\"}}}",
    ));
    all.push(descriptor(
        "ripgrep",
        "Search text in the workspace using ripgrep.",
        "{\"type\":\"object\",\"required\":[\"pattern\"],\"properties\":{\"pattern\":{\"type\":\"string\",\"description\":\"Pattern to search for.\"},\"path\":{\"type\":\"string\",\"description\":\"Workspace-relative search root. Defaults to '.'.\"},\"maxResults\":{\"type\":\"integer\",\"description\":\"Maximum number of matches to return. Defaults to 100.\"}}}",
    ));
    all.push(descriptor(
        "write_todos",
        "Write a markdown todo list for the current session.",
        "{\"type\":\"object\",\"required\":[\"items\"],\"properties\":{\"path\":{\"type\":\"string\",\"description\":\"Optional workspace-relative todo file path. Defaults to .asuka/todos/<session>.md.\"},\"items\":{\"type\":\"array\",\"description\":\"Todo items to write.\",\"items\":{\"oneOf\":[{\"type\":\"string\"},{\"type\":\"object\",\"properties\":{\"text\":{\"type\":\"string\"},\"done\":{\"type\":\"boolean\"}}}]}},\"title\":{\"type\":\"string\",\"description\":\"Optional title line.\"}}}",
    ));
    all.push(descriptor(
        "read_todos",
        "Read the markdown todo list for the current session.",
        "{\"type\":\"object\",\"properties\":{\"path\":{\"type\":\"string\",\"description\":\"Optional workspace-relative todo file path. Defaults to .asuka/todos/<session>.md.\"}}}",
    ));
    proof {
        assert(all@.map_values(|d: ToolDescriptor| descriptor_view(d)) =~= tool_catalog());
    }
    let sorted = sort_by_name(all);
    proof {
        crate::ordering::lemma_multiset_map(sorted@, all@, |d: ToolDescriptor| descriptor_view(d));
    }
    sorted
}

/// Finds a tool by id among the descriptors; an unknown id is refused.
pub fn find_tool(descriptors: &[ToolDescriptor], tool_name: &str) -> (r: CoreResult<usize>)
    ensures
        match r {
            Ok(i) => i < descriptors.len() && descriptors@[i as int].id@ == tool_name@,
            Err(e) => {
                &&& forall|i: int| 0 <= i < descriptors.len() ==> #[trigger] descriptors@[i].id@ != tool_name@
                &&& e.status == STATUS_BAD_REQUEST
                &&& e.message@ == "unknown tool '"@ + tool_name@ + "'"@
            },
        },
{
    let mut i: usize = 0;
    while i < descriptors.len()
        invariant
            i <= descriptors.len(),
            forall|k: int| 0 <= k < i ==> #[trigger] descriptors@[k].id@ != tool_name@,
        decreases descriptors.len() - i,
    {
        if crate::text::str_eq(descriptors[i].id.as_str(), tool_name) {
            return Ok(i);
        }
        i = i + 1;
    }
    let mut message = String::from_str("unknown tool '");
    message.append(tool_name);
    message.append("'");
    Err(CoreError::new(STATUS_BAD_REQUEST, message))
}

/// The default todo file of a session.
pub open spec fn default_todo_path_of(session_id: u128) -> Seq<char> {
    ".asuka/todos/"@ + uuid_text(session_id) + ".md"@
}

/// The default todo file of a session: `.asuka/todos/<session>.md`.
pub fn default_todo_path(session_id: u128) -> (r: String)
    ensures
        r@ == default_todo_path_of(session_id),
{
    let mut path = String::from_str(".asuka/todos/");
    let id = format_uuid(session_id);
    path.append(id.as_str());
    path.append(".md");
    path
}

/// The string member `key` of the JSON object `input`.
pub open spec fn string_member(input: Seq<char>, key: Seq<char>) -> Option<Seq<char>> {
    match json_member(input, key) {
        Some(m) => json_string(m),
        None => None,
    }
}

fn get_string(input: &str, key: &str) -> (r: Option<String>)
    ensures
        match string_member(input@, key@) {
            Some(s) => r matches Some(t) && t@ == s,
            None => r is None,
        },
{
    match json_get(input, key) {
        Some(m) => json_as_str(m.as_str()),
        None => None,
    }
}

/// What a `write_todos` call asks for: the list's title, its file, and its
/// items (each as JSON text).
#[derive(Debug)]
pub struct TodoRequest {
    pub title: String,
    pub path: String,
    pub items: Vec<String>,
}

/// How `write_todos` reads its arguments: `items` must be a non-empty array;
/// the title defaults to "Session Todos" and the path to the session's todo
/// file. Errors give the message of the 400 error.
pub open spec fn todo_request_of(input: Seq<char>, session_id: u128) -> Result<
    (Seq<char>, Seq<char>, Seq<Seq<char>>),
    Seq<char>,
> {
    let items = match json_member(input, "items"@) {
        Some(m) => json_elements(m),
        None => None,
    };
    match items {
        None => Err("write_todos requires 'items'"@),
        Some(list) => if list.len() == 0 {
            Err("write_todos requires at least one item"@)
        } else {
            Ok(
                (
                    match string_member(input, "title"@) {
                        Some(t) => t,
                        None => "Session Todos"@,
                    },
                    match string_member(input, "path"@) {
                        Some(p) => p,
                        None => default_todo_path_of(session_id),
                    },
                    list,
                ),
            )
        },
    }
}

/// Reads the arguments of a `write_todos` call.
pub fn read_todo_request(input: &str, session_id: u128) -> (r: CoreResult<TodoRequest>)
    ensures
        match todo_request_of(input@, session_id) {
            Ok((title, path, items)) => r matches Ok(req) && req.title@ == title && req.path@ == path
                && req.items@.map_values(|t: String| t@) == items,
            Err(m) => r matches Err(e) && e.status == STATUS_BAD_REQUEST && e.message@ == m,
        },
{
    let items = match json_get(input, "items") {
        Some(m) => json_array(m.as_str()),
        None => None,
    };
    let items = match items {
        Some(list) => list,
        None => {
            return Err(CoreError::bad_request("write_todos requires 'items'"));
        },
    };
    if items.len() == 0 {
        proof {
            assert(items@.map_values(|t: String| t@).len() == 0);
        }
        return Err(CoreError::bad_request("write_todos requires at least one item"));
    }
    let title = match get_string(input, "title") {
        Some(t) => t,
        None => String::from_str("Session Todos"),
    };
    let path = match get_string(input, "path") {
        Some(p) => p,
        None => default_todo_path(session_id),
    };
    Ok(TodoRequest { title, path, items })
}

/// The line of one todo item: a string is an open item; an object needs a
/// string `text` and may mark itself `done`; anything else is refused.
pub open spec fn todo_line(item: Seq<char>) -> Result<Seq<char>, Seq<char>> {
    match json_string(item) {
        Some(text) => Ok("- [ ] "@ + text),
        None => if json_object(item) {
            match string_member(item, "text"@) {
                None => Err("todo object items require 'text'"@),
                Some(text) => {
                    let done = match json_member(item, "done"@) {
                        Some(d) => match json_boolean(d) {
                            Some(b) => b,
                            None => false,
                        },
                        None => false,
                    };
                    Ok(
                        "- ["@ + (if done {
                            "x"@
                        } else {
                            " "@
                        }) + "] "@ + text,
                    )
                },
            }
        } else {
            Err("todo items must be strings or {text, done} objects"@)
        },
    }
}

/// The lines of the items from index `i` on, or the error of the first bad
/// item.
pub open spec fn todo_lines_from(items: Seq<Seq<char>>, i: int) -> Result<Seq<char>, Seq<char>>
    decreases items.len() - i,
{
    if i < 0 || i >= items.len() {
        Ok(Seq::empty())
    } else {
        match todo_line(items[i]) {
            Err(m) => Err(m),
            Ok(line) => match todo_lines_from(items, i + 1) {
                Err(m) => Err(m),
                Ok(rest) => Ok(seq!['\n'] + line + rest),
            },
        }
    }
}

/// The markdown of a todo list: the title as a heading, a blank line, one
/// line per item, and a final newline.
pub open spec fn todo_markdown(title: Seq<char>, items: Seq<Seq<char>>) -> Result<Seq<char>, Seq<char>> {
    match todo_lines_from(items, 0) {
        Err(m) => Err(m),
        Ok(lines) => Ok("# "@ + title + seq!['\n'] + lines + seq!['\n']),
    }
}

fn render_todo_line(item: &str) -> (r: CoreResult<String>)
    ensures
        match todo_line(item@) {
            Ok(line) => r matches Ok(l) && l@ == line,
            Err(m) => r matches Err(e) && e.status == STATUS_BAD_REQUEST && e.message@ == m,
        },
{
    if let Some(text) = json_as_str(item) {
        let mut line = String::from_str("- [ ] ");
        line.append(text.as_str());
        return Ok(line);
    }
    if !json_is_object(item) {
        return Err(CoreError::bad_request("todo items must be strings or {text, done} objects"));
    }
    let text = match get_string(item, "text") {
        Some(t) => t,
        None => {
            return Err(CoreError::bad_request("todo object items require 'text'"));
        },
    };
    let done = match json_get(item, "done") {
        Some(d) => match json_as_bool(d.as_str()) {
            Some(b) => b,
            None => false,
        },
        None => false,
    };
    let mut line = String::from_str("- [");
    if done {
        line.append("x");
    } else {
        line.append(" ");
    }
    line.append("] ");
    line.append(text.as_str());
    Ok(line)
}

/// Writes the markdown of a todo list, refusing the first bad item.
pub fn render_todo_list(title: &str, items: &[String]) -> (r: CoreResult<String>)
    ensures
        match todo_markdown(title@, items@.map_values(|t: String| t@)) {
            Ok(text) => r matches Ok(t) && t@ == text,
            Err(m) => r matches Err(e) && e.status == STATUS_BAD_REQUEST && e.message@ == m,
        },
{
    let ghost all = items@.map_values(|t: String| t@);
    let mut lines = String::new();
    let mut i: usize = 0;
    while i < items.len()
        invariant
            i <= items.len(),
            all == items@.map_values(|t: String| t@),
            todo_lines_from(all, 0) matches Ok(done) ==> todo_lines_from(all, i as int) matches Ok(
                rest,
            ) && done == lines@ + rest,
            todo_lines_from(all, 0) is Err ==> todo_lines_from(all, i as int) == todo_lines_from(
                all,
                0,
            ),
        decreases items.len() - i,
    {
        let line = match render_todo_line(items[i].as_str()) {
            Ok(l) => l,
            Err(e) => {
                return Err(e);
            },
        };
        let ghost before = lines@;
        lines.append("\n");
        lines.append(line.as_str());
        proof {
            reveal_strlit("\n");
            assert(lines@ =~= before + seq!['\n'] + line@);
        }
        i = i + 1;
    }
    let mut text = String::from_str("# ");
    text.append(title);
    text.append("\n");
    text.append(lines.as_str());
    text.append("\n");
    proof {
        reveal_strlit("\n");
    }
    Ok(text)
}

/// The lines of `s` after a line `cur` already begun, as `str::lines`
/// splits them: at each `\n`, with a `\r` before it dropped; a last line
/// without a newline is kept as it is.
pub open spec fn lines_from(s: Seq<char>, cur: Seq<char>) -> Seq<Seq<char>>
    decreases s.len(),
{
    if s.len() == 0 {
        if cur.len() == 0 {
            Seq::empty()
        } else {
            seq![cur]
        }
    } else if s[0] == '\n' {
        seq![
            if cur.len() > 0 && cur.last() == '\r' {
                cur.drop_last()
            } else {
                cur
            },
        ] + lines_from(s.drop_first(), Seq::empty())
    } else {
        lines_from(s.drop_first(), cur.push(s[0]))
    }
}

/// The lines of `s`.
pub open spec fn text_lines(s: Seq<char>) -> Seq<Seq<char>> {
    lines_from(s, Seq::empty())
}

/// `parts` joined with newlines.
pub open spec fn join_lines(parts: Seq<Seq<char>>) -> Seq<char>
    decreases parts.len(),
{
    if parts.len() == 0 {
        Seq::empty()
    } else if parts.len() == 1 {
        parts[0]
    } else {
        join_lines(parts.drop_last()) + seq!['\n'] + parts.last()
    }
}

/// The lines `read_file` returns: from line `start_line` (1-based; 0 counts
/// as 1) up to line `end_line` (all when absent), both capped at the number
/// of lines; with the index after the last line taken.
pub open spec fn line_selection(content: Seq<char>, start_line: nat, end_line: Option<nat>) -> (
    Seq<char>,
    nat,
) {
    let lines = text_lines(content);
    let start = if start_line == 0 {
        0
    } else if start_line - 1 > lines.len() {
        lines.len()
    } else {
        (start_line - 1) as nat
    };
    let end = match end_line {
        Some(e) => if e > lines.len() {
            lines.len()
        } else {
            e
        },
        None => lines.len(),
    };
    (
        if start >= end {
            Seq::empty()
        } else {
            join_lines(lines.subrange(start as int, end as int))
        },
        end,
    )
}

pub(crate) fn split_lines(v: &[char]) -> (r: Vec<Vec<char>>)
    ensures
        r@.map_values(|w: Vec<char>| w@) == text_lines(v@),
{
    let mut done: Vec<Vec<char>> = Vec::new();
    let mut cur: Vec<char> = Vec::new();
    let mut i: usize = 0;
    proof {
        assert(v@.skip(0) =~= v@);
        assert(done@.map_values(|w: Vec<char>| w@) =~= Seq::<Seq<char>>::empty());
        assert(cur@ =~= Seq::<char>::empty());
    }
    while i < v.len()
        invariant
            i <= v.len(),
            text_lines(v@) == done@.map_values(|w: Vec<char>| w@) + lines_from(
                v@.skip(i as int),
                cur@,
            ),
        decreases v.len() - i,
    {
        proof {
            assert(v@.skip(i as int)[0] == v@[i as int]);
            assert(v@.skip(i as int).drop_first() =~= v@.skip(i + 1));
        }
        if v[i] == '\n' {
            let ghost before = done@.map_values(|w: Vec<char>| w@);
            let ghost whole = cur@;
            let n = cur.len();
            if n > 0 && cur[n - 1] == '\r' {
                cur.pop();
            }
            let line = cur;
            cur = Vec::new();
            done.push(line);
            proof {
                assert(done@.map_values(|w: Vec<char>| w@) =~= before.push(line@));
                let stripped = if whole.len() > 0 && whole.last() == '\r' {
                    whole.drop_last()
                } else {
                    whole
                };
                assert(line@ =~= stripped);
                assert(before + (seq![stripped] + lines_from(v@.skip(i + 1), Seq::empty()))
                    =~= before.push(line@) + lines_from(v@.skip(i + 1), cur@));
            }
        } else {
            cur.push(v[i]);
        }
        i = i + 1;
    }
    proof {
        assert(v@.skip(i as int).len() == 0);
    }
    if cur.len() > 0 {
        let ghost before = done@.map_values(|w: Vec<char>| w@);
        done.push(cur);
        proof {
            assert(done@.map_values(|w: Vec<char>| w@) =~= before + lines_from(
                v@.skip(i as int),
                Seq::empty(),
            ).push(done@.last()@));
        }
    } else {
        proof {
            assert(done@.map_values(|w: Vec<char>| w@) =~= done@.map_values(|w: Vec<char>| w@)
                + lines_from(v@.skip(i as int), cur@));
        }
    }
    done
}

/// Selects lines of a text as `read_file` does; returns them joined with
/// newlines, and the index after the last line taken.
pub fn select_lines(content: &str, start_line: usize, end_line: Option<usize>) -> (r: (String, usize))
    ensures
        (r.0@, r.1 as nat) == line_selection(
            content@,
            start_line as nat,
            match end_line {
                Some(e) => Some(e as nat),
                None => None,
            },
        ),
{
    let chars = crate::text::chars_of(content);
    let lines = split_lines(chars.as_slice());
    let ghost all = lines@.map_values(|w: Vec<char>| w@);
    let n = lines.len();
    let start = if start_line == 0 {
        0
    } else if start_line - 1 > n {
        n
    } else {
        start_line - 1
    };
    let end = match end_line {
        Some(e) => if e > n {
            n
        } else {
            e
        },
        None => n,
    };
    if start >= end {
        return (String::new(), end);
    }
    let mut out: Vec<char> = Vec::new();
    let mut k: usize = start;
    while k < end
        invariant
            start <= k <= end <= n,
            n == lines.len(),
            all == lines@.map_values(|w: Vec<char>| w@),
            start < end,
            k > start ==> out@ == join_lines(all.subrange(start as int, k as int)),
            k == start ==> out@.len() == 0,
        decreases end - k,
    {
        proof {
            assert(all.subrange(start as int, k + 1).drop_last() =~= all.subrange(start as int, k as int));
            assert(all.subrange(start as int, k + 1).last() == lines@[k as int]@);
        }
        if k > start {
            out.push('\n');
        }
        let ghost mid = out@;
        crate::scan::push_all(&mut out, lines[k].as_slice());
        proof {
            if k > start {
                assert(out@ =~= join_lines(all.subrange(start as int, k as int)) + seq!['\n'] + lines@[k as int]@);
            } else {
                assert(out@ =~= lines@[k as int]@);
                assert(all.subrange(start as int, k + 1) =~= seq![lines@[k as int]@]);
            }
        }
        k = k + 1;
    }
    (crate::text::string_from_chars(out.as_slice()), end)
}

/// The message of the error for a missing argument of a tool.
pub open spec fn missing_argument_message(tool: Seq<char>, key: Seq<char>) -> Seq<char> {
    tool + " requires '"@ + key + "'"@
}

/// The string argument `key` of a tool call, which must be there.
pub fn required_string(input: &str, tool: &str, key: &str) -> (r: CoreResult<String>)
    ensures
        match string_member(input@, key@) {
            Some(s) => r matches Ok(t) && t@ == s,
            None => r matches Err(e) && e.status == STATUS_BAD_REQUEST && e.message@
                == missing_argument_message(tool@, key@),
        },
{
    match get_string(input, key) {
        Some(t) => Ok(t),
        None => {
            let mut message = String::from_str(tool);
            message.append(" requires '");
            message.append(key);
            message.append("'");
            Err(CoreError::new(STATUS_BAD_REQUEST, message))
        },
    }
}

/// The string argument `key` of a tool call, or `default`.
pub fn optional_string(input: &str, key: &str, default: &str) -> (r: String)
    ensures
        r@ == match string_member(input@, key@) {
            Some(s) => s,
            None => default@,
        },
{
    match get_string(input, key) {
        Some(t) => t,
        None => String::from_str(default),
    }
}

/// The unsigned integer argument `key` of a tool call, if there is one.
pub fn optional_u64(input: &str, key: &str) -> (r: Option<u64>)
    ensures
        r == match json_member(input@, key@) {
            Some(m) => json_unsigned(m),
            None => None,
        },
{
    match json_get(input, key) {
        Some(m) => json_as_u64(m.as_str()),
        None => None,
    }
}

/// The boolean argument `key` of a tool call, or `false`.
pub fn flag(input: &str, key: &str) -> (r: bool)
    ensures
        r == match json_member(input@, key@) {
            Some(m) => json_boolean(m) == Some(true),
            None => false,
        },
{
    match json_get(input, key) {
        Some(m) => match json_as_bool(m.as_str()) {
            Some(b) => b,
            None => false,
        },
        None => false,
    }
}

/// How `write_file` writes.
#[derive(Debug, Clone, Copy, PartialEq, Eq, Structural)]
pub enum WriteMode {
    Overwrite,
    Append,
}

/// The write mode a `write_file` call asks for: `overwrite` (the default)
/// or `append`; anything else is refused.
pub fn write_mode(input: &str) -> (r: CoreResult<WriteMode>)
    ensures
        match r {
            Ok(m) => {
                let mode = match string_member(input@, "mode"@) {
                    Some(s) => s,
                    None => "overwrite"@,
                };
                &&& mode == "overwrite"@ ==> m == WriteMode::Overwrite
                &&& mode == "append"@ ==> m == WriteMode::Append
                &&& (mode == "overwrite"@ || mode == "append"@)
            },
            Err(e) => {
                let mode = match string_member(input@, "mode"@) {
                    Some(s) => s,
                    None => "overwrite"@,
                };
                &&& mode != "overwrite"@ && mode != "append"@
                &&& e.status == STATUS_BAD_REQUEST
                &&& e.message@ == "write_file mode must be overwrite or append"@
            },
        },
{
    let mode = optional_string(input, "mode", "overwrite");
    proof {
        reveal_strlit("overwrite");
        reveal_strlit("append");
        assert("overwrite"@.len() != "append"@.len());
    }
    if crate::text::str_eq(mode.as_str(), "overwrite") {
        Ok(WriteMode::Overwrite)
    } else if crate::text::str_eq(mode.as_str(), "append") {
        Ok(WriteMode::Append)
    } else {
        Err(CoreError::bad_request("write_file mode must be overwrite or append"))
    }
}

/// `path` names a markdown file (it ends in `.md`).
pub open spec fn is_markdown_path(path: Seq<char>) -> bool {
    path.len() >= 3 && path.subrange(path.len() - 3, path.len() as int) == seq!['.', 'm', 'd']
}

/// The artifact of a file a tool wrote into the workspace: a document with
/// the file's text, shown as markdown when it is a `.md` file and as plain
/// text otherwise.
pub fn workspace_file_artifact(relative_path: &str, display_name: &str, content: &str) -> (a: ToolArtifact)
    ensures
        a.relative_path@ == relative_path@,
        a.display_name@ == display_name@,
        a.description@ == "Workspace file written by a tool."@,
        a.kind == ArtifactKind::Document,
        is_markdown_path(relative_path@) ==> a.render_mode == ArtifactRenderMode::Markdown
            && a.media_type@ == "text/markdown; charset=utf-8"@,
        !is_markdown_path(relative_path@) ==> a.render_mode == ArtifactRenderMode::Text
            && a.media_type@ == "text/plain; charset=utf-8"@,
        a.content matches ToolArtifactContent::Utf8(t) && t@ == content@,
{
    let chars = crate::text::chars_of(relative_path);
    let n = chars.len();
    let markdown = n >= 3 && chars[n - 3] == '.' && chars[n - 2] == 'm' && chars[n - 1] == 'd';
    proof {
        if n >= 3 {
            assert(markdown == (chars@.subrange(n - 3, n as int) =~= seq!['.', 'm', 'd']));
        }
    }
    let (render_mode, media_type) = if markdown {
        (ArtifactRenderMode::Markdown, String::from_str("text/markdown; charset=utf-8"))
    } else {
        (ArtifactRenderMode::Text, String::from_str("text/plain; charset=utf-8"))
    };
    ToolArtifact::utf8(
        String::from_str(relative_path),
        String::from_str(display_name),
        String::from_str("Workspace file written by a tool."),
        ArtifactKind::Document,
        render_mode,
        media_type,
        String::from_str(content),
    )
}

} // verus!
