//! The tool loop of a run: the model is asked, step by step, for one JSON
//! action, either a tool call or the final answer. This module reads the
//! model's replies, keeps the transcript of tool calls, writes each step's
//! prompt, and decides when the loop is over.
use vstd::prelude::*;

use crate::error::{CoreError, CoreResult, STATUS_BAD_REQUEST};
use crate::json::{
    json_error, json_get, json_member, json_parse_error, json_pretty, json_quote, json_quote_str,
    json_string, json_as_str, json_to_pretty, json_valid,
};
use crate::scan::{
    decimal, decimal_string, find, last_occurrence, first_occurrence, push_all, rfind, starts_with,
    matches_at, occurs_at,
};
use crate::domain::{PlanStepKind, PlanStepStatus, RunStepRecord, RunStepStatus};
use crate::scan::{summarize_text, summary_of};
use crate::store::StoreState;
use crate::table::{owned, BY_RUN};
use crate::text::{chars_of, slice_chars, string_from_chars, trim, trimmed};

verus! {

/// The number of model calls a tool loop may make.
pub const MAX_TOOL_STEPS: usize = 8;

/// The longest transcript, in characters, that a prompt quotes whole.
pub const MAX_TOOL_TRANSCRIPT_CHARS: usize = 10_000;

/// The three backticks that open and close a fenced code block.
pub open spec fn fence() -> Seq<char> {
    seq!['`', '`', '`']
}

/// The language tag that may follow an opening fence.
pub open spec fn json_tag() -> Seq<char> {
    seq!['j', 's', 'o', 'n']
}

/// A reply with its code fences taken off: trimmed, and when it opens with a
/// fence that closes again later, the text between the fences (without a
/// leading `json` tag), trimmed.
pub open spec fn stripped_of_fences(raw: Seq<char>) -> Seq<char> {
    let t = trim(raw);
    if starts_with(t, fence()) {
        let rest = t.skip(3);
        match last_occurrence(rest, fence()) {
            Some(end) => {
                let inner = rest.take(end);
                if starts_with(inner, json_tag()) {
                    trim(inner.skip(4))
                } else {
                    trim(inner)
                }
            },
            None => t,
        }
    } else {
        t
    }
}

/// The span from the first `{` to the last `}` of `s`, when there is one
/// (empty when the last `}` directly precedes the first `{`).
pub open spec fn json_object_span(s: Seq<char>) -> Option<Seq<char>> {
    match (first_occurrence(s, seq!['{']), last_occurrence(s, seq!['}'])) {
        (Some(a), Some(b)) => if a <= b + 1 {
            Some(s.subrange(a, b + 1))
        } else {
            None
        },
        _ => None,
    }
}

/// The marker that stands for the middle of a shortened text.
pub open spec fn truncation_marker() -> Seq<char> {
    "\n... truncated ...\n"@
}

/// `s` when it has at most `max_chars` characters; otherwise its first and
/// last `max_chars / 2` characters around the truncation marker.
pub open spec fn truncated_middle(s: Seq<char>, max_chars: nat) -> Seq<char> {
    if s.len() <= max_chars {
        s
    } else {
        let keep = max_chars / 2;
        s.take(keep as int) + truncation_marker() + s.skip(s.len() - keep)
    }
}

/// Takes code fences off a model reply.
pub fn strip_code_fences(raw: &str) -> (r: String)
    ensures
        r@ == stripped_of_fences(raw@),
{
    let t = trimmed(raw);
    let v = chars_of(t.as_str());
    let fence_chars: Vec<char> = vec!['`', '`', '`'];
    proof {
        assert(fence_chars@ =~= fence());
    }
    if !matches_at(v.as_slice(), fence_chars.as_slice(), 0) {
        return t;
    }
    let rest = slice_chars(&v, 3, v.len());
    proof {
        assert(rest@ =~= v@.skip(3));
    }
    let end = match rfind(rest.as_slice(), fence_chars.as_slice()) {
        Some(end) => end,
        None => {
            return t;
        },
    };
    let inner = slice_chars(&rest, 0, end);
    proof {
        assert(inner@ =~= rest@.take(end as int));
    }
    let tag: Vec<char> = vec!['j', 's', 'o', 'n'];
    proof {
        assert(tag@ =~= json_tag());
    }
    let body = if matches_at(inner.as_slice(), tag.as_slice(), 0) {
        let b = slice_chars(&inner, 4, inner.len());
        proof {
            assert(b@ =~= inner@.skip(4));
        }
        b
    } else {
        inner
    };
    let body_text = string_from_chars(body.as_slice());
    trimmed(body_text.as_str())
}

/// The span of `raw` from its first `{` to its last `}`.
pub fn extract_json_object(raw: &str) -> (r: Option<String>)
    ensures
        match json_object_span(raw@) {
            Some(span) => r matches Some(t) && t@ == span,
            None => r is None,
        },
{
    let v = chars_of(raw);
    let open: Vec<char> = vec!['{'];
    let close: Vec<char> = vec!['}'];
    proof {
        assert(open@ =~= seq!['{']);
        assert(close@ =~= seq!['}']);
    }
    let a = match find(v.as_slice(), open.as_slice()) {
        Some(a) => a,
        None => {
            return None;
        },
    };
    let b = match rfind(v.as_slice(), close.as_slice()) {
        Some(b) => b,
        None => {
            return None;
        },
    };
    proof {
        assert(occurs_at(v@, close@, b as int));
        assert(close@.len() == 1);
    }
    let n = v.len();
    assert(b + 1 <= n);
    let end = b + 1;
    if a > end {
        return None;
    }
    let span = slice_chars(&v, a, end);
    Some(string_from_chars(span.as_slice()))
}

/// Shortens `input` to its two ends when it is longer than `max_chars`.
pub fn truncate_middle(input: &str, max_chars: usize) -> (r: String)
    ensures
        r@ == truncated_middle(input@, max_chars as nat),
{
    let v = chars_of(input);
    if v.len() <= max_chars {
        return String::from_str(input);
    }
    let keep = max_chars / 2;
    let mut out = slice_chars(&v, 0, keep);
    let marker = chars_of("\n... truncated ...\n");
    push_all(&mut out, marker.as_slice());
    let tail = slice_chars(&v, v.len() - keep, v.len());
    push_all(&mut out, tail.as_slice());
    proof {
        assert(out@ =~= v@.take(keep as int) + truncation_marker() + v@.skip(v.len() - keep));
    }
    string_from_chars(out.as_slice())
}

/// What the model asked for in one step of the tool loop.
#[derive(Debug)]
pub enum ToolLoopAction {
    /// The final answer to the user.
    Final { content: String },
    /// A call of the named tool with these arguments (JSON text).
    Tool { tool_name: String, arguments: String },
}

/// A tool-loop action as the contracts see it.
pub enum ActionView {
    Final(Seq<char>),
    Tool(Seq<char>, Seq<char>),
}

impl View for ToolLoopAction {
    type V = ActionView;

    open spec fn view(&self) -> ActionView {
        match self {
            ToolLoopAction::Final { content } => ActionView::Final(content@),
            ToolLoopAction::Tool { tool_name, arguments } => ActionView::Tool(
                tool_name@,
                arguments@,
            ),
        }
    }
}

/// The string that member `key` of the JSON object `text` holds, or else
/// the string that member `alt` holds; a member `key` that is not a string
/// gives no string, and `alt` is then not consulted.
pub open spec fn member_string_or(text: Seq<char>, key: Seq<char>, alt: Seq<char>) -> Option<
    Seq<char>,
> {
    match json_member(text, key) {
        Some(m) => json_string(m),
        None => match json_member(text, alt) {
            Some(m) => json_string(m),
            None => None,
        },
    }
}

/// How a reply is read: its fences are taken off; the JSON object in it (or
/// else the whole cleaned reply) must parse. Its `type` (or `action`) picks
/// the kind, `final` when absent; a tool call needs `tool` (or `toolName`)
/// and takes `arguments`, `{}` when absent; a final answer takes `content`,
/// or else the cleaned reply. An error gives the message of the 400 error.
pub open spec fn parsed_action(raw: Seq<char>) -> Result<ActionView, Seq<char>> {
    let cleaned = trim(stripped_of_fences(raw));
    let candidate = match json_object_span(cleaned) {
        Some(span) => span,
        None => cleaned,
    };
    if !json_valid(candidate) {
        Err("model did not return valid tool-loop JSON: "@ + json_error(candidate))
    } else {
        let kind = match member_string_or(candidate, "type"@, "action"@) {
            Some(k) => k,
            None => "final"@,
        };
        if kind == "tool"@ {
            match member_string_or(candidate, "tool"@, "toolName"@) {
                Some(name) => Ok(
                    ActionView::Tool(
                        name,
                        match json_member(candidate, "arguments"@) {
                            Some(args) => args,
                            None => "{}"@,
                        },
                    ),
                ),
                None => Err("tool action is missing 'tool'"@),
            }
        } else {
            Ok(
                ActionView::Final(
                    match json_member(candidate, "content"@) {
                        Some(m) => match json_string(m) {
                            Some(c) => c,
                            None => cleaned,
                        },
                        None => cleaned,
                    },
                ),
            )
        }
    }
}

fn member_string(text: &str, key: &str, alt: &str) -> (r: Option<String>)
    ensures
        match member_string_or(text@, key@, alt@) {
            Some(s) => r matches Some(t) && t@ == s,
            None => r is None,
        },
{
    let member = match json_get(text, key) {
        Some(m) => Some(m),
        None => json_get(text, alt),
    };
    match member {
        Some(m) => json_as_str(m.as_str()),
        None => None,
    }
}

/// Reads the action a model reply asks for.
pub fn parse_tool_loop_action(raw: &str) -> (r: CoreResult<ToolLoopAction>)
    ensures
        match parsed_action(raw@) {
            Ok(a) => r matches Ok(action) && action@ == a,
            Err(m) => r matches Err(e) && e.status == STATUS_BAD_REQUEST && e.message@ == m,
        },
{
    let stripped = strip_code_fences(raw);
    let cleaned = trimmed(stripped.as_str());
    let candidate = match extract_json_object(cleaned.as_str()) {
        Some(span) => span,
        None => cleaned.clone(),
    };
    if let Some(error) = json_parse_error(candidate.as_str()) {
        let mut message = String::from_str("model did not return valid tool-loop JSON: ");
        message.append(error.as_str());
        return Err(CoreError::new(STATUS_BAD_REQUEST, message));
    }
    let kind = member_string(candidate.as_str(), "type", "action");
    let is_tool = match &kind {
        Some(k) => crate::text::str_eq(k.as_str(), "tool"),
        None => false,
    };
    proof {
        reveal_strlit("final");
        reveal_strlit("tool");
        assert("final"@.len() != "tool"@.len());
    }
    if is_tool {
        match member_string(candidate.as_str(), "tool", "toolName") {
            Some(name) => {
                let arguments = match json_get(candidate.as_str(), "arguments") {
                    Some(args) => args,
                    None => String::from_str("{}"),
                };
                Ok(ToolLoopAction::Tool { tool_name: name, arguments })
            },
            None => Err(CoreError::bad_request("tool action is missing 'tool'")),
        }
    } else {
        let content = match json_get(candidate.as_str(), "content") {
            Some(m) => match json_as_str(m.as_str()) {
                Some(c) => c,
                None => cleaned,
            },
            None => cleaned,
        };
        Ok(ToolLoopAction::Final { content })
    }
}

/// One tool call of the loop: the tool, its arguments and its result, the
/// last two as JSON text.
#[derive(Debug)]
pub struct ToolLoopEntry {
    pub tool_name: String,
    pub arguments: String,
    pub result: String,
}

impl Clone for ToolLoopEntry {
    fn clone(&self) -> (r: Self)
        ensures
            r == *self,
    {
        ToolLoopEntry {
            tool_name: self.tool_name.clone(),
            arguments: self.arguments.clone(),
            result: self.result.clone(),
        }
    }
}

/// A transcript entry as a JSON object, in the compact form, with its keys
/// in the order JSON maps keep them.
pub open spec fn entry_json(e: ToolLoopEntry) -> Seq<char> {
    "{\"arguments\":"@ + e.arguments@ + ",\"result\":"@ + e.result@ + ",\"toolName\":"@
        + json_quote(e.tool_name@) + "}"@
}

/// The entries as JSON objects separated by commas.
pub open spec fn entries_json(es: Seq<ToolLoopEntry>) -> Seq<char>
    decreases es.len(),
{
    if es.len() == 0 {
        Seq::empty()
    } else if es.len() == 1 {
        entry_json(es[0])
    } else {
        entries_json(es.drop_last()) + seq![','] + entry_json(es.last())
    }
}

/// The transcript as the prompt quotes it: `[]` when empty; otherwise the
/// pretty-printed JSON array of the entries, shortened in the middle to the
/// transcript limit (and `[]` if the entries do not make valid JSON).
pub open spec fn transcript_text(es: Seq<ToolLoopEntry>) -> Seq<char> {
    if es.len() == 0 {
        "[]"@
    } else {
        let compact = seq!['['] + entries_json(es) + seq![']'];
        truncated_middle(
            if json_valid(compact) {
                json_pretty(compact)
            } else {
                "[]"@
            },
            MAX_TOOL_TRANSCRIPT_CHARS as nat,
        )
    }
}

/// The fixed opening of every tool-loop prompt: the task, the reply schema
/// and the rules, up to the step budget.
pub open spec fn prompt_preamble() -> Seq<char> {
    "You are operating a local agent workspace with executable tools.\nYou must return exactly one JSON object and nothing else.\nUse this schema:\n{\"type\":\"tool\",\"tool\":\"<tool name>\",\"arguments\":{...}}\nor\n{\"type\":\"final\",\"content\":\"<final user-facing answer>\"}\n\nRules:\n- Use tools whenever the request depends on workspace state, files, search results, or todos.\n- Prefer list/read/search before write operations unless the user directly asked you to write.\n- Never invent tool results.\n- Keep file paths relative to the workspace root.\n- If prior tool results are sufficient, return type=final.\n- Current step budget: "@
}

/// The prompt of step `step` of `max_steps`: the preamble, the budget, the
/// tools on offer, the transcript so far and the user's request.
pub open spec fn tool_loop_prompt(
    user_content: Seq<char>,
    available_tools: Seq<char>,
    transcript: Seq<ToolLoopEntry>,
    step: nat,
    max_steps: nat,
) -> Seq<char> {
    prompt_preamble() + decimal(step) + "/"@ + decimal(max_steps) + ".\n\nAvailable tools:\n"@
        + available_tools + "\n\nCompleted tool transcript:\n"@ + transcript_text(transcript)
        + "\n\nOriginal user request:\n"@ + user_content + "\n"@
}

fn entry_to_json(e: &ToolLoopEntry) -> (r: String)
    ensures
        r@ == entry_json(*e),
{
    let mut out = String::from_str("{\"arguments\":");
    out.append(e.arguments.as_str());
    out.append(",\"result\":");
    out.append(e.result.as_str());
    out.append(",\"toolName\":");
    let name = json_quote_str(e.tool_name.as_str());
    out.append(name.as_str());
    out.append("}");
    out
}

/// The transcript as the prompt quotes it.
pub fn format_transcript(transcript: &[ToolLoopEntry]) -> (r: String)
    ensures
        r@ == transcript_text(transcript@),
{
    if transcript.len() == 0 {
        return String::from_str("[]");
    }
    let mut compact = String::from_str("[");
    let mut i: usize = 0;
    proof {
        reveal_strlit("[");
        assert(entries_json(transcript@.take(0)) =~= Seq::<char>::empty());
        assert(compact@ =~= seq!['['] + entries_json(transcript@.take(0)));
    }
    while i < transcript.len()
        invariant
            i <= transcript.len(),
            compact@ == seq!['['] + entries_json(transcript@.take(i as int)),
        decreases transcript.len() - i,
    {
        proof {
            reveal_strlit("[");
            reveal_strlit(",");
            assert(transcript@.take(i + 1).drop_last() =~= transcript@.take(i as int));
            assert(transcript@.take(i + 1).last() == transcript@[i as int]);
        }
        if i > 0 {
            compact.append(",");
        }
        let entry = entry_to_json(&transcript[i]);
        compact.append(entry.as_str());
        proof {
            if i > 0 {
                assert(compact@ =~= seq!['['] + (entries_json(transcript@.take(i as int)) + seq![
                    ',',
                ] + entry_json(transcript@[i as int])));
            } else {
                assert(compact@ =~= seq!['['] + entry_json(transcript@[i as int]));
            }
        }
        i = i + 1;
    }
    compact.append("]");
    proof {
        reveal_strlit("]");
        assert(transcript@.take(transcript.len() as int) =~= transcript@);
        assert(compact@ =~= seq!['['] + entries_json(transcript@) + seq![']']);
    }
    let pretty = match json_to_pretty(compact.as_str()) {
        Some(p) => p,
        None => String::from_str("[]"),
    };
    truncate_middle(pretty.as_str(), MAX_TOOL_TRANSCRIPT_CHARS)
}

/// Writes the prompt of step `step` of `max_steps`.
pub fn build_tool_loop_prompt(
    user_content: &str,
    available_tools: &str,
    transcript: &[ToolLoopEntry],
    step: usize,
    max_steps: usize,
) -> (r: String)
    ensures
        r@ == tool_loop_prompt(
            user_content@,
            available_tools@,
            transcript@,
            step as nat,
            max_steps as nat,
        ),
{
    let mut out = String::from_str(
        "You are operating a local agent workspace with executable tools.\nYou must return exactly one JSON object and nothing else.\nUse this schema:\n{\"type\":\"tool\",\"tool\":\"<tool name>\",\"arguments\":{...}}\nor\n{\"type\":\"final\",\"content\":\"<final user-facing answer>\"}\n\nRules:\n- Use tools whenever the request depends on workspace state, files, search results, or todos.\n- Prefer list/read/search before write operations unless the user directly asked you to write.\n- Never invent tool results.\n- Keep file paths relative to the workspace root.\n- If prior tool results are sufficient, return type=final.\n- Current step budget: ",
    );
    let step_text = decimal_string(step as u64);
    out.append(step_text.as_str());
    out.append("/");
    let max_text = decimal_string(max_steps as u64);
    out.append(max_text.as_str());
    out.append(".\n\nAvailable tools:\n");
    out.append(available_tools);
    out.append("\n\nCompleted tool transcript:\n");
    let transcript_json = format_transcript(transcript);
    out.append(transcript_json.as_str());
    out.append("\n\nOriginal user request:\n");
    out.append(user_content);
    out.append("\n");
    out
}

/// What came of a tool call: the tool ran (with its `ok` flag and its
/// payload as JSON text), or it failed with a message.
#[derive(Debug)]
pub enum ToolOutcome {
    Completed { ok: bool, payload: String },
    Failed { message: String },
}

/// What the loop records of a tool call: the result as JSON text, whether
/// the call went through, and its error.
#[derive(Debug)]
pub struct ToolCallReport {
    pub result_json: String,
    pub ok: bool,
    pub error: Option<String>,
}

/// The JSON text of a boolean.
pub open spec fn bool_json(b: bool) -> Seq<char> {
    if b {
        "true"@
    } else {
        "false"@
    }
}

/// The report of a tool call: a completed call gives `{"ok":..,"payload":..}`
/// and goes through; a failed one gives `{"error":..,"ok":false}` and does
/// not, with its message as the error.
pub open spec fn report_of(outcome: ToolOutcome) -> (Seq<char>, bool, Option<Seq<char>>) {
    match outcome {
        ToolOutcome::Completed { ok, payload } => (
            "{\"ok\":"@ + bool_json(ok) + ",\"payload\":"@ + payload@ + "}"@,
            true,
            None,
        ),
        ToolOutcome::Failed { message } => (
            "{\"error\":"@ + json_quote(message@) + ",\"ok\":false}"@,
            false,
            Some(message@),
        ),
    }
}

/// Writes the report of a tool call.
pub fn report_tool_outcome(outcome: &ToolOutcome) -> (r: ToolCallReport)
    ensures
        (r.result_json@, r.ok, match r.error {
            Some(e) => Some(e@),
            None => None,
        }) == report_of(*outcome),
{
    match outcome {
        ToolOutcome::Completed { ok, payload } => {
            let mut text = String::from_str("{\"ok\":");
            if *ok {
                text.append("true");
            } else {
                text.append("false");
            }
            text.append(",\"payload\":");
            text.append(payload.as_str());
            text.append("}");
            ToolCallReport { result_json: text, ok: true, error: None }
        },
        ToolOutcome::Failed { message } => {
            let mut text = String::from_str("{\"error\":");
            let quoted = json_quote_str(message.as_str());
            text.append(quoted.as_str());
            text.append(",\"ok\":false}");
            ToolCallReport { result_json: text, ok: false, error: Some(message.clone()) }
        },
    }
}

/// The action a reply stands for: the action it parses to, or else, when it
/// does not parse, the whole reply (trimmed) as the final answer.
pub open spec fn reply_action(raw: Seq<char>) -> ActionView {
    match parsed_action(raw) {
        Ok(a) => a,
        Err(_) => ActionView::Final(trim(raw)),
    }
}

/// The message of the error that ends a loop whose steps are all spent.
pub open spec fn budget_exceeded_message() -> Seq<char> {
    "tool loop exceeded max step budget of "@ + decimal(MAX_TOOL_STEPS as nat)
}

/// The state of a tool loop: how many model replies it has read, and the
/// tool calls made so far.
#[derive(Debug)]
pub struct ToolLoop {
    pub steps_taken: usize,
    pub transcript: Vec<ToolLoopEntry>,
}

impl ToolLoop {
    /// Every tool call answers a reply read, and no more replies are read
    /// than the budget allows.
    pub open spec fn wf(&self) -> bool {
        self.transcript@.len() <= self.steps_taken <= MAX_TOOL_STEPS
    }

    /// A loop that has read nothing yet.
    pub fn new() -> (l: ToolLoop)
        ensures
            l.wf(),
            l.steps_taken == 0,
            l.transcript@.len() == 0,
    {
        ToolLoop { steps_taken: 0, transcript: Vec::new() }
    }

    /// Whether the loop may ask the model once more.
    pub open spec fn has_budget(&self) -> bool {
        self.steps_taken < MAX_TOOL_STEPS
    }

    /// The prompt of the next step, or, once every step is spent, the error
    /// that ends the loop.
    pub fn next_prompt(&self, user_content: &str, available_tools: &str) -> (r: CoreResult<String>)
        ensures
            if self.has_budget() {
                r matches Ok(p) && p@ == tool_loop_prompt(
                    user_content@,
                    available_tools@,
                    self.transcript@,
                    (self.steps_taken + 1) as nat,
                    MAX_TOOL_STEPS as nat,
                )
            } else {
                r matches Err(e) && e.status == STATUS_BAD_REQUEST && e.message@
                    == budget_exceeded_message()
            },
    {
        if self.steps_taken >= MAX_TOOL_STEPS {
            let mut message = String::from_str("tool loop exceeded max step budget of ");
            let n = decimal_string(MAX_TOOL_STEPS as u64);
            message.append(n.as_str());
            return Err(CoreError::new(STATUS_BAD_REQUEST, message));
        }
        Ok(
            build_tool_loop_prompt(
                user_content,
                available_tools,
                self.transcript.as_slice(),
                self.steps_taken + 1,
                MAX_TOOL_STEPS,
            ),
        )
    }

    /// Reads the model's reply to the current step's prompt and returns the
    /// action it asks for; the step is spent.
    pub fn read_reply(&mut self, raw: &str) -> (action: ToolLoopAction)
        requires
            old(self).wf(),
            old(self).has_budget(),
        ensures
            final(self).wf(),
            final(self).steps_taken == old(self).steps_taken + 1,
            final(self).transcript@ == old(self).transcript@,
            action@ == reply_action(raw@),
    {
        self.steps_taken = self.steps_taken + 1;
        match parse_tool_loop_action(raw) {
            Ok(action) => action,
            Err(_) => ToolLoopAction::Final { content: trimmed(raw) },
        }
    }

    /// Records the outcome of the tool call the last reply asked for, and
    /// returns its report.
    pub fn record_tool_call(&mut self, tool_name: String, arguments: String, outcome: &ToolOutcome) -> (report: ToolCallReport)
        requires
            old(self).wf(),
            old(self).transcript@.len() < old(self).steps_taken,
        ensures
            final(self).wf(),
            final(self).steps_taken == old(self).steps_taken,
            (report.result_json@, report.ok, match report.error {
                Some(e) => Some(e@),
                None => None,
            }) == report_of(*outcome),
            final(self).transcript@ == old(self).transcript@.push(
                ToolLoopEntry { tool_name, arguments, result: report.result_json },
            ),
    {
        let report = report_tool_outcome(outcome);
        self.transcript.push(
            ToolLoopEntry { tool_name, arguments, result: report.result_json.clone() },
        );
        report
    }
}

/// How many words of a tool call's arguments and result its run step keeps
/// as summaries.
pub const TOOL_SUMMARY_WORDS: usize = 24;

/// The title of the run step of a call of `tool_name`.
pub open spec fn tool_step_title(tool_name: Seq<char>) -> Seq<char> {
    "Invoke tool "@ + tool_name
}

/// `title` and `summary` label the run step of a call of `tool_name` with
/// `arguments`.
pub open spec fn tool_step_labels(
    title: String,
    summary: String,
    tool_name: Seq<char>,
    arguments: Seq<char>,
) -> bool {
    &&& title@ == tool_step_title(tool_name)
    &&& summary@ == summary_of(arguments, TOOL_SUMMARY_WORDS as nat)
}

/// `text` is the message a tool step closes with after `report`: the summary
/// of the result when the call went through, else its error (or a generic
/// message when it has none).
pub open spec fn tool_step_closing(text: String, report: ToolCallReport) -> bool {
    if report.ok {
        text@ == summary_of(report.result_json@, TOOL_SUMMARY_WORDS as nat)
    } else {
        text@ == match report.error {
            Some(e) => e@,
            None => "tool execution failed"@,
        }
    }
}

impl StoreState {
    /// Everything but the run steps and plan steps is as in `other`.
    pub open spec fn steps_only_changed(&self, other: &Self) -> bool {
        &&& self.same_sessions(other)
        &&& self.same_catalog(other)
        &&& self.runs@ == other.runs@
        &&& self.run_events@ == other.run_events@
        &&& self.tool_invocations@ == other.tool_invocations@
        &&& self.tasks@ == other.tasks@
        &&& self.plans@ == other.plans@
        &&& self.artifacts@ == other.artifacts@
    }

    /// Starts the run step of a tool call: a tool step, outside the plan,
    /// titled after the tool, with the arguments' summary as its input.
    pub fn start_tool_step(&mut self, run_id: u128, tool_name: &str, arguments: &str) -> (r:
        CoreResult<RunStepRecord>)
        requires
            old(self).wf(),
            owned::<BY_RUN, RunStepRecord>(old(self).run_steps@, run_id).len() < u32::MAX,
        ensures
            final(self).wf(),
            final(self).steps_only_changed(old(self)),
            exists|title: String, summary: String|
                #[trigger] tool_step_labels(title, summary, tool_name@, arguments@)
                    && StoreState::start_step_post(
                    *old(self),
                    *final(self),
                    run_id,
                    None,
                    PlanStepKind::Tool,
                    title,
                    summary,
                    r,
                ),
    {
        let mut title = String::from_str("Invoke tool ");
        title.append(tool_name);
        let summary = summarize_text(arguments, TOOL_SUMMARY_WORDS);
        let ghost (t, m) = (title, summary);
        let r = self.start_run_step(run_id, None, PlanStepKind::Tool, title, summary);
        proof {
            assert(tool_step_labels(t, m, tool_name@, arguments@));
        }
        r
    }

    /// Closes the run step of a tool call after its report: completed with
    /// the result's summary when the call went through, else failed with its
    /// error.
    pub fn finish_tool_step(&mut self, run_step_id: u128, report: &ToolCallReport) -> (r:
        CoreResult<RunStepRecord>)
        requires
            old(self).wf(),
        ensures
            final(self).wf(),
            final(self).steps_only_changed(old(self)),
            exists|text: String|
                #[trigger] tool_step_closing(text, *report) && if report.ok {
                    StoreState::finish_step_post(
                        *old(self),
                        *final(self),
                        run_step_id,
                        RunStepStatus::Completed,
                        PlanStepStatus::Completed,
                        Some(text),
                        None,
                        r,
                    )
                } else {
                    StoreState::finish_step_post(
                        *old(self),
                        *final(self),
                        run_step_id,
                        RunStepStatus::Failed,
                        PlanStepStatus::Failed,
                        None,
                        Some(text),
                        r,
                    )
                },
    {
        if report.ok {
            let text = summarize_text(report.result_json.as_str(), TOOL_SUMMARY_WORDS);
            let ghost t = text;
            let r = self.complete_run_step(run_step_id, text);
            proof {
                assert(tool_step_closing(t, *report));
            }
            r
        } else {
            let text = match &report.error {
                Some(e) => e.clone(),
                None => String::from_str("tool execution failed"),
            };
            let ghost t = text;
            let r = self.fail_run_step(run_step_id, text);
            proof {
                assert(tool_step_closing(t, *report));
            }
            r
        }
    }
}

} // verus!
