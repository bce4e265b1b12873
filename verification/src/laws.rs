//! Properties of the library that span several operations.
use vstd::prelude::*;
use vstd::relations::sorted_by;

use crate::domain::{
    ArtifactRecord, CreateMemoryDocumentRequest, McpServerRecord, MemoryDocumentRecord, MemoryScope,
    RunEventEnvelope, SessionRecord, SkillRecord, SubagentRecord, TaskRecord,
};
use crate::ordering::{by_name, by_rank_desc, lex_le};
use crate::routing::{env_value, first_default_from, model_for};
use crate::store::context::last_n;
use crate::test_support::effective_status;
use crate::store::memory::requested_document;
use crate::store::runs::{active_task_of, events_after, is_open_status, tasks_for};
use crate::table::BY_SESSION;
use crate::table::{owned, owner_is, BY_RUN};
use crate::tool_loop::{entries_json, entry_json, ToolLoopEntry};

use crate::domain::{MemorySearchHit, MessageRecord, RunRecord, RunStatus, RunStreamStatus};
use crate::prompts::fallback_text;
use crate::routing::{
    first_match_from, key_is_set, provider_matches, selection_from, ConfiguredProvider,
    };
use crate::domain::ProviderAccountRecord;
use crate::routing::ProviderSelection;
use crate::scan::{words, words_from};
use crate::store::StoreState;
use crate::table::{lemma_upsert, lookup, upsert, Keyed};
use crate::paths::{is_normal_form, normalized, PartView};
use crate::text::is_ws;
use crate::tool_loop::{truncated_middle, truncation_marker, ToolLoop, MAX_TOOL_STEPS};
use crate::run_flow::{subagent_step_closing, subagent_step_labels, subagent_name, subagent_summary, STEP_SUMMARY_WORDS};
use crate::domain::{PlanStepKind, PlanStepStatus, RunStepRecord, RunStepStatus};
use crate::error::CoreResult;
use crate::scan::summary_of;
use crate::table::{first_key_index, has_key, lemma_first_key_index};
use crate::tool_driver::{advance_post, DriverStep, ToolLoopDriver, ToolLoopEvent};
use crate::tool_loop::{budget_exceeded_message, reply_action, ActionView};
use crate::error::STATUS_BAD_REQUEST;
use crate::run_flow::{run_flow_step, stage_order, OutcomeView, RunActionView, RunStage};
use crate::test_support::{
    requests_view, OpenRouterTransportRequest, RecordedRequest, TestOpenRouterTransport,
};

verus! {

proof fn lemma_lookup_key<T: Keyed>(s: Seq<T>, id: u128)
    requires
        lookup(s, id) is Some,
    ensures
        lookup(s, id).unwrap().key_of() == id,
{
}

/// Cancelling ends a run: once the cancelled record of a run (as
/// `cancel_run` stores it) replaces the run, the run is no longer active, so
/// a reply that arrives afterwards is not stored.
pub proof fn law_cancelled_run_is_inactive(
    before: StoreState,
    after: StoreState,
    run_id: u128,
    cancelled: RunRecord,
)
    requires
        before.wf(),
        lookup(before.runs@, run_id) matches Some(prev) && cancelled == (RunRecord {
            status: RunStatus::Cancelled,
            finished_at: cancelled.finished_at,
            stream_status: RunStreamStatus::Cancelled,
            active_stream_message_id: None,
            ..prev
        }),
        after.runs@ == upsert(before.runs@, cancelled),
    ensures
        !after.run_active(run_id),
{
    lemma_lookup_key(before.runs@, run_id);
    lemma_upsert(before.runs@, cancelled);
}

/// A run opened for a user message is active until it ends: once the new
/// running run is stored (as `enqueue_user_message` stores it), it is
/// active.
pub proof fn law_enqueued_run_is_active(before: StoreState, after: StoreState, run: RunRecord)
    requires
        before.wf(),
        run.status == RunStatus::Running,
        after.runs@ == upsert(before.runs@, run),
    ensures
        after.run_active(run.id),
{
    lemma_upsert(before.runs@, run);
}

/// A reply is stored only for a run that is active.
pub proof fn law_reply_only_for_active_run(
    before: StoreState,
    after: StoreState,
    session_id: u128,
    run_id: u128,
    response: String,
    message: MessageRecord,
)
    requires
        StoreState::reply_post(
            before,
            after,
            session_id,
            run_id,
            response,
            Ok::<MessageRecord, crate::error::CoreError>(message),
        ),
    ensures
        before.run_active(run_id),
{
}

/// Storing a reply ends the run: afterwards it is no longer active, so a
/// second reply for it is not stored.
pub proof fn law_reply_ends_run(
    before: StoreState,
    after: StoreState,
    session_id: u128,
    run_id: u128,
    response: String,
    message: MessageRecord,
)
    requires
        before.wf(),
        StoreState::reply_post(
            before,
            after,
            session_id,
            run_id,
            response,
            Ok::<MessageRecord, crate::error::CoreError>(message),
        ),
    ensures
        !after.run_active(run_id),
{
    let run = lookup(before.runs@, run_id).unwrap();
    lemma_lookup_key(before.runs@, run_id);
    let done = RunRecord {
        status: RunStatus::Completed,
        finished_at: Some(message.created_at),
        error: None,
        stream_status: RunStreamStatus::Completed,
        active_stream_message_id: None,
        ..run
    };
    lemma_upsert(before.runs@, done);
}

/// A shortened transcript is never longer than the limit plus the
/// truncation marker, and a text within the limit is kept whole.
pub proof fn law_truncation_is_bounded(s: Seq<char>, max_chars: nat)
    ensures
        truncated_middle(s, max_chars).len() <= max_chars + truncation_marker().len(),
        s.len() <= max_chars ==> truncated_middle(s, max_chars) == s,
{
}

/// The chosen account is an active account that a configured provider
/// stands for, and that provider's API key is set.
pub proof fn law_selection_is_active_and_keyed(
    configs: Seq<ConfiguredProvider>,
    providers: Seq<ProviderAccountRecord>,
    env: Seq<(String, String)>,
    i: int,
)
    requires
        selection_from(configs, providers, env, i) is Some,
    ensures
        exists|k: int, j: int|
            {
                &&& i <= k < configs.len()
                &&& 0 <= j < providers.len()
                &&& #[trigger] provider_matches(providers[j], configs[k])
                &&& key_is_set(configs[k], env)
                &&& providers[j].id == selection_from(configs, providers, env, i).unwrap().provider_id
            },
    decreases configs.len() - i,
{
    let c = configs[i];
    match first_match_from(providers, c, 0) {
        None => {
            law_selection_is_active_and_keyed(configs, providers, env, i + 1);
        },
        Some(j) => {
            lemma_first_match(providers, c, 0);
            if !key_is_set(c, env) {
                law_selection_is_active_and_keyed(configs, providers, env, i + 1);
            } else {
                match crate::routing::model_for(c, providers[j]) {
                    None => {
                        law_selection_is_active_and_keyed(configs, providers, env, i + 1);
                    },
                    Some(m) => {
                        assert(provider_matches(providers[j], configs[i]));
                    },
                }
            }
        },
    }
}

proof fn lemma_first_match(providers: Seq<ProviderAccountRecord>, c: ConfiguredProvider, i: int)
    requires
        first_match_from(providers, c, i) is Some,
    ensures
        ({
            let j = first_match_from(providers, c, i).unwrap();
            &&& i <= j < providers.len()
            &&& provider_matches(providers[j], c)
        }),
    decreases providers.len() - i,
{
    if i >= 0 && i < providers.len() && !provider_matches(providers[i], c) {
        lemma_first_match(providers, c, i + 1);
    }
}

/// `w` is non-empty and holds no white space.
pub open spec fn is_nonblank_word(w: Seq<char>) -> bool {
    w.len() > 0 && forall|k: int| 0 <= k < w.len() ==> !is_ws(#[trigger] w[k])
}

/// Every word `split_whitespace` gives is non-empty and holds no white
/// space.
pub proof fn law_words_are_nonblank(s: Seq<char>)
    ensures
        forall|i: int| 0 <= i < words(s).len() ==> is_nonblank_word(#[trigger] words(s)[i]),
{
    lemma_words_from_nonblank(s, Seq::empty());
}

proof fn lemma_words_from_nonblank(s: Seq<char>, cur: Seq<char>)
    requires
        forall|k: int| 0 <= k < cur.len() ==> !is_ws(#[trigger] cur[k]),
    ensures
        forall|i: int|
            0 <= i < words_from(s, cur).len() ==> is_nonblank_word(#[trigger] words_from(s, cur)[i]),
    decreases s.len(),
{
    let ws = words_from(s, cur);
    if s.len() == 0 {
        if cur.len() > 0 {
            assert(ws == seq![cur]);
            assert(is_nonblank_word(cur));
            assert forall|i: int| 0 <= i < ws.len() implies is_nonblank_word(#[trigger] ws[i]) by {
                assert(ws[i] == cur);
            }
        } else {
            assert(ws.len() == 0);
        }
    } else if is_ws(s[0]) {
        lemma_words_from_nonblank(s.drop_first(), Seq::empty());
        let rest = words_from(s.drop_first(), Seq::empty());
        if cur.len() == 0 {
            assert(cur =~= Seq::<char>::empty());
            assert(ws == rest);
            assert forall|i: int| 0 <= i < ws.len() implies is_nonblank_word(#[trigger] ws[i]) by {
                assert(ws[i] == rest[i]);
            }
        } else {
            assert(ws == seq![cur] + rest);
            assert(is_nonblank_word(cur));
            assert forall|i: int| 0 <= i < ws.len() implies is_nonblank_word(#[trigger] ws[i]) by {
                if i > 0 {
                    assert(ws[i] == rest[i - 1]);
                } else {
                    assert(ws[i] == cur);
                }
            }
        }
    } else {
        let next = cur.push(s[0]);
        assert forall|k: int| 0 <= k < next.len() implies !is_ws(#[trigger] next[k]) by {
            if k < cur.len() {
                assert(next[k] == cur[k]);
            }
        }
        lemma_words_from_nonblank(s.drop_first(), next);
        let rest = words_from(s.drop_first(), next);
        assert(ws == rest);
        assert forall|i: int| 0 <= i < ws.len() implies is_nonblank_word(#[trigger] ws[i]) by {
            assert(ws[i] == rest[i]);
        }
    }
}

/// The local reply always ends with the user's words, quoted back.
pub proof fn law_fallback_quotes_request(
    selection: Option<ProviderSelection>,
    hits: Seq<MemorySearchHit>,
    user_content: Seq<char>,
    providers_count: nat,
)
    ensures
        ({
            let text = fallback_text(selection, hits, user_content, providers_count);
            &&& text.len() >= user_content.len()
            &&& text.subrange(text.len() - user_content.len(), text.len() as int) == user_content
        }),
{
    let text = fallback_text(selection, hits, user_content, providers_count);
    let head = text.subrange(0, text.len() - user_content.len());
    assert(text.subrange(text.len() - user_content.len(), text.len() as int) =~= user_content);
}

/// The shape of a normalized path: no `.` or `..`, a prefix only first, and
/// a root only first or right after a prefix.
pub open spec fn is_path_shape(q: Seq<PartView>) -> bool {
    forall|i: int|
        0 <= i < q.len() ==> {
            &&& !(#[trigger] q[i] is Current)
            &&& !(q[i] is Parent)
            &&& (q[i] is Prefix ==> i == 0)
            &&& (q[i] is Root ==> i == 0 || (i == 1 && q[0] is Prefix))
        }
}

/// Normalizing leaves no `.` or `..` in a path, and gives it the shape of a
/// normalized path.
pub proof fn law_normalized_shape(p: Seq<PartView>)
    ensures
        is_path_shape(normalized(p)),
        is_normal_form(normalized(p)),
    decreases p.len(),
{
    if p.len() > 0 {
        law_normalized_shape(p.drop_last());
        let prev = normalized(p.drop_last());
        let q = normalized(p);
        match p.last() {
            PartView::Current => {},
            PartView::Parent => {
                if prev.len() > 0 && prev.last() is Normal {
                    assert forall|i: int| 0 <= i < q.len() implies {
                        &&& !(#[trigger] q[i] is Current)
                        &&& !(q[i] is Parent)
                        &&& (q[i] is Prefix ==> i == 0)
                        &&& (q[i] is Root ==> i == 0 || (i == 1 && q[0] is Prefix))
                    } by {
                        assert(q[i] == prev[i]);
                        assert(q.len() > 1 ==> q[0] == prev[0]);
                    }
                }
            },
            _ => {
                assert forall|i: int| 0 <= i < q.len() implies {
                    &&& !(#[trigger] q[i] is Current)
                    &&& !(q[i] is Parent)
                    &&& (q[i] is Prefix ==> i == 0)
                    &&& (q[i] is Root ==> i == 0 || (i == 1 && q[0] is Prefix))
                } by {
                    if i < prev.len() && !(p.last() is Root) && !(p.last() is Prefix) {
                        assert(q[i] == prev[i]);
                        assert(q[0] == prev[0]);
                    }
                }
            },
        }
    }
}

proof fn lemma_shape_is_fixed(q: Seq<PartView>)
    requires
        is_path_shape(q),
    ensures
        normalized(q) == q,
    decreases q.len(),
{
    if q.len() > 0 {
        let init = q.drop_last();
        assert forall|i: int| 0 <= i < init.len() implies {
            &&& !(#[trigger] init[i] is Current)
            &&& !(init[i] is Parent)
            &&& (init[i] is Prefix ==> i == 0)
            &&& (init[i] is Root ==> i == 0 || (i == 1 && init[0] is Prefix))
        } by {
            assert(init[i] == q[i]);
            assert(init.len() > 1 ==> init[0] == q[0]);
        }
        lemma_shape_is_fixed(init);
        let n = q.len() - 1;
        assert(q[n] == q.last());
        match q.last() {
            PartView::Root => {
                if n == 1 {
                    assert(init =~= seq![q[0]]);
                    assert(q =~= seq![q[0], PartView::Root]);
                } else {
                    assert(q =~= seq![PartView::Root]);
                }
            },
            PartView::Prefix(_) => {
                assert(q =~= seq![q[0]]);
            },
            _ => {
                assert(q =~= init.push(q.last()));
            },
        }
    }
}

/// Normalizing twice is normalizing once.
pub proof fn law_normalize_idempotent(p: Seq<PartView>)
    ensures
        normalized(normalized(p)) == normalized(p),
{
    law_normalized_shape(p);
    lemma_shape_is_fixed(normalized(p));
}

/// One round of a tool loop whose reply asks for a tool, as the loop and
/// the store see it: the round is allowed only while steps are left
/// (`next_prompt` succeeds and `read_reply` may be called), the reply spends
/// a step, the tool call it asks for is recorded in the loop, and the store
/// gains one run step (`start_tool_step`) and one tool invocation
/// (`record_tool_invocation`).
pub open spec fn tool_round(
    before: ToolLoop,
    after: ToolLoop,
    store_before: StoreState,
    store_after: StoreState,
) -> bool {
    &&& before.has_budget()
    &&& after.steps_taken == before.steps_taken + 1
    &&& after.transcript@.len() == before.transcript@.len() + 1
    &&& store_after.run_steps@.len() == store_before.run_steps@.len() + 1
    &&& store_after.tool_invocations@.len() == store_before.tool_invocations@.len() + 1
}

/// The tool loop's budget: from a new loop, each round in which the model
/// asks for a tool reads one reply, records one tool call, and leaves one
/// run step and one tool invocation in the store; at most `MAX_TOOL_STEPS`
/// such rounds can happen, and after exactly that many no step is left, so
/// the next prompt is refused (`next_prompt` then gives the 400 budget
/// error).
pub proof fn law_tool_loop_budget(rounds: Seq<ToolLoop>, stores: Seq<StoreState>)
    requires
        rounds.len() > 0,
        stores.len() == rounds.len(),
        rounds[0].steps_taken == 0,
        rounds[0].transcript@.len() == 0,
        forall|i: int|
            0 <= i < rounds.len() - 1 ==> #[trigger] tool_round(
                rounds[i],
                rounds[i + 1],
                stores[i],
                stores[i + 1],
            ),
    ensures
        rounds.len() <= MAX_TOOL_STEPS + 1,
        rounds.last().steps_taken == rounds.len() - 1,
        rounds.last().transcript@.len() == rounds.len() - 1,
        stores.last().run_steps@.len() == stores[0].run_steps@.len() + rounds.len() - 1,
        stores.last().tool_invocations@.len() == stores[0].tool_invocations@.len() + rounds.len() - 1,
        rounds.last().has_budget() <==> rounds.len() - 1 < MAX_TOOL_STEPS,
    decreases rounds.len(),
{
    if rounds.len() > 1 {
        let init = rounds.drop_last();
        let init_stores = stores.drop_last();
        assert forall|i: int| 0 <= i < init.len() - 1 implies #[trigger] tool_round(
            init[i],
            init[i + 1],
            init_stores[i],
            init_stores[i + 1],
        ) by {
            assert(tool_round(rounds[i], rounds[i + 1], stores[i], stores[i + 1]));
        }
        law_tool_loop_budget(init, init_stores);
        let n = rounds.len() - 1;
        assert(tool_round(rounds[n - 1], rounds[n], stores[n - 1], stores[n]));
    }
}

/// A sent request as the test transport records it.
pub open spec fn as_recorded(q: OpenRouterTransportRequest) -> RecordedRequest {
    RecordedRequest { endpoint: q.endpoint@, body: q.body@ }
}

/// What one `send_chat_completion` does to the record, whatever it
/// answered: the request is appended.
pub open spec fn send_recorded(
    before: TestOpenRouterTransport,
    q: OpenRouterTransportRequest,
    after: TestOpenRouterTransport,
) -> bool {
    requests_view(after.requests@) == requests_view(before.requests@).push(as_recorded(q))
}

/// The test transport records every request in the order it was sent,
/// failed sends included: after sending `sent` from a new transport, the
/// record (which `recorded_requests` reads without changing it) is exactly
/// `sent`.
pub proof fn law_requests_recorded_in_order(
    states: Seq<TestOpenRouterTransport>,
    sent: Seq<OpenRouterTransportRequest>,
)
    requires
        states.len() == sent.len() + 1,
        states[0].requests@.len() == 0,
        forall|i: int| 0 <= i < sent.len() ==> #[trigger] send_recorded(states[i], sent[i], states[i + 1]),
    ensures
        requests_view(states.last().requests@) == sent.map_values(|q: OpenRouterTransportRequest| as_recorded(q)),
    decreases sent.len(),
{
    if sent.len() == 0 {
        assert(requests_view(states[0].requests@) =~= Seq::<RecordedRequest>::empty());
    } else {
        let n = sent.len() - 1;
        let s0 = states.drop_last();
        let q0 = sent.drop_last();
        assert forall|i: int| 0 <= i < q0.len() implies #[trigger] send_recorded(s0[i], q0[i], s0[i + 1]) by {
            assert(send_recorded(states[i], sent[i], states[i + 1]));
        }
        law_requests_recorded_in_order(s0, q0);
        assert(send_recorded(states[n], sent[n], states[n + 1]));
        assert(sent.map_values(|q: OpenRouterTransportRequest| as_recorded(q)) =~= q0.map_values(
            |q: OpenRouterTransportRequest| as_recorded(q),
        ).push(as_recorded(sent[n])));
    }
}

/// A run only moves forward: a stage leads to another stage only when it is
/// done, and then to a later one; after the last stage the run stops.
pub proof fn law_run_flow_moves_forward(stage: RunStage, outcome: OutcomeView, delegate: bool)
    ensures
        run_flow_step(stage, outcome, delegate) matches RunActionView::Perform(next)
            ==> outcome is Done && stage_order(next) > stage_order(stage),
        outcome is Done && stage == RunStage::Finalize ==> run_flow_step(stage, outcome, delegate) is Stop,
{
}

/// The event that answers `step` when every reply asks for a tool and every
/// store call succeeds: a reply naming a tool after `AskModel`, the tool's
/// outcome after `RunTool`, `Recorded` after `Record`; nothing answers the
/// end of the loop.
pub open spec fn answered_with_tool(step: DriverStep, event: ToolLoopEvent) -> bool {
    match step {
        DriverStep::AskModel(_) => event matches ToolLoopEvent::Replied(raw) && reply_action(
            raw@,
        ) is Tool,
        DriverStep::RunTool { .. } => event is ToolRan,
        DriverStep::Record(_) => event is Recorded,
        _ => false,
    }
}

/// The step a tool-only loop asks for at position `i`: asking the model,
/// running the tool, recording the call, eight times over, and then the 400
/// budget error.
pub open spec fn tool_only_step(i: int, step: DriverStep) -> bool {
    if i == 3 * MAX_TOOL_STEPS {
        step matches DriverStep::Fail(e) && e.status == STATUS_BAD_REQUEST && e.message@
            == budget_exceeded_message()
    } else if i % 3 == 0 {
        step is AskModel
    } else if i % 3 == 1 {
        step is RunTool
    } else {
        step is Record
    }
}

/// The event a tool-only loop is handed at position `i`.
pub open spec fn tool_only_event(i: int, event: ToolLoopEvent) -> bool {
    if i == 0 {
        event is Begin
    } else if i % 3 == 1 {
        event matches ToolLoopEvent::Replied(raw) && reply_action(raw@) is Tool
    } else if i % 3 == 2 {
        event is ToolRan
    } else {
        event is Recorded
    }
}

/// The steps spent, the calls recorded and whether a call is waited on,
/// before the event at position `i` of a tool-only loop.
pub open spec fn tool_only_counts(i: int) -> (int, int, bool) {
    if i == 0 {
        (0, 0, false)
    } else if (i - 1) % 3 == 0 {
        ((i - 1) / 3, (i - 1) / 3, false)
    } else if (i - 1) % 3 == 1 {
        ((i - 1) / 3 + 1, (i - 1) / 3, true)
    } else {
        ((i - 1) / 3 + 1, (i - 1) / 3 + 1, false)
    }
}

pub open spec fn driver_counts(d: ToolLoopDriver) -> (int, int, bool) {
    (d.tool_loop.steps_taken as int, d.tool_loop.transcript@.len() as int, d.pending is Some)
}

/// The hypotheses of the tool-only run: `steps[i]` is what `advance` gave
/// for `events[i]`, turning `drivers[i]` into `drivers[i + 1]`, starting from
/// a new driver with `Begin`, each later event answering the step before.
pub open spec fn tool_only_run(
    drivers: Seq<ToolLoopDriver>,
    events: Seq<ToolLoopEvent>,
    steps: Seq<DriverStep>,
    user_content: Seq<char>,
    tools: Seq<char>,
) -> bool {
    &&& events.len() > 0
    &&& steps.len() == events.len()
    &&& drivers.len() == events.len() + 1
    &&& drivers[0].tool_loop.steps_taken == 0
    &&& drivers[0].tool_loop.transcript@.len() == 0
    &&& drivers[0].pending is None
    &&& events[0] is Begin
    &&& forall|i: int|
        0 <= i < events.len() ==> #[trigger] advance_post(
            drivers[i],
            events[i],
            drivers[i + 1],
            steps[i],
            user_content,
            tools,
        )
    &&& forall|i: int| 0 < i < events.len() ==> #[trigger] answered_with_tool(steps[i - 1], events[i])
}

proof fn lemma_tool_only_prefix(
    drivers: Seq<ToolLoopDriver>,
    events: Seq<ToolLoopEvent>,
    steps: Seq<DriverStep>,
    user_content: Seq<char>,
    tools: Seq<char>,
    i: int,
)
    requires
        tool_only_run(drivers, events, steps, user_content, tools),
        0 <= i <= events.len(),
    ensures
        i <= 3 * MAX_TOOL_STEPS + 1,
        driver_counts(drivers[i]) == tool_only_counts(i),
        i < events.len() ==> tool_only_event(i, events[i]),
        i > 0 ==> tool_only_step(i - 1, steps[i - 1]),
    decreases i,
{
    if i > 0 {
        let j = i - 1;
        lemma_tool_only_prefix(drivers, events, steps, user_content, tools, j);
        if j > 0 {
            assert(answered_with_tool(steps[j - 1], events[j]));
        }
        assert(advance_post(drivers[j], events[j], drivers[j + 1], steps[j], user_content, tools));
        if i < events.len() {
            assert(answered_with_tool(steps[i - 1], events[i]));
        }
    }
}

/// The tool loop's budget, as the loop is run: when every reply names a
/// tool and every store call succeeds, the loop asks the model, runs the
/// tool and records the call (a tool invocation and its run step), exactly
/// `MAX_TOOL_STEPS` times in that order, and then ends with the 400 budget
/// error; it never asks the model a ninth time.
pub proof fn law_tool_loop_runs_to_budget(
    drivers: Seq<ToolLoopDriver>,
    events: Seq<ToolLoopEvent>,
    steps: Seq<DriverStep>,
    user_content: Seq<char>,
    tools: Seq<char>,
)
    requires
        tool_only_run(drivers, events, steps, user_content, tools),
    ensures
        events.len() <= 3 * MAX_TOOL_STEPS + 1,
        forall|i: int| 0 <= i < steps.len() ==> #[trigger] tool_only_step(i, steps[i]),
        steps.last() is Finish || steps.last() is Fail ==> {
            &&& events.len() == 3 * MAX_TOOL_STEPS + 1
            &&& steps.last() matches DriverStep::Fail(e) && e.status == STATUS_BAD_REQUEST
                && e.message@ == budget_exceeded_message()
        },
{
    lemma_tool_only_prefix(drivers, events, steps, user_content, tools, events.len() as int);
    assert forall|i: int| 0 <= i < steps.len() implies #[trigger] tool_only_step(i, steps[i]) by {
        lemma_tool_only_prefix(drivers, events, steps, user_content, tools, i + 1);
    }
}

/// Handing a request to the subagent: once the subagent step of a run is
/// opened (as `open_subagent_step` leaves the store) and then closed (as
/// `close_subagent_step` leaves it), the run has exactly one more step than
/// before: a subagent step outside the plan, titled after the subagent, with
/// the request's summary as its input, completed with the summary of the
/// subagent's report. A new step whose random id an earlier step already
/// has is left out.
pub proof fn law_subagent_step_completes(
    s0: StoreState,
    s1: StoreState,
    s2: StoreState,
    run_id: u128,
    user_content: Seq<char>,
    opened: CoreResult<RunStepRecord>,
    closed: CoreResult<RunStepRecord>,
    title: String,
    summary: String,
    text: String,
)
    requires
        has_key(s0.runs@, run_id),
        subagent_step_labels(title, summary, user_content),
        StoreState::start_step_post(s0, s1, run_id, None, PlanStepKind::Subagent, title, summary, opened),
        opened matches Ok(step) && !has_key(s0.run_steps@, step.id) && subagent_step_closing(text)
            && StoreState::finish_step_post(
            s1,
            s2,
            step.id,
            RunStepStatus::Completed,
            PlanStepStatus::Completed,
            Some(text),
            None,
            closed,
        ),
    ensures
        closed matches Ok(done) && {
            &&& s2.run_steps@ == s0.run_steps@.push(done)
            &&& done.run_id == run_id
            &&& done.kind == PlanStepKind::Subagent
            &&& done.plan_step_id is None
            &&& done.status == RunStepStatus::Completed
            &&& done.title@ == "Delegate to "@ + subagent_name()
            &&& done.input_summary@ == summary_of(user_content, STEP_SUMMARY_WORDS as nat)
            &&& done.output_summary matches Some(t) && t@ == summary_of(
                subagent_summary(),
                STEP_SUMMARY_WORDS as nat,
            )
        },
{
    let step = opened->Ok_0;
    let n = s0.run_steps@.len() as int;
    assert(s1.run_steps@ == s0.run_steps@.push(step));
    assert(s1.run_steps@[n] == step);
    assert forall|j: int| 0 <= j < n implies #[trigger] s1.run_steps@[j].key_of()
        != s1.run_steps@[n].key_of() by {
        assert(s1.run_steps@[j] == s0.run_steps@[j]);
        if s0.run_steps@[j].key_of() == step.id {
            assert(has_key(s0.run_steps@, step.id));
        }
    }
    lemma_first_key_index(s1.run_steps@, n);
    assert(has_key(s1.run_steps@, step.id)) by {
        assert(s1.run_steps@[n].key_of() == step.id);
    }
    assert(first_key_index(s1.run_steps@, step.id) == n);
    let done = closed->Ok_0;
    assert(s2.run_steps@ =~= s0.run_steps@.push(done));
}

/// Listing a run's events after a sequence number gives exactly the run's
/// stored events numbered after it: an event is listed if and only if it is
/// stored, belongs to the run and has a greater sequence number; without a
/// number, every stored event of the run is listed.
pub proof fn law_events_listed_after_sequence(
    events: Seq<RunEventEnvelope>,
    run_id: u128,
    after: u64,
    e: RunEventEnvelope,
)
    ensures
        events_after(events, run_id, Some(after)).contains(e) <==> (events.contains(e) && e.run_id
            == run_id && e.sequence > after),
        events_after(events, run_id, None).contains(e) <==> (events.contains(e) && e.run_id
            == run_id),
{
    broadcast use vstd::seq_lib::group_filter_ensures;

    lemma_events_listed(events, run_id, Some(after), e);
    lemma_events_listed(events, run_id, None, e);
}

proof fn lemma_events_listed(
    events: Seq<RunEventEnvelope>,
    run_id: u128,
    after: Option<u64>,
    e: RunEventEnvelope,
)
    ensures
        events_after(events, run_id, after).contains(e) <==> (events.contains(e) && e.run_id
            == run_id && match after {
            Some(a) => e.sequence > a,
            None => true,
        }),
{
    broadcast use vstd::seq_lib::group_filter_ensures;

    let pred = owner_is::<BY_RUN, RunEventEnvelope>(run_id);
    let of_run = owned::<BY_RUN, RunEventEnvelope>(events, run_id);
    let keep = |e: RunEventEnvelope| match after {
        Some(a) => e.sequence > a,
        None => true,
    };
    assert(events_after(events, run_id, after) == of_run.filter(keep));
    if of_run.filter(keep).contains(e) {
        let i = choose|i: int| 0 <= i < of_run.filter(keep).len() && of_run.filter(keep)[i] == e;
        of_run.lemma_filter_pred(keep, i);
        of_run.lemma_filter_contains_rev(keep, e);
        let j = choose|j: int| 0 <= j < of_run.len() && of_run[j] == e;
        events.lemma_filter_pred(pred, j);
        events.lemma_filter_contains_rev(pred, e);
    }
    if events.contains(e) && e.run_id == run_id && keep(e) {
        let k = choose|k: int| 0 <= k < events.len() && events[k] == e;
        events.lemma_filter_contains(pred, k);
        let j = choose|j: int| 0 <= j < of_run.len() && of_run[j] == e;
        of_run.lemma_filter_contains(keep, j);
    }
}

proof fn lemma_first_default(models: Seq<crate::domain::ProviderModelRecord>, i: int, k: int)
    requires
        0 <= i <= k < models.len(),
        models[k].is_default,
        forall|j: int| i <= j < k ==> !#[trigger] models[j].is_default,
    ensures
        first_default_from(models, i) == Some(k),
    decreases k - i,
{
    if i < k {
        lemma_first_default(models, i + 1, k);
    }
}

proof fn lemma_no_default(models: Seq<crate::domain::ProviderModelRecord>, i: int)
    requires
        0 <= i <= models.len(),
        forall|j: int| i <= j < models.len() ==> !#[trigger] models[j].is_default,
    ensures
        first_default_from(models, i) is None,
    decreases models.len() - i,
{
    if i < models.len() {
        lemma_no_default(models, i + 1);
    }
}

/// The model a run uses with a configured provider and its account: the
/// provider's configured default model when it names one; otherwise the
/// account's first model marked default, when it marks one; otherwise the
/// account's first model; and none when the account lists no model.
pub proof fn law_model_choice(c: ConfiguredProvider, p: ProviderAccountRecord, k: int)
    ensures
        c.default_model matches Some(m) ==> model_for(c, p) == Some(m@),
        c.default_model is None && 0 <= k < p.models@.len() && p.models@[k].is_default && (forall|
            j: int,
        | 0 <= j < k ==> !#[trigger] p.models@[j].is_default) ==> model_for(c, p) == Some(
            p.models@[k].model_name@,
        ),
        c.default_model is None && (forall|j: int|
            0 <= j < p.models@.len() ==> !#[trigger] p.models@[j].is_default) ==> model_for(c, p)
            == if p.models@.len() > 0 {
            Some(p.models@[0].model_name@)
        } else {
            None
        },
{
    if c.default_model is None && 0 <= k < p.models@.len() && p.models@[k].is_default && (forall|
        j: int,
    | 0 <= j < k ==> !#[trigger] p.models@[j].is_default) {
        lemma_first_default(p.models@, 0, k);
    }
    if c.default_model is None && (forall|j: int|
        0 <= j < p.models@.len() ==> !#[trigger] p.models@[j].is_default) {
        lemma_no_default(p.models@, 0);
    }
}

/// The scope of a new memory document: the one the request gives, or else
/// the one its namespace implies: `global` gives the global scope,
/// `session` the session scope, and any other namespace the project scope.
pub proof fn law_document_scope(
    payload: CreateMemoryDocumentRequest,
    id: u128,
    summary: String,
    now: i64,
    title: String,
    namespace: String,
    source: String,
    content: String,
)
    ensures
        ({
            let d = requested_document(payload, id, summary, now, title, namespace, source, content);
            &&& payload.memory_scope matches Some(s) ==> d.memory_scope == s
            &&& payload.memory_scope is None ==> {
                &&& (d.memory_scope == MemoryScope::Global <==> namespace@ == "global"@)
                &&& (d.memory_scope == MemoryScope::Session <==> namespace@ == "session"@)
                &&& (d.memory_scope == MemoryScope::Project <==> namespace@ != "global"@
                    && namespace@ != "session"@)
            }
        }),
{
    reveal_strlit("global");
    reveal_strlit("session");
    assert("global"@ != "session"@) by {
        assert("global"@[0] != "session"@[0]);
    }
}

/// The transcript quoted to the model lists every call of the loop, in
/// order: the JSON of the first calls starts the JSON of all of them (and is
/// followed by a comma when more calls come), and ends with the last of
/// those calls' object, so each call's tool, arguments and result reach the
/// model, in the order they were made.
pub proof fn law_transcript_lists_every_call(es: Seq<ToolLoopEntry>, i: int)
    requires
        0 <= i < es.len(),
    ensures
        entry_json(es[i]).is_suffix_of(entries_json(es.take(i + 1))),
        i + 1 < es.len() ==> (entries_json(es.take(i + 1)) + seq![',']).is_prefix_of(
            entries_json(es),
        ),
        entries_json(es.take(i + 1)).is_prefix_of(entries_json(es)),
    decreases es.len(),
{
    let pre = es.take(i + 1);
    assert(pre.last() == es[i]);
    assert(entry_json(es[i]).is_suffix_of(entries_json(pre))) by {
        if pre.len() == 1 {
            assert(entries_json(pre) == entry_json(pre[0]));
        }
    }
    if i + 1 == es.len() {
        assert(pre =~= es);
    } else {
        let init = es.drop_last();
        law_transcript_lists_every_call(init, i);
        assert(init.take(i + 1) =~= pre);
        assert(entries_json(es) == entries_json(init) + seq![','] + entry_json(es.last()));
        if i + 1 < init.len() {
            assert((entries_json(pre) + seq![',']).is_prefix_of(entries_json(es)));
        } else {
            assert(init =~= pre);
            assert((entries_json(pre) + seq![',']) =~= entries_json(es).subrange(
                0,
                entries_json(pre).len() + 1 as int,
            ));
        }
    }
}

/// Sessions are listed most recently updated first.
pub proof fn law_sessions_newest_first(s: Seq<SessionRecord>)
    requires
        sorted_by(s, by_rank_desc::<SessionRecord>()),
    ensures
        forall|i: int, j: int| 0 <= i < j < s.len() ==> s[i].updated_at >= s[j].updated_at,
{
    assert forall|i: int, j: int| 0 <= i < j < s.len() implies s[i].updated_at >= s[j].updated_at by {
        assert(by_rank_desc::<SessionRecord>()(s[i], s[j]));
    }
}

/// Tasks are listed most recently updated first.
pub proof fn law_tasks_newest_first(s: Seq<TaskRecord>)
    requires
        sorted_by(s, by_rank_desc::<TaskRecord>()),
    ensures
        forall|i: int, j: int| 0 <= i < j < s.len() ==> s[i].updated_at >= s[j].updated_at,
{
    assert forall|i: int, j: int| 0 <= i < j < s.len() implies s[i].updated_at >= s[j].updated_at by {
        assert(by_rank_desc::<TaskRecord>()(s[i], s[j]));
    }
}

/// A task's runs are listed most recently started first.
pub proof fn law_runs_newest_first(s: Seq<RunRecord>)
    requires
        sorted_by(s, by_rank_desc::<RunRecord>()),
    ensures
        forall|i: int, j: int| 0 <= i < j < s.len() ==> s[i].started_at >= s[j].started_at,
{
    assert forall|i: int, j: int| 0 <= i < j < s.len() implies s[i].started_at >= s[j].started_at by {
        assert(by_rank_desc::<RunRecord>()(s[i], s[j]));
    }
}

/// Artifacts are listed most recently updated first.
pub proof fn law_artifacts_newest_first(s: Seq<ArtifactRecord>)
    requires
        sorted_by(s, by_rank_desc::<ArtifactRecord>()),
    ensures
        forall|i: int, j: int| 0 <= i < j < s.len() ==> s[i].updated_at >= s[j].updated_at,
{
    assert forall|i: int, j: int| 0 <= i < j < s.len() implies s[i].updated_at >= s[j].updated_at by {
        assert(by_rank_desc::<ArtifactRecord>()(s[i], s[j]));
    }
}

/// Memory documents are listed most recently updated first.
pub proof fn law_documents_newest_first(s: Seq<MemoryDocumentRecord>)
    requires
        sorted_by(s, by_rank_desc::<MemoryDocumentRecord>()),
    ensures
        forall|i: int, j: int| 0 <= i < j < s.len() ==> s[i].updated_at >= s[j].updated_at,
{
    assert forall|i: int, j: int| 0 <= i < j < s.len() implies s[i].updated_at >= s[j].updated_at by {
        assert(by_rank_desc::<MemoryDocumentRecord>()(s[i], s[j]));
    }
}

/// A run's events are listed oldest first, by sequence number.
pub proof fn law_events_oldest_first(s: Seq<RunEventEnvelope>)
    requires
        sorted_by(s, by_rank_desc::<RunEventEnvelope>()),
    ensures
        forall|i: int, j: int| 0 <= i < j < s.len() ==> s[i].sequence <= s[j].sequence,
{
    assert forall|i: int, j: int| 0 <= i < j < s.len() implies s[i].sequence <= s[j].sequence by {
        assert(by_rank_desc::<RunEventEnvelope>()(s[i], s[j]));
    }
}

/// The order of names: a name that is a leading part of another comes
/// first, and otherwise the first differing character decides, the smaller
/// code point first.
pub proof fn law_name_order(a: Seq<char>, b: Seq<char>, k: int)
    ensures
        a.is_prefix_of(b) ==> lex_le(a, b),
        0 <= k < a.len() && k < b.len() && a.take(k) == b.take(k) && (a[k] as int) < (
        b[k] as int) ==> lex_le(a, b) && !lex_le(b, a),
    decreases a.len(),
{
    if a.len() > 0 && b.len() > 0 {
        law_name_order(a.drop_first(), b.drop_first(), k - 1);
        if a.is_prefix_of(b) {
            assert(a.drop_first().is_prefix_of(b.drop_first())) by {
                assert(a.drop_first() =~= b.drop_first().subrange(0, a.len() - 1));
            }
        }
        if 0 < k < a.len() && k < b.len() && a.take(k) == b.take(k) {
            assert(a[0] == a.take(k)[0]);
            assert(b[0] == b.take(k)[0]);
            assert(a.drop_first().take(k - 1) =~= a.take(k).drop_first());
            assert(b.drop_first().take(k - 1) =~= b.take(k).drop_first());
        }
    }
}

/// Skills, subagents, provider accounts and MCP servers are listed by name.
pub proof fn law_catalog_by_name(
    skills: Seq<SkillRecord>,
    subagents: Seq<SubagentRecord>,
    providers: Seq<ProviderAccountRecord>,
    servers: Seq<McpServerRecord>,
)
    requires
        sorted_by(skills, by_name::<SkillRecord>()),
        sorted_by(subagents, by_name::<SubagentRecord>()),
        sorted_by(providers, by_name::<ProviderAccountRecord>()),
        sorted_by(servers, by_name::<McpServerRecord>()),
    ensures
        forall|i: int, j: int| 0 <= i < j < skills.len() ==> lex_le(skills[i].name@, skills[j].name@),
        forall|i: int, j: int|
            0 <= i < j < subagents.len() ==> lex_le(subagents[i].name@, subagents[j].name@),
        forall|i: int, j: int|
            0 <= i < j < providers.len() ==> lex_le(
                providers[i].display_name@,
                providers[j].display_name@,
            ),
        forall|i: int, j: int| 0 <= i < j < servers.len() ==> lex_le(servers[i].name@, servers[j].name@),
{
    assert forall|i: int, j: int| 0 <= i < j < skills.len() implies lex_le(skills[i].name@, skills[j].name@) by {
        assert(by_name::<SkillRecord>()(skills[i], skills[j]));
    }
    assert forall|i: int, j: int| 0 <= i < j < subagents.len() implies lex_le(subagents[i].name@, subagents[j].name@) by {
        assert(by_name::<SubagentRecord>()(subagents[i], subagents[j]));
    }
    assert forall|i: int, j: int| 0 <= i < j < providers.len() implies lex_le(providers[i].display_name@, providers[j].display_name@) by {
        assert(by_name::<ProviderAccountRecord>()(providers[i], providers[j]));
    }
    assert forall|i: int, j: int| 0 <= i < j < servers.len() implies lex_le(servers[i].name@, servers[j].name@) by {
        assert(by_name::<McpServerRecord>()(servers[i], servers[j]));
    }
}

/// A run works from the session's latest messages: the last `n` of them
/// (all when there are fewer), in their order.
pub proof fn law_latest_messages<T>(s: Seq<T>, n: nat)
    ensures
        last_n(s, n).len() == if s.len() <= n {
            s.len()
        } else {
            n
        },
        last_n(s, n).is_suffix_of(s),
{
}

/// An API-key variable's value is that of the first entry with its name;
/// with no such entry there is none.
pub proof fn law_env_first_entry(env: Seq<(String, String)>, key: Seq<char>, k: int)
    ensures
        0 <= k < env.len() && env[k].0@ == key && (forall|j: int|
            0 <= j < k ==> #[trigger] env[j].0@ != key) ==> env_value(env, key) == Some(env[k].1@),
        (forall|j: int| 0 <= j < env.len() ==> #[trigger] env[j].0@ != key) ==> env_value(env, key)
            is None,
    decreases env.len(),
{
    if env.len() > 0 {
        law_env_first_entry(env.drop_first(), key, k - 1);
        if 0 < k < env.len() && env[k].0@ == key && (forall|j: int|
            0 <= j < k ==> #[trigger] env[j].0@ != key) {
            assert(env[0].0@ != key);
            assert forall|j: int| 0 <= j < k - 1 implies #[trigger] env.drop_first()[j].0@ != key by {
                assert(env.drop_first()[j] == env[j + 1]);
            }
        }
        if forall|j: int| 0 <= j < env.len() ==> #[trigger] env[j].0@ != key {
            assert(env[0].0@ != key);
            assert forall|j: int| 0 <= j < env.len() - 1 implies #[trigger] env.drop_first()[j].0@ != key by {
                assert(env.drop_first()[j] == env[j + 1]);
            }
        }
    }
}

/// The account a configured provider stands for is the first active
/// account of the same kind and display name; there is none when no account
/// matches.
pub proof fn law_first_matching_account(
    providers: Seq<ProviderAccountRecord>,
    c: ConfiguredProvider,
    i: int,
)
    requires
        0 <= i <= providers.len(),
    ensures
        first_match_from(providers, c, i) matches Some(j) ==> i <= j < providers.len()
            && provider_matches(providers[j], c) && forall|k: int|
            i <= k < j ==> !provider_matches(#[trigger] providers[k], c),
        first_match_from(providers, c, i) is None ==> forall|k: int|
            i <= k < providers.len() ==> !provider_matches(#[trigger] providers[k], c),
    decreases providers.len() - i,
{
    if i < providers.len() {
        law_first_matching_account(providers, c, i + 1);
    }
}

/// A scripted answer's status is always an HTTP status (100 to 999): a
/// valid scripted status is kept, any other becomes 200.
pub proof fn law_scripted_status(code: u16)
    ensures
        100 <= effective_status(code) < 1000,
        100 <= code < 1000 ==> effective_status(code) == code,
        !(100 <= code < 1000) ==> effective_status(code) == 200,
{
}

/// The tasks listed for a session are exactly its tasks: a task is listed
/// if and only if it is stored and belongs to the session; without a
/// session, every stored task is listed.
pub proof fn law_tasks_of_session(tasks: Seq<TaskRecord>, session_id: u128, t: TaskRecord)
    ensures
        tasks_for(tasks, Some(session_id)).contains(t) <==> (tasks.contains(t) && t.session_id
            == session_id),
        tasks_for(tasks, None) == tasks,
{
    broadcast use vstd::seq_lib::group_filter_ensures;

    let pred = owner_is::<BY_SESSION, TaskRecord>(session_id);
    let listed = owned::<BY_SESSION, TaskRecord>(tasks, session_id);
    if listed.contains(t) {
        let j = choose|j: int| 0 <= j < listed.len() && listed[j] == t;
        tasks.lemma_filter_pred(pred, j);
        tasks.lemma_filter_contains_rev(pred, t);
    }
    if tasks.contains(t) && t.session_id == session_id {
        let k = choose|k: int| 0 <= k < tasks.len() && tasks[k] == t;
        tasks.lemma_filter_contains(pred, k);
    }
}

/// The active task of a session is its first open task (queued, planning,
/// running, waiting for approval or suspended) in the listed order; when no
/// task is open, the first task; none when there is no task.
pub proof fn law_active_task(tasks: Seq<TaskRecord>, k: int)
    ensures
        0 <= k < tasks.len() && is_open_status(tasks[k].status) && (forall|j: int|
            0 <= j < k ==> !is_open_status(#[trigger] tasks[j].status)) ==> active_task_of(tasks)
            == Some(tasks[k]),
        (forall|j: int| 0 <= j < tasks.len() ==> !is_open_status(#[trigger] tasks[j].status))
            ==> active_task_of(tasks) == if tasks.len() > 0 {
            Some(tasks[0])
        } else {
            None
        },
        active_task_of(tasks) matches Some(t) ==> tasks.contains(t),
{
    if exists|i: int| 0 <= i < tasks.len() && is_open_status(#[trigger] tasks[i].status) {
        let i = choose|i: int|
            0 <= i < tasks.len() && is_open_status(#[trigger] tasks[i].status) && forall|j: int|
                0 <= j < i ==> !is_open_status(#[trigger] tasks[j].status);
        let w = choose|w: int| 0 <= w < tasks.len() && is_open_status(#[trigger] tasks[w].status);
        lemma_first_open(tasks, w);
        if 0 <= k < tasks.len() && is_open_status(tasks[k].status) && (forall|j: int|
            0 <= j < k ==> !is_open_status(#[trigger] tasks[j].status)) {
            if i < k {
                assert(!is_open_status(tasks[i].status));
            } else if k < i {
                assert(!is_open_status(tasks[k].status));
            }
        }
        assert(tasks.contains(tasks[i]));
    } else if tasks.len() > 0 {
        assert(tasks.contains(tasks[0]));
    }
}

proof fn lemma_first_open(tasks: Seq<TaskRecord>, w: int)
    requires
        0 <= w < tasks.len(),
        is_open_status(tasks[w].status),
    ensures
        exists|i: int|
            0 <= i < tasks.len() && is_open_status(#[trigger] tasks[i].status) && forall|j: int|
                0 <= j < i ==> !is_open_status(#[trigger] tasks[j].status),
    decreases w,
{
    if exists|j: int| 0 <= j < w && is_open_status(#[trigger] tasks[j].status) {
        let j = choose|j: int| 0 <= j < w && is_open_status(#[trigger] tasks[j].status);
        lemma_first_open(tasks, j);
    } else {
        assert(is_open_status(tasks[w].status) && forall|j: int|
            0 <= j < w ==> !is_open_status(#[trigger] tasks[j].status));
    }
}

} // verus!
