//! Runs: accepting a user message, the run's life cycle, its event stream,
//! and the task and plan created for it.
use vstd::prelude::*;
use vstd::relations::sorted_by;

use crate::domain::{
    MessageRecord, MessageRole, PlanDetail, PlanRecord, PlanStatus, PlanStepKind, PlanStepRecord,
    PlanStepStatus, PlanStepView, PostMessageRequest, RunAccepted, RunEventEnvelope, RunRecord,
    RunStatus, RunStreamStatus, SessionDetail, SessionRecord, StreamCheckpointSummary, TaskRecord,
    TaskStatus,
};
use crate::error::{
    not_found_message, CoreError, CoreResult, STATUS_BAD_REQUEST, STATUS_CONFLICT, STATUS_NOT_FOUND,
};
use crate::ids::{fresh_id, now_millis};
use crate::ordering::{by_rank_desc, sort_by_rank_desc, ties_in_order};
use crate::store::{messages_of, StoreState};
use crate::table::{
    find_index, has_key, lemma_lookup_at, lookup, owned, select_owned, upsert, Keyed,
    upsert_record, OwnedBy, BY_PLAN, BY_RUN, BY_SESSION, BY_TASK,
};
use crate::json::{json_as_str, json_get, json_member, json_string};
use crate::scan::{join_spaced, summarize_text, summary_of};
use crate::text::{chars_of, is_blank, str_eq, string_from_chars, trim, trimmed};

verus! {

/// The task opened for a user message.
pub open spec fn default_task(
    task_id: u128,
    plan_id: u128,
    message: MessageRecord,
    title_summary: Seq<char>,
    now: i64,
) -> (t: TaskRecord) {
    TaskRecord {
        id: task_id,
        session_id: message.session_id,
        title: arbitrary(),
        goal: message.content,
        status: TaskStatus::Running,
        kind: arbitrary(),
        origin_message_id: message.id,
        current_plan_id: Some(plan_id),
        latest_run_id: message.run_id,
        summary: arbitrary(),
        created_at: now,
        updated_at: now,
        completed_at: None,
    }
}

/// `t` is the task opened for `message`: the fields of `default_task`, a
/// title that is the message summary or "Untitled task" when that summary is
/// empty, kind "chatTurn", and a fixed summary.
pub open spec fn is_default_task(
    t: TaskRecord,
    task_id: u128,
    plan_id: u128,
    message: MessageRecord,
    title_summary: Seq<char>,
    now: i64,
) -> bool {
    let d = default_task(task_id, plan_id, message, title_summary, now);
    &&& t == TaskRecord { title: t.title, kind: t.kind, summary: t.summary, ..d }
    &&& t.title@ == (if title_summary.len() == 0 {
        "Untitled task"@
    } else {
        title_summary
    })
    &&& t.kind@ == "chatTurn"@
    &&& t.summary@ == "Task created from a user message."@
}

/// `p` is the first plan of a task: version 1, active, from the default
/// planner.
pub open spec fn is_default_plan(p: PlanRecord, plan_id: u128, task_id: u128, now: i64) -> bool {
    &&& p.id == plan_id
    &&& p.task_id == task_id
    &&& p.version == 1
    &&& p.status == PlanStatus::Active
    &&& p.source@ == "defaultHarnessPlanner"@
    &&& p.planning_model is None
    &&& p.created_at == now
    &&& p.superseded_at is None
}

/// `s` is a pending step of plan `plan_id` with no dependencies, skill or
/// subagent.
pub open spec fn is_fresh_plan_step(s: PlanStepView, plan_id: u128, ordinal: u32) -> bool {
    &&& s.plan_id == plan_id
    &&& s.ordinal == ordinal
    &&& s.status == PlanStepStatus::Pending
    &&& s.depends_on.len() == 0
    &&& s.skill_id is None
    &&& s.subagent_id is None
    &&& s.expected_outputs.len() == 1
    &&& s.acceptance_criteria.len() == 1
}

/// The two steps of a default plan: build the context, then respond.
pub open spec fn is_default_plan_steps(steps: Seq<PlanStepView>, plan_id: u128) -> bool {
    &&& steps.len() == 2
    &&& is_fresh_plan_step(steps[0], plan_id, 1)
    &&& steps[0].kind == PlanStepKind::ContextBuild
    &&& steps[0].title == "Build context"@
    &&& steps[0].description == "Assemble recent session state and relevant memory."@
    &&& steps[0].expected_outputs[0]@ == "context bundle"@
    &&& steps[0].acceptance_criteria[0]@ == "recent messages loaded"@
    &&& is_fresh_plan_step(steps[1], plan_id, 2)
    &&& steps[1].kind == PlanStepKind::Respond
    &&& steps[1].title == "Produce response"@
    &&& steps[1].description == "Use the selected model and tools to answer the user."@
    &&& steps[1].expected_outputs[0]@ == "assistant response"@
    &&& steps[1].acceptance_criteria[0]@ == "assistant response persisted"@
}

/// The views of a list of plan steps.
pub open spec fn steps_view(steps: Seq<PlanStepRecord>) -> Seq<PlanStepView> {
    steps.map_values(|s: PlanStepRecord| s@)
}

/// The runs of a session that are still running.
pub open spec fn running_runs_of(runs: Seq<RunRecord>, session_id: u128) -> Seq<RunRecord> {
    runs.filter(|r: RunRecord| r.session_id == session_id && r.status == RunStatus::Running)
}

/// `r` is one of the latest-started runs of `runs` (when `runs` is empty, there
/// is none).
pub open spec fn is_latest_of(r: Option<RunRecord>, runs: Seq<RunRecord>) -> bool {
    match r {
        None => runs.len() == 0,
        Some(run) => runs.contains(run) && forall|i: int|
            0 <= i < runs.len() ==> #[trigger] runs[i].started_at <= run.started_at,
    }
}

/// The stream status a run takes after an event of type `event_type`.
pub open spec fn stream_status_after(event_type: Seq<char>, status: RunStatus) -> RunStreamStatus {
    if event_type == "run.completed"@ {
        RunStreamStatus::Completed
    } else if event_type == "run.failed"@ {
        RunStreamStatus::Failed
    } else if status == RunStatus::Cancelled {
        RunStreamStatus::Cancelled
    } else {
        RunStreamStatus::Active
    }
}

/// A task after its run ended with `status` at `now`.
pub open spec fn task_after_run(t: TaskRecord, status: TaskStatus, run_id: u128, now: i64) -> TaskRecord {
    TaskRecord {
        status,
        updated_at: now,
        completed_at: Some(now),
        latest_run_id: Some(run_id),
        ..t
    }
}

/// The task table after the run's task (if it is there) ended with `status`.
pub open spec fn tasks_after_run(
    tasks: Seq<TaskRecord>,
    task_id: u128,
    status: TaskStatus,
    run_id: u128,
    now: i64,
) -> Seq<TaskRecord> {
    match lookup(tasks, task_id) {
        Some(t) => upsert(tasks, task_after_run(t, status, run_id, now)),
        None => tasks,
    }
}

/// The events of a run after `after` (all when it is `None`).
pub open spec fn events_after(
    events: Seq<RunEventEnvelope>,
    run_id: u128,
    after: Option<u64>,
) -> Seq<RunEventEnvelope> {
    owned::<BY_RUN, RunEventEnvelope>(events, run_id).filter(
        |e: RunEventEnvelope| match after {
            Some(a) => e.sequence > a,
            None => true,
        },
    )
}

/// How many words of a user message name the task opened for it.
pub const TASK_TITLE_WORDS: usize = 8;

/// How many words of a reply become its task's summary.
pub const REPLY_SUMMARY_WORDS: usize = 24;

/// Builds the task, its first plan and the plan's two steps for a user
/// message; the task is named after the message's first words.
pub fn build_default_task_bundle(message: &MessageRecord) -> (r: (
    TaskRecord,
    PlanRecord,
    Vec<PlanStepRecord>,
))
    ensures
        is_default_task(
            r.0,
            r.0.id,
            r.1.id,
            *message,
            summary_of(message.content@, TASK_TITLE_WORDS as nat),
            r.0.created_at,
        ),
        is_default_plan(r.1, r.1.id, r.0.id, r.0.created_at),
        is_default_plan_steps(steps_view(r.2@), r.1.id),
{
    let now = now_millis();
    let task_id = fresh_id();
    let plan_id = fresh_id();
    let title_summary = summarize_text(message.content.as_str(), TASK_TITLE_WORDS);
    let title = if title_summary.unicode_len() == 0 {
        String::from_str("Untitled task")
    } else {
        title_summary
    };
    let task = TaskRecord {
        id: task_id,
        session_id: message.session_id,
        title,
        goal: message.content.clone(),
        status: TaskStatus::Running,
        kind: String::from_str("chatTurn"),
        origin_message_id: message.id,
        current_plan_id: Some(plan_id),
        latest_run_id: message.run_id,
        summary: String::from_str("Task created from a user message."),
        created_at: now,
        updated_at: now,
        completed_at: None,
    };
    let plan = PlanRecord {
        id: plan_id,
        task_id,
        version: 1,
        status: PlanStatus::Active,
        source: String::from_str("defaultHarnessPlanner"),
        planning_model: None,
        created_at: now,
        superseded_at: None,
    };
    let mut steps: Vec<PlanStepRecord> = Vec::new();
    let mut outputs: Vec<String> = Vec::new();
    outputs.push(String::from_str("context bundle"));
    let mut criteria: Vec<String> = Vec::new();
    criteria.push(String::from_str("recent messages loaded"));
    steps.push(
        PlanStepRecord {
            id: fresh_id(),
            plan_id,
            ordinal: 1,
            title: String::from_str("Build context"),
            description: String::from_str("Assemble recent session state and relevant memory."),
            kind: PlanStepKind::ContextBuild,
            status: PlanStepStatus::Pending,
            depends_on: Vec::new(),
            skill_id: None,
            subagent_id: None,
            expected_outputs: outputs,
            acceptance_criteria: criteria,
        },
    );
    let mut outputs: Vec<String> = Vec::new();
    outputs.push(String::from_str("assistant response"));
    let mut criteria: Vec<String> = Vec::new();
    criteria.push(String::from_str("assistant response persisted"));
    steps.push(
        PlanStepRecord {
            id: fresh_id(),
            plan_id,
            ordinal: 2,
            title: String::from_str("Produce response"),
            description: String::from_str("Use the selected model and tools to answer the user."),
            kind: PlanStepKind::Respond,
            status: PlanStepStatus::Pending,
            depends_on: Vec::new(),
            skill_id: None,
            subagent_id: None,
            expected_outputs: outputs,
            acceptance_criteria: criteria,
        },
    );
    (task, plan, steps)
}

impl StoreState {
    /// Accepts a user message: records it, opens a running run for it, and a
    /// task with a two-step plan, named after the message's first words.
    pub fn enqueue_user_message(&mut self, session_id: u128, payload: PostMessageRequest) -> (r:
        CoreResult<RunAccepted>)
        requires
            old(self).wf(),
        ensures
            final(self).wf(),
            final(self).same_catalog(old(self)),
            final(self).artifacts@ == old(self).artifacts@,
            final(self).run_events@ == old(self).run_events@,
            final(self).run_steps@ == old(self).run_steps@,
            final(self).tool_invocations@ == old(self).tool_invocations@,
            match r {
                Ok(accepted) => {
                    let run = accepted.run;
                    let message = accepted.user_message;
                    let now = run.started_at;
                    &&& trim(payload.content@).len() != 0
                    &&& lookup(old(self).sessions@, session_id) matches Some(session)
                    &&& message.session_id == session_id
                    &&& message.role == MessageRole::User
                    &&& message.content@ == trim(payload.content@)
                    &&& message.created_at == now
                    &&& message.run_id == Some(run.id)
                    &&& run.session_id == session_id
                    &&& run.trigger_type@ == "userMessage"@
                    &&& run.status == RunStatus::Running
                    &&& run.selected_provider is None
                    &&& run.selected_model is None
                    &&& run.finished_at is None
                    &&& run.error is None
                    &&& run.last_event_sequence == 0
                    &&& run.stream_status == RunStreamStatus::Active
                    &&& run.active_stream_message_id is Some
                    &&& final(self).sessions@ == upsert(
                        old(self).sessions@,
                        SessionRecord { updated_at: now, last_run_at: Some(now), ..session },
                    )
                    &&& final(self).messages@ == old(self).messages@.push(message)
                    &&& final(self).runs@ == upsert(old(self).runs@, run)
                    &&& exists|task: TaskRecord, plan: PlanRecord, steps: Seq<PlanStepRecord>|
                        {
                            &&& is_default_task(
                                task,
                                run.task_id,
                                plan.id,
                                message,
                                summary_of(message.content@, TASK_TITLE_WORDS as nat),
                                now,
                            )
                            &&& is_default_plan(plan, plan.id, run.task_id, now)
                            &&& is_default_plan_steps(steps_view(steps), plan.id)
                            &&& final(self).tasks@ == upsert(old(self).tasks@, task)
                            &&& final(self).plans@ == upsert(old(self).plans@, plan)
                            &&& final(self).plan_steps@ == old(self).plan_steps@ + steps
                        }
                },
                Err(e) => {
                    &&& final(self).same_sessions(old(self))
                    &&& final(self).same_runs(old(self))
                    &&& final(self).same_tasks(old(self))
                    &&& if trim(payload.content@).len() == 0 {
                        e.status == STATUS_BAD_REQUEST && e.message@
                            == "message content cannot be empty"@
                    } else {
                        &&& !has_key(old(self).sessions@, session_id)
                        &&& e.status == STATUS_NOT_FOUND
                        &&& e.message@ == not_found_message("session"@)
                    }
                },
            },
    {
        if is_blank(payload.content.as_str()) {
            return Err(CoreError::bad_request("message content cannot be empty"));
        }
        let session_index = match find_index(&self.sessions, session_id) {
            Some(i) => i,
            None => {
                return Err(CoreError::not_found("session"));
            },
        };
        proof {
            lemma_lookup_at(self.sessions@, session_index as int);
        }
        let now = now_millis();
        let run_id = fresh_id();
        let user_message = MessageRecord {
            id: fresh_id(),
            session_id,
            role: MessageRole::User,
            content: trimmed(payload.content.as_str()),
            created_at: now,
            run_id: Some(run_id),
        };
        let (task, plan, steps) = build_default_task_bundle(&user_message);
        // the bundle is stamped with the same instant as the run
        let task = TaskRecord { created_at: now, updated_at: now, ..task };
        let plan = PlanRecord { created_at: now, ..plan };
        let run = RunRecord {
            id: run_id,
            session_id,
            task_id: task.id,
            trigger_type: String::from_str("userMessage"),
            status: RunStatus::Running,
            selected_provider: None,
            selected_model: None,
            started_at: now,
            finished_at: None,
            error: None,
            last_event_sequence: 0,
            stream_status: RunStreamStatus::Active,
            active_stream_message_id: Some(fresh_id()),
        };
        let session = self.sessions[session_index].clone();
        let session = SessionRecord { updated_at: now, last_run_at: Some(now), ..session };
        upsert_record(&mut self.sessions, session);
        let ghost steps_seq = steps@;
        upsert_record(&mut self.tasks, task.clone());
        upsert_record(&mut self.plans, plan.clone());
        let mut steps = steps;
        self.plan_steps.append(&mut steps);
        upsert_record(&mut self.runs, run.clone());
        self.messages.push(user_message.clone());
        Ok(RunAccepted { run, user_message })
    }

    /// The run with this id.
    pub fn get_run(&self, run_id: u128) -> (r: CoreResult<RunRecord>)
        requires
            self.wf(),
        ensures
            match r {
                Ok(run) => lookup(self.runs@, run_id) == Some(run),
                Err(e) => !has_key(self.runs@, run_id) && e.status == STATUS_NOT_FOUND
                    && e.message@ == not_found_message("run"@),
            },
    {
        match find_index(&self.runs, run_id) {
            Some(i) => {
                proof {
                    lemma_lookup_at(self.runs@, i as int);
                }
                Ok(self.runs[i].clone())
            },
            None => Err(CoreError::not_found("run")),
        }
    }

    /// Whether the run exists and is still running.
    pub fn run_is_active(&self, run_id: u128) -> (r: bool)
        requires
            self.wf(),
        ensures
            r == (lookup(self.runs@, run_id) matches Some(run) && run.status == RunStatus::Running),
    {
        match find_index(&self.runs, run_id) {
            Some(i) => {
                proof {
                    lemma_lookup_at(self.runs@, i as int);
                }
                self.runs[i].status == RunStatus::Running
            },
            None => false,
        }
    }

    /// The latest-started run of the session that is still running.
    pub fn get_active_run(&self, session_id: u128) -> (r: CoreResult<Option<RunRecord>>)
        ensures
            match r {
                Ok(active) => has_key(self.sessions@, session_id) && is_latest_of(
                    active,
                    running_runs_of(self.runs@, session_id),
                ),
                Err(e) => !has_key(self.sessions@, session_id) && e.status == STATUS_NOT_FOUND
                    && e.message@ == not_found_message("session"@),
            },
    {
        if find_index(&self.sessions, session_id).is_none() {
            return Err(CoreError::not_found("session"));
        }
        Ok(self.latest_running_run(session_id))
    }

    /// Among the session's running runs, one that started last.
    pub fn latest_running_run(&self, session_id: u128) -> (r: Option<RunRecord>)
        ensures
            is_latest_of(r, running_runs_of(self.runs@, session_id)),
    {
        let ghost keep = |r: RunRecord| r.session_id == session_id && r.status == RunStatus::Running;
        let mut best: Option<usize> = None;
        let mut i: usize = 0;
        while i < self.runs.len()
            invariant
                i <= self.runs.len(),
                keep == (|r: RunRecord| r.session_id == session_id && r.status == RunStatus::Running),
                match best {
                    None => self.runs@.take(i as int).filter(keep).len() == 0,
                    Some(b) => {
                        &&& b < i
                        &&& keep(self.runs@[b as int])
                        &&& forall|k: int|
                            0 <= k < self.runs@.take(i as int).filter(keep).len() ==> #[trigger] self.runs@.take(
                                i as int,
                            ).filter(keep)[k].started_at <= self.runs@[b as int].started_at
                    },
                },
            decreases self.runs.len() - i,
        {
            proof {
                assert(self.runs@.take(i + 1) =~= self.runs@.take(i as int).push(self.runs@[i as int]));
                self.runs@.take(i as int).lemma_filter_push(self.runs@[i as int], keep);
            }
            let run = &self.runs[i];
            if run.session_id == session_id && run.status == RunStatus::Running {
                match best {
                    None => {
                        best = Some(i);
                    },
                    Some(b) => {
                        if run.started_at >= self.runs[b].started_at {
                            best = Some(i);
                        }
                    },
                }
            }
            i = i + 1;
        }
        proof {
            assert(self.runs@.take(self.runs.len() as int) =~= self.runs@);
        }
        match best {
            None => None,
            Some(b) => {
                proof {
                    let f = self.runs@.filter(keep);
                    broadcast use vstd::seq_lib::group_filter_ensures;
                    assert(f.contains(self.runs@[b as int]));
                }
                Some(self.runs[b].clone())
            },
        }
    }

    /// Marks the run cancelled (and its task, if it has one).
    pub fn cancel_run(&mut self, run_id: u128) -> (r: CoreResult<RunRecord>)
        requires
            old(self).wf(),
        ensures
            final(self).wf(),
            final(self).same_sessions(old(self)),
            final(self).same_catalog(old(self)),
            final(self).artifacts@ == old(self).artifacts@,
            final(self).run_events@ == old(self).run_events@,
            final(self).run_steps@ == old(self).run_steps@,
            final(self).tool_invocations@ == old(self).tool_invocations@,
            final(self).plans@ == old(self).plans@,
            final(self).plan_steps@ == old(self).plan_steps@,
            match r {
                Ok(run) => {
                    &&& lookup(old(self).runs@, run_id) matches Some(prev)
                    &&& run == RunRecord {
                        status: RunStatus::Cancelled,
                        finished_at: run.finished_at,
                        stream_status: RunStreamStatus::Cancelled,
                        active_stream_message_id: None,
                        ..prev
                    }
                    &&& run.finished_at matches Some(now)
                    &&& final(self).runs@ == upsert(old(self).runs@, run)
                    &&& final(self).tasks@ == tasks_after_run(
                        old(self).tasks@,
                        prev.task_id,
                        TaskStatus::Cancelled,
                        run_id,
                        now,
                    )
                },
                Err(e) => {
                    &&& !has_key(old(self).runs@, run_id)
                    &&& e.status == STATUS_NOT_FOUND
                    &&& e.message@ == not_found_message("run"@)
                    &&& final(self).runs@ == old(self).runs@
                    &&& final(self).tasks@ == old(self).tasks@
                },
            },
    {
        self.end_run(run_id, RunStatus::Cancelled, RunStreamStatus::Cancelled, TaskStatus::Cancelled, None)
    }

    /// Marks the run failed with `message` (and its task, if it has one).
    pub fn fail_run(&mut self, run_id: u128, message: String) -> (r: CoreResult<RunRecord>)
        requires
            old(self).wf(),
        ensures
            final(self).wf(),
            final(self).same_sessions(old(self)),
            final(self).same_catalog(old(self)),
            final(self).artifacts@ == old(self).artifacts@,
            final(self).run_events@ == old(self).run_events@,
            final(self).run_steps@ == old(self).run_steps@,
            final(self).tool_invocations@ == old(self).tool_invocations@,
            final(self).plans@ == old(self).plans@,
            final(self).plan_steps@ == old(self).plan_steps@,
            match r {
                Ok(run) => {
                    &&& lookup(old(self).runs@, run_id) matches Some(prev)
                    &&& run == RunRecord {
                        status: RunStatus::Failed,
                        finished_at: run.finished_at,
                        error: Some(message),
                        stream_status: RunStreamStatus::Failed,
                        active_stream_message_id: None,
                        ..prev
                    }
                    &&& run.finished_at matches Some(now)
                    &&& final(self).runs@ == upsert(old(self).runs@, run)
                    &&& final(self).tasks@ == tasks_after_run(
                        old(self).tasks@,
                        prev.task_id,
                        TaskStatus::Failed,
                        run_id,
                        now,
                    )
                },
                Err(e) => {
                    &&& !has_key(old(self).runs@, run_id)
                    &&& e.status == STATUS_NOT_FOUND
                    &&& e.message@ == not_found_message("run"@)
                    &&& final(self).runs@ == old(self).runs@
                    &&& final(self).tasks@ == old(self).tasks@
                },
            },
    {
        self.end_run(run_id, RunStatus::Failed, RunStreamStatus::Failed, TaskStatus::Failed, Some(message))
    }

    /// Ends a run with the given statuses; `error` replaces the run's error
    /// when given.
    fn end_run(
        &mut self,
        run_id: u128,
        status: RunStatus,
        stream_status: RunStreamStatus,
        task_status: TaskStatus,
        error: Option<String>,
    ) -> (r: CoreResult<RunRecord>)
        requires
            old(self).wf(),
        ensures
            final(self).wf(),
            final(self).same_sessions(old(self)),
            final(self).same_catalog(old(self)),
            final(self).artifacts@ == old(self).artifacts@,
            final(self).run_events@ == old(self).run_events@,
            final(self).run_steps@ == old(self).run_steps@,
            final(self).tool_invocations@ == old(self).tool_invocations@,
            final(self).plans@ == old(self).plans@,
            final(self).plan_steps@ == old(self).plan_steps@,
            match r {
                Ok(run) => {
                    &&& lookup(old(self).runs@, run_id) matches Some(prev)
                    &&& run == RunRecord {
                        status,
                        finished_at: run.finished_at,
                        error: match error {
                            Some(m) => Some(m),
                            None => prev.error,
                        },
                        stream_status,
                        active_stream_message_id: None,
                        ..prev
                    }
                    &&& run.finished_at matches Some(now)
                    &&& final(self).runs@ == upsert(old(self).runs@, run)
                    &&& final(self).tasks@ == tasks_after_run(
                        old(self).tasks@,
                        prev.task_id,
                        task_status,
                        run_id,
                        now,
                    )
                },
                Err(e) => {
                    &&& !has_key(old(self).runs@, run_id)
                    &&& e.status == STATUS_NOT_FOUND
                    &&& e.message@ == not_found_message("run"@)
                    &&& final(self).runs@ == old(self).runs@
                    &&& final(self).tasks@ == old(self).tasks@
                },
            },
    {
        let i = match find_index(&self.runs, run_id) {
            Some(i) => i,
            None => {
                return Err(CoreError::not_found("run"));
            },
        };
        proof {
            lemma_lookup_at(self.runs@, i as int);
        }
        let now = now_millis();
        let prev = self.runs[i].clone();
        let new_error = match error {
            Some(m) => Some(m),
            None => prev.error.clone(),
        };
        let run = RunRecord {
            status,
            finished_at: Some(now),
            error: new_error,
            stream_status,
            active_stream_message_id: None,
            ..prev
        };
        upsert_record(&mut self.runs, run.clone());
        self.finish_task(run.task_id, task_status, run_id, now);
        Ok(run)
    }

    /// Closes the task `task_id`, if there is one, after its run `run_id` ended.
    fn finish_task(&mut self, task_id: u128, status: TaskStatus, run_id: u128, now: i64)
        requires
            old(self).wf(),
        ensures
            final(self).wf(),
            final(self).same_sessions(old(self)),
            final(self).same_runs(old(self)),
            final(self).same_catalog(old(self)),
            final(self).artifacts@ == old(self).artifacts@,
            final(self).plans@ == old(self).plans@,
            final(self).plan_steps@ == old(self).plan_steps@,
            final(self).tasks@ == tasks_after_run(old(self).tasks@, task_id, status, run_id, now),
    {
        if let Some(k) = find_index(&self.tasks, task_id) {
            proof {
                lemma_lookup_at(self.tasks@, k as int);
            }
            let task = self.tasks[k].clone();
            let task = TaskRecord {
                status,
                updated_at: now,
                completed_at: Some(now),
                latest_run_id: Some(run_id),
                ..task
            };
            upsert_record(&mut self.tasks, task);
        }
    }

    /// Records which provider and model a run uses.
    pub fn set_run_selection(&mut self, run_id: u128, provider_name: String, model_name: String) -> (r:
        CoreResult<()>)
        requires
            old(self).wf(),
        ensures
            final(self).wf(),
            final(self).same_sessions(old(self)),
            final(self).same_tasks(old(self)),
            final(self).same_catalog(old(self)),
            final(self).artifacts@ == old(self).artifacts@,
            final(self).run_events@ == old(self).run_events@,
            final(self).run_steps@ == old(self).run_steps@,
            final(self).tool_invocations@ == old(self).tool_invocations@,
            match r {
                Ok(()) => lookup(old(self).runs@, run_id) matches Some(prev) && final(self).runs@
                    == upsert(
                    old(self).runs@,
                    RunRecord {
                        selected_provider: Some(provider_name),
                        selected_model: Some(model_name),
                        ..prev
                    },
                ),
                Err(e) => !has_key(old(self).runs@, run_id) && e.status == STATUS_NOT_FOUND
                    && e.message@ == not_found_message("run"@) && final(self).runs@ == old(self).runs@,
            },
    {
        let i = match find_index(&self.runs, run_id) {
            Some(i) => i,
            None => {
                return Err(CoreError::not_found("run"));
            },
        };
        proof {
            lemma_lookup_at(self.runs@, i as int);
        }
        let prev = self.runs[i].clone();
        let run = RunRecord {
            selected_provider: Some(provider_name),
            selected_model: Some(model_name),
            ..prev
        };
        upsert_record(&mut self.runs, run);
        Ok(())
    }

    /// The events of a run, oldest first; with `after_sequence`, only those
    /// that came after it.
    pub fn list_run_events(&self, run_id: u128, after_sequence: Option<u64>) -> (r: CoreResult<
        Vec<RunEventEnvelope>,
    >)
        ensures
            match r {
                Ok(events) => {
                    &&& has_key(self.runs@, run_id)
                    &&& events@.to_multiset() == events_after(
                        self.run_events@,
                        run_id,
                        after_sequence,
                    ).to_multiset()
                    &&& sorted_by(events@, by_rank_desc::<RunEventEnvelope>())
                },
                Err(e) => !has_key(self.runs@, run_id) && e.status == STATUS_NOT_FOUND
                    && e.message@ == not_found_message("run"@),
            },
    {
        if find_index(&self.runs, run_id).is_none() {
            return Err(CoreError::not_found("run"));
        }
        let of_run = select_owned::<BY_RUN, RunEventEnvelope>(&self.run_events, run_id);
        let ghost keep = |e: RunEventEnvelope| match after_sequence {
            Some(a) => e.sequence > a,
            None => true,
        };
        let mut kept: Vec<RunEventEnvelope> = Vec::new();
        let mut i: usize = 0;
        let ghost src = of_run@;
        let n = of_run.len();
        let mut rest = of_run;
        proof {
            assert(src.skip(0) =~= src);
        }
        while rest.len() > 0
            invariant
                i <= src.len(),
                src.len() == n,
                rest@ == src.skip(i as int),
                kept@ == src.take(i as int).filter(keep),
                keep == (|e: RunEventEnvelope| match after_sequence {
                    Some(a) => e.sequence > a,
                    None => true,
                }),
            decreases rest.len(),
        {
            let e = rest.remove(0);
            proof {
                assert(e == src[i as int]);
                assert(src.take(i + 1) =~= src.take(i as int).push(e));
                src.take(i as int).lemma_filter_push(e, keep);
                assert(rest@ =~= src.skip(i + 1));
            }
            let wanted = match after_sequence {
                Some(a) => e.sequence > a,
                None => true,
            };
            if wanted {
                kept.push(e);
            }
            i = i + 1;
        }
        proof {
            assert(src.take(i as int) =~= src);
        }
        Ok(sort_by_rank_desc(kept))
    }
}

impl StoreState {
    /// Stores an event of a run and updates the run's stream state: the
    /// run's last sequence becomes the event's, and a completion or failure
    /// event closes the stream.
    pub fn append_run_event(&mut self, event: RunEventEnvelope) -> (r: CoreResult<()>)
        requires
            old(self).wf(),
        ensures
            final(self).wf(),
            final(self).same_sessions(old(self)),
            final(self).same_tasks(old(self)),
            final(self).same_catalog(old(self)),
            final(self).artifacts@ == old(self).artifacts@,
            final(self).run_steps@ == old(self).run_steps@,
            final(self).tool_invocations@ == old(self).tool_invocations@,
            match r {
                Ok(()) => {
                    &&& lookup(old(self).runs@, event.run_id) matches Some(prev)
                    &&& final(self).runs@ == upsert(
                        old(self).runs@,
                        RunRecord {
                            last_event_sequence: event.sequence,
                            stream_status: stream_status_after(event.event_type@, prev.status),
                            active_stream_message_id: if event.event_type@ == "run.completed"@
                                || event.event_type@ == "run.failed"@ {
                                None
                            } else {
                                prev.active_stream_message_id
                            },
                            ..prev
                        },
                    )
                    &&& final(self).run_events@ == old(self).run_events@.push(event)
                },
                Err(e) => {
                    &&& !has_key(old(self).runs@, event.run_id)
                    &&& e.status == STATUS_NOT_FOUND
                    &&& e.message@ == not_found_message("run"@)
                    &&& final(self).same_runs(old(self))
                },
            },
    {
        let i = match find_index(&self.runs, event.run_id) {
            Some(i) => i,
            None => {
                return Err(CoreError::not_found("run"));
            },
        };
        proof {
            lemma_lookup_at(self.runs@, i as int);
        }
        let prev = self.runs[i].clone();
        let completed = str_eq(event.event_type.as_str(), "run.completed");
        let failed = str_eq(event.event_type.as_str(), "run.failed");
        let stream_status = if completed {
            RunStreamStatus::Completed
        } else if failed {
            RunStreamStatus::Failed
        } else if prev.status == RunStatus::Cancelled {
            RunStreamStatus::Cancelled
        } else {
            RunStreamStatus::Active
        };
        let active_stream_message_id = if completed || failed {
            None
        } else {
            prev.active_stream_message_id
        };
        let run = RunRecord {
            last_event_sequence: event.sequence,
            stream_status,
            active_stream_message_id,
            ..prev
        };
        upsert_record(&mut self.runs, run);
        self.run_events.push(event);
        Ok(())
    }

    /// What storing the reply of a run does (see
    /// `append_assistant_message_and_complete_run`).
    pub open spec fn reply_post(
        old_state: StoreState,
        new_state: StoreState,
        session_id: u128,
        run_id: u128,
        response: String,
        r: CoreResult<MessageRecord>,
    ) -> bool {
        &&& new_state.same_catalog(&old_state)
        &&& new_state.artifacts@ == old_state.artifacts@
        &&& new_state.run_events@ == old_state.run_events@
        &&& new_state.run_steps@ == old_state.run_steps@
        &&& new_state.tool_invocations@ == old_state.tool_invocations@
        &&& new_state.plans@ == old_state.plans@
        &&& new_state.plan_steps@ == old_state.plan_steps@
        &&& match r {
            Ok(message) => {
                let now = message.created_at;
                &&& lookup(old_state.sessions@, session_id) matches Some(session)
                &&& lookup(old_state.runs@, run_id) matches Some(run)
                &&& run.status == RunStatus::Running
                &&& (run.active_stream_message_id matches Some(draft) ==> message.id == draft)
                &&& message.session_id == session_id
                &&& message.role == MessageRole::Assistant
                &&& message.content == response
                &&& message.run_id == Some(run_id)
                &&& new_state.messages@ == old_state.messages@.push(message)
                &&& new_state.runs@ == upsert(
                    old_state.runs@,
                    RunRecord {
                        status: RunStatus::Completed,
                        finished_at: Some(now),
                        error: None,
                        stream_status: RunStreamStatus::Completed,
                        active_stream_message_id: None,
                        ..run
                    },
                )
                &&& exists|s: SessionRecord|
                    {
                        &&& s == SessionRecord { updated_at: now, summary: s.summary, ..session }
                        &&& s.summary@ == "Last run completed through the agent-core runtime."@
                        &&& new_state.sessions@ == upsert(old_state.sessions@, s)
                    }
                &&& match lookup(old_state.tasks@, run.task_id) {
                    Some(t) => exists|done: TaskRecord|
                        {
                            &&& done == TaskRecord {
                                summary: done.summary,
                                ..task_after_run(t, TaskStatus::Completed, run_id, now)
                            }
                            &&& done.summary@ == summary_of(
                                response@,
                                REPLY_SUMMARY_WORDS as nat,
                            )
                            &&& new_state.tasks@ == upsert(old_state.tasks@, done)
                        },
                    None => new_state.tasks@ == old_state.tasks@,
                }
            },
            Err(e) => {
                &&& new_state.same_sessions(&old_state)
                &&& new_state.same_runs(&old_state)
                &&& new_state.same_tasks(&old_state)
                &&& if !has_key(old_state.sessions@, session_id) {
                    e.status == STATUS_NOT_FOUND && e.message@ == not_found_message("session"@)
                } else if !has_key(old_state.runs@, run_id) {
                    e.status == STATUS_NOT_FOUND && e.message@ == not_found_message("run"@)
                } else {
                    &&& lookup(old_state.runs@, run_id).unwrap().status != RunStatus::Running
                    &&& e.status == STATUS_CONFLICT
                    &&& e.message@ == "run is no longer active"@
                }
            },
        }
    }

    /// Stores the assistant's reply for a running run and completes the run,
    /// its session summary and its task. The reply takes the id of the run's
    /// streamed draft message when it has one; the task is summarized by the
    /// reply's first words.
    pub fn append_assistant_message_and_complete_run(
        &mut self,
        session_id: u128,
        run_id: u128,
        response: String,
    ) -> (r: CoreResult<MessageRecord>)
        requires
            old(self).wf(),
        ensures
            final(self).wf(),
            Self::reply_post(*old(self), *final(self), session_id, run_id, response, r),
    {
        let run_index = find_index(&self.runs, run_id);
        let draft_message_id = match run_index {
            Some(i) => match self.runs[i].active_stream_message_id {
                Some(d) => d,
                None => fresh_id(),
            },
            None => fresh_id(),
        };
        let now = now_millis();
        let session_index = match find_index(&self.sessions, session_id) {
            Some(k) => k,
            None => {
                return Err(CoreError::not_found("session"));
            },
        };
        let i = match run_index {
            Some(i) => i,
            None => {
                return Err(CoreError::not_found("run"));
            },
        };
        proof {
            lemma_lookup_at(self.runs@, i as int);
            lemma_lookup_at(self.sessions@, session_index as int);
        }
        if self.runs[i].status != RunStatus::Running {
            return Err(CoreError::conflict("run is no longer active"));
        }
        let message = MessageRecord {
            id: draft_message_id,
            session_id,
            role: MessageRole::Assistant,
            content: response,
            created_at: now,
            run_id: Some(run_id),
        };
        self.messages.push(message.clone());
        let run = self.runs[i].clone();
        let task_id = run.task_id;
        let done = RunRecord {
            status: RunStatus::Completed,
            finished_at: Some(now),
            error: None,
            stream_status: RunStreamStatus::Completed,
            active_stream_message_id: None,
            ..run
        };
        upsert_record(&mut self.runs, done);
        let session = self.sessions[session_index].clone();
        let session = SessionRecord {
            updated_at: now,
            summary: String::from_str("Last run completed through the agent-core runtime."),
            ..session
        };
        upsert_record(&mut self.sessions, session);
        if let Some(k) = find_index(&self.tasks, task_id) {
            proof {
                lemma_lookup_at(self.tasks@, k as int);
            }
            let task = self.tasks[k].clone();
            let response_summary = summarize_text(message.content.as_str(), REPLY_SUMMARY_WORDS);
            let task = TaskRecord {
                status: TaskStatus::Completed,
                updated_at: now,
                completed_at: Some(now),
                summary: response_summary,
                latest_run_id: Some(run_id),
                ..task
            };
            upsert_record(&mut self.tasks, task);
        }
        Ok(message)
    }
}

/// The tasks of a session, or all tasks when no session is given.
pub open spec fn tasks_for(tasks: Seq<TaskRecord>, session_id: Option<u128>) -> Seq<TaskRecord> {
    match session_id {
        Some(sid) => owned::<BY_SESSION, TaskRecord>(tasks, sid),
        None => tasks,
    }
}

impl StoreState {
    /// The tasks of a session (or all tasks), most recently updated first.
    pub fn list_tasks(&self, session_id: Option<u128>) -> (r: Vec<TaskRecord>)
        ensures
            r@.to_multiset() == tasks_for(self.tasks@, session_id).to_multiset(),
            sorted_by(r@, by_rank_desc::<TaskRecord>()),
            ties_in_order(r@, tasks_for(self.tasks@, session_id)),
    {
        let selected = match session_id {
            Some(sid) => select_owned::<BY_SESSION, TaskRecord>(&self.tasks, sid),
            None => crate::table::clone_all(&self.tasks),
        };
        sort_by_rank_desc(selected)
    }

    /// The task with this id.
    pub fn get_task(&self, task_id: u128) -> (r: CoreResult<TaskRecord>)
        requires
            self.wf(),
        ensures
            match r {
                Ok(t) => lookup(self.tasks@, task_id) == Some(t),
                Err(e) => !has_key(self.tasks@, task_id) && e.status == STATUS_NOT_FOUND
                    && e.message@ == not_found_message("task"@),
            },
    {
        match find_index(&self.tasks, task_id) {
            Some(i) => {
                proof {
                    lemma_lookup_at(self.tasks@, i as int);
                }
                Ok(self.tasks[i].clone())
            },
            None => Err(CoreError::not_found("task")),
        }
    }

    /// The current plan of a task with its steps, in plan order.
    pub fn get_task_plan(&self, task_id: u128) -> (r: CoreResult<PlanDetail>)
        requires
            self.wf(),
        ensures
            match r {
                Ok(detail) => {
                    &&& lookup(self.tasks@, task_id) matches Some(task)
                    &&& task.current_plan_id == Some(detail.plan.id)
                    &&& lookup(self.plans@, detail.plan.id) == Some(detail.plan)
                    &&& steps_view(detail.steps@) == steps_view(
                        owned::<BY_PLAN, PlanStepRecord>(self.plan_steps@, detail.plan.id),
                    )
                },
                Err(e) => {
                    &&& e.status == STATUS_NOT_FOUND
                    &&& match lookup(self.tasks@, task_id) {
                        None => e.message@ == not_found_message("task"@),
                        Some(task) => {
                            &&& e.message@ == not_found_message("task plan"@)
                            &&& match task.current_plan_id {
                                None => true,
                                Some(p) => !has_key(self.plans@, p),
                            }
                        },
                    }
                },
            },
    {
        let i = match find_index(&self.tasks, task_id) {
            Some(i) => i,
            None => {
                return Err(CoreError::not_found("task"));
            },
        };
        proof {
            lemma_lookup_at(self.tasks@, i as int);
        }
        let plan_id = match self.tasks[i].current_plan_id {
            Some(p) => p,
            None => {
                return Err(CoreError::not_found("task plan"));
            },
        };
        let k = match find_index(&self.plans, plan_id) {
            Some(k) => k,
            None => {
                return Err(CoreError::not_found("task plan"));
            },
        };
        proof {
            lemma_lookup_at(self.plans@, k as int);
        }
        let plan = self.plans[k].clone();
        let steps = self.plan_steps_of(plan_id);
        Ok(PlanDetail { plan, steps })
    }

    /// Copies of the steps of a plan, in plan order.
    pub fn plan_steps_of(&self, plan_id: u128) -> (r: Vec<PlanStepRecord>)
        ensures
            steps_view(r@) == steps_view(owned::<BY_PLAN, PlanStepRecord>(self.plan_steps@, plan_id)),
    {
        let ghost keep = crate::table::owner_is::<BY_PLAN, PlanStepRecord>(plan_id);
        let mut r: Vec<PlanStepRecord> = Vec::new();
        let mut i: usize = 0;
        while i < self.plan_steps.len()
            invariant
                i <= self.plan_steps.len(),
                keep == crate::table::owner_is::<BY_PLAN, PlanStepRecord>(plan_id),
                steps_view(r@) == steps_view(self.plan_steps@.take(i as int).filter(keep)),
            decreases self.plan_steps.len() - i,
        {
            proof {
                assert(self.plan_steps@.take(i + 1) =~= self.plan_steps@.take(i as int).push(
                    self.plan_steps@[i as int],
                ));
                self.plan_steps@.take(i as int).lemma_filter_push(self.plan_steps@[i as int], keep);
            }
            if self.plan_steps[i].plan_id == plan_id {
                let c = self.plan_steps[i].clone();
                let ghost before = r@;
                r.push(c);
                proof {
                    assert(steps_view(r@) =~= steps_view(before).push(c@));
                    assert(steps_view(self.plan_steps@.take(i as int).filter(keep).push(
                        self.plan_steps@[i as int],
                    )) =~= steps_view(self.plan_steps@.take(i as int).filter(keep)).push(
                        self.plan_steps@[i as int]@,
                    ));
                }
            }
            i = i + 1;
        }
        proof {
            assert(self.plan_steps@.take(self.plan_steps.len() as int) =~= self.plan_steps@);
        }
        r
    }

    /// The runs of a task, latest started first.
    pub fn list_task_runs(&self, task_id: u128) -> (r: CoreResult<Vec<RunRecord>>)
        ensures
            match r {
                Ok(runs) => {
                    &&& has_key(self.tasks@, task_id)
                    &&& runs@.to_multiset() == owned::<BY_TASK, RunRecord>(
                        self.runs@,
                        task_id,
                    ).to_multiset()
                    &&& sorted_by(runs@, by_rank_desc::<RunRecord>())
                    &&& ties_in_order(runs@, owned::<BY_TASK, RunRecord>(self.runs@, task_id))
                },
                Err(e) => !has_key(self.tasks@, task_id) && e.status == STATUS_NOT_FOUND
                    && e.message@ == not_found_message("task"@),
            },
    {
        if find_index(&self.tasks, task_id).is_none() {
            return Err(CoreError::not_found("task"));
        }
        let runs = select_owned::<BY_TASK, RunRecord>(&self.runs, task_id);
        Ok(sort_by_rank_desc(runs))
    }
}

/// Task statuses in which a task is still open.
pub open spec fn is_open_status(s: TaskStatus) -> bool {
    ||| s == TaskStatus::Queued
    ||| s == TaskStatus::Planning
    ||| s == TaskStatus::Running
    ||| s == TaskStatus::WaitingForApproval
    ||| s == TaskStatus::Suspended
}

/// The first open task of `tasks`, or else the first task.
pub open spec fn active_task_of(tasks: Seq<TaskRecord>) -> Option<TaskRecord> {
    if exists|i: int| 0 <= i < tasks.len() && is_open_status(#[trigger] tasks[i].status) {
        let i = choose|i: int|
            0 <= i < tasks.len() && is_open_status(#[trigger] tasks[i].status) && forall|j: int|
                0 <= j < i ==> !is_open_status(#[trigger] tasks[j].status);
        Some(tasks[i])
    } else if tasks.len() > 0 {
        Some(tasks[0])
    } else {
        None
    }
}

/// The reply text that a `message.delta` event carries.
pub open spec fn delta_of(e: RunEventEnvelope) -> Option<Seq<char>> {
    if e.event_type@ == "message.delta"@ {
        match json_member(e.payload_json@, "delta"@) {
            Some(m) => json_string(m),
            None => None,
        }
    } else {
        None
    }
}

/// The reply pieces streamed by `events`, in order.
pub open spec fn deltas_of(events: Seq<RunEventEnvelope>) -> Seq<Seq<char>>
    decreases events.len(),
{
    if events.len() == 0 {
        Seq::empty()
    } else {
        let rest = deltas_of(events.drop_last());
        match delta_of(events.last()) {
            Some(d) => rest.push(d),
            None => rest,
        }
    }
}

/// The checkpoint of a run whose stored events are `events`, oldest first.
pub open spec fn checkpoint_of(run: RunRecord, events: Seq<RunEventEnvelope>) -> Option<
    (u128, u64, Seq<char>, i64, Option<u128>),
> {
    if events.len() == 0 {
        None
    } else {
        Some(
            (
                run.id,
                events.last().sequence,
                trim(join_spaced(deltas_of(events))),
                events.last().timestamp,
                run.active_stream_message_id,
            ),
        )
    }
}

/// The first open task of `tasks`, or else the first task.
pub fn select_active_task(tasks: &Vec<TaskRecord>) -> (r: Option<TaskRecord>)
    ensures
        r == active_task_of(tasks@),
{
    let mut i: usize = 0;
    while i < tasks.len()
        invariant
            i <= tasks.len(),
            forall|j: int| 0 <= j < i ==> !is_open_status(#[trigger] tasks@[j].status),
        decreases tasks.len() - i,
    {
        let st = tasks[i].status;
        if st == TaskStatus::Queued || st == TaskStatus::Planning || st == TaskStatus::Running || st
            == TaskStatus::WaitingForApproval || st == TaskStatus::Suspended {
            proof {
                let k = choose|k: int|
                    0 <= k < tasks@.len() && is_open_status(#[trigger] tasks@[k].status) && forall|
                        j: int,
                    |
                        0 <= j < k ==> !is_open_status(#[trigger] tasks@[j].status);
                if k < i {
                } else if k > i {
                    assert(!is_open_status(tasks@[i as int].status));
                }
            }
            return Some(tasks[i].clone());
        }
        i = i + 1;
    }
    if tasks.len() > 0 {
        Some(tasks[0].clone())
    } else {
        None
    }
}

/// The stream checkpoint of a run from its events, oldest first: the last
/// event, and the reply text of its `message.delta` events joined by spaces
/// and trimmed.
pub fn build_stream_checkpoint_summary(run: &RunRecord, events: &Vec<RunEventEnvelope>) -> (r:
    Option<StreamCheckpointSummary>)
    ensures
        match checkpoint_of(*run, events@) {
            None => r is None,
            Some((run_id, seq, text, at, draft)) => r matches Some(c) && c.run_id == run_id
                && c.last_sequence == seq && c.draft_reply_text@ == text && c.updated_at == at
                && c.active_stream_message_id == draft,
        },
{
    if events.len() == 0 {
        return None;
    }
    let mut joined: Vec<char> = Vec::new();
    let mut any = false;
    let mut i: usize = 0;
    while i < events.len()
        invariant
            i <= events.len(),
            joined@ == join_spaced(deltas_of(events@.take(i as int))),
            any == (deltas_of(events@.take(i as int)).len() > 0),
        decreases events.len() - i,
    {
        let e = &events[i];
        proof {
            assert(events@.take(i + 1).drop_last() =~= events@.take(i as int));
            assert(events@.take(i + 1).last() == events@[i as int]);
        }
        if str_eq(e.event_type.as_str(), "message.delta") {
            if let Some(member) = json_get(e.payload_json.as_str(), "delta") {
                if let Some(text) = json_as_str(member.as_str()) {
                    let piece = chars_of(text.as_str());
                    let ghost before = joined@;
                    if any {
                        joined.push(' ');
                    }
                    let mut k: usize = 0;
                    let ghost mid = joined@;
                    while k < piece.len()
                        invariant
                            k <= piece.len(),
                            joined@ == mid + piece@.take(k as int),
                        decreases piece.len() - k,
                    {
                        joined.push(piece[k]);
                        proof {
                            assert(piece@.take(k + 1) =~= piece@.take(k as int).push(piece@[k as int]));
                        }
                        k = k + 1;
                    }
                    proof {
                        assert(piece@.take(piece.len() as int) =~= piece@);
                        let parts = deltas_of(events@.take(i as int));
                        assert(deltas_of(events@.take(i + 1)) == parts.push(text@));
                        if any {
                            assert(parts.push(text@).drop_last() =~= parts);
                            assert(mid =~= before.push(' '));
                            assert(joined@ =~= join_spaced(parts) + seq![' '] + text@);
                        } else {
                            assert(parts.len() == 0);
                            assert(joined@ =~= text@);
                        }
                    }
                    any = true;
                }
            }
        }
        i = i + 1;
    }
    proof {
        assert(events@.take(events.len() as int) =~= events@);
    }
    let joined_text = string_from_chars(joined.as_slice());
    let draft = trimmed(joined_text.as_str());
    let last = &events[events.len() - 1];
    Some(
        StreamCheckpointSummary {
            run_id: run.id,
            last_sequence: last.sequence,
            draft_reply_text: draft,
            updated_at: last.timestamp,
            active_stream_message_id: run.active_stream_message_id,
        },
    )
}

impl StoreState {
    /// The session with its messages, its latest and latest running run, its
    /// active task, and the stream checkpoint of its latest run.
    pub fn get_session(&self, session_id: u128) -> (r: CoreResult<SessionDetail>)
        requires
            self.wf(),
        ensures
            match r {
                Ok(d) => {
                    &&& lookup(self.sessions@, session_id) == Some(d.session)
                    &&& d.messages@ == messages_of(self.messages@, session_id)
                    &&& is_latest_of(d.active_run_summary, running_runs_of(self.runs@, session_id))
                    &&& is_latest_of(
                        d.latest_run_summary,
                        owned::<BY_SESSION, RunRecord>(self.runs@, session_id),
                    )
                    &&& exists|ts: Seq<TaskRecord>|
                        {
                            &&& ts.to_multiset() == owned::<BY_SESSION, TaskRecord>(
                                self.tasks@,
                                session_id,
                            ).to_multiset()
                            &&& sorted_by(ts, by_rank_desc::<TaskRecord>())
                            &&& d.active_task_summary == active_task_of(ts)
                        }
                    &&& match d.latest_run_summary {
                        None => d.latest_stream_checkpoint_summary is None,
                        Some(run) => exists|evs: Seq<RunEventEnvelope>|
                            {
                                &&& evs.to_multiset() == events_after(
                                    self.run_events@,
                                    run.id,
                                    None,
                                ).to_multiset()
                                &&& sorted_by(evs, by_rank_desc::<RunEventEnvelope>())
                                &&& match checkpoint_of(run, evs) {
                                    None => d.latest_stream_checkpoint_summary is None,
                                    Some((run_id, seq, text, at, draft)) => d.latest_stream_checkpoint_summary matches Some(
                                        c,
                                    ) && c.run_id == run_id && c.last_sequence == seq
                                        && c.draft_reply_text@ == text && c.updated_at == at
                                        && c.active_stream_message_id == draft,
                                }
                            },
                    }
                },
                Err(e) => !has_key(self.sessions@, session_id) && e.status == STATUS_NOT_FOUND
                    && e.message@ == not_found_message("session"@),
            },
    {
        let i = match find_index(&self.sessions, session_id) {
            Some(i) => i,
            None => {
                return Err(CoreError::not_found("session"));
            },
        };
        proof {
            lemma_lookup_at(self.sessions@, i as int);
        }
        let session = self.sessions[i].clone();
        let messages = select_owned::<BY_SESSION, MessageRecord>(&self.messages, session_id);
        let tasks = self.list_tasks(Some(session_id));
        let latest_run_summary = self.latest_run_of_session(session_id);
        let active_run_summary = self.latest_running_run(session_id);
        let latest_stream_checkpoint_summary = match &latest_run_summary {
            None => None,
            Some(run) => {
                match self.list_run_events(run.id, None) {
                    Ok(events) => build_stream_checkpoint_summary(run, &events),
                    Err(_) => {
                        proof {
                            broadcast use vstd::seq_lib::group_filter_ensures;
                            let f = owned::<BY_SESSION, RunRecord>(self.runs@, session_id);
                            assert(f.contains(*run));
                            self.runs@.lemma_filter_contains_rev(
                                crate::table::owner_is::<BY_SESSION, RunRecord>(session_id),
                                *run,
                            );
                            let k = choose|k: int| 0 <= k < self.runs@.len() && self.runs@[k] == *run;
                            assert(self.runs@[k].key_of() == run.id);
                            assert(has_key(self.runs@, run.id));
                        }
                        None
                    },
                }
            },
        };
        Ok(
            SessionDetail {
                session,
                messages,
                active_run_summary,
                latest_run_summary,
                active_task_summary: select_active_task(&tasks),
                latest_stream_checkpoint_summary,
            },
        )
    }

    /// Among the session's runs, one that started last.
    pub fn latest_run_of_session(&self, session_id: u128) -> (r: Option<RunRecord>)
        ensures
            is_latest_of(r, owned::<BY_SESSION, RunRecord>(self.runs@, session_id)),
    {
        let runs = select_owned::<BY_SESSION, RunRecord>(&self.runs, session_id);
        let mut best: Option<usize> = None;
        let mut i: usize = 0;
        while i < runs.len()
            invariant
                i <= runs.len(),
                match best {
                    None => i == 0,
                    Some(b) => b < i && forall|k: int|
                        0 <= k < i ==> #[trigger] runs@[k].started_at <= runs@[b as int].started_at,
                },
            decreases runs.len() - i,
        {
            match best {
                None => {
                    best = Some(i);
                },
                Some(b) => {
                    if runs[i].started_at >= runs[b].started_at {
                        best = Some(i);
                    }
                },
            }
            i = i + 1;
        }
        match best {
            None => None,
            Some(b) => Some(runs[b].clone()),
        }
    }
}

} // verus!
