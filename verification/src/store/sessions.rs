//! Sessions and their messages.
use vstd::prelude::*;
use vstd::relations::sorted_by;

use crate::domain::{
    ArtifactRecord, CreateSessionRequest, MessageRecord, PlanRecord, PlanStepRecord, RunEventEnvelope,
    RunRecord, RunStepRecord, SessionRecord, SessionStatus, TaskRecord, ToolInvocationRecord,
    UpdateSessionRequest,
};
use crate::error::{not_found_message, CoreError, CoreResult, STATUS_NOT_FOUND};
use crate::ids::{fresh_id, now_millis, NIL_ID};
use crate::ordering::{by_rank_desc, sort_by_rank_desc, ties_in_order};
use crate::store::{messages_of, StoreState};
use crate::table::{
    clone_all, drop_keys, drop_owned, drop_owned_by_any, find_index, has_key, lemma_filter_unique,
    lemma_lookup_at, lookup, not_owned, not_owned_by_any, remove_key, remove_record, select_owned,
    take_all, upsert, upsert_record, without_keys, key_not_in, owner_is_not, Keyed, OwnedBy, BY_PLAN, BY_RUN, BY_SESSION,
};
use crate::text::{clock_label, clock_label_of};

verus! {

/// The default title of a session created at `now` without one.
pub open spec fn default_session_title(now: i64) -> Seq<char> {
    "Session "@ + clock_label_of(now as int)
}

/// The ids of the plans of the session's tasks.
pub open spec fn session_plan_ids(tasks: Seq<TaskRecord>, session_id: u128) -> Set<u128> {
    Set::new(
        |p: u128|
            exists|i: int|
                0 <= i < tasks.len() && #[trigger] tasks[i].session_id == session_id
                    && tasks[i].current_plan_id == Some(p),
    )
}

/// The ids of the session's runs.
pub open spec fn session_run_ids(runs: Seq<RunRecord>, session_id: u128) -> Set<u128> {
    Set::new(
        |r: u128| exists|i: int| 0 <= i < runs.len() && #[trigger] runs[i].id == r && runs[i].session_id == session_id,
    )
}

impl StoreState {
    /// All sessions, most recently updated first.
    pub fn list_sessions(&self) -> (r: Vec<SessionRecord>)
        ensures
            r@.to_multiset() == self.sessions@.to_multiset(),
            sorted_by(r@, by_rank_desc::<SessionRecord>()),
            ties_in_order(r@, self.sessions@),
    {
        let all = clone_all(&self.sessions);
        sort_by_rank_desc(all)
    }

    /// Creates an active session; without a title it is named after the time
    /// of day it was created at.
    pub fn create_session(&mut self, payload: CreateSessionRequest) -> (session: SessionRecord)
        requires
            old(self).wf(),
        ensures
            final(self).wf(),
            session.id != NIL_ID,
            session.title@ == (match payload.title {
                Some(t) => t@,
                None => default_session_title(session.created_at),
            }),
            session.status == SessionStatus::Active,
            session.root_agent_id@ == "default-root-agent"@,
            session.updated_at == session.created_at,
            session.last_run_at is None,
            session.summary@ == "New session"@,
            final(self).sessions@ == upsert(old(self).sessions@, session),
            final(self).messages@ == old(self).messages@,
            final(self).same_runs(old(self)),
            final(self).same_tasks(old(self)),
            final(self).same_catalog(old(self)),
            final(self).artifacts@ == old(self).artifacts@,
    {
        let id = fresh_id();
        let now = now_millis();
        let title = match payload.title {
            Some(t) => t,
            None => {
                let mut t = String::from_str("Session ");
                let label = clock_label(now);
                t.append(label.as_str());
                t
            },
        };
        let session = SessionRecord {
            id,
            title,
            status: SessionStatus::Active,
            root_agent_id: String::from_str("default-root-agent"),
            created_at: now,
            updated_at: now,
            last_run_at: None,
            summary: String::from_str("New session"),
        };
        upsert_record(&mut self.sessions, session.clone());
        session
    }

    /// Changes a session's title and status where the request gives them, and
    /// stamps it as updated.
    pub fn update_session(&mut self, session_id: u128, payload: UpdateSessionRequest) -> (r:
        CoreResult<SessionRecord>)
        requires
            old(self).wf(),
        ensures
            final(self).wf(),
            final(self).messages@ == old(self).messages@,
            final(self).same_runs(old(self)),
            final(self).same_tasks(old(self)),
            final(self).same_catalog(old(self)),
            final(self).artifacts@ == old(self).artifacts@,
            match r {
                Ok(s) => {
                    &&& lookup(old(self).sessions@, session_id) matches Some(prev)
                    &&& s == (SessionRecord {
                        title: match payload.title {
                            Some(t) => t,
                            None => prev.title,
                        },
                        status: match payload.status {
                            Some(st) => st,
                            None => prev.status,
                        },
                        updated_at: s.updated_at,
                        ..prev
                    })
                    &&& final(self).sessions@ == upsert(old(self).sessions@, s)
                },
                Err(e) => {
                    &&& !has_key(old(self).sessions@, session_id)
                    &&& e.status == STATUS_NOT_FOUND
                    &&& e.message@ == not_found_message("session"@)
                    &&& final(self).sessions@ == old(self).sessions@
                },
            },
    {
        match find_index(&self.sessions, session_id) {
            None => Err(CoreError::not_found("session")),
            Some(i) => {
                proof {
                    lemma_lookup_at(self.sessions@, i as int);
                }
                let mut session = self.sessions[i].clone();
                if let Some(title) = payload.title {
                    session.title = title;
                }
                if let Some(status) = payload.status {
                    session.status = status;
                }
                session.updated_at = now_millis();
                upsert_record(&mut self.sessions, session.clone());
                Ok(session)
            },
        }
    }

    /// The messages of a session, oldest first.
    pub fn list_messages(&self, session_id: u128) -> (r: CoreResult<Vec<MessageRecord>>)
        ensures
            match r {
                Ok(m) => has_key(self.sessions@, session_id) && m@ == messages_of(
                    self.messages@,
                    session_id,
                ),
                Err(e) => !has_key(self.sessions@, session_id) && e.status == STATUS_NOT_FOUND
                    && e.message@ == not_found_message("session"@),
            },
    {
        if find_index(&self.sessions, session_id).is_none() {
            return Err(CoreError::not_found("session"));
        }
        let m = select_owned::<BY_SESSION, MessageRecord>(&self.messages, session_id);
        Ok(m)
    }

    /// Deletes a session together with its messages, tasks and their plans,
    /// runs and everything recorded for them, and its artifacts.
    pub fn delete_session(&mut self, session_id: u128) -> (r: CoreResult<()>)
        requires
            old(self).wf(),
        ensures
            final(self).wf(),
            final(self).same_catalog(old(self)),
            match r {
                Ok(()) => {
                    let plan_ids = session_plan_ids(old(self).tasks@, session_id);
                    let run_ids = session_run_ids(old(self).runs@, session_id);
                    &&& has_key(old(self).sessions@, session_id)
                    &&& final(self).sessions@ == remove_key(old(self).sessions@, session_id)
                    &&& final(self).messages@ == not_owned::<BY_SESSION, MessageRecord>(
                        old(self).messages@,
                        session_id,
                    )
                    &&& final(self).tasks@ == not_owned::<BY_SESSION, TaskRecord>(
                        old(self).tasks@,
                        session_id,
                    )
                    &&& final(self).plans@ == without_keys(old(self).plans@, plan_ids)
                    &&& final(self).plan_steps@ == not_owned_by_any::<BY_PLAN, PlanStepRecord>(
                        old(self).plan_steps@,
                        plan_ids,
                    )
                    &&& final(self).runs@ == not_owned::<BY_SESSION, RunRecord>(
                        old(self).runs@,
                        session_id,
                    )
                    &&& final(self).run_events@ == not_owned_by_any::<BY_RUN, RunEventEnvelope>(
                        old(self).run_events@,
                        run_ids,
                    )
                    &&& final(self).run_steps@ == not_owned_by_any::<BY_RUN, RunStepRecord>(
                        old(self).run_steps@,
                        run_ids,
                    )
                    &&& final(self).tool_invocations@ == not_owned_by_any::<
                        BY_RUN,
                        ToolInvocationRecord,
                    >(old(self).tool_invocations@, run_ids)
                    &&& final(self).artifacts@ == not_owned::<BY_SESSION, ArtifactRecord>(
                        old(self).artifacts@,
                        session_id,
                    )
                },
                Err(e) => {
                    &&& !has_key(old(self).sessions@, session_id)
                    &&& e.status == STATUS_NOT_FOUND
                    &&& e.message@ == not_found_message("session"@)
                    &&& final(self).same_sessions(old(self))
                    &&& final(self).same_runs(old(self))
                    &&& final(self).same_tasks(old(self))
                    &&& final(self).artifacts@ == old(self).artifacts@
                },
            },
    {
        if !remove_record(&mut self.sessions, session_id) {
            return Err(CoreError::not_found("session"));
        }
        let ghost old_tasks = self.tasks@;
        let ghost old_runs = self.runs@;
        let ghost plan_ids = session_plan_ids(old_tasks, session_id);
        let ghost run_ids = session_run_ids(old_runs, session_id);
        // the plans of the session's tasks
        let mut plan_list: Vec<u128> = Vec::new();
        let mut i: usize = 0;
        while i < self.tasks.len()
            invariant
                i <= self.tasks.len(),
                self.tasks@ == old_tasks,
                forall|p: u128| plan_list@.contains(p) <==> exists|j: int|
                    0 <= j < i && #[trigger] old_tasks[j].session_id == session_id
                        && old_tasks[j].current_plan_id == Some(p),
            decreases self.tasks.len() - i,
        {
            let ghost before = plan_list@;
            if self.tasks[i].session_id == session_id {
                if let Some(p) = self.tasks[i].current_plan_id {
                    plan_list.push(p);
                }
            }
            proof {
                assert forall|p: u128| plan_list@.contains(p) <==> exists|j: int|
                    0 <= j < i + 1 && #[trigger] old_tasks[j].session_id == session_id
                        && old_tasks[j].current_plan_id == Some(p) by {
                    if plan_list@.contains(p) {
                        let k = choose|k: int| 0 <= k < plan_list@.len() && plan_list@[k] == p;
                        if k < before.len() {
                            assert(before.contains(p));
                        } else {
                            assert(old_tasks[i as int].session_id == session_id
                                && old_tasks[i as int].current_plan_id == Some(p));
                        }
                    }
                    if exists|j: int|
                        0 <= j < i + 1 && #[trigger] old_tasks[j].session_id == session_id
                            && old_tasks[j].current_plan_id == Some(p) {
                        let j = choose|j: int|
                            0 <= j < i + 1 && #[trigger] old_tasks[j].session_id == session_id
                                && old_tasks[j].current_plan_id == Some(p);
                        if j == i {
                            assert(plan_list@[plan_list@.len() - 1] == p);
                        } else {
                            assert(before.contains(p));
                            let k = choose|k: int| 0 <= k < before.len() && before[k] == p;
                            assert(plan_list@[k] == p);
                        }
                    }
                }
            }
            i = i + 1;
        }
        // the session's runs
        let mut run_list: Vec<u128> = Vec::new();
        let mut i: usize = 0;
        while i < self.runs.len()
            invariant
                i <= self.runs.len(),
                self.runs@ == old_runs,
                forall|r: u128| run_list@.contains(r) <==> exists|j: int|
                    0 <= j < i && #[trigger] old_runs[j].id == r && old_runs[j].session_id
                        == session_id,
            decreases self.runs.len() - i,
        {
            let ghost before = run_list@;
            if self.runs[i].session_id == session_id {
                run_list.push(self.runs[i].id);
            }
            proof {
                assert forall|r: u128| run_list@.contains(r) <==> exists|j: int|
                    0 <= j < i + 1 && #[trigger] old_runs[j].id == r && old_runs[j].session_id
                        == session_id by {
                    if run_list@.contains(r) {
                        let k = choose|k: int| 0 <= k < run_list@.len() && run_list@[k] == r;
                        if k < before.len() {
                            assert(before.contains(r));
                        } else {
                            assert(old_runs[i as int].id == r && old_runs[i as int].session_id
                                == session_id);
                        }
                    }
                    if exists|j: int|
                        0 <= j < i + 1 && #[trigger] old_runs[j].id == r && old_runs[j].session_id
                            == session_id {
                        let j = choose|j: int|
                            0 <= j < i + 1 && #[trigger] old_runs[j].id == r
                                && old_runs[j].session_id == session_id;
                        if j == i {
                            assert(run_list@[run_list@.len() - 1] == r);
                        } else {
                            assert(before.contains(r));
                            let k = choose|k: int| 0 <= k < before.len() && before[k] == r;
                            assert(run_list@[k] == r);
                        }
                    }
                }
            }
            i = i + 1;
        }
        proof {
            assert(plan_list@.to_set() =~= plan_ids);
            assert(run_list@.to_set() =~= run_ids);
        }
        let messages = take_all(&mut self.messages);
        self.messages = drop_owned::<BY_SESSION, MessageRecord>(messages, session_id);
        let tasks = take_all(&mut self.tasks);
        self.tasks = drop_owned::<BY_SESSION, TaskRecord>(tasks, session_id);
        let plans = take_all(&mut self.plans);
        self.plans = drop_keys(plans, &plan_list);
        let plan_steps = take_all(&mut self.plan_steps);
        self.plan_steps = drop_owned_by_any::<BY_PLAN, PlanStepRecord>(plan_steps, &plan_list);
        let runs = take_all(&mut self.runs);
        self.runs = drop_owned::<BY_SESSION, RunRecord>(runs, session_id);
        let events = take_all(&mut self.run_events);
        self.run_events = drop_owned_by_any::<BY_RUN, RunEventEnvelope>(events, &run_list);
        let run_steps = take_all(&mut self.run_steps);
        self.run_steps = drop_owned_by_any::<BY_RUN, RunStepRecord>(run_steps, &run_list);
        let invocations = take_all(&mut self.tool_invocations);
        self.tool_invocations = drop_owned_by_any::<BY_RUN, ToolInvocationRecord>(
            invocations,
            &run_list,
        );
        let artifacts = take_all(&mut self.artifacts);
        self.artifacts = drop_owned::<BY_SESSION, ArtifactRecord>(artifacts, session_id);
        proof {
            lemma_filter_unique(old(self).tasks@, owner_is_not::<BY_SESSION, TaskRecord>(session_id));
            lemma_filter_unique(old(self).plans@, key_not_in::<PlanRecord>(plan_ids));
            lemma_filter_unique(old(self).runs@, owner_is_not::<BY_SESSION, RunRecord>(session_id));
            lemma_filter_unique(
                old(self).artifacts@,
                owner_is_not::<BY_SESSION, ArtifactRecord>(session_id),
            );
        }
        Ok(())
    }
}

} // verus!
