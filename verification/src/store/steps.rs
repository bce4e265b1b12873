//! The steps a run takes, the tools it invokes, and the artifacts it leaves.
use vstd::prelude::*;
use vstd::relations::sorted_by;

use crate::domain::{
    ArtifactRecord, PlanStepKind, PlanStepRecord, PlanStepStatus, RunStepRecord, RunStepStatus,
    ToolInvocationRecord,
};
use crate::error::{not_found_message, CoreError, CoreResult, STATUS_NOT_FOUND};
use crate::ids::{fresh_id, now_millis};
use crate::ordering::{by_rank_desc, sort_by_rank_desc, ties_in_order};
use crate::store::StoreState;
use crate::table::{
    find_index, first_key_index, has_key, lemma_lookup_at, lookup, owned, select_owned, upsert,
    upsert_record, BY_RUN, BY_SESSION, BY_TASK,
};

verus! {

/// The plan steps after the first step with id `plan_step_id` took `status`
/// (unchanged when there is none).
pub open spec fn plan_steps_with_status(
    steps: Seq<PlanStepRecord>,
    plan_step_id: u128,
    status: PlanStepStatus,
) -> Seq<PlanStepRecord> {
    if has_key(steps, plan_step_id) {
        let i = first_key_index(steps, plan_step_id);
        steps.update(i, PlanStepRecord { status, ..steps[i] })
    } else {
        steps
    }
}

/// A run step after it finished with `status`, at `now`.
pub open spec fn finished_step(
    step: RunStepRecord,
    status: RunStepStatus,
    now: i64,
    output_summary: Option<String>,
    error: Option<String>,
) -> RunStepRecord {
    RunStepRecord {
        status,
        finished_at: Some(now),
        output_summary: match output_summary {
            Some(o) => Some(o),
            None => step.output_summary,
        },
        error,
        ..step
    }
}

proof fn lemma_remove_insert<T>(s: Seq<T>, i: int, x: T)
    requires
        0 <= i < s.len(),
    ensures
        s.remove(i).insert(i, x) == s.update(i, x),
{
    assert(s.remove(i).insert(i, x) =~= s.update(i, x));
}

impl StoreState {
    /// The steps of a run, in the order they were started.
    pub fn list_run_steps(&self, run_id: u128) -> (r: CoreResult<Vec<RunStepRecord>>)
        ensures
            match r {
                Ok(steps) => has_key(self.runs@, run_id) && steps@ == owned::<BY_RUN, RunStepRecord>(
                    self.run_steps@,
                    run_id,
                ),
                Err(e) => !has_key(self.runs@, run_id) && e.status == STATUS_NOT_FOUND
                    && e.message@ == not_found_message("run"@),
            },
    {
        if find_index(&self.runs, run_id).is_none() {
            return Err(CoreError::not_found("run"));
        }
        Ok(select_owned::<BY_RUN, RunStepRecord>(&self.run_steps, run_id))
    }

    /// Sets the status of the first plan step with this id.
    pub fn set_plan_step_status(&mut self, plan_step_id: u128, status: PlanStepStatus) -> (r:
        CoreResult<()>)
        requires
            old(self).wf(),
        ensures
            final(self).wf(),
            final(self).same_sessions(old(self)),
            final(self).same_runs(old(self)),
            final(self).same_catalog(old(self)),
            final(self).tasks@ == old(self).tasks@,
            final(self).plans@ == old(self).plans@,
            final(self).artifacts@ == old(self).artifacts@,
            final(self).plan_steps@ == plan_steps_with_status(
                old(self).plan_steps@,
                plan_step_id,
                status,
            ),
            match r {
                Ok(()) => has_key(old(self).plan_steps@, plan_step_id),
                Err(e) => !has_key(old(self).plan_steps@, plan_step_id) && e.status
                    == STATUS_NOT_FOUND && e.message@ == not_found_message("plan step"@),
            },
    {
        match find_index(&self.plan_steps, plan_step_id) {
            Some(i) => {
                let ghost before = self.plan_steps@;
                let mut step = self.plan_steps.remove(i);
                step.status = status;
                let ghost updated = step;
                self.plan_steps.insert(i, step);
                proof {
                    lemma_remove_insert(before, i as int, updated);
                }
                Ok(())
            },
            None => Err(CoreError::not_found("plan step")),
        }
    }

    /// What starting a run step does: with no such run nothing changes and
    /// the call fails; otherwise a running step numbered after the run's
    /// earlier steps is appended, and its plan step, if it names one, becomes
    /// running (the call fails when there is no such plan step).
    pub open spec fn start_step_post(
        old_state: StoreState,
        new_state: StoreState,
        run_id: u128,
        plan_step_id: Option<u128>,
        kind: PlanStepKind,
        title: String,
        input_summary: String,
        r: CoreResult<RunStepRecord>,
    ) -> bool {
        match lookup(old_state.runs@, run_id) {
            None => {
                &&& r matches Err(e)
                &&& e.status == STATUS_NOT_FOUND
                &&& e.message@ == not_found_message("run"@)
                &&& new_state.run_steps@ == old_state.run_steps@
                &&& new_state.plan_steps@ == old_state.plan_steps@
            },
            Some(run) => exists|step: RunStepRecord|
                {
                    &&& step.run_id == run_id
                    &&& step.task_id == run.task_id
                    &&& step.plan_step_id == plan_step_id
                    &&& step.sequence == owned::<BY_RUN, RunStepRecord>(
                        old_state.run_steps@,
                        run_id,
                    ).len() + 1
                    &&& step.kind == kind
                    &&& step.title == title
                    &&& step.status == RunStepStatus::Running
                    &&& step.input_summary == input_summary
                    &&& step.output_summary is None
                    &&& step.finished_at is None
                    &&& step.error is None
                    &&& new_state.run_steps@ == old_state.run_steps@.push(step)
                    &&& match plan_step_id {
                        None => r == Ok::<RunStepRecord, CoreError>(step)
                            && new_state.plan_steps@ == old_state.plan_steps@,
                        Some(p) => {
                            &&& new_state.plan_steps@ == plan_steps_with_status(
                                old_state.plan_steps@,
                                p,
                                PlanStepStatus::Running,
                            )
                            &&& if has_key(old_state.plan_steps@, p) {
                                r == Ok::<RunStepRecord, CoreError>(step)
                            } else {
                                r matches Err(e) && e.status == STATUS_NOT_FOUND && e.message@
                                    == not_found_message("plan step"@)
                            }
                        },
                    }
                },
        }
    }

    /// Starts a step of a run: it is numbered after the run's earlier steps,
    /// belongs to the run's task, and is running. When it carries out a plan
    /// step, that plan step becomes running too (if there is no such plan
    /// step, the run step stays recorded and the call fails).
    pub fn start_run_step(
        &mut self,
        run_id: u128,
        plan_step_id: Option<u128>,
        kind: PlanStepKind,
        title: String,
        input_summary: String,
    ) -> (r: CoreResult<RunStepRecord>)
        requires
            old(self).wf(),
            owned::<BY_RUN, RunStepRecord>(old(self).run_steps@, run_id).len() < u32::MAX,
        ensures
            final(self).wf(),
            final(self).same_sessions(old(self)),
            final(self).same_catalog(old(self)),
            final(self).runs@ == old(self).runs@,
            final(self).run_events@ == old(self).run_events@,
            final(self).tool_invocations@ == old(self).tool_invocations@,
            final(self).tasks@ == old(self).tasks@,
            final(self).plans@ == old(self).plans@,
            final(self).artifacts@ == old(self).artifacts@,
            Self::start_step_post(
                *old(self),
                *final(self),
                run_id,
                plan_step_id,
                kind,
                title,
                input_summary,
                r,
            ),
    {
        let i = match find_index(&self.runs, run_id) {
            Some(i) => i,
            None => {
                return Err(CoreError::not_found("run"));
            },
        };
        proof {
            lemma_lookup_at(self.runs@, i as int);
        }
        let task_id = self.runs[i].task_id;
        let earlier = self.count_run_steps(run_id);
        let step = RunStepRecord {
            id: fresh_id(),
            run_id,
            task_id,
            plan_step_id,
            sequence: earlier as u32 + 1,
            kind,
            title,
            status: RunStepStatus::Running,
            input_summary,
            output_summary: None,
            started_at: now_millis(),
            finished_at: None,
            error: None,
        };
        self.run_steps.push(step.clone());
        if let Some(p) = plan_step_id {
            match self.set_plan_step_status(p, PlanStepStatus::Running) {
                Ok(()) => {},
                Err(e) => {
                    return Err(e);
                },
            }
        }
        Ok(step)
    }

    /// The number of steps the run has started.
    pub fn count_run_steps(&self, run_id: u128) -> (n: usize)
        ensures
            n == owned::<BY_RUN, RunStepRecord>(self.run_steps@, run_id).len(),
    {
        let ghost keep = crate::table::owner_is::<BY_RUN, RunStepRecord>(run_id);
        let mut n: usize = 0;
        let mut i: usize = 0;
        while i < self.run_steps.len()
            invariant
                i <= self.run_steps.len(),
                keep == crate::table::owner_is::<BY_RUN, RunStepRecord>(run_id),
                n == self.run_steps@.take(i as int).filter(keep).len(),
                n <= i,
            decreases self.run_steps.len() - i,
        {
            proof {
                assert(self.run_steps@.take(i + 1) =~= self.run_steps@.take(i as int).push(
                    self.run_steps@[i as int],
                ));
                self.run_steps@.take(i as int).lemma_filter_push(self.run_steps@[i as int], keep);
            }
            if self.run_steps[i].run_id == run_id {
                n = n + 1;
            }
            i = i + 1;
        }
        proof {
            assert(self.run_steps@.take(self.run_steps.len() as int) =~= self.run_steps@);
        }
        n
    }

    /// Marks the first run step with this id completed with `output_summary`
    /// (and its plan step, if it has one).
    pub fn complete_run_step(&mut self, run_step_id: u128, output_summary: String) -> (r: CoreResult<
        RunStepRecord,
    >)
        requires
            old(self).wf(),
        ensures
            final(self).wf(),
            final(self).same_sessions(old(self)),
            final(self).same_catalog(old(self)),
            final(self).runs@ == old(self).runs@,
            final(self).run_events@ == old(self).run_events@,
            final(self).tool_invocations@ == old(self).tool_invocations@,
            final(self).tasks@ == old(self).tasks@,
            final(self).plans@ == old(self).plans@,
            final(self).artifacts@ == old(self).artifacts@,
            Self::finish_step_post(
                *old(self),
                *final(self),
                run_step_id,
                RunStepStatus::Completed,
                PlanStepStatus::Completed,
                Some(output_summary),
                None,
                r,
            ),
    {
        self.finish_step(
            run_step_id,
            RunStepStatus::Completed,
            PlanStepStatus::Completed,
            Some(output_summary),
            None,
        )
    }

    /// Marks the first run step with this id failed with `error` (and its
    /// plan step, if it has one).
    pub fn fail_run_step(&mut self, run_step_id: u128, error: String) -> (r: CoreResult<
        RunStepRecord,
    >)
        requires
            old(self).wf(),
        ensures
            final(self).wf(),
            final(self).same_sessions(old(self)),
            final(self).same_catalog(old(self)),
            final(self).runs@ == old(self).runs@,
            final(self).run_events@ == old(self).run_events@,
            final(self).tool_invocations@ == old(self).tool_invocations@,
            final(self).tasks@ == old(self).tasks@,
            final(self).plans@ == old(self).plans@,
            final(self).artifacts@ == old(self).artifacts@,
            Self::finish_step_post(
                *old(self),
                *final(self),
                run_step_id,
                RunStepStatus::Failed,
                PlanStepStatus::Failed,
                None,
                Some(error),
                r,
            ),
    {
        self.finish_step(run_step_id, RunStepStatus::Failed, PlanStepStatus::Failed, None, Some(error))
    }

    /// What finishing a run step does: the step (the first with this id)
    /// takes its final status and time, and its plan step, if it has one,
    /// takes `plan_status`; the call fails when there is no such run step
    /// (nothing changes) or no such plan step (the run step stays updated).
    pub open spec fn finish_step_post(
        old_state: StoreState,
        new_state: StoreState,
        run_step_id: u128,
        status: RunStepStatus,
        plan_status: PlanStepStatus,
        output_summary: Option<String>,
        error: Option<String>,
        r: CoreResult<RunStepRecord>,
    ) -> bool {
        if !has_key(old_state.run_steps@, run_step_id) {
            &&& r matches Err(e)
            &&& e.status == STATUS_NOT_FOUND
            &&& e.message@ == not_found_message("run step"@)
            &&& new_state.run_steps@ == old_state.run_steps@
            &&& new_state.plan_steps@ == old_state.plan_steps@
        } else {
            let i = first_key_index(old_state.run_steps@, run_step_id);
            let prev = old_state.run_steps@[i];
            match new_state.run_steps@[i].finished_at {
                None => false,
                Some(now) => {
                    let step = finished_step(prev, status, now, output_summary, error);
                    &&& new_state.run_steps@ == old_state.run_steps@.update(i, step)
                    &&& match prev.plan_step_id {
                        None => r == Ok::<RunStepRecord, CoreError>(step)
                            && new_state.plan_steps@ == old_state.plan_steps@,
                        Some(p) => {
                            &&& new_state.plan_steps@ == plan_steps_with_status(
                                old_state.plan_steps@,
                                p,
                                plan_status,
                            )
                            &&& if has_key(old_state.plan_steps@, p) {
                                r == Ok::<RunStepRecord, CoreError>(step)
                            } else {
                                r matches Err(e) && e.status == STATUS_NOT_FOUND && e.message@
                                    == not_found_message("plan step"@)
                            }
                        },
                    }
                },
            }
        }
    }

    fn finish_step(
        &mut self,
        run_step_id: u128,
        status: RunStepStatus,
        plan_status: PlanStepStatus,
        output_summary: Option<String>,
        error: Option<String>,
    ) -> (r: CoreResult<RunStepRecord>)
        requires
            old(self).wf(),
        ensures
            final(self).wf(),
            final(self).same_sessions(old(self)),
            final(self).same_catalog(old(self)),
            final(self).runs@ == old(self).runs@,
            final(self).run_events@ == old(self).run_events@,
            final(self).tool_invocations@ == old(self).tool_invocations@,
            final(self).tasks@ == old(self).tasks@,
            final(self).plans@ == old(self).plans@,
            final(self).artifacts@ == old(self).artifacts@,
            Self::finish_step_post(
                *old(self),
                *final(self),
                run_step_id,
                status,
                plan_status,
                output_summary,
                error,
                r,
            ),
    {
        let i = match find_index(&self.run_steps, run_step_id) {
            Some(i) => i,
            None => {
                return Err(CoreError::not_found("run step"));
            },
        };
        let now = now_millis();
        let ghost before = self.run_steps@;
        let prev = self.run_steps.remove(i);
        let new_output = match output_summary {
            Some(o) => Some(o),
            None => prev.output_summary,
        };
        let step = RunStepRecord {
            status,
            finished_at: Some(now),
            output_summary: new_output,
            error,
            ..prev
        };
        let done = step.clone();
        self.run_steps.insert(i, step);
        proof {
            lemma_remove_insert(before, i as int, done);
        }
        if let Some(p) = done.plan_step_id {
            match self.set_plan_step_status(p, plan_status) {
                Ok(()) => {},
                Err(e) => {
                    return Err(e);
                },
            }
        }
        Ok(done)
    }

    /// The tools a run invoked, in order.
    pub fn list_tool_invocations(&self, run_id: u128) -> (r: CoreResult<Vec<ToolInvocationRecord>>)
        ensures
            match r {
                Ok(v) => has_key(self.runs@, run_id) && v@ == owned::<BY_RUN, ToolInvocationRecord>(
                    self.tool_invocations@,
                    run_id,
                ),
                Err(e) => !has_key(self.runs@, run_id) && e.status == STATUS_NOT_FOUND
                    && e.message@ == not_found_message("run"@),
            },
    {
        if find_index(&self.runs, run_id).is_none() {
            return Err(CoreError::not_found("run"));
        }
        Ok(select_owned::<BY_RUN, ToolInvocationRecord>(&self.tool_invocations, run_id))
    }

    /// Records a tool invocation made during a run step (the first step with
    /// this id); it belongs to that step's run.
    pub fn record_tool_invocation(
        &mut self,
        run_step_id: u128,
        tool_name: String,
        tool_source: String,
        arguments_json: String,
        result_json: String,
        ok: bool,
        error: Option<String>,
    ) -> (r: CoreResult<ToolInvocationRecord>)
        requires
            old(self).wf(),
        ensures
            final(self).wf(),
            final(self).same_sessions(old(self)),
            final(self).same_tasks(old(self)),
            final(self).same_catalog(old(self)),
            final(self).runs@ == old(self).runs@,
            final(self).run_events@ == old(self).run_events@,
            final(self).run_steps@ == old(self).run_steps@,
            final(self).artifacts@ == old(self).artifacts@,
            match r {
                Ok(inv) => {
                    let step = old(self).run_steps@[first_key_index(old(self).run_steps@, run_step_id)];
                    &&& has_key(old(self).run_steps@, run_step_id)
                    &&& inv.run_step_id == run_step_id
                    &&& inv.run_id == step.run_id
                    &&& inv.tool_name == tool_name
                    &&& inv.tool_source == tool_source
                    &&& inv.arguments_json == arguments_json
                    &&& inv.result_json == result_json
                    &&& inv.ok == ok
                    &&& inv.error == error
                    &&& inv.started_at == inv.finished_at
                    &&& final(self).tool_invocations@ == old(self).tool_invocations@.push(inv)
                },
                Err(e) => {
                    &&& !has_key(old(self).run_steps@, run_step_id)
                    &&& e.status == STATUS_NOT_FOUND
                    &&& e.message@ == not_found_message("run step"@)
                    &&& final(self).tool_invocations@ == old(self).tool_invocations@
                },
            },
    {
        let i = match find_index(&self.run_steps, run_step_id) {
            Some(i) => i,
            None => {
                return Err(CoreError::not_found("run step"));
            },
        };
        let now = now_millis();
        let invocation = ToolInvocationRecord {
            id: fresh_id(),
            run_step_id,
            run_id: self.run_steps[i].run_id,
            tool_name,
            tool_source,
            arguments_json,
            result_json,
            ok,
            started_at: now,
            finished_at: now,
            error,
        };
        self.tool_invocations.push(invocation.clone());
        Ok(invocation)
    }

    /// The artifacts of a session, most recently updated first.
    pub fn list_session_artifacts(&self, session_id: u128) -> (r: CoreResult<Vec<ArtifactRecord>>)
        ensures
            match r {
                Ok(v) => {
                    &&& has_key(self.sessions@, session_id)
                    &&& v@.to_multiset() == owned::<BY_SESSION, ArtifactRecord>(
                        self.artifacts@,
                        session_id,
                    ).to_multiset()
                    &&& sorted_by(v@, by_rank_desc::<ArtifactRecord>())
                    &&& ties_in_order(v@, owned::<BY_SESSION, ArtifactRecord>(self.artifacts@, session_id))
                },
                Err(e) => !has_key(self.sessions@, session_id) && e.status == STATUS_NOT_FOUND
                    && e.message@ == not_found_message("session"@),
            },
    {
        if find_index(&self.sessions, session_id).is_none() {
            return Err(CoreError::not_found("session"));
        }
        Ok(sort_by_rank_desc(select_owned::<BY_SESSION, ArtifactRecord>(&self.artifacts, session_id)))
    }

    /// The artifacts of a task, most recently updated first.
    pub fn list_task_artifacts(&self, task_id: u128) -> (r: CoreResult<Vec<ArtifactRecord>>)
        ensures
            match r {
                Ok(v) => {
                    &&& has_key(self.tasks@, task_id)
                    &&& v@.to_multiset() == owned::<BY_TASK, ArtifactRecord>(
                        self.artifacts@,
                        task_id,
                    ).to_multiset()
                    &&& sorted_by(v@, by_rank_desc::<ArtifactRecord>())
                    &&& ties_in_order(v@, owned::<BY_TASK, ArtifactRecord>(self.artifacts@, task_id))
                },
                Err(e) => !has_key(self.tasks@, task_id) && e.status == STATUS_NOT_FOUND
                    && e.message@ == not_found_message("task"@),
            },
    {
        if find_index(&self.tasks, task_id).is_none() {
            return Err(CoreError::not_found("task"));
        }
        Ok(sort_by_rank_desc(select_owned::<BY_TASK, ArtifactRecord>(&self.artifacts, task_id)))
    }

    /// The artifacts of a run, most recently updated first.
    pub fn list_run_artifacts(&self, run_id: u128) -> (r: CoreResult<Vec<ArtifactRecord>>)
        ensures
            match r {
                Ok(v) => {
                    &&& has_key(self.runs@, run_id)
                    &&& v@.to_multiset() == owned::<BY_RUN, ArtifactRecord>(
                        self.artifacts@,
                        run_id,
                    ).to_multiset()
                    &&& sorted_by(v@, by_rank_desc::<ArtifactRecord>())
                    &&& ties_in_order(v@, owned::<BY_RUN, ArtifactRecord>(self.artifacts@, run_id))
                },
                Err(e) => !has_key(self.runs@, run_id) && e.status == STATUS_NOT_FOUND
                    && e.message@ == not_found_message("run"@),
            },
    {
        if find_index(&self.runs, run_id).is_none() {
            return Err(CoreError::not_found("run"));
        }
        Ok(sort_by_rank_desc(select_owned::<BY_RUN, ArtifactRecord>(&self.artifacts, run_id)))
    }

    /// Stores an artifact (replacing one with the same id) once its session,
    /// task and run are known.
    pub fn upsert_artifact(&mut self, artifact: ArtifactRecord) -> (r: CoreResult<ArtifactRecord>)
        requires
            old(self).wf(),
        ensures
            final(self).wf(),
            final(self).same_sessions(old(self)),
            final(self).same_runs(old(self)),
            final(self).same_tasks(old(self)),
            final(self).same_catalog(old(self)),
            match r {
                Ok(a) => {
                    &&& a == artifact
                    &&& has_key(old(self).sessions@, artifact.session_id)
                    &&& has_key(old(self).tasks@, artifact.task_id)
                    &&& has_key(old(self).runs@, artifact.run_id)
                    &&& final(self).artifacts@ == upsert(old(self).artifacts@, artifact)
                },
                Err(e) => {
                    &&& e.status == STATUS_NOT_FOUND
                    &&& final(self).artifacts@ == old(self).artifacts@
                    &&& if !has_key(old(self).sessions@, artifact.session_id) {
                        e.message@ == not_found_message("session"@)
                    } else if !has_key(old(self).tasks@, artifact.task_id) {
                        e.message@ == not_found_message("task"@)
                    } else {
                        !has_key(old(self).runs@, artifact.run_id) && e.message@
                            == not_found_message("run"@)
                    }
                },
            },
    {
        if find_index(&self.sessions, artifact.session_id).is_none() {
            return Err(CoreError::not_found("session"));
        }
        if find_index(&self.tasks, artifact.task_id).is_none() {
            return Err(CoreError::not_found("task"));
        }
        if find_index(&self.runs, artifact.run_id).is_none() {
            return Err(CoreError::not_found("run"));
        }
        upsert_record(&mut self.artifacts, artifact.clone());
        Ok(artifact)
    }
}

} // verus!
