//! The decisions a run makes between its steps: which plan steps its
//! context and response steps carry out, how the context step is
//! summarized, and whether a subagent is brought in.
use vstd::prelude::*;

use crate::domain::{PlanDetail, PlanStepKind, PlanStepStatus, RunStepRecord, RunStepStatus};
use crate::error::CoreResult;
use crate::scan::{summarize_text, summary_of};
use crate::store::StoreState;
use crate::table::{owned, BY_RUN};
use crate::routing::{find_plan_step_id, plan_step_of_kind};
use crate::scan::{decimal, decimal_string, find, first_occurrence};
use crate::text::{chars_of, lowercase, to_lowercase};

verus! {

/// The plan steps a run's context and response steps carry out: the first
/// context-build step and the first respond step of the task's plan.
pub fn default_plan_step_ids(plan: &PlanDetail) -> (r: (Option<u128>, Option<u128>))
    ensures
        r.0 == plan_step_of_kind(plan.steps@, PlanStepKind::ContextBuild, 0),
        r.1 == plan_step_of_kind(plan.steps@, PlanStepKind::Respond, 0),
{
    (
        find_plan_step_id(plan.steps.as_slice(), PlanStepKind::ContextBuild),
        find_plan_step_id(plan.steps.as_slice(), PlanStepKind::Respond),
    )
}

/// The summary the context step closes with.
pub open spec fn context_summary_text(recent_messages: nat, memory_hits: nat) -> Seq<char> {
    "Loaded "@ + decimal(recent_messages) + " recent messages and "@ + decimal(memory_hits)
        + " memory hits."@
}

/// Writes the summary the context step closes with.
pub fn context_step_summary(recent_messages: usize, memory_hits: usize) -> (r: String)
    ensures
        r@ == context_summary_text(recent_messages as nat, memory_hits as nat),
{
    let mut out = String::from_str("Loaded ");
    let a = decimal_string(recent_messages as u64);
    out.append(a.as_str());
    out.append(" recent messages and ");
    let b = decimal_string(memory_hits as u64);
    out.append(b.as_str());
    out.append(" memory hits.");
    out
}

/// The length in bytes past which a request is handed to a subagent.
pub const DELEGATION_THRESHOLD_BYTES: usize = 120;

/// A request is handed to a subagent when it mentions one (in any case) or
/// is longer than the threshold, in UTF-8 bytes.
pub open spec fn delegates_to_subagent(user_content: &str) -> bool {
    ||| first_occurrence(lowercase(user_content@), "subagent"@) is Some
    ||| user_content.len() > DELEGATION_THRESHOLD_BYTES
}

/// Whether a run brings in a subagent for this request.
pub fn should_delegate_to_subagent(user_content: &str) -> (r: bool)
    ensures
        r == delegates_to_subagent(user_content),
{
    let lowered = to_lowercase(user_content);
    let chars = chars_of(lowered.as_str());
    let word = chars_of("subagent");
    let mentioned = match find(chars.as_slice(), word.as_slice()) {
        Some(_) => true,
        None => false,
    };
    let long = user_content.len() > DELEGATION_THRESHOLD_BYTES;
    mentioned || long
}

/// The stages a run goes through, in order.
#[derive(Debug, Clone, Copy, PartialEq, Eq, Structural)]
pub enum RunStage {
    /// Announce that the run started, wait, and check it is still active.
    Announce,
    /// Load the run and the plan steps of its task.
    LoadRun,
    /// Start the context step.
    OpenContextStep,
    /// Build the run's context.
    BuildContext,
    /// Complete the context step.
    CloseContextStep,
    /// Choose the provider and model, record them, and check the run.
    ApplySelection,
    /// Announce the context build, wait, and check the run.
    AnnounceContext,
    /// Announce the memory hits.
    RetrieveMemory,
    /// Hand the request to the subagent.
    Delegate,
    /// Check that the run is still active.
    ConfirmActive,
    /// Start the response step.
    OpenResponseStep,
    /// Produce the response.
    Respond,
    /// Complete the response step.
    CloseResponseStep,
    /// Stream the response and check the run.
    Stream,
    /// Store the reply and complete the run.
    Finalize,
}

/// How a stage ended: done, with the run no longer active, or failed with a
/// message.
#[derive(Debug)]
pub enum StageOutcome {
    Done,
    Inactive,
    Failed(String),
}

/// What the run does next: a stage, failing the run (after failing the open
/// step too, when `close_step` is set), or stopping.
#[derive(Debug)]
pub enum RunAction {
    Perform(RunStage),
    FailRun { message: String, close_step: bool },
    Stop,
}

/// A stage outcome as the contracts see it.
pub enum OutcomeView {
    Done,
    Inactive,
    Failed(Seq<char>),
}

/// A run action as the contracts see it.
pub enum RunActionView {
    Perform(RunStage),
    FailRun(Seq<char>, bool),
    Stop,
}

impl View for StageOutcome {
    type V = OutcomeView;

    open spec fn view(&self) -> OutcomeView {
        match self {
            StageOutcome::Done => OutcomeView::Done,
            StageOutcome::Inactive => OutcomeView::Inactive,
            StageOutcome::Failed(m) => OutcomeView::Failed(m@),
        }
    }
}

impl View for RunAction {
    type V = RunActionView;

    open spec fn view(&self) -> RunActionView {
        match self {
            RunAction::Perform(s) => RunActionView::Perform(*s),
            RunAction::FailRun { message, close_step } => RunActionView::FailRun(message@, *close_step),
            RunAction::Stop => RunActionView::Stop,
        }
    }
}

/// The position of a stage in the run.
pub open spec fn stage_order(s: RunStage) -> int {
    match s {
        RunStage::Announce => 0,
        RunStage::LoadRun => 1,
        RunStage::OpenContextStep => 2,
        RunStage::BuildContext => 3,
        RunStage::CloseContextStep => 4,
        RunStage::ApplySelection => 5,
        RunStage::AnnounceContext => 6,
        RunStage::RetrieveMemory => 7,
        RunStage::Delegate => 8,
        RunStage::ConfirmActive => 9,
        RunStage::OpenResponseStep => 10,
        RunStage::Respond => 11,
        RunStage::CloseResponseStep => 12,
        RunStage::Stream => 13,
        RunStage::Finalize => 14,
    }
}

/// The stage after `s` when it is done; the subagent stage is taken only
/// when the run delegates.
pub open spec fn stage_after(s: RunStage, delegate: bool) -> Option<RunStage> {
    match s {
        RunStage::Announce => Some(RunStage::LoadRun),
        RunStage::LoadRun => Some(RunStage::OpenContextStep),
        RunStage::OpenContextStep => Some(RunStage::BuildContext),
        RunStage::BuildContext => Some(RunStage::CloseContextStep),
        RunStage::CloseContextStep => Some(RunStage::ApplySelection),
        RunStage::ApplySelection => Some(RunStage::AnnounceContext),
        RunStage::AnnounceContext => Some(RunStage::RetrieveMemory),
        RunStage::RetrieveMemory => if delegate {
            Some(RunStage::Delegate)
        } else {
            Some(RunStage::ConfirmActive)
        },
        RunStage::Delegate => Some(RunStage::ConfirmActive),
        RunStage::ConfirmActive => Some(RunStage::OpenResponseStep),
        RunStage::OpenResponseStep => Some(RunStage::Respond),
        RunStage::Respond => Some(RunStage::CloseResponseStep),
        RunStage::CloseResponseStep => Some(RunStage::Stream),
        RunStage::Stream => Some(RunStage::Finalize),
        RunStage::Finalize => None,
    }
}

/// What a run does after `stage` ended with `outcome`: the next stage when
/// it is done (stopping after the last); stopping when the run is no longer
/// active or its record could not be loaded; otherwise failing the run with
/// the message, and failing the open step too when building the context or
/// producing the response failed.
pub open spec fn run_flow_step(stage: RunStage, outcome: OutcomeView, delegate: bool) -> RunActionView {
    match outcome {
        OutcomeView::Done => match stage_after(stage, delegate) {
            Some(next) => RunActionView::Perform(next),
            None => RunActionView::Stop,
        },
        OutcomeView::Inactive => RunActionView::Stop,
        OutcomeView::Failed(m) => if stage == RunStage::LoadRun {
            RunActionView::Stop
        } else {
            RunActionView::FailRun(
                m,
                stage == RunStage::BuildContext || stage == RunStage::Respond,
            )
        },
    }
}

/// Decides what a run does after a stage.
pub fn next_run_action(stage: RunStage, outcome: StageOutcome, delegate: bool) -> (r: RunAction)
    ensures
        r@ == run_flow_step(stage, outcome@, delegate),
{
    match outcome {
        StageOutcome::Done => {
            let next = match stage {
                RunStage::Announce => RunStage::LoadRun,
                RunStage::LoadRun => RunStage::OpenContextStep,
                RunStage::OpenContextStep => RunStage::BuildContext,
                RunStage::BuildContext => RunStage::CloseContextStep,
                RunStage::CloseContextStep => RunStage::ApplySelection,
                RunStage::ApplySelection => RunStage::AnnounceContext,
                RunStage::AnnounceContext => RunStage::RetrieveMemory,
                RunStage::RetrieveMemory => if delegate {
                    RunStage::Delegate
                } else {
                    RunStage::ConfirmActive
                },
                RunStage::Delegate => RunStage::ConfirmActive,
                RunStage::ConfirmActive => RunStage::OpenResponseStep,
                RunStage::OpenResponseStep => RunStage::Respond,
                RunStage::Respond => RunStage::CloseResponseStep,
                RunStage::CloseResponseStep => RunStage::Stream,
                RunStage::Stream => RunStage::Finalize,
                RunStage::Finalize => {
                    return RunAction::Stop;
                },
            };
            RunAction::Perform(next)
        },
        StageOutcome::Inactive => RunAction::Stop,
        StageOutcome::Failed(message) => {
            if stage == RunStage::LoadRun {
                RunAction::Stop
            } else {
                RunAction::FailRun {
                    message,
                    close_step: stage == RunStage::BuildContext || stage == RunStage::Respond,
                }
            }
        },
    }
}

/// The subagent a run hands its request to.
pub open spec fn subagent_name() -> Seq<char> {
    "research-analyst"@
}

/// What the subagent reports back.
pub open spec fn subagent_summary() -> Seq<char> {
    "Subagent produced a scoped summary for the parent run."@
}

/// How many words of a request or a summary a step keeps.
pub const STEP_SUMMARY_WORDS: usize = 24;

/// `title` and `summary` label the subagent step of a request.
pub open spec fn subagent_step_labels(title: String, summary: String, user_content: Seq<char>) -> bool {
    &&& title@ == "Delegate to "@ + subagent_name()
    &&& summary@ == summary_of(user_content, STEP_SUMMARY_WORDS as nat)
}

/// `text` closes the subagent step: the summary of the subagent's report.
pub open spec fn subagent_step_closing(text: String) -> bool {
    text@ == summary_of(subagent_summary(), STEP_SUMMARY_WORDS as nat)
}

impl StoreState {
    /// Starts the step in which the run hands its request to the subagent:
    /// a subagent step outside the plan, titled after the subagent, with the
    /// request's summary as its input.
    pub fn open_subagent_step(&mut self, run_id: u128, user_content: &str) -> (r: CoreResult<RunStepRecord>)
        requires
            old(self).wf(),
            owned::<BY_RUN, RunStepRecord>(old(self).run_steps@, run_id).len() < u32::MAX,
        ensures
            final(self).wf(),
            final(self).steps_only_changed(old(self)),
            exists|title: String, summary: String|
                #[trigger] subagent_step_labels(title, summary, user_content@)
                    && StoreState::start_step_post(
                    *old(self),
                    *final(self),
                    run_id,
                    None,
                    PlanStepKind::Subagent,
                    title,
                    summary,
                    r,
                ),
    {
        let title = String::from_str("Delegate to research-analyst");
        let summary = summarize_text(user_content, STEP_SUMMARY_WORDS);
        proof {
            assert(title@ == "Delegate to "@ + subagent_name()) by {
                reveal_strlit("Delegate to research-analyst");
                reveal_strlit("Delegate to ");
                reveal_strlit("research-analyst");
                assert(title@ =~= "Delegate to "@ + subagent_name());
            }
        }
        let ghost (t, m) = (title, summary);
        let r = self.start_run_step(run_id, None, PlanStepKind::Subagent, title, summary);
        proof {
            assert(subagent_step_labels(t, m, user_content@));
        }
        r
    }

    /// Completes the subagent step with the summary of the subagent's report.
    pub fn close_subagent_step(&mut self, run_step_id: u128) -> (r: CoreResult<RunStepRecord>)
        requires
            old(self).wf(),
        ensures
            final(self).wf(),
            final(self).steps_only_changed(old(self)),
            exists|text: String|
                #[trigger] subagent_step_closing(text) && StoreState::finish_step_post(
                    *old(self),
                    *final(self),
                    run_step_id,
                    RunStepStatus::Completed,
                    PlanStepStatus::Completed,
                    Some(text),
                    None,
                    r,
                ),
    {
        let text = summarize_text(
            "Subagent produced a scoped summary for the parent run.",
            STEP_SUMMARY_WORDS,
        );
        let ghost t = text;
        let r = self.complete_run_step(run_step_id, text);
        proof {
            assert(subagent_step_closing(t));
        }
        r
    }
}

} // verus!
