//! The tool loop as a state machine: the caller performs each step it asks
//! for (asking the model, running a tool, recording the call in the store)
//! and hands back what came of it.
use vstd::prelude::*;

use crate::error::{CoreError, STATUS_BAD_REQUEST};
use crate::tool_loop::{
    budget_exceeded_message, reply_action, report_of, tool_loop_prompt, ActionView,
    ToolCallReport, ToolLoop, ToolLoopAction, ToolLoopEntry, ToolOutcome, MAX_TOOL_STEPS,
};

verus! {

/// What came of the last step the loop asked for.
#[derive(Debug)]
pub enum ToolLoopEvent {
    /// The loop starts.
    Begin,
    /// The model replied to the prompt with this text.
    Replied(String),
    /// The tool call asked for ran, with this outcome.
    ToolRan(ToolOutcome),
    /// The tool call was recorded.
    Recorded,
}

/// What the loop asks for next.
#[derive(Debug)]
pub enum DriverStep {
    /// Ask the model with this prompt.
    AskModel(String),
    /// Run this tool with these arguments (JSON text).
    RunTool { tool_name: String, arguments: String },
    /// Record the tool call with this report (its invocation and its step).
    Record(ToolCallReport),
    /// The loop is over with this answer.
    Finish(String),
    /// The loop is over with this error.
    Fail(CoreError),
}

/// A tool loop and the tool call it is waiting on, if any.
#[derive(Debug)]
pub struct ToolLoopDriver {
    pub tool_loop: ToolLoop,
    pub pending: Option<(String, String)>,
}

/// The next prompt of `l`, as a step: the prompt while steps are left, else
/// the 400 budget error.
pub open spec fn prompt_step(l: ToolLoop, step: DriverStep, user_content: Seq<char>, tools: Seq<char>) -> bool {
    if l.has_budget() {
        step matches DriverStep::AskModel(p) && p@ == tool_loop_prompt(
            user_content,
            tools,
            l.transcript@,
            (l.steps_taken + 1) as nat,
            MAX_TOOL_STEPS as nat,
        )
    } else {
        step matches DriverStep::Fail(e) && e.status == STATUS_BAD_REQUEST && e.message@
            == budget_exceeded_message()
    }
}

/// What `advance` does with `event`: on `Begin` and `Recorded` it asks for
/// the next prompt (or fails once the budget is spent), changing nothing; on
/// a reply it spends a step and asks for the tool the reply names (waiting
/// on it) or finishes with the answer; on a tool's outcome it records the
/// call in the transcript and asks for it to be recorded in the store.
pub open spec fn advance_post(
    before: ToolLoopDriver,
    event: ToolLoopEvent,
    after: ToolLoopDriver,
    step: DriverStep,
    user_content: Seq<char>,
    tools: Seq<char>,
) -> bool {
    match event {
        ToolLoopEvent::Begin | ToolLoopEvent::Recorded => {
            &&& after == before
            &&& prompt_step(before.tool_loop, step, user_content, tools)
        },
        ToolLoopEvent::Replied(raw) => {
            &&& after.tool_loop.steps_taken == before.tool_loop.steps_taken + 1
            &&& after.tool_loop.transcript@ == before.tool_loop.transcript@
            &&& match reply_action(raw@) {
                ActionView::Tool(name, args) => {
                    &&& step matches DriverStep::RunTool { tool_name, arguments } && tool_name@
                        == name && arguments@ == args
                    &&& after.pending matches Some(call) && call.0@ == name && call.1@ == args
                },
                ActionView::Final(content) => {
                    &&& step matches DriverStep::Finish(text) && text@ == content
                    &&& after.pending is None
                },
            }
        },
        ToolLoopEvent::ToolRan(outcome) => {
            &&& after.tool_loop.steps_taken == before.tool_loop.steps_taken
            &&& after.pending is None
            &&& before.pending matches Some(call) && step matches DriverStep::Record(report) && {
                &&& (report.result_json@, report.ok, match report.error {
                    Some(e) => Some(e@),
                    None => None,
                }) == report_of(outcome)
                &&& after.tool_loop.transcript@ == before.tool_loop.transcript@.push(
                    ToolLoopEntry { tool_name: call.0, arguments: call.1, result: report.result_json },
                )
            }
        },
    }
}

impl ToolLoopDriver {
    /// The loop's counts agree and a waited-on call answers a reply read.
    pub open spec fn wf(&self) -> bool {
        &&& self.tool_loop.wf()
        &&& self.pending is Some ==> self.tool_loop.transcript@.len() < self.tool_loop.steps_taken
    }

    /// A driver whose loop has read nothing and waits on nothing.
    pub fn new() -> (d: ToolLoopDriver)
        ensures
            d.wf(),
            d.tool_loop.steps_taken == 0,
            d.tool_loop.transcript@.len() == 0,
            d.pending is None,
    {
        ToolLoopDriver { tool_loop: ToolLoop::new(), pending: None }
    }

    /// Takes what came of the last step and says what to do next. A reply is
    /// handed in only after `AskModel` (so steps are left and no call is
    /// waiting), a tool's outcome only after `RunTool`.
    pub fn advance(&mut self, event: ToolLoopEvent, user_content: &str, available_tools: &str) -> (step: DriverStep)
        requires
            old(self).wf(),
            event is Replied ==> old(self).tool_loop.has_budget() && old(self).pending is None,
            event is ToolRan ==> old(self).pending is Some,
        ensures
            final(self).wf(),
            advance_post(*old(self), event, *final(self), step, user_content@, available_tools@),
    {
        match event {
            ToolLoopEvent::Begin | ToolLoopEvent::Recorded => {
                match self.tool_loop.next_prompt(user_content, available_tools) {
                    Ok(prompt) => DriverStep::AskModel(prompt),
                    Err(error) => DriverStep::Fail(error),
                }
            },
            ToolLoopEvent::Replied(raw) => {
                match self.tool_loop.read_reply(raw.as_str()) {
                    ToolLoopAction::Tool { tool_name, arguments } => {
                        self.pending = Some((tool_name.clone(), arguments.clone()));
                        DriverStep::RunTool { tool_name, arguments }
                    },
                    ToolLoopAction::Final { content } => DriverStep::Finish(content),
                }
            },
            ToolLoopEvent::ToolRan(outcome) => {
                let call = self.pending.take();
                match call {
                    Some((tool_name, arguments)) => {
                        let report = self.tool_loop.record_tool_call(tool_name, arguments, &outcome);
                        DriverStep::Record(report)
                    },
                    None => DriverStep::Fail(CoreError::bad_request("no tool call is pending")),
                }
            },
        }
    }
}

} // verus!
