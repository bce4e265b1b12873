//! The agent store: sessions, messages, runs and their events and steps,
//! tasks and plans, artifacts, and the catalogue of skills, subagents,
//! providers, MCP servers and memory documents.
//!
//! Every collection with identifiers is a keyed table (see `table`); the
//! per-session and per-run lists (messages, events, run steps, tool
//! invocations, plan steps, memory chunks) are kept in insertion order and
//! selected by their owner's id.
use vstd::prelude::*;

use crate::domain::{
    ArtifactRecord, McpServerRecord, MemoryChunkRecord, MemoryDocumentRecord, MessageRecord,
    PlanRecord, PlanStepRecord, ProviderAccountRecord, RunEventEnvelope, RunRecord, RunStepRecord,
    SessionRecord, SkillRecord, SubagentRecord, TaskRecord, ToolInvocationRecord,
};
use crate::table::{
    owned, unique_keys, Keyed, OwnedBy, BY_DOCUMENT, BY_PLAN, BY_RUN, BY_SESSION, BY_TASK,
};

pub mod artifacts;
pub mod catalog;
pub mod context;
pub mod memory;
pub mod runs;
pub mod seed;
pub mod sessions;
pub mod steps;

verus! {

pub struct StoreState {
    pub sessions: Vec<SessionRecord>,
    pub messages: Vec<MessageRecord>,
    pub runs: Vec<RunRecord>,
    pub run_events: Vec<RunEventEnvelope>,
    pub tasks: Vec<TaskRecord>,
    pub plans: Vec<PlanRecord>,
    pub plan_steps: Vec<PlanStepRecord>,
    pub run_steps: Vec<RunStepRecord>,
    pub tool_invocations: Vec<ToolInvocationRecord>,
    pub artifacts: Vec<ArtifactRecord>,
    pub skills: Vec<SkillRecord>,
    pub subagents: Vec<SubagentRecord>,
    pub providers: Vec<ProviderAccountRecord>,
    pub memory_documents: Vec<MemoryDocumentRecord>,
    pub memory_chunks: Vec<MemoryChunkRecord>,
    pub mcp_servers: Vec<McpServerRecord>,
}

impl Keyed for RunStepRecord {
    open spec fn key_of(&self) -> u128 {
        self.id
    }

    fn key(&self) -> (k: u128) {
        self.id
    }
}

impl Keyed for PlanStepRecord {
    open spec fn key_of(&self) -> u128 {
        self.id
    }

    fn key(&self) -> (k: u128) {
        self.id
    }
}

impl OwnedBy<BY_SESSION> for MessageRecord {
    open spec fn owner(&self) -> u128 {
        self.session_id
    }

    fn get_owner(&self) -> (o: u128) {
        self.session_id
    }
}

impl OwnedBy<BY_SESSION> for TaskRecord {
    open spec fn owner(&self) -> u128 {
        self.session_id
    }

    fn get_owner(&self) -> (o: u128) {
        self.session_id
    }
}

impl OwnedBy<BY_SESSION> for RunRecord {
    open spec fn owner(&self) -> u128 {
        self.session_id
    }

    fn get_owner(&self) -> (o: u128) {
        self.session_id
    }
}

impl OwnedBy<BY_SESSION> for ArtifactRecord {
    open spec fn owner(&self) -> u128 {
        self.session_id
    }

    fn get_owner(&self) -> (o: u128) {
        self.session_id
    }
}

impl OwnedBy<BY_RUN> for RunEventEnvelope {
    open spec fn owner(&self) -> u128 {
        self.run_id
    }

    fn get_owner(&self) -> (o: u128) {
        self.run_id
    }
}

impl OwnedBy<BY_RUN> for RunStepRecord {
    open spec fn owner(&self) -> u128 {
        self.run_id
    }

    fn get_owner(&self) -> (o: u128) {
        self.run_id
    }
}

impl OwnedBy<BY_RUN> for ToolInvocationRecord {
    open spec fn owner(&self) -> u128 {
        self.run_id
    }

    fn get_owner(&self) -> (o: u128) {
        self.run_id
    }
}

impl OwnedBy<BY_RUN> for ArtifactRecord {
    open spec fn owner(&self) -> u128 {
        self.run_id
    }

    fn get_owner(&self) -> (o: u128) {
        self.run_id
    }
}

impl OwnedBy<BY_TASK> for ArtifactRecord {
    open spec fn owner(&self) -> u128 {
        self.task_id
    }

    fn get_owner(&self) -> (o: u128) {
        self.task_id
    }
}

impl OwnedBy<BY_TASK> for RunRecord {
    open spec fn owner(&self) -> u128 {
        self.task_id
    }

    fn get_owner(&self) -> (o: u128) {
        self.task_id
    }
}

impl OwnedBy<BY_PLAN> for PlanStepRecord {
    open spec fn owner(&self) -> u128 {
        self.plan_id
    }

    fn get_owner(&self) -> (o: u128) {
        self.plan_id
    }
}

impl OwnedBy<BY_DOCUMENT> for MemoryChunkRecord {
    open spec fn owner(&self) -> u128 {
        self.document_id
    }

    fn get_owner(&self) -> (o: u128) {
        self.document_id
    }
}

/// The messages of a session, in the order they were added.
pub open spec fn messages_of(s: Seq<MessageRecord>, session_id: u128) -> Seq<MessageRecord> {
    owned::<BY_SESSION, MessageRecord>(s, session_id)
}

impl StoreState {
    /// Each table holds at most one record per id.
    pub open spec fn wf(&self) -> bool {
        &&& unique_keys(self.sessions@)
        &&& unique_keys(self.runs@)
        &&& unique_keys(self.tasks@)
        &&& unique_keys(self.plans@)
        &&& unique_keys(self.artifacts@)
        &&& unique_keys(self.skills@)
        &&& unique_keys(self.subagents@)
        &&& unique_keys(self.providers@)
        &&& unique_keys(self.memory_documents@)
        &&& unique_keys(self.mcp_servers@)
    }

    /// Sessions and messages are as in `other`.
    pub open spec fn same_sessions(&self, other: &Self) -> bool {
        &&& self.sessions@ == other.sessions@
        &&& self.messages@ == other.messages@
    }

    /// Runs, their events, steps and tool invocations are as in `other`.
    pub open spec fn same_runs(&self, other: &Self) -> bool {
        &&& self.runs@ == other.runs@
        &&& self.run_events@ == other.run_events@
        &&& self.run_steps@ == other.run_steps@
        &&& self.tool_invocations@ == other.tool_invocations@
    }

    /// Tasks, plans and plan steps are as in `other`.
    pub open spec fn same_tasks(&self, other: &Self) -> bool {
        &&& self.tasks@ == other.tasks@
        &&& self.plans@ == other.plans@
        &&& self.plan_steps@ == other.plan_steps@
    }

    /// Skills, subagents, providers, MCP servers and memory are as in `other`.
    pub open spec fn same_catalog(&self, other: &Self) -> bool {
        &&& self.skills@ == other.skills@
        &&& self.subagents@ == other.subagents@
        &&& self.providers@ == other.providers@
        &&& self.mcp_servers@ == other.mcp_servers@
        &&& self.memory_documents@ == other.memory_documents@
        &&& self.memory_chunks@ == other.memory_chunks@
    }

    /// An empty store.
    pub fn new() -> (s: Self)
        ensures
            s.wf(),
            s.sessions@.len() == 0,
            s.messages@.len() == 0,
            s.runs@.len() == 0,
            s.run_events@.len() == 0,
            s.tasks@.len() == 0,
            s.plans@.len() == 0,
            s.plan_steps@.len() == 0,
            s.run_steps@.len() == 0,
            s.tool_invocations@.len() == 0,
            s.artifacts@.len() == 0,
            s.skills@.len() == 0,
            s.subagents@.len() == 0,
            s.providers@.len() == 0,
            s.memory_documents@.len() == 0,
            s.memory_chunks@.len() == 0,
            s.mcp_servers@.len() == 0,
    {
        StoreState {
            sessions: Vec::new(),
            messages: Vec::new(),
            runs: Vec::new(),
            run_events: Vec::new(),
            tasks: Vec::new(),
            plans: Vec::new(),
            plan_steps: Vec::new(),
            run_steps: Vec::new(),
            tool_invocations: Vec::new(),
            artifacts: Vec::new(),
            skills: Vec::new(),
            subagents: Vec::new(),
            providers: Vec::new(),
            memory_documents: Vec::new(),
            memory_chunks: Vec::new(),
            mcp_servers: Vec::new(),
        }
    }
}

} // verus!
