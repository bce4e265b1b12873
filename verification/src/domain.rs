//! The records that the agent store keeps, and the requests that create or
//! change them.
//!
//! Identifiers are `u128` (the value of a UUID), timestamps are milliseconds
//! since the Unix epoch, and JSON documents (event payloads, tool arguments
//! and results) are held as their JSON text.
use vstd::prelude::*;

use crate::ordering::{Named, Ranked};
use crate::table::Keyed;

verus! {

#[derive(Clone, Copy, Debug, PartialEq, Eq, Structural)]
pub enum SessionStatus {
    Active,
    Archived,
}

#[derive(Clone, Copy, Debug, PartialEq, Eq, Structural)]
pub enum MessageRole {
    User,
    Assistant,
    System,
}

#[derive(Clone, Copy, Debug, PartialEq, Eq, Structural)]
pub enum RunStatus {
    Running,
    Completed,
    Failed,
    Cancelled,
}

#[derive(Clone, Copy, Debug, PartialEq, Eq, Structural)]
pub enum RunStreamStatus {
    Active,
    Completed,
    Failed,
    Cancelled,
}

#[derive(Clone, Copy, Debug, PartialEq, Eq, Structural)]
pub enum TaskStatus {
    Queued,
    Planning,
    Running,
    WaitingForApproval,
    Suspended,
    Completed,
    Failed,
    Cancelled,
}

#[derive(Clone, Copy, Debug, PartialEq, Eq, Structural)]
pub enum PlanStatus {
    Active,
    Superseded,
}

#[derive(Clone, Copy, Debug, PartialEq, Eq, Structural)]
pub enum PlanStepKind {
    ContextBuild,
    Respond,
    Tool,
    Subagent,
}

#[derive(Clone, Copy, Debug, PartialEq, Eq, Structural)]
pub enum PlanStepStatus {
    Pending,
    Running,
    Completed,
    Failed,
}

#[derive(Clone, Copy, Debug, PartialEq, Eq, Structural)]
pub enum RunStepStatus {
    Running,
    Completed,
    Failed,
}

#[derive(Clone, Copy, Debug, PartialEq, Eq, Structural)]
pub enum ResourceStatus {
    Active,
    Disabled,
}

#[derive(Clone, Copy, Debug, PartialEq, Eq, Structural)]
pub enum ProviderType {
    OpenRouter,
    OpenAi,
    Anthropic,
    Gemini,
    AzureOpenAi,
    Moonshot,
}

#[derive(Clone, Copy, Debug, PartialEq, Eq, Structural)]
pub enum MemoryScope {
    Global,
    Project,
    Session,
}

#[derive(Clone, Copy, Debug, PartialEq, Eq, Structural)]
pub enum ArtifactKind {
    Document,
    Data,
    Log,
}

#[derive(Clone, Copy, Debug, PartialEq, Eq, Structural)]
pub enum ArtifactRenderMode {
    Markdown,
    Json,
    Text,
}

#[derive(Clone, Copy, Debug, PartialEq, Eq, Structural)]
pub enum ArtifactProducerKind {
    Run,
    Tool,
    Subagent,
}

#[derive(Debug)]
pub struct SessionRecord {
    pub id: u128,
    pub title: String,
    pub status: SessionStatus,
    pub root_agent_id: String,
    pub created_at: i64,
    pub updated_at: i64,
    pub last_run_at: Option<i64>,
    pub summary: String,
}

impl Clone for SessionRecord {
    fn clone(&self) -> (r: Self)
        ensures
            r == *self,
    {
        SessionRecord {
            id: self.id,
            title: self.title.clone(),
            status: self.status,
            root_agent_id: self.root_agent_id.clone(),
            created_at: self.created_at,
            updated_at: self.updated_at,
            last_run_at: self.last_run_at,
            summary: self.summary.clone(),
        }
    }
}

#[derive(Debug)]
pub struct MessageRecord {
    pub id: u128,
    pub session_id: u128,
    pub role: MessageRole,
    pub content: String,
    pub created_at: i64,
    pub run_id: Option<u128>,
}

impl Clone for MessageRecord {
    fn clone(&self) -> (r: Self)
        ensures
            r == *self,
    {
        MessageRecord {
            id: self.id,
            session_id: self.session_id,
            role: self.role,
            content: self.content.clone(),
            created_at: self.created_at,
            run_id: self.run_id,
        }
    }
}

#[derive(Debug)]
pub struct RunRecord {
    pub id: u128,
    pub session_id: u128,
    pub task_id: u128,
    pub trigger_type: String,
    pub status: RunStatus,
    pub selected_provider: Option<String>,
    pub selected_model: Option<String>,
    pub started_at: i64,
    pub finished_at: Option<i64>,
    pub error: Option<String>,
    pub last_event_sequence: u64,
    pub stream_status: RunStreamStatus,
    pub active_stream_message_id: Option<u128>,
}

impl Clone for RunRecord {
    fn clone(&self) -> (r: Self)
        ensures
            r == *self,
    {
        RunRecord {
            id: self.id,
            session_id: self.session_id,
            task_id: self.task_id,
            trigger_type: self.trigger_type.clone(),
            status: self.status,
            selected_provider: self.selected_provider.clone(),
            selected_model: self.selected_model.clone(),
            started_at: self.started_at,
            finished_at: self.finished_at,
            error: self.error.clone(),
            last_event_sequence: self.last_event_sequence,
            stream_status: self.stream_status,
            active_stream_message_id: self.active_stream_message_id,
        }
    }
}

#[derive(Debug)]
pub struct TaskRecord {
    pub id: u128,
    pub session_id: u128,
    pub title: String,
    pub goal: String,
    pub status: TaskStatus,
    pub kind: String,
    pub origin_message_id: u128,
    pub current_plan_id: Option<u128>,
    pub latest_run_id: Option<u128>,
    pub summary: String,
    pub created_at: i64,
    pub updated_at: i64,
    pub completed_at: Option<i64>,
}

impl Clone for TaskRecord {
    fn clone(&self) -> (r: Self)
        ensures
            r == *self,
    {
        TaskRecord {
            id: self.id,
            session_id: self.session_id,
            title: self.title.clone(),
            goal: self.goal.clone(),
            status: self.status,
            kind: self.kind.clone(),
            origin_message_id: self.origin_message_id,
            current_plan_id: self.current_plan_id,
            latest_run_id: self.latest_run_id,
            summary: self.summary.clone(),
            created_at: self.created_at,
            updated_at: self.updated_at,
            completed_at: self.completed_at,
        }
    }
}

#[derive(Debug)]
pub struct PlanRecord {
    pub id: u128,
    pub task_id: u128,
    pub version: u32,
    pub status: PlanStatus,
    pub source: String,
    pub planning_model: Option<String>,
    pub created_at: i64,
    pub superseded_at: Option<i64>,
}

impl Clone for PlanRecord {
    fn clone(&self) -> (r: Self)
        ensures
            r == *self,
    {
        PlanRecord {
            id: self.id,
            task_id: self.task_id,
            version: self.version,
            status: self.status,
            source: self.source.clone(),
            planning_model: self.planning_model.clone(),
            created_at: self.created_at,
            superseded_at: self.superseded_at,
        }
    }
}

/// One step of a plan. It holds `Vec`s, so two steps are compared through
/// their view.
#[derive(Debug)]
pub struct PlanStepRecord {
    pub id: u128,
    pub plan_id: u128,
    pub ordinal: u32,
    pub title: String,
    pub description: String,
    pub kind: PlanStepKind,
    pub status: PlanStepStatus,
    pub depends_on: Vec<u128>,
    pub skill_id: Option<u128>,
    pub subagent_id: Option<u128>,
    pub expected_outputs: Vec<String>,
    pub acceptance_criteria: Vec<String>,
}

pub struct PlanStepView {
    pub id: u128,
    pub plan_id: u128,
    pub ordinal: u32,
    pub title: Seq<char>,
    pub description: Seq<char>,
    pub kind: PlanStepKind,
    pub status: PlanStepStatus,
    pub depends_on: Seq<u128>,
    pub skill_id: Option<u128>,
    pub subagent_id: Option<u128>,
    pub expected_outputs: Seq<String>,
    pub acceptance_criteria: Seq<String>,
}

impl View for PlanStepRecord {
    type V = PlanStepView;

    open spec fn view(&self) -> PlanStepView {
        PlanStepView {
            id: self.id,
            plan_id: self.plan_id,
            ordinal: self.ordinal,
            title: self.title@,
            description: self.description@,
            kind: self.kind,
            status: self.status,
            depends_on: self.depends_on@,
            skill_id: self.skill_id,
            subagent_id: self.subagent_id,
            expected_outputs: self.expected_outputs@,
            acceptance_criteria: self.acceptance_criteria@,
        }
    }
}

impl Clone for PlanStepRecord {
    fn clone(&self) -> (r: Self)
        ensures
            r@ == self@,
    {
        let depends_on = self.depends_on.clone();
        let expected_outputs = self.expected_outputs.clone();
        let acceptance_criteria = self.acceptance_criteria.clone();
        proof {
            assert(depends_on@ =~= self.depends_on@);
            assert(expected_outputs@ =~= self.expected_outputs@);
            assert(acceptance_criteria@ =~= self.acceptance_criteria@);
        }
        PlanStepRecord {
            id: self.id,
            plan_id: self.plan_id,
            ordinal: self.ordinal,
            title: self.title.clone(),
            description: self.description.clone(),
            kind: self.kind,
            status: self.status,
            depends_on,
            skill_id: self.skill_id,
            subagent_id: self.subagent_id,
            expected_outputs,
            acceptance_criteria,
        }
    }
}

#[derive(Debug)]
pub struct RunStepRecord {
    pub id: u128,
    pub run_id: u128,
    pub task_id: u128,
    pub plan_step_id: Option<u128>,
    pub sequence: u32,
    pub kind: PlanStepKind,
    pub title: String,
    pub status: RunStepStatus,
    pub input_summary: String,
    pub output_summary: Option<String>,
    pub started_at: i64,
    pub finished_at: Option<i64>,
    pub error: Option<String>,
}

impl Clone for RunStepRecord {
    fn clone(&self) -> (r: Self)
        ensures
            r == *self,
    {
        RunStepRecord {
            id: self.id,
            run_id: self.run_id,
            task_id: self.task_id,
            plan_step_id: self.plan_step_id,
            sequence: self.sequence,
            kind: self.kind,
            title: self.title.clone(),
            status: self.status,
            input_summary: self.input_summary.clone(),
            output_summary: self.output_summary.clone(),
            started_at: self.started_at,
            finished_at: self.finished_at,
            error: self.error.clone(),
        }
    }
}

#[derive(Debug)]
pub struct ToolInvocationRecord {
    pub id: u128,
    pub run_step_id: u128,
    pub run_id: u128,
    pub tool_name: String,
    pub tool_source: String,
    pub arguments_json: String,
    pub result_json: String,
    pub ok: bool,
    pub started_at: i64,
    pub finished_at: i64,
    pub error: Option<String>,
}

impl Clone for ToolInvocationRecord {
    fn clone(&self) -> (r: Self)
        ensures
            r == *self,
    {
        ToolInvocationRecord {
            id: self.id,
            run_step_id: self.run_step_id,
            run_id: self.run_id,
            tool_name: self.tool_name.clone(),
            tool_source: self.tool_source.clone(),
            arguments_json: self.arguments_json.clone(),
            result_json: self.result_json.clone(),
            ok: self.ok,
            started_at: self.started_at,
            finished_at: self.finished_at,
            error: self.error.clone(),
        }
    }
}

#[derive(Debug)]
pub struct RunEventEnvelope {
    pub event_type: String,
    pub run_id: u128,
    pub session_id: u128,
    pub timestamp: i64,
    pub sequence: u64,
    pub payload_json: String,
}

impl Clone for RunEventEnvelope {
    fn clone(&self) -> (r: Self)
        ensures
            r == *self,
    {
        RunEventEnvelope {
            event_type: self.event_type.clone(),
            run_id: self.run_id,
            session_id: self.session_id,
            timestamp: self.timestamp,
            sequence: self.sequence,
            payload_json: self.payload_json.clone(),
        }
    }
}

#[derive(Debug)]
pub struct ArtifactRecord {
    pub id: u128,
    pub session_id: u128,
    pub task_id: u128,
    pub run_id: u128,
    pub path: String,
    pub display_name: String,
    pub description: String,
    pub kind: ArtifactKind,
    pub render_mode: ArtifactRenderMode,
    pub media_type: String,
    pub size_bytes: u64,
    pub producer_kind: ArtifactProducerKind,
    pub producer_ref_id: Option<u128>,
    pub created_at: i64,
    pub updated_at: i64,
}

impl Clone for ArtifactRecord {
    fn clone(&self) -> (r: Self)
        ensures
            r == *self,
    {
        ArtifactRecord {
            id: self.id,
            session_id: self.session_id,
            task_id: self.task_id,
            run_id: self.run_id,
            path: self.path.clone(),
            display_name: self.display_name.clone(),
            description: self.description.clone(),
            kind: self.kind,
            render_mode: self.render_mode,
            media_type: self.media_type.clone(),
            size_bytes: self.size_bytes,
            producer_kind: self.producer_kind,
            producer_ref_id: self.producer_ref_id,
            created_at: self.created_at,
            updated_at: self.updated_at,
        }
    }
}

#[derive(Debug)]
pub struct SkillRecord {
    pub id: u128,
    pub name: String,
    pub description: String,
    pub status: ResourceStatus,
    pub created_at: i64,
    pub updated_at: i64,
}

impl Clone for SkillRecord {
    fn clone(&self) -> (r: Self)
        ensures
            r == *self,
    {
        SkillRecord {
            id: self.id,
            name: self.name.clone(),
            description: self.description.clone(),
            status: self.status,
            created_at: self.created_at,
            updated_at: self.updated_at,
        }
    }
}

#[derive(Debug)]
pub struct SubagentRecord {
    pub id: u128,
    pub name: String,
    pub description: String,
    pub scope: String,
    pub max_steps: u32,
    pub status: ResourceStatus,
    pub created_at: i64,
    pub updated_at: i64,
}

impl Clone for SubagentRecord {
    fn clone(&self) -> (r: Self)
        ensures
            r == *self,
    {
        SubagentRecord {
            id: self.id,
            name: self.name.clone(),
            description: self.description.clone(),
            scope: self.scope.clone(),
            max_steps: self.max_steps,
            status: self.status,
            created_at: self.created_at,
            updated_at: self.updated_at,
        }
    }
}

#[derive(Debug)]
pub struct ProviderModelRecord {
    pub model_name: String,
    pub is_default: bool,
    pub context_window: u64,
    pub supports_tools: bool,
    pub supports_embeddings: bool,
    pub capabilities: Vec<String>,
}

pub struct ProviderModelView {
    pub model_name: Seq<char>,
    pub is_default: bool,
    pub context_window: u64,
    pub supports_tools: bool,
    pub supports_embeddings: bool,
    pub capabilities: Seq<String>,
}

impl View for ProviderModelRecord {
    type V = ProviderModelView;

    open spec fn view(&self) -> ProviderModelView {
        ProviderModelView {
            model_name: self.model_name@,
            is_default: self.is_default,
            context_window: self.context_window,
            supports_tools: self.supports_tools,
            supports_embeddings: self.supports_embeddings,
            capabilities: self.capabilities@,
        }
    }
}

impl Clone for ProviderModelRecord {
    fn clone(&self) -> (r: Self)
        ensures
            r@ == self@,
    {
        let capabilities = self.capabilities.clone();
        proof {
            assert(capabilities@ =~= self.capabilities@);
        }
        ProviderModelRecord {
            model_name: self.model_name.clone(),
            is_default: self.is_default,
            context_window: self.context_window,
            supports_tools: self.supports_tools,
            supports_embeddings: self.supports_embeddings,
            capabilities,
        }
    }
}

/// The views of a list of models.
pub open spec fn models_view(models: Seq<ProviderModelRecord>) -> Seq<ProviderModelView> {
    models.map_values(|m: ProviderModelRecord| m@)
}

/// A provider account. Its models are a `Vec`, so two accounts are compared
/// through their view, in which the models are a sequence.
#[derive(Debug)]
pub struct ProviderAccountRecord {
    pub id: u128,
    pub provider_type: ProviderType,
    pub display_name: String,
    pub base_url: Option<String>,
    pub status: ResourceStatus,
    pub created_at: i64,
    pub updated_at: i64,
    pub models: Vec<ProviderModelRecord>,
}

pub struct ProviderAccountView {
    pub id: u128,
    pub provider_type: ProviderType,
    pub display_name: Seq<char>,
    pub base_url: Option<String>,
    pub status: ResourceStatus,
    pub created_at: i64,
    pub updated_at: i64,
    pub models: Seq<ProviderModelView>,
}

impl View for ProviderAccountRecord {
    type V = ProviderAccountView;

    open spec fn view(&self) -> ProviderAccountView {
        ProviderAccountView {
            id: self.id,
            provider_type: self.provider_type,
            display_name: self.display_name@,
            base_url: self.base_url,
            status: self.status,
            created_at: self.created_at,
            updated_at: self.updated_at,
            models: models_view(self.models@),
        }
    }
}

impl Clone for ProviderAccountRecord {
    fn clone(&self) -> (r: Self)
        ensures
            r@ == self@,
    {
        let models = self.models.clone();
        proof {
            assert(models_view(models@) =~= models_view(self.models@));
        }
        ProviderAccountRecord {
            id: self.id,
            provider_type: self.provider_type,
            display_name: self.display_name.clone(),
            base_url: self.base_url.clone(),
            status: self.status,
            created_at: self.created_at,
            updated_at: self.updated_at,
            models,
        }
    }
}

/// An MCP server. It holds a `Vec` of capabilities, so two servers are
/// compared through their view.
#[derive(Debug)]
pub struct McpServerRecord {
    pub id: u128,
    pub name: String,
    pub transport: String,
    pub command: String,
    pub status: ResourceStatus,
    pub capabilities: Vec<String>,
    pub created_at: i64,
    pub updated_at: i64,
}

pub struct McpServerView {
    pub id: u128,
    pub name: Seq<char>,
    pub transport: Seq<char>,
    pub command: Seq<char>,
    pub status: ResourceStatus,
    pub capabilities: Seq<String>,
    pub created_at: i64,
    pub updated_at: i64,
}

impl View for McpServerRecord {
    type V = McpServerView;

    open spec fn view(&self) -> McpServerView {
        McpServerView {
            id: self.id,
            name: self.name@,
            transport: self.transport@,
            command: self.command@,
            status: self.status,
            capabilities: self.capabilities@,
            created_at: self.created_at,
            updated_at: self.updated_at,
        }
    }
}

impl Clone for McpServerRecord {
    fn clone(&self) -> (r: Self)
        ensures
            r@ == self@,
    {
        let capabilities = self.capabilities.clone();
        proof {
            assert(capabilities@ =~= self.capabilities@);
        }
        McpServerRecord {
            id: self.id,
            name: self.name.clone(),
            transport: self.transport.clone(),
            command: self.command.clone(),
            status: self.status,
            capabilities,
            created_at: self.created_at,
            updated_at: self.updated_at,
        }
    }
}

#[derive(Debug)]
pub struct MemoryDocumentRecord {
    pub id: u128,
    pub title: String,
    pub namespace: String,
    pub source: String,
    pub memory_scope: MemoryScope,
    pub owner_session_id: Option<u128>,
    pub owner_task_id: Option<u128>,
    pub is_pinned: bool,
    pub content: String,
    pub summary: String,
    pub chunk_count: usize,
    pub created_at: i64,
    pub updated_at: i64,
}

impl Clone for MemoryDocumentRecord {
    fn clone(&self) -> (r: Self)
        ensures
            r == *self,
    {
        MemoryDocumentRecord {
            id: self.id,
            title: self.title.clone(),
            namespace: self.namespace.clone(),
            source: self.source.clone(),
            memory_scope: self.memory_scope,
            owner_session_id: self.owner_session_id,
            owner_task_id: self.owner_task_id,
            is_pinned: self.is_pinned,
            content: self.content.clone(),
            summary: self.summary.clone(),
            chunk_count: self.chunk_count,
            created_at: self.created_at,
            updated_at: self.updated_at,
        }
    }
}

/// One stored piece of a memory document.
#[derive(Debug)]
pub struct MemoryChunkRecord {
    pub id: u128,
    pub document_id: u128,
    pub namespace: String,
    pub ordinal: usize,
    pub content: String,
}

impl Clone for MemoryChunkRecord {
    fn clone(&self) -> (r: Self)
        ensures
            r == *self,
    {
        MemoryChunkRecord {
            id: self.id,
            document_id: self.document_id,
            namespace: self.namespace.clone(),
            ordinal: self.ordinal,
            content: self.content.clone(),
        }
    }
}

/// A memory retrieval hit (its relevance score is not kept here).
#[derive(Debug)]
pub struct MemorySearchHit {
    pub document_id: u128,
    pub chunk_id: u128,
    pub document_title: String,
    pub namespace: String,
    pub content: String,
}

impl Clone for MemorySearchHit {
    fn clone(&self) -> (r: Self)
        ensures
            r == *self,
    {
        MemorySearchHit {
            document_id: self.document_id,
            chunk_id: self.chunk_id,
            document_title: self.document_title.clone(),
            namespace: self.namespace.clone(),
            content: self.content.clone(),
        }
    }
}

/// What the store reports after a stream of a run was interrupted or
/// finished: the last event and the reply text streamed so far.
#[derive(Debug)]
pub struct StreamCheckpointSummary {
    pub run_id: u128,
    pub last_sequence: u64,
    pub draft_reply_text: String,
    pub updated_at: i64,
    pub active_stream_message_id: Option<u128>,
}

#[derive(Debug)]
pub struct PlanDetail {
    pub plan: PlanRecord,
    pub steps: Vec<PlanStepRecord>,
}

#[derive(Debug)]
pub struct RunAccepted {
    pub run: RunRecord,
    pub user_message: MessageRecord,
}

#[derive(Debug)]
pub struct MemoryDocumentDetail {
    pub document: MemoryDocumentRecord,
    pub chunks: Vec<MemoryChunkRecord>,
}

#[derive(Debug)]
pub struct SessionDetail {
    pub session: SessionRecord,
    pub messages: Vec<MessageRecord>,
    pub active_run_summary: Option<RunRecord>,
    pub latest_run_summary: Option<RunRecord>,
    pub active_task_summary: Option<TaskRecord>,
    pub latest_stream_checkpoint_summary: Option<StreamCheckpointSummary>,
}

#[derive(Debug)]
pub struct CapabilityEnvelope {
    pub capabilities: Vec<String>,
}

#[derive(Debug)]
pub struct TestResult {
    pub ok: bool,
    pub message: String,
}

#[derive(Debug)]
pub struct ReindexResult {
    pub documents: usize,
    pub chunks: usize,
}

// ----- requests -----
#[derive(Debug)]
pub struct CreateSessionRequest {
    pub title: Option<String>,
}

#[derive(Debug)]
pub struct UpdateSessionRequest {
    pub title: Option<String>,
    pub status: Option<SessionStatus>,
}

#[derive(Debug)]
pub struct PostMessageRequest {
    pub content: String,
}

#[derive(Debug)]
pub struct CreateSkillRequest {
    pub name: String,
    pub description: String,
}

#[derive(Debug)]
pub struct UpdateSkillRequest {
    pub description: Option<String>,
    pub status: Option<ResourceStatus>,
}

#[derive(Debug)]
pub struct CreateSubagentRequest {
    pub name: String,
    pub description: String,
    pub scope: String,
    pub max_steps: u32,
}

#[derive(Debug)]
pub struct UpdateSubagentRequest {
    pub description: Option<String>,
    pub scope: Option<String>,
    pub max_steps: Option<u32>,
    pub status: Option<ResourceStatus>,
}

#[derive(Debug)]
pub struct CreateProviderRequest {
    pub provider_type: ProviderType,
    pub display_name: String,
    pub base_url: Option<String>,
}

#[derive(Debug)]
pub struct UpdateProviderRequest {
    pub display_name: Option<String>,
    pub base_url: Option<String>,
    pub status: Option<ResourceStatus>,
}

#[derive(Debug)]
pub struct CreateMcpServerRequest {
    pub name: String,
    pub transport: String,
    pub command: String,
}

#[derive(Debug)]
pub struct CreateMemoryDocumentRequest {
    pub title: String,
    pub content: String,
    pub namespace: Option<String>,
    pub source: Option<String>,
    pub memory_scope: Option<MemoryScope>,
    pub owner_session_id: Option<u128>,
    pub owner_task_id: Option<u128>,
    pub is_pinned: Option<bool>,
}

#[derive(Debug)]
pub struct UpdateMemoryDocumentRequest {
    pub title: Option<String>,
    pub namespace: Option<String>,
    pub memory_scope: Option<MemoryScope>,
    pub owner_session_id: Option<u128>,
    pub is_pinned: Option<bool>,
}

// ----- keys, ranks and names used by the store's tables -----
impl Keyed for SessionRecord {
    open spec fn key_of(&self) -> u128 {
        self.id
    }

    fn key(&self) -> (k: u128) {
        self.id
    }
}

impl Keyed for RunRecord {
    open spec fn key_of(&self) -> u128 {
        self.id
    }

    fn key(&self) -> (k: u128) {
        self.id
    }
}

impl Keyed for TaskRecord {
    open spec fn key_of(&self) -> u128 {
        self.id
    }

    fn key(&self) -> (k: u128) {
        self.id
    }
}

impl Keyed for PlanRecord {
    open spec fn key_of(&self) -> u128 {
        self.id
    }

    fn key(&self) -> (k: u128) {
        self.id
    }
}

impl Keyed for ArtifactRecord {
    open spec fn key_of(&self) -> u128 {
        self.id
    }

    fn key(&self) -> (k: u128) {
        self.id
    }
}

impl Keyed for SkillRecord {
    open spec fn key_of(&self) -> u128 {
        self.id
    }

    fn key(&self) -> (k: u128) {
        self.id
    }
}

impl Keyed for SubagentRecord {
    open spec fn key_of(&self) -> u128 {
        self.id
    }

    fn key(&self) -> (k: u128) {
        self.id
    }
}

impl Keyed for ProviderAccountRecord {
    open spec fn key_of(&self) -> u128 {
        self.id
    }

    fn key(&self) -> (k: u128) {
        self.id
    }
}

impl Keyed for McpServerRecord {
    open spec fn key_of(&self) -> u128 {
        self.id
    }

    fn key(&self) -> (k: u128) {
        self.id
    }
}

impl Keyed for MemoryDocumentRecord {
    open spec fn key_of(&self) -> u128 {
        self.id
    }

    fn key(&self) -> (k: u128) {
        self.id
    }
}

impl Ranked for SessionRecord {
    open spec fn rank(&self) -> int {
        self.updated_at as int
    }

    fn get_rank(&self) -> (k: i128) {
        self.updated_at as i128
    }
}

impl Ranked for TaskRecord {
    open spec fn rank(&self) -> int {
        self.updated_at as int
    }

    fn get_rank(&self) -> (k: i128) {
        self.updated_at as i128
    }
}

impl Ranked for RunRecord {
    open spec fn rank(&self) -> int {
        self.started_at as int
    }

    fn get_rank(&self) -> (k: i128) {
        self.started_at as i128
    }
}

impl Ranked for ArtifactRecord {
    open spec fn rank(&self) -> int {
        self.updated_at as int
    }

    fn get_rank(&self) -> (k: i128) {
        self.updated_at as i128
    }
}

impl Ranked for MemoryDocumentRecord {
    open spec fn rank(&self) -> int {
        self.updated_at as int
    }

    fn get_rank(&self) -> (k: i128) {
        self.updated_at as i128
    }
}

impl Ranked for RunEventEnvelope {
    /// Events are listed oldest first: the rank falls as the sequence grows.
    open spec fn rank(&self) -> int {
        -(self.sequence as int)
    }

    fn get_rank(&self) -> (k: i128) {
        -(self.sequence as i128)
    }
}

impl Named for SkillRecord {
    open spec fn name_view(&self) -> Seq<char> {
        self.name@
    }

    fn name_ref(&self) -> (n: &String) {
        &self.name
    }
}

impl Named for SubagentRecord {
    open spec fn name_view(&self) -> Seq<char> {
        self.name@
    }

    fn name_ref(&self) -> (n: &String) {
        &self.name
    }
}

impl Named for ProviderAccountRecord {
    open spec fn name_view(&self) -> Seq<char> {
        self.display_name@
    }

    fn name_ref(&self) -> (n: &String) {
        &self.display_name
    }
}

impl Named for McpServerRecord {
    open spec fn name_view(&self) -> Seq<char> {
        self.name@
    }

    fn name_ref(&self) -> (n: &String) {
        &self.name
    }
}

} // verus!
