//! The records a fresh store starts with: an account for each configured
//! provider, two skills, a subagent, two memory documents, an MCP server and
//! a starter session with its welcome message.
use vstd::prelude::*;

use crate::domain::{
    McpServerRecord, McpServerView, MemoryDocumentRecord, MemoryScope, MessageRecord, MessageRole,
    ProviderAccountRecord, ResourceStatus, SessionRecord, SessionStatus, SkillRecord,
    SubagentRecord,
};
use crate::ids::{fresh_id, now_millis, NIL_ID};
use crate::routing::{model_record_of, ConfiguredProvider, ModelsConfig};
use crate::scan::{summarize_text, summary_of};
use crate::store::catalog::servers_view;
use crate::store::StoreState;
use crate::table::{upsert, upsert_record, Keyed};

verus! {

/// `s` with each of `rs` upserted in turn.
pub open spec fn upsert_all<T: Keyed>(s: Seq<T>, rs: Seq<T>) -> Seq<T>
    decreases rs.len(),
{
    if rs.len() == 0 {
        s
    } else {
        upsert(upsert_all(s, rs.drop_last()), rs.last())
    }
}

/// `p` is the active account seeded for the configured provider `c`.
pub open spec fn is_seeded_account(p: ProviderAccountRecord, c: ConfiguredProvider) -> bool {
    &&& p.id != NIL_ID
    &&& p.provider_type == c.provider_type
    &&& p.display_name == c.display_name
    &&& p.base_url == c.base_url
    &&& p.status == ResourceStatus::Active
    &&& p.updated_at == p.created_at
    &&& p.models@.len() == c.models@.len()
    &&& forall|k: int|
        0 <= k < p.models@.len() ==> #[trigger] p.models@[k]@ == model_record_of(
            c.models@[k],
            c.default_model,
        )
}

/// `s` is an active seeded skill with this name and description.
pub open spec fn is_seed_skill(s: SkillRecord, name: Seq<char>, description: Seq<char>) -> bool {
    &&& s.id != NIL_ID
    &&& s.name@ == name
    &&& s.description@ == description
    &&& s.status == ResourceStatus::Active
    &&& s.updated_at == s.created_at
}

/// `s` is the seeded research subagent.
pub open spec fn is_seed_subagent(s: SubagentRecord) -> bool {
    &&& s.id != NIL_ID
    &&& s.name@ == "research-analyst"@
    &&& s.description@ == "Bounded specialist for investigation and synthesis."@
    &&& s.scope@ == "web research, notes, summarization"@
    &&& s.max_steps == 8
    &&& s.status == ResourceStatus::Active
    &&& s.updated_at == s.created_at
}

/// How many words of a seeded document make its summary.
pub const SEED_SUMMARY_WORDS: usize = 18;

/// `d` is a seeded global document with this title and content.
pub open spec fn is_seed_document(d: MemoryDocumentRecord, title: Seq<char>, content: Seq<char>) -> bool {
    &&& d.id != NIL_ID
    &&& d.title@ == title
    &&& d.namespace@ == "global"@
    &&& d.source@ == "seed"@
    &&& d.memory_scope == MemoryScope::Global
    &&& d.owner_session_id is None
    &&& d.owner_task_id is None
    &&& !d.is_pinned
    &&& d.content@ == content
    &&& d.summary@ == summary_of(content, SEED_SUMMARY_WORDS as nat)
    &&& d.chunk_count == 0
    &&& d.updated_at == d.created_at
}

/// The content of the seeded platform overview.
pub open spec fn platform_overview() -> Seq<char> {
    "The Asuka platform aims to support a Rust backend service, a Next.js chat UI, skill registration, subagent delegation, MCP integration, context compression, and long-term memory through RAG."@
}

/// The content of the seeded provider policy.
pub open spec fn provider_policy() -> Seq<char> {
    "Mainstream providers should be first-class citizens. The launch set includes Moonshot, OpenAI, Anthropic, Google Gemini, Azure OpenAI, and OpenRouter with capability-aware routing."@
}

/// `m` is the seeded filesystem MCP server.
pub open spec fn is_seed_server(m: McpServerView) -> bool {
    &&& m.id != NIL_ID
    &&& m.name == "filesystem"@
    &&& m.transport == "stdio"@
    &&& m.command == "npx @modelcontextprotocol/server-filesystem"@
    &&& m.status == ResourceStatus::Active
    &&& m.capabilities.len() == 3
    &&& m.capabilities[0]@ == "resources.list"@
    &&& m.capabilities[1]@ == "resources.read"@
    &&& m.capabilities[2]@ == "tools.call"@
    &&& m.updated_at == m.created_at
}

/// The text of the seeded welcome message.
pub open spec fn welcome_text() -> Seq<char> {
    "The backend is now split into an independent agent-core crate and a thin API layer. If a configured provider such as Moonshot or OpenRouter is available, agent-core will try the configured model before falling back to a local response."@
}

/// `s` is the seeded starter session and `m` its welcome message.
pub open spec fn is_seed_session(s: SessionRecord, m: MessageRecord) -> bool {
    &&& s.id != NIL_ID
    &&& s.title@ == "Implementation Sandbox"@
    &&& s.status == SessionStatus::Active
    &&& s.root_agent_id@ == "default-root-agent"@
    &&& s.updated_at == s.created_at
    &&& s.last_run_at is None
    &&& s.summary@ == "Starter session seeded by agent-core."@
    &&& m.session_id == s.id
    &&& m.role == MessageRole::Assistant
    &&& m.content@ == welcome_text()
    &&& m.run_id is None
}

fn seed_account(c: &ConfiguredProvider) -> (p: ProviderAccountRecord)
    ensures
        is_seeded_account(p, *c),
{
    let now = now_millis();
    ProviderAccountRecord {
        id: fresh_id(),
        provider_type: c.provider_type,
        display_name: c.display_name.clone(),
        base_url: match &c.base_url {
            Some(u) => Some(u.clone()),
            None => None,
        },
        status: ResourceStatus::Active,
        created_at: now,
        updated_at: now,
        models: c.to_models(),
    }
}

fn seed_skill(name: &str, description: &str) -> (s: SkillRecord)
    ensures
        is_seed_skill(s, name@, description@),
{
    let now = now_millis();
    SkillRecord {
        id: fresh_id(),
        name: String::from_str(name),
        description: String::from_str(description),
        status: ResourceStatus::Active,
        created_at: now,
        updated_at: now,
    }
}

fn seed_document(title: &str, content: &str) -> (d: MemoryDocumentRecord)
    ensures
        is_seed_document(d, title@, content@),
{
    let now = now_millis();
    MemoryDocumentRecord {
        id: fresh_id(),
        title: String::from_str(title),
        namespace: String::from_str("global"),
        source: String::from_str("seed"),
        memory_scope: MemoryScope::Global,
        owner_session_id: None,
        owner_task_id: None,
        is_pinned: false,
        content: String::from_str(content),
        summary: summarize_text(content, SEED_SUMMARY_WORDS),
        chunk_count: 0,
        created_at: now,
        updated_at: now,
    }
}

impl StoreState {
    /// A store seeded for `config`: an active account for each configured
    /// provider, in order; the research and planning skills; the research
    /// subagent; the platform-overview and provider-policy documents
    /// (without chunks); the filesystem MCP server; and the starter session
    /// with its welcome message. Records are added as upserts, by id.
    pub fn seeded(config: &ModelsConfig) -> (s: StoreState)
        ensures
            s.wf(),
            exists|accounts: Seq<ProviderAccountRecord>|
                {
                    &&& accounts.len() == config.providers@.len()
                    &&& forall|i: int|
                        0 <= i < accounts.len() ==> is_seeded_account(
                            #[trigger] accounts[i],
                            config.providers@[i],
                        )
                    &&& s.providers@ == upsert_all(Seq::empty(), accounts)
                },
            exists|a: SkillRecord, b: SkillRecord|
                {
                    &&& is_seed_skill(a, "research-skill"@, "Structured source-backed research workflow."@)
                    &&& is_seed_skill(
                        b,
                        "planning-skill"@,
                        "Breaks large requests into inspectable execution steps."@,
                    )
                    &&& s.skills@ == upsert(seq![a], b)
                },
            s.subagents@.len() == 1,
            is_seed_subagent(s.subagents@[0]),
            exists|a: MemoryDocumentRecord, b: MemoryDocumentRecord|
                {
                    &&& is_seed_document(a, "platform-overview"@, platform_overview())
                    &&& is_seed_document(b, "provider-policy"@, provider_policy())
                    &&& s.memory_documents@ == upsert(seq![a], b)
                },
            s.memory_chunks@.len() == 0,
            s.mcp_servers@.len() == 1,
            is_seed_server(servers_view(s.mcp_servers@)[0]),
            s.sessions@.len() == 1,
            s.messages@.len() == 1,
            is_seed_session(s.sessions@[0], s.messages@[0]),
            s.runs@.len() == 0,
            s.run_events@.len() == 0,
            s.tasks@.len() == 0,
            s.plans@.len() == 0,
            s.plan_steps@.len() == 0,
            s.run_steps@.len() == 0,
            s.tool_invocations@.len() == 0,
            s.artifacts@.len() == 0,
    {
        let mut state = StoreState::new();
        let ghost mut accounts: Seq<ProviderAccountRecord> = Seq::empty();
        let mut i: usize = 0;
        while i < config.providers.len()
            invariant
                i <= config.providers.len(),
                state.wf(),
                accounts.len() == i,
                forall|k: int|
                    0 <= k < i ==> is_seeded_account(#[trigger] accounts[k], config.providers@[k]),
                state.providers@ == upsert_all(Seq::empty(), accounts),
                state.sessions@.len() == 0,
                state.messages@.len() == 0,
                state.runs@.len() == 0,
                state.run_events@.len() == 0,
                state.tasks@.len() == 0,
                state.plans@.len() == 0,
                state.plan_steps@.len() == 0,
                state.run_steps@.len() == 0,
                state.tool_invocations@.len() == 0,
                state.artifacts@.len() == 0,
                state.skills@.len() == 0,
                state.subagents@.len() == 0,
                state.memory_documents@.len() == 0,
                state.memory_chunks@.len() == 0,
                state.mcp_servers@.len() == 0,
            decreases config.providers.len() - i,
        {
            let account = seed_account(&config.providers[i]);
            proof {
                assert(accounts.push(account).drop_last() =~= accounts);
                accounts = accounts.push(account);
            }
            upsert_record(&mut state.providers, account);
            i = i + 1;
        }
        let research = seed_skill("research-skill", "Structured source-backed research workflow.");
        let planning = seed_skill(
            "planning-skill",
            "Breaks large requests into inspectable execution steps.",
        );
        let ghost (r0, p0) = (research, planning);
        proof {
            assert(state.skills@ =~= Seq::<SkillRecord>::empty());
        }
        upsert_record(&mut state.skills, research);
        proof {
            assert(upsert(Seq::<SkillRecord>::empty(), research) =~= seq![research]);
        }
        upsert_record(&mut state.skills, planning);
        let now = now_millis();
        let subagent = SubagentRecord {
            id: fresh_id(),
            name: String::from_str("research-analyst"),
            description: String::from_str("Bounded specialist for investigation and synthesis."),
            scope: String::from_str("web research, notes, summarization"),
            max_steps: 8,
            status: ResourceStatus::Active,
            created_at: now,
            updated_at: now,
        };
        state.subagents.push(subagent);
        let overview = seed_document(
            "platform-overview",
            "The Asuka platform aims to support a Rust backend service, a Next.js chat UI, skill registration, subagent delegation, MCP integration, context compression, and long-term memory through RAG.",
        );
        let policy = seed_document(
            "provider-policy",
            "Mainstream providers should be first-class citizens. The launch set includes Moonshot, OpenAI, Anthropic, Google Gemini, Azure OpenAI, and OpenRouter with capability-aware routing.",
        );
        let ghost (o0, q0) = (overview, policy);
        proof {
            assert(state.memory_documents@ =~= Seq::<MemoryDocumentRecord>::empty());
        }
        upsert_record(&mut state.memory_documents, overview);
        proof {
            assert(upsert(Seq::<MemoryDocumentRecord>::empty(), overview) =~= seq![overview]);
        }
        upsert_record(&mut state.memory_documents, policy);
        let mut capabilities: Vec<String> = Vec::new();
        capabilities.push(String::from_str("resources.list"));
        capabilities.push(String::from_str("resources.read"));
        capabilities.push(String::from_str("tools.call"));
        let server = McpServerRecord {
            id: fresh_id(),
            name: String::from_str("filesystem"),
            transport: String::from_str("stdio"),
            command: String::from_str("npx @modelcontextprotocol/server-filesystem"),
            status: ResourceStatus::Active,
            capabilities,
            created_at: now,
            updated_at: now,
        };
        state.mcp_servers.push(server);
        let session_id = fresh_id();
        let welcome = MessageRecord {
            id: fresh_id(),
            session_id,
            role: MessageRole::Assistant,
            content: String::from_str(
                "The backend is now split into an independent agent-core crate and a thin API layer. If a configured provider such as Moonshot or OpenRouter is available, agent-core will try the configured model before falling back to a local response.",
            ),
            created_at: now,
            run_id: None,
        };
        let session = SessionRecord {
            id: session_id,
            title: String::from_str("Implementation Sandbox"),
            status: SessionStatus::Active,
            root_agent_id: String::from_str("default-root-agent"),
            created_at: now,
            updated_at: now,
            last_run_at: None,
            summary: String::from_str("Starter session seeded by agent-core."),
        };
        state.sessions.push(session);
        state.messages.push(welcome);
        proof {
            assert(state.subagents@.len() == 1);
            assert(is_seed_skill(r0, "research-skill"@, "Structured source-backed research workflow."@));
            assert(state.skills@ == upsert(seq![r0], p0));
            assert(is_seed_document(o0, "platform-overview"@, platform_overview()));
            assert(state.memory_documents@ == upsert(seq![o0], q0));
        }
        state
    }
}

} // verus!
