//! The catalogue: skills, subagents, provider accounts and MCP servers.
use vstd::prelude::*;
use vstd::relations::sorted_by;

use crate::domain::{
    models_view, CapabilityEnvelope, CreateMcpServerRequest, CreateProviderRequest,
    CreateSkillRequest, CreateSubagentRequest, McpServerRecord, McpServerView, ProviderAccountRecord,
    ProviderAccountView, ProviderModelRecord, ResourceStatus, SkillRecord,
    SubagentRecord, TestResult, UpdateProviderRequest, UpdateSkillRequest, UpdateSubagentRequest,
};
use crate::error::{not_found_message, CoreError, CoreResult, STATUS_NOT_FOUND};
use crate::ids::{fresh_id, now_millis, NIL_ID};
use crate::ordering::{by_name, lemma_multiset_map, sort_by_name};
use crate::store::StoreState;
use crate::table::{
    clone_all, find_index, has_key, key_index, lemma_lookup_at, lemma_upsert, lookup, upsert,
    upsert_record, Keyed,
};

verus! {

/// The views of a list of provider accounts.
pub open spec fn providers_view(s: Seq<ProviderAccountRecord>) -> Seq<ProviderAccountView> {
    s.map_values(|p: ProviderAccountRecord| p@)
}

/// The views of a list of MCP servers.
pub open spec fn servers_view(s: Seq<McpServerRecord>) -> Seq<McpServerView> {
    s.map_values(|m: McpServerRecord| m@)
}

/// Copies of provider accounts, in order.
pub fn clone_providers(v: &Vec<ProviderAccountRecord>) -> (r: Vec<ProviderAccountRecord>)
    ensures
        providers_view(r@) == providers_view(v@),
{
    let mut r: Vec<ProviderAccountRecord> = Vec::new();
    let mut i: usize = 0;
    while i < v.len()
        invariant
            i <= v.len(),
            providers_view(r@) == providers_view(v@.take(i as int)),
        decreases v.len() - i,
    {
        let c = v[i].clone();
        let ghost before = r@;
        r.push(c);
        proof {
            assert(providers_view(r@) =~= providers_view(before).push(c@));
            assert(v@.take(i + 1) =~= v@.take(i as int).push(v@[i as int]));
            assert(providers_view(v@.take(i + 1)) =~= providers_view(v@.take(i as int)).push(
                v@[i as int]@,
            ));
        }
        i = i + 1;
    }
    proof {
        assert(v@.take(v.len() as int) =~= v@);
    }
    r
}

/// Copies of MCP servers, in order.
pub fn clone_servers(v: &Vec<McpServerRecord>) -> (r: Vec<McpServerRecord>)
    ensures
        servers_view(r@) == servers_view(v@),
{
    let mut r: Vec<McpServerRecord> = Vec::new();
    let mut i: usize = 0;
    while i < v.len()
        invariant
            i <= v.len(),
            servers_view(r@) == servers_view(v@.take(i as int)),
        decreases v.len() - i,
    {
        let c = v[i].clone();
        let ghost before = r@;
        r.push(c);
        proof {
            assert(servers_view(r@) =~= servers_view(before).push(c@));
            assert(v@.take(i + 1) =~= v@.take(i as int).push(v@[i as int]));
            assert(servers_view(v@.take(i + 1)) =~= servers_view(v@.take(i as int)).push(
                v@[i as int]@,
            ));
        }
        i = i + 1;
    }
    proof {
        assert(v@.take(v.len() as int) =~= v@);
    }
    r
}

impl StoreState {
    /// All skills, by name.
    pub fn list_skills(&self) -> (r: Vec<SkillRecord>)
        ensures
            r@.to_multiset() == self.skills@.to_multiset(),
            sorted_by(r@, by_name::<SkillRecord>()),
    {
        sort_by_name(clone_all(&self.skills))
    }

    /// Registers an active skill.
    pub fn create_skill(&mut self, payload: CreateSkillRequest) -> (skill: SkillRecord)
        requires
            old(self).wf(),
        ensures
            final(self).wf(),
            skill.id != NIL_ID,
            skill.name == payload.name,
            skill.description == payload.description,
            skill.status == ResourceStatus::Active,
            skill.created_at == skill.updated_at,
            final(self).skills@ == upsert(old(self).skills@, skill),
            final(self).same_sessions(old(self)),
            final(self).same_runs(old(self)),
            final(self).same_tasks(old(self)),
            final(self).artifacts@ == old(self).artifacts@,
            final(self).subagents@ == old(self).subagents@,
            final(self).providers@ == old(self).providers@,
            final(self).mcp_servers@ == old(self).mcp_servers@,
            final(self).memory_documents@ == old(self).memory_documents@,
            final(self).memory_chunks@ == old(self).memory_chunks@,
    {
        let now = now_millis();
        let skill = SkillRecord {
            id: fresh_id(),
            name: payload.name,
            description: payload.description,
            status: ResourceStatus::Active,
            created_at: now,
            updated_at: now,
        };
        upsert_record(&mut self.skills, skill.clone());
        skill
    }

    /// Changes a skill's description and status where the request gives them.
    pub fn update_skill(&mut self, skill_id: u128, payload: UpdateSkillRequest) -> (r: CoreResult<
        SkillRecord,
    >)
        requires
            old(self).wf(),
        ensures
            final(self).wf(),
            final(self).same_sessions(old(self)),
            final(self).same_runs(old(self)),
            final(self).same_tasks(old(self)),
            final(self).artifacts@ == old(self).artifacts@,
            final(self).subagents@ == old(self).subagents@,
            final(self).providers@ == old(self).providers@,
            final(self).mcp_servers@ == old(self).mcp_servers@,
            final(self).memory_documents@ == old(self).memory_documents@,
            final(self).memory_chunks@ == old(self).memory_chunks@,
            match r {
                Ok(skill) => {
                    &&& lookup(old(self).skills@, skill_id) matches Some(prev)
                    &&& skill == SkillRecord {
                        description: match payload.description {
                            Some(d) => d,
                            None => prev.description,
                        },
                        status: match payload.status {
                            Some(s) => s,
                            None => prev.status,
                        },
                        updated_at: skill.updated_at,
                        ..prev
                    }
                    &&& final(self).skills@ == upsert(old(self).skills@, skill)
                },
                Err(e) => !has_key(old(self).skills@, skill_id) && e.status == STATUS_NOT_FOUND
                    && e.message@ == not_found_message("skill"@) && final(self).skills@ == old(self).skills@,
            },
    {
        let i = match find_index(&self.skills, skill_id) {
            Some(i) => i,
            None => {
                return Err(CoreError::not_found("skill"));
            },
        };
        proof {
            lemma_lookup_at(self.skills@, i as int);
        }
        let mut skill = self.skills[i].clone();
        if let Some(d) = payload.description {
            skill.description = d;
        }
        if let Some(s) = payload.status {
            skill.status = s;
        }
        skill.updated_at = now_millis();
        upsert_record(&mut self.skills, skill.clone());
        Ok(skill)
    }

    /// All subagents, by name.
    pub fn list_subagents(&self) -> (r: Vec<SubagentRecord>)
        ensures
            r@.to_multiset() == self.subagents@.to_multiset(),
            sorted_by(r@, by_name::<SubagentRecord>()),
    {
        sort_by_name(clone_all(&self.subagents))
    }

    /// Registers an active subagent.
    pub fn create_subagent(&mut self, payload: CreateSubagentRequest) -> (subagent: SubagentRecord)
        requires
            old(self).wf(),
        ensures
            final(self).wf(),
            subagent.id != NIL_ID,
            subagent.name == payload.name,
            subagent.description == payload.description,
            subagent.scope == payload.scope,
            subagent.max_steps == payload.max_steps,
            subagent.status == ResourceStatus::Active,
            subagent.created_at == subagent.updated_at,
            final(self).subagents@ == upsert(old(self).subagents@, subagent),
            final(self).same_sessions(old(self)),
            final(self).same_runs(old(self)),
            final(self).same_tasks(old(self)),
            final(self).artifacts@ == old(self).artifacts@,
            final(self).skills@ == old(self).skills@,
            final(self).providers@ == old(self).providers@,
            final(self).mcp_servers@ == old(self).mcp_servers@,
            final(self).memory_documents@ == old(self).memory_documents@,
            final(self).memory_chunks@ == old(self).memory_chunks@,
    {
        let now = now_millis();
        let subagent = SubagentRecord {
            id: fresh_id(),
            name: payload.name,
            description: payload.description,
            scope: payload.scope,
            max_steps: payload.max_steps,
            status: ResourceStatus::Active,
            created_at: now,
            updated_at: now,
        };
        upsert_record(&mut self.subagents, subagent.clone());
        subagent
    }

    /// The subagent with this id.
    pub fn get_subagent(&self, subagent_id: u128) -> (r: CoreResult<SubagentRecord>)
        requires
            self.wf(),
        ensures
            match r {
                Ok(s) => lookup(self.subagents@, subagent_id) == Some(s),
                Err(e) => !has_key(self.subagents@, subagent_id) && e.status == STATUS_NOT_FOUND
                    && e.message@ == not_found_message("subagent"@),
            },
    {
        match find_index(&self.subagents, subagent_id) {
            Some(i) => {
                proof {
                    lemma_lookup_at(self.subagents@, i as int);
                }
                Ok(self.subagents[i].clone())
            },
            None => Err(CoreError::not_found("subagent")),
        }
    }

    /// Changes a subagent's description, scope, step budget and status where
    /// the request gives them.
    pub fn update_subagent(&mut self, subagent_id: u128, payload: UpdateSubagentRequest) -> (r:
        CoreResult<SubagentRecord>)
        requires
            old(self).wf(),
        ensures
            final(self).wf(),
            final(self).same_sessions(old(self)),
            final(self).same_runs(old(self)),
            final(self).same_tasks(old(self)),
            final(self).artifacts@ == old(self).artifacts@,
            final(self).skills@ == old(self).skills@,
            final(self).providers@ == old(self).providers@,
            final(self).mcp_servers@ == old(self).mcp_servers@,
            final(self).memory_documents@ == old(self).memory_documents@,
            final(self).memory_chunks@ == old(self).memory_chunks@,
            match r {
                Ok(s) => {
                    &&& lookup(old(self).subagents@, subagent_id) matches Some(prev)
                    &&& s == SubagentRecord {
                        description: match payload.description {
                            Some(d) => d,
                            None => prev.description,
                        },
                        scope: match payload.scope {
                            Some(x) => x,
                            None => prev.scope,
                        },
                        max_steps: match payload.max_steps {
                            Some(m) => m,
                            None => prev.max_steps,
                        },
                        status: match payload.status {
                            Some(x) => x,
                            None => prev.status,
                        },
                        updated_at: s.updated_at,
                        ..prev
                    }
                    &&& final(self).subagents@ == upsert(old(self).subagents@, s)
                },
                Err(e) => !has_key(old(self).subagents@, subagent_id) && e.status
                    == STATUS_NOT_FOUND && e.message@ == not_found_message("subagent"@) && final(self).subagents@ == old(self).subagents@,
            },
    {
        let i = match find_index(&self.subagents, subagent_id) {
            Some(i) => i,
            None => {
                return Err(CoreError::not_found("subagent"));
            },
        };
        proof {
            lemma_lookup_at(self.subagents@, i as int);
        }
        let mut s = self.subagents[i].clone();
        if let Some(d) = payload.description {
            s.description = d;
        }
        if let Some(x) = payload.scope {
            s.scope = x;
        }
        if let Some(m) = payload.max_steps {
            s.max_steps = m;
        }
        if let Some(x) = payload.status {
            s.status = x;
        }
        s.updated_at = now_millis();
        upsert_record(&mut self.subagents, s.clone());
        Ok(s)
    }

    /// All provider accounts, by display name.
    pub fn list_providers(&self) -> (r: Vec<ProviderAccountRecord>)
        ensures
            providers_view(r@).to_multiset() == providers_view(self.providers@).to_multiset(),
            sorted_by(r@, by_name::<ProviderAccountRecord>()),
    {
        let copies = clone_providers(&self.providers);
        let sorted = sort_by_name(copies);
        proof {
            lemma_multiset_map(sorted@, copies@, |p: ProviderAccountRecord| p@);
        }
        sorted
    }

    /// Registers an active provider account without models.
    pub fn create_provider(&mut self, payload: CreateProviderRequest) -> (p: ProviderAccountRecord)
        requires
            old(self).wf(),
        ensures
            final(self).wf(),
            p.id != NIL_ID,
            p.provider_type == payload.provider_type,
            p.display_name@ == payload.display_name@,
            p.base_url == payload.base_url,
            p.status == ResourceStatus::Active,
            p.created_at == p.updated_at,
            p@.models.len() == 0,
            has_key(final(self).providers@, p.id),
            lookup(final(self).providers@, p.id).unwrap()@ == p@,
            forall|id: u128| id != p.id ==> #[trigger] lookup(final(self).providers@, id) == lookup(
                old(self).providers@,
                id,
            ),
            final(self).same_sessions(old(self)),
            final(self).same_runs(old(self)),
            final(self).same_tasks(old(self)),
            final(self).artifacts@ == old(self).artifacts@,
            final(self).skills@ == old(self).skills@,
            final(self).subagents@ == old(self).subagents@,
            final(self).mcp_servers@ == old(self).mcp_servers@,
            final(self).memory_documents@ == old(self).memory_documents@,
            final(self).memory_chunks@ == old(self).memory_chunks@,
    {
        let now = now_millis();
        let provider = ProviderAccountRecord {
            id: fresh_id(),
            provider_type: payload.provider_type,
            display_name: payload.display_name,
            base_url: payload.base_url,
            status: ResourceStatus::Active,
            created_at: now,
            updated_at: now,
            models: Vec::new(),
        };
        let copy = provider.clone();
        proof {
            lemma_upsert(self.providers@, provider);
        }
        upsert_record(&mut self.providers, provider);
        copy
    }

    /// The provider account with this id.
    pub fn get_provider(&self, provider_id: u128) -> (r: CoreResult<ProviderAccountRecord>)
        requires
            self.wf(),
        ensures
            match r {
                Ok(p) => has_key(self.providers@, provider_id) && lookup(
                    self.providers@,
                    provider_id,
                ).unwrap()@ == p@,
                Err(e) => !has_key(self.providers@, provider_id) && e.status == STATUS_NOT_FOUND
                    && e.message@ == not_found_message("provider"@),
            },
    {
        match find_index(&self.providers, provider_id) {
            Some(i) => {
                proof {
                    lemma_lookup_at(self.providers@, i as int);
                }
                Ok(self.providers[i].clone())
            },
            None => Err(CoreError::not_found("provider")),
        }
    }

    /// Changes a provider's display name, base URL and status where the
    /// request gives them.
    pub fn update_provider(&mut self, provider_id: u128, payload: UpdateProviderRequest) -> (r:
        CoreResult<ProviderAccountRecord>)
        requires
            old(self).wf(),
        ensures
            final(self).wf(),
            final(self).same_sessions(old(self)),
            final(self).same_runs(old(self)),
            final(self).same_tasks(old(self)),
            final(self).artifacts@ == old(self).artifacts@,
            final(self).skills@ == old(self).skills@,
            final(self).subagents@ == old(self).subagents@,
            final(self).mcp_servers@ == old(self).mcp_servers@,
            final(self).memory_documents@ == old(self).memory_documents@,
            final(self).memory_chunks@ == old(self).memory_chunks@,
            match r {
                Ok(p) => {
                    let prev = lookup(old(self).providers@, provider_id).unwrap();
                    &&& has_key(old(self).providers@, provider_id)
                    &&& final(self).providers@ == old(self).providers@.update(
                        key_index(old(self).providers@, provider_id),
                        final(self).providers@[key_index(old(self).providers@, provider_id)],
                    )
                    &&& final(self).providers@[key_index(old(self).providers@, provider_id)]@ == p@
                    &&& p@ == ProviderAccountView {
                        display_name: match payload.display_name {
                            Some(d) => d@,
                            None => prev@.display_name,
                        },
                        base_url: match payload.base_url {
                            Some(u) => Some(u),
                            None => prev.base_url,
                        },
                        status: match payload.status {
                            Some(s) => s,
                            None => prev.status,
                        },
                        updated_at: p.updated_at,
                        ..prev@
                    }
                },
                Err(e) => !has_key(old(self).providers@, provider_id) && e.status
                    == STATUS_NOT_FOUND && e.message@ == not_found_message("provider"@) && final(self).providers@ == old(self).providers@,
            },
    {
        let i = match find_index(&self.providers, provider_id) {
            Some(i) => i,
            None => {
                return Err(CoreError::not_found("provider"));
            },
        };
        proof {
            lemma_lookup_at(self.providers@, i as int);
        }
        let ghost before = self.providers@;
        let mut p = self.providers.remove(i);
        if let Some(d) = payload.display_name {
            p.display_name = d;
        }
        if let Some(u) = payload.base_url {
            p.base_url = Some(u);
        }
        if let Some(s) = payload.status {
            p.status = s;
        }
        p.updated_at = now_millis();
        let copy = p.clone();
        self.providers.insert(i, p);
        proof {
            assert(self.providers@ =~= before.update(i as int, self.providers@[i as int]));
            assert forall|a: int, b: int|
                0 <= a < self.providers@.len() && 0 <= b < self.providers@.len() && a != b implies #[trigger] self.providers@[a].key_of()
                != #[trigger] self.providers@[b].key_of() by {
                assert(before[a].key_of() == self.providers@[a].key_of());
                assert(before[b].key_of() == self.providers@[b].key_of());
            }
        }
        Ok(copy)
    }

    /// The models of a provider account.
    pub fn list_provider_models(&self, provider_id: u128) -> (r: CoreResult<Vec<ProviderModelRecord>>)
        requires
            self.wf(),
        ensures
            match r {
                Ok(models) => has_key(self.providers@, provider_id) && models_view(models@)
                    == lookup(self.providers@, provider_id).unwrap()@.models,
                Err(e) => !has_key(self.providers@, provider_id) && e.status == STATUS_NOT_FOUND
                    && e.message@ == not_found_message("provider"@),
            },
    {
        match find_index(&self.providers, provider_id) {
            Some(i) => {
                proof {
                    lemma_lookup_at(self.providers@, i as int);
                }
                let p = self.providers[i].clone();
                Ok(p.models)
            },
            None => Err(CoreError::not_found("provider")),
        }
    }

    /// Replaces a provider's base URL and models.
    pub fn replace_provider_models(
        &mut self,
        provider_id: u128,
        base_url: Option<String>,
        models: Vec<ProviderModelRecord>,
    ) -> (r: CoreResult<ProviderAccountRecord>)
        requires
            old(self).wf(),
        ensures
            final(self).wf(),
            final(self).same_sessions(old(self)),
            final(self).same_runs(old(self)),
            final(self).same_tasks(old(self)),
            final(self).artifacts@ == old(self).artifacts@,
            final(self).skills@ == old(self).skills@,
            final(self).subagents@ == old(self).subagents@,
            final(self).mcp_servers@ == old(self).mcp_servers@,
            final(self).memory_documents@ == old(self).memory_documents@,
            final(self).memory_chunks@ == old(self).memory_chunks@,
            match r {
                Ok(p) => {
                    let prev = lookup(old(self).providers@, provider_id).unwrap();
                    let k = key_index(old(self).providers@, provider_id);
                    &&& has_key(old(self).providers@, provider_id)
                    &&& final(self).providers@ == old(self).providers@.update(
                        k,
                        ProviderAccountRecord {
                            base_url,
                            models,
                            updated_at: p.updated_at,
                            ..prev
                        },
                    )
                    &&& final(self).providers@[k]@ == p@
                },
                Err(e) => !has_key(old(self).providers@, provider_id) && e.status
                    == STATUS_NOT_FOUND && e.message@ == not_found_message("provider"@) && final(self).providers@ == old(self).providers@,
            },
    {
        let i = match find_index(&self.providers, provider_id) {
            Some(i) => i,
            None => {
                return Err(CoreError::not_found("provider"));
            },
        };
        proof {
            lemma_lookup_at(self.providers@, i as int);
        }
        let ghost before = self.providers@;
        let prev = self.providers.remove(i);
        let p = ProviderAccountRecord { base_url, models, updated_at: now_millis(), ..prev };
        let copy = p.clone();
        self.providers.insert(i, p);
        proof {
            assert(self.providers@ =~= before.update(i as int, self.providers@[i as int]));
            assert forall|a: int, b: int|
                0 <= a < self.providers@.len() && 0 <= b < self.providers@.len() && a != b implies #[trigger] self.providers@[a].key_of()
                != #[trigger] self.providers@[b].key_of() by {
                assert(before[a].key_of() == self.providers@[a].key_of());
                assert(before[b].key_of() == self.providers@[b].key_of());
            }
        }
        Ok(copy)
    }

    /// All MCP servers, by name.
    pub fn list_mcp_servers(&self) -> (r: Vec<McpServerRecord>)
        ensures
            servers_view(r@).to_multiset() == servers_view(self.mcp_servers@).to_multiset(),
            sorted_by(r@, by_name::<McpServerRecord>()),
    {
        let copies = clone_servers(&self.mcp_servers);
        let sorted = sort_by_name(copies);
        proof {
            lemma_multiset_map(sorted@, copies@, |m: McpServerRecord| m@);
        }
        sorted
    }

    /// Registers an active MCP server that can call tools and read resources.
    pub fn create_mcp_server(&mut self, payload: CreateMcpServerRequest) -> (m: McpServerRecord)
        requires
            old(self).wf(),
        ensures
            final(self).wf(),
            m.id != NIL_ID,
            m.name@ == payload.name@,
            m.transport@ == payload.transport@,
            m.command@ == payload.command@,
            m.status == ResourceStatus::Active,
            m.capabilities@.len() == 2,
            m.capabilities@[0]@ == "tools.call"@,
            m.capabilities@[1]@ == "resources.read"@,
            m.created_at == m.updated_at,
            has_key(final(self).mcp_servers@, m.id),
            lookup(final(self).mcp_servers@, m.id).unwrap()@ == m@,
            forall|id: u128| id != m.id ==> #[trigger] lookup(final(self).mcp_servers@, id)
                == lookup(old(self).mcp_servers@, id),
            final(self).same_sessions(old(self)),
            final(self).same_runs(old(self)),
            final(self).same_tasks(old(self)),
            final(self).artifacts@ == old(self).artifacts@,
            final(self).skills@ == old(self).skills@,
            final(self).subagents@ == old(self).subagents@,
            final(self).providers@ == old(self).providers@,
            final(self).memory_documents@ == old(self).memory_documents@,
            final(self).memory_chunks@ == old(self).memory_chunks@,
    {
        let now = now_millis();
        let server = McpServerRecord {
            id: fresh_id(),
            name: payload.name,
            transport: payload.transport,
            command: payload.command,
            status: ResourceStatus::Active,
            capabilities: vec![String::from_str("tools.call"), String::from_str("resources.read")],
            created_at: now,
            updated_at: now,
        };
        let copy = server.clone();
        proof {
            lemma_upsert(self.mcp_servers@, server);
        }
        upsert_record(&mut self.mcp_servers, server);
        copy
    }

    /// The MCP server with this id.
    pub fn get_mcp_server(&self, server_id: u128) -> (r: CoreResult<McpServerRecord>)
        requires
            self.wf(),
        ensures
            match r {
                Ok(m) => has_key(self.mcp_servers@, server_id) && lookup(
                    self.mcp_servers@,
                    server_id,
                ).unwrap()@ == m@,
                Err(e) => !has_key(self.mcp_servers@, server_id) && e.status == STATUS_NOT_FOUND
                    && e.message@ == not_found_message("mcp server"@),
            },
    {
        match find_index(&self.mcp_servers, server_id) {
            Some(i) => {
                proof {
                    lemma_lookup_at(self.mcp_servers@, i as int);
                }
                Ok(self.mcp_servers[i].clone())
            },
            None => Err(CoreError::not_found("mcp server")),
        }
    }

    /// Reports an MCP server as reachable through its transport.
    pub fn test_mcp_server(&self, server_id: u128) -> (r: CoreResult<TestResult>)
        requires
            self.wf(),
        ensures
            match r {
                Ok(t) => {
                    let m = lookup(self.mcp_servers@, server_id).unwrap();
                    &&& has_key(self.mcp_servers@, server_id)
                    &&& t.ok
                    &&& t.message@ == m.name@ + " is reachable in this prototype via "@
                        + m.transport@ + " transport."@
                },
                Err(e) => !has_key(self.mcp_servers@, server_id) && e.status == STATUS_NOT_FOUND
                    && e.message@ == not_found_message("mcp server"@),
            },
    {
        match find_index(&self.mcp_servers, server_id) {
            Some(i) => {
                proof {
                    lemma_lookup_at(self.mcp_servers@, i as int);
                }
                let server = &self.mcp_servers[i];
                let mut message = server.name.clone();
                message.append(" is reachable in this prototype via ");
                message.append(server.transport.as_str());
                message.append(" transport.");
                Ok(TestResult { ok: true, message })
            },
            None => Err(CoreError::not_found("mcp server")),
        }
    }

    /// The capabilities of an MCP server.
    pub fn get_mcp_capabilities(&self, server_id: u128) -> (r: CoreResult<CapabilityEnvelope>)
        requires
            self.wf(),
        ensures
            match r {
                Ok(c) => has_key(self.mcp_servers@, server_id) && c.capabilities@ == lookup(
                    self.mcp_servers@,
                    server_id,
                ).unwrap().capabilities@,
                Err(e) => !has_key(self.mcp_servers@, server_id) && e.status == STATUS_NOT_FOUND
                    && e.message@ == not_found_message("mcp server"@),
            },
    {
        match find_index(&self.mcp_servers, server_id) {
            Some(i) => {
                proof {
                    lemma_lookup_at(self.mcp_servers@, i as int);
                }
                let server = self.mcp_servers[i].clone();
                Ok(CapabilityEnvelope { capabilities: server.capabilities })
            },
            None => Err(CoreError::not_found("mcp server")),
        }
    }
}

} // verus!
