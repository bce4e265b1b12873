//! Long-term memory documents and their chunks.
//!
//! Splitting a document into chunks is not done here: a document is stored
//! with no chunks, and `index_memory_document` stores the chunks computed
//! for it.
use vstd::prelude::*;
use vstd::relations::sorted_by;

use crate::domain::{
    CreateMemoryDocumentRequest, MemoryChunkRecord, MemoryDocumentDetail, MemoryDocumentRecord,
    MemoryScope, UpdateMemoryDocumentRequest,
};
use crate::error::{
    not_found_message, CoreError, CoreResult, STATUS_BAD_REQUEST, STATUS_NOT_FOUND,
};
use crate::ids::{datetime_pattern, fresh_id, now_millis, now_with_label, utc_format, NIL_ID};
use crate::ordering::{by_rank_desc, sort_by_rank_desc, ties_in_order};
use crate::store::StoreState;
use crate::table::{
    clone_all, drop_owned, find_index, has_key, lemma_lookup_at, lookup,
    not_owned, owned, remove_key, remove_record, select_owned, take_all, upsert, upsert_record,
    BY_DOCUMENT,
};
use crate::scan::{summarize_text, summary_of};
use crate::store::runs::REPLY_SUMMARY_WORDS;
use crate::text::{is_blank, str_eq, trim, trimmed};

verus! {

/// How many words of a document's content make its summary.
pub const DOCUMENT_SUMMARY_WORDS: usize = 20;

/// The content of the memory note of a run: the request and the reply.
pub open spec fn run_note_content(user_content: Seq<char>, response: Seq<char>) -> Seq<char> {
    "User request: "@ + user_content + "\n\nAssistant response: "@ + response
}

/// The scope a document takes from its namespace when none is given.
pub open spec fn scope_for_namespace(namespace: Seq<char>) -> MemoryScope {
    if namespace == "session"@ {
        MemoryScope::Session
    } else if namespace == "global"@ {
        MemoryScope::Global
    } else {
        MemoryScope::Project
    }
}

/// A session-scoped document must name its owner session.
pub open spec fn scope_is_valid(d: MemoryDocumentRecord) -> bool {
    d.memory_scope == MemoryScope::Session ==> d.owner_session_id is Some
}

/// The scope a document takes from its namespace when none is given.
pub fn default_memory_scope_from_namespace(namespace: &str) -> (s: MemoryScope)
    ensures
        s == scope_for_namespace(namespace@),
{
    if str_eq(namespace, "session") {
        MemoryScope::Session
    } else if str_eq(namespace, "global") {
        MemoryScope::Global
    } else {
        MemoryScope::Project
    }
}

/// Refuses a session-scoped document that names no owner session.
pub fn validate_memory_document_scope(document: &MemoryDocumentRecord) -> (r: CoreResult<()>)
    ensures
        match r {
            Ok(()) => scope_is_valid(*document),
            Err(e) => !scope_is_valid(*document) && e.status == STATUS_BAD_REQUEST && e.message@
                == "session-scoped memory requires ownerSessionId"@,
        },
{
    if document.memory_scope == MemoryScope::Session && document.owner_session_id.is_none() {
        return Err(CoreError::bad_request("session-scoped memory requires ownerSessionId"));
    }
    Ok(())
}

/// The document a create request describes (before its checks), with the
/// given id, summary and time.
pub open spec fn requested_document(
    payload: CreateMemoryDocumentRequest,
    id: u128,
    summary: String,
    now: i64,
    title: String,
    namespace: String,
    source: String,
    content: String,
) -> MemoryDocumentRecord {
    MemoryDocumentRecord {
        id,
        title,
        namespace,
        source,
        memory_scope: match payload.memory_scope {
            Some(s) => s,
            None => scope_for_namespace(namespace@),
        },
        owner_session_id: payload.owner_session_id,
        owner_task_id: payload.owner_task_id,
        is_pinned: match payload.is_pinned {
            Some(p) => p,
            None => false,
        },
        content,
        summary,
        chunk_count: 0,
        created_at: now,
        updated_at: now,
    }
}

impl StoreState {
    /// All memory documents, most recently updated first.
    pub fn list_memory_documents(&self) -> (r: Vec<MemoryDocumentRecord>)
        ensures
            r@.to_multiset() == self.memory_documents@.to_multiset(),
            sorted_by(r@, by_rank_desc::<MemoryDocumentRecord>()),
            ties_in_order(r@, self.memory_documents@),
    {
        sort_by_rank_desc(clone_all(&self.memory_documents))
    }

    /// Stores a memory document from a request: title and content are
    /// required and trimmed; the namespace defaults to "global" and the
    /// source to "manual" (both trimmed); the scope defaults to the one the
    /// namespace implies; a session-scoped document must name its owner
    /// session. Its summary is the trimmed content's first words. The
    /// document is stored without chunks.
    pub fn create_memory_document(&mut self, payload: CreateMemoryDocumentRequest) -> (r:
        CoreResult<MemoryDocumentRecord>)
        requires
            old(self).wf(),
        ensures
            final(self).wf(),
            final(self).same_sessions(old(self)),
            final(self).same_runs(old(self)),
            final(self).same_tasks(old(self)),
            final(self).artifacts@ == old(self).artifacts@,
            final(self).skills@ == old(self).skills@,
            final(self).subagents@ == old(self).subagents@,
            final(self).providers@ == old(self).providers@,
            final(self).mcp_servers@ == old(self).mcp_servers@,
            final(self).memory_chunks@ == old(self).memory_chunks@,
            match r {
                Ok(d) => {
                    &&& trim(payload.title@).len() != 0
                    &&& trim(payload.content@).len() != 0
                    &&& d.id != NIL_ID
                    &&& d == requested_document(
                        payload,
                        d.id,
                        d.summary,
                        d.created_at,
                        d.title,
                        d.namespace,
                        d.source,
                        d.content,
                    )
                    &&& d.title@ == trim(payload.title@)
                    &&& d.content@ == trim(payload.content@)
                    &&& d.summary@ == summary_of(d.content@, DOCUMENT_SUMMARY_WORDS as nat)
                    &&& d.namespace@ == trim(
                        match payload.namespace {
                            Some(n) => n@,
                            None => "global"@,
                        },
                    )
                    &&& d.source@ == trim(
                        match payload.source {
                            Some(s) => s@,
                            None => "manual"@,
                        },
                    )
                    &&& scope_is_valid(d)
                    &&& final(self).memory_documents@ == upsert(old(self).memory_documents@, d)
                },
                Err(e) => {
                    &&& e.status == STATUS_BAD_REQUEST
                    &&& final(self).memory_documents@ == old(self).memory_documents@
                    &&& if trim(payload.title@).len() == 0 || trim(payload.content@).len() == 0 {
                        e.message@ == "memory documents require both title and content"@
                    } else {
                        &&& e.message@ == "session-scoped memory requires ownerSessionId"@
                        &&& payload.owner_session_id is None
                        &&& match payload.memory_scope {
                            Some(s) => s == MemoryScope::Session,
                            None => scope_for_namespace(
                                trim(
                                    match payload.namespace {
                                        Some(n) => n@,
                                        None => "global"@,
                                    },
                                ),
                            ) == MemoryScope::Session,
                        }
                    }
                },
            },
    {
        if is_blank(payload.title.as_str()) || is_blank(payload.content.as_str()) {
            return Err(CoreError::bad_request("memory documents require both title and content"));
        }
        let namespace = match &payload.namespace {
            Some(n) => trimmed(n.as_str()),
            None => trimmed("global"),
        };
        let source = match &payload.source {
            Some(s) => trimmed(s.as_str()),
            None => trimmed("manual"),
        };
        let memory_scope = match payload.memory_scope {
            Some(s) => s,
            None => default_memory_scope_from_namespace(namespace.as_str()),
        };
        let now = now_millis();
        let content = trimmed(payload.content.as_str());
        let summary = summarize_text(content.as_str(), DOCUMENT_SUMMARY_WORDS);
        let document = MemoryDocumentRecord {
            id: fresh_id(),
            title: trimmed(payload.title.as_str()),
            namespace,
            source,
            memory_scope,
            owner_session_id: payload.owner_session_id,
            owner_task_id: payload.owner_task_id,
            is_pinned: match payload.is_pinned {
                Some(p) => p,
                None => false,
            },
            content,
            summary,
            chunk_count: 0,
            created_at: now,
            updated_at: now,
        };
        match validate_memory_document_scope(&document) {
            Ok(()) => {},
            Err(e) => {
                return Err(e);
            },
        }
        upsert_record(&mut self.memory_documents, document.clone());
        Ok(document)
    }

    /// Changes a memory document where the request says (title and
    /// namespace trimmed); a document that is not session-scoped keeps no
    /// owner session; the result must still pass the scope check. The
    /// document's old chunks are dropped and its chunk count becomes zero.
    pub fn update_memory_document(
        &mut self,
        document_id: u128,
        payload: UpdateMemoryDocumentRequest,
    ) -> (r: CoreResult<MemoryDocumentRecord>)
        requires
            old(self).wf(),
        ensures
            final(self).wf(),
            final(self).same_sessions(old(self)),
            final(self).same_runs(old(self)),
            final(self).same_tasks(old(self)),
            final(self).artifacts@ == old(self).artifacts@,
            final(self).skills@ == old(self).skills@,
            final(self).subagents@ == old(self).subagents@,
            final(self).providers@ == old(self).providers@,
            final(self).mcp_servers@ == old(self).mcp_servers@,
            match lookup(old(self).memory_documents@, document_id) {
                None => {
                    &&& r matches Err(e)
                    &&& e.status == STATUS_NOT_FOUND
                    &&& e.message@ == not_found_message("memory document"@)
                    &&& final(self).memory_documents@ == old(self).memory_documents@
                    &&& final(self).memory_chunks@ == old(self).memory_chunks@
                },
                Some(prev) => {
                    let scope = match payload.memory_scope {
                        Some(s) => s,
                        None => prev.memory_scope,
                    };
                    let owner = if scope == MemoryScope::Session {
                        match payload.owner_session_id {
                            Some(o) => Some(o),
                            None => prev.owner_session_id,
                        }
                    } else {
                        None
                    };
                    if scope == MemoryScope::Session && owner is None {
                        &&& r matches Err(e)
                        &&& e.status == STATUS_BAD_REQUEST
                        &&& e.message@ == "session-scoped memory requires ownerSessionId"@
                        &&& final(self).memory_documents@ == old(self).memory_documents@
                        &&& final(self).memory_chunks@ == old(self).memory_chunks@
                    } else {
                        &&& r matches Ok(d)
                        &&& d == MemoryDocumentRecord {
                            title: d.title,
                            namespace: d.namespace,
                            memory_scope: scope,
                            owner_session_id: owner,
                            is_pinned: match payload.is_pinned {
                                Some(p) => p,
                                None => prev.is_pinned,
                            },
                            chunk_count: 0,
                            updated_at: d.updated_at,
                            ..prev
                        }
                        &&& d.title@ == match payload.title {
                            Some(t) => trim(t@),
                            None => prev.title@,
                        }
                        &&& d.namespace@ == match payload.namespace {
                            Some(n) => trim(n@),
                            None => prev.namespace@,
                        }
                        &&& final(self).memory_documents@ == upsert(old(self).memory_documents@, d)
                        &&& final(self).memory_chunks@ == not_owned::<BY_DOCUMENT, MemoryChunkRecord>(
                            old(self).memory_chunks@,
                            document_id,
                        )
                    }
                },
            },
    {
        let i = match find_index(&self.memory_documents, document_id) {
            Some(i) => i,
            None => {
                return Err(CoreError::not_found("memory document"));
            },
        };
        proof {
            lemma_lookup_at(self.memory_documents@, i as int);
        }
        let mut document = self.memory_documents[i].clone();
        if let Some(title) = payload.title {
            document.title = trimmed(title.as_str());
        }
        if let Some(namespace) = payload.namespace {
            document.namespace = trimmed(namespace.as_str());
        }
        if let Some(scope) = payload.memory_scope {
            document.memory_scope = scope;
        }
        if let Some(owner) = payload.owner_session_id {
            document.owner_session_id = Some(owner);
        }
        if document.memory_scope != MemoryScope::Session {
            document.owner_session_id = None;
        }
        if let Some(p) = payload.is_pinned {
            document.is_pinned = p;
        }
        document.updated_at = now_millis();
        match validate_memory_document_scope(&document) {
            Ok(()) => {},
            Err(e) => {
                return Err(e);
            },
        }
        let chunks = take_all(&mut self.memory_chunks);
        self.memory_chunks = drop_owned::<BY_DOCUMENT, MemoryChunkRecord>(chunks, document_id);
        document.chunk_count = 0;
        upsert_record(&mut self.memory_documents, document.clone());
        Ok(document)
    }

    /// Stores the chunks computed for a document, replacing its earlier
    /// chunks, and records their number on the document.
    pub fn index_memory_document(&mut self, document_id: u128, chunks: Vec<MemoryChunkRecord>) -> (r:
        CoreResult<MemoryDocumentRecord>)
        requires
            old(self).wf(),
            forall|i: int| 0 <= i < chunks@.len() ==> #[trigger] chunks@[i].document_id == document_id,
        ensures
            final(self).wf(),
            final(self).same_sessions(old(self)),
            final(self).same_runs(old(self)),
            final(self).same_tasks(old(self)),
            final(self).artifacts@ == old(self).artifacts@,
            final(self).skills@ == old(self).skills@,
            final(self).subagents@ == old(self).subagents@,
            final(self).providers@ == old(self).providers@,
            final(self).mcp_servers@ == old(self).mcp_servers@,
            match r {
                Ok(d) => {
                    &&& lookup(old(self).memory_documents@, document_id) matches Some(prev)
                    &&& d == MemoryDocumentRecord { chunk_count: chunks@.len() as usize, ..prev }
                    &&& final(self).memory_documents@ == upsert(old(self).memory_documents@, d)
                    &&& final(self).memory_chunks@ == not_owned::<BY_DOCUMENT, MemoryChunkRecord>(
                        old(self).memory_chunks@,
                        document_id,
                    ) + chunks@
                },
                Err(e) => {
                    &&& !has_key(old(self).memory_documents@, document_id)
                    &&& e.status == STATUS_NOT_FOUND
                    &&& e.message@ == not_found_message("memory document"@)
                    &&& final(self).memory_documents@ == old(self).memory_documents@
                    &&& final(self).memory_chunks@ == old(self).memory_chunks@
                },
            },
    {
        let i = match find_index(&self.memory_documents, document_id) {
            Some(i) => i,
            None => {
                return Err(CoreError::not_found("memory document"));
            },
        };
        proof {
            lemma_lookup_at(self.memory_documents@, i as int);
        }
        let mut document = self.memory_documents[i].clone();
        document.chunk_count = chunks.len();
        let old_chunks = take_all(&mut self.memory_chunks);
        let mut kept = drop_owned::<BY_DOCUMENT, MemoryChunkRecord>(old_chunks, document_id);
        let mut chunks = chunks;
        kept.append(&mut chunks);
        self.memory_chunks = kept;
        upsert_record(&mut self.memory_documents, document.clone());
        Ok(document)
    }

    /// Deletes a memory document and its chunks.
    pub fn delete_memory_document(&mut self, document_id: u128) -> (r: CoreResult<()>)
        requires
            old(self).wf(),
        ensures
            final(self).wf(),
            final(self).same_sessions(old(self)),
            final(self).same_runs(old(self)),
            final(self).same_tasks(old(self)),
            final(self).artifacts@ == old(self).artifacts@,
            final(self).skills@ == old(self).skills@,
            final(self).subagents@ == old(self).subagents@,
            final(self).providers@ == old(self).providers@,
            final(self).mcp_servers@ == old(self).mcp_servers@,
            match r {
                Ok(()) => {
                    &&& has_key(old(self).memory_documents@, document_id)
                    &&& final(self).memory_documents@ == remove_key(
                        old(self).memory_documents@,
                        document_id,
                    )
                    &&& final(self).memory_chunks@ == not_owned::<BY_DOCUMENT, MemoryChunkRecord>(
                        old(self).memory_chunks@,
                        document_id,
                    )
                },
                Err(e) => {
                    &&& !has_key(old(self).memory_documents@, document_id)
                    &&& e.status == STATUS_NOT_FOUND
                    &&& e.message@ == not_found_message("memory document"@)
                    &&& final(self).memory_documents@ == old(self).memory_documents@
                    &&& final(self).memory_chunks@ == old(self).memory_chunks@
                },
            },
    {
        if !remove_record(&mut self.memory_documents, document_id) {
            return Err(CoreError::not_found("memory document"));
        }
        let chunks = take_all(&mut self.memory_chunks);
        self.memory_chunks = drop_owned::<BY_DOCUMENT, MemoryChunkRecord>(chunks, document_id);
        Ok(())
    }

    /// A memory document with its chunks, in stored order.
    pub fn get_memory_document(&self, document_id: u128) -> (r: CoreResult<MemoryDocumentDetail>)
        requires
            self.wf(),
        ensures
            match r {
                Ok(detail) => {
                    &&& lookup(self.memory_documents@, document_id) == Some(detail.document)
                    &&& detail.chunks@ == owned::<BY_DOCUMENT, MemoryChunkRecord>(
                        self.memory_chunks@,
                        document_id,
                    )
                },
                Err(e) => !has_key(self.memory_documents@, document_id) && e.status
                    == STATUS_NOT_FOUND && e.message@ == not_found_message("memory document"@),
            },
    {
        let i = match find_index(&self.memory_documents, document_id) {
            Some(i) => i,
            None => {
                return Err(CoreError::not_found("memory document"));
            },
        };
        proof {
            lemma_lookup_at(self.memory_documents@, i as int);
        }
        let document = self.memory_documents[i].clone();
        let chunks = select_owned::<BY_DOCUMENT, MemoryChunkRecord>(&self.memory_chunks, document_id);
        Ok(MemoryDocumentDetail { document, chunks })
    }

    /// Writes the memory note of a completed run into the session's memory:
    /// a session-scoped, unpinned document in namespace "session" from
    /// source "run-summary", titled with the time it was written, holding the
    /// request and the reply, and summarized by the reply's first words. It
    /// is stored without chunks.
    pub fn write_run_memory_note(&mut self, session_id: u128, user_content: &str, response: &str) -> (r:
        CoreResult<MemoryDocumentRecord>)
        requires
            old(self).wf(),
        ensures
            final(self).wf(),
            final(self).same_sessions(old(self)),
            final(self).same_runs(old(self)),
            final(self).same_tasks(old(self)),
            final(self).artifacts@ == old(self).artifacts@,
            final(self).skills@ == old(self).skills@,
            final(self).subagents@ == old(self).subagents@,
            final(self).providers@ == old(self).providers@,
            final(self).mcp_servers@ == old(self).mcp_servers@,
            final(self).memory_chunks@ == old(self).memory_chunks@,
            r matches Ok(d) && {
                &&& d.id != NIL_ID
                &&& d.title@ == "Run note "@ + utc_format(d.created_at as int, datetime_pattern())
                &&& d.namespace@ == "session"@
                &&& d.source@ == "run-summary"@
                &&& d.memory_scope == MemoryScope::Session
                &&& d.owner_session_id == Some(session_id)
                &&& d.owner_task_id is None
                &&& !d.is_pinned
                &&& d.content@ == run_note_content(user_content@, response@)
                &&& d.summary@ == summary_of(response@, REPLY_SUMMARY_WORDS as nat)
                &&& d.chunk_count == 0
                &&& d.updated_at == d.created_at
                &&& final(self).memory_documents@ == upsert(old(self).memory_documents@, d)
            },
    {
        let pattern = "%Y-%m-%d %H:%M:%S";
        proof {
            assert(pattern@ == datetime_pattern());
        }
        let (now, stamp) = now_with_label(pattern);
        let mut title = String::from_str("Run note ");
        title.append(stamp.as_str());
        let mut content = String::from_str("User request: ");
        content.append(user_content);
        content.append("\n\nAssistant response: ");
        content.append(response);
        let document = MemoryDocumentRecord {
            id: fresh_id(),
            title,
            namespace: String::from_str("session"),
            source: String::from_str("run-summary"),
            memory_scope: MemoryScope::Session,
            owner_session_id: Some(session_id),
            owner_task_id: None,
            is_pinned: false,
            content,
            summary: summarize_text(response, REPLY_SUMMARY_WORDS),
            chunk_count: 0,
            created_at: now,
            updated_at: now,
        };
        upsert_record(&mut self.memory_documents, document.clone());
        Ok(document)
    }
}

} // verus!
