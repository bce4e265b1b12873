//! The artifacts a tool call leaves with its run: a JSON record of the call
//! and a snapshot of each file the tool wrote, stored under the call's
//! folder of the session workspace.
use vstd::prelude::*;
use vstd::utf8::encode_utf8;

use crate::domain::{
    ArtifactKind, ArtifactProducerKind, ArtifactRecord, ArtifactRenderMode, ToolInvocationRecord,
};
use crate::error::{not_found_message, CoreError, CoreResult, STATUS_NOT_FOUND};
use crate::ids::{format_uuid, fresh_id, now_millis, uuid_text, NIL_ID};
use crate::json::{json_pretty, json_quote, json_quote_str, json_to_pretty, json_valid};
use crate::store::StoreState;
use crate::table::{find_index, has_key, upsert, upsert_record, Keyed};
use crate::tool_loop::bool_json;
use crate::tools::{ToolArtifact, ToolArtifactContent};

verus! {

/// An artifact record with the text of its file.
#[derive(Debug)]
pub struct ArtifactFile {
    pub artifact: ArtifactRecord,
    pub content: String,
}

/// The folder of a tool call's artifacts in the session workspace.
pub open spec fn tool_call_folder(run_id: u128, invocation_id: u128) -> Seq<char> {
    "runs/"@ + uuid_text(run_id) + "/tools/"@ + uuid_text(invocation_id)
}

/// The record of a tool call as JSON: the tool, its arguments, its result,
/// whether it went through and its error, pretty-printed (or compact, if the
/// parts do not make valid JSON).
pub open spec fn call_record_text(inv: ToolInvocationRecord) -> Seq<char> {
    let compact = "{\"arguments\":"@ + inv.arguments_json@ + ",\"error\":"@ + match inv.error {
        Some(e) => json_quote(e@),
        None => "null"@,
    } + ",\"ok\":"@ + bool_json(inv.ok) + ",\"result\":"@ + inv.result_json@ + ",\"toolName\":"@
        + json_quote(inv.tool_name@) + "}"@;
    if json_valid(compact) {
        json_pretty(compact)
    } else {
        compact
    }
}

/// The size in bytes of a text, as `str::len` reports it.
pub open spec fn byte_size(text: Seq<char>) -> u64 {
    (encode_utf8(text).len() as usize) as u64
}

/// `a` is an artifact of the tool call `invocation_id` in this session, task
/// and run, made now by a tool.
pub open spec fn is_tool_call_artifact(
    a: ArtifactRecord,
    session_id: u128,
    task_id: u128,
    run_id: u128,
    invocation_id: u128,
) -> bool {
    &&& a.id != NIL_ID
    &&& a.session_id == session_id
    &&& a.task_id == task_id
    &&& a.run_id == run_id
    &&& a.producer_kind == ArtifactProducerKind::Tool
    &&& a.producer_ref_id == Some(invocation_id)
    &&& a.updated_at == a.created_at
}

/// `f` is the JSON record of the tool call `inv`.
pub open spec fn is_call_record(f: ArtifactFile, session_id: u128, task_id: u128, inv: ToolInvocationRecord) -> bool {
    let a = f.artifact;
    &&& is_tool_call_artifact(a, session_id, task_id, inv.run_id, inv.id)
    &&& a.path@ == tool_call_folder(inv.run_id, inv.id) + "/result.json"@
    &&& a.display_name@ == "result.json"@
    &&& a.description@ == "Tool call "@ + inv.tool_name@
    &&& a.kind == ArtifactKind::Data
    &&& a.render_mode == ArtifactRenderMode::Json
    &&& a.media_type@ == "application/json"@
    &&& f.content@ == call_record_text(inv)
    &&& a.size_bytes == byte_size(f.content@)
}

/// `f` is the snapshot of the file `out` that the tool call `inv` wrote.
pub open spec fn is_output_snapshot(
    f: ArtifactFile,
    session_id: u128,
    task_id: u128,
    inv: ToolInvocationRecord,
    out: ToolArtifact,
) -> bool {
    let a = f.artifact;
    &&& is_tool_call_artifact(a, session_id, task_id, inv.run_id, inv.id)
    &&& a.path@ == tool_call_folder(inv.run_id, inv.id) + "/outputs/workspace/"@
        + out.relative_path@
    &&& a.display_name == out.display_name
    &&& a.description == out.description
    &&& a.kind == out.kind
    &&& a.render_mode == out.render_mode
    &&& a.media_type == out.media_type
    &&& match out.content {
        ToolArtifactContent::Utf8(text) => f.content == text,
    }
    &&& a.size_bytes == byte_size(f.content@)
}

fn folder_of(run_id: u128, invocation_id: u128) -> (r: String)
    ensures
        r@ == tool_call_folder(run_id, invocation_id),
{
    let mut path = String::from_str("runs/");
    let run = format_uuid(run_id);
    path.append(run.as_str());
    path.append("/tools/");
    let call = format_uuid(invocation_id);
    path.append(call.as_str());
    path
}

fn call_record(inv: &ToolInvocationRecord) -> (r: String)
    ensures
        r@ == call_record_text(*inv),
{
    let mut compact = String::from_str("{\"arguments\":");
    compact.append(inv.arguments_json.as_str());
    compact.append(",\"error\":");
    match &inv.error {
        Some(e) => {
            let quoted = json_quote_str(e.as_str());
            compact.append(quoted.as_str());
        },
        None => compact.append("null"),
    }
    compact.append(",\"ok\":");
    if inv.ok {
        compact.append("true");
    } else {
        compact.append("false");
    }
    compact.append(",\"result\":");
    compact.append(inv.result_json.as_str());
    compact.append(",\"toolName\":");
    let name = json_quote_str(inv.tool_name.as_str());
    compact.append(name.as_str());
    compact.append("}");
    match json_to_pretty(compact.as_str()) {
        Some(pretty) => pretty,
        None => compact,
    }
}

fn size_of(text: &String) -> (n: u64)
    ensures
        n == byte_size(text@),
{
    text.as_str().len() as u64
}

/// The JSON record of a tool call, as an artifact of it.
pub fn call_record_artifact(session_id: u128, task_id: u128, inv: &ToolInvocationRecord) -> (f: ArtifactFile)
    ensures
        is_call_record(f, session_id, task_id, *inv),
{
    let mut path = folder_of(inv.run_id, inv.id);
    path.append("/result.json");
    let mut description = String::from_str("Tool call ");
    description.append(inv.tool_name.as_str());
    let content = call_record(inv);
    let now = now_millis();
    let size_bytes = size_of(&content);
    ArtifactFile {
        artifact: ArtifactRecord {
            id: fresh_id(),
            session_id,
            task_id,
            run_id: inv.run_id,
            path,
            display_name: String::from_str("result.json"),
            description,
            kind: ArtifactKind::Data,
            render_mode: ArtifactRenderMode::Json,
            media_type: String::from_str("application/json"),
            size_bytes,
            producer_kind: ArtifactProducerKind::Tool,
            producer_ref_id: Some(inv.id),
            created_at: now,
            updated_at: now,
        },
        content,
    }
}

/// The snapshot of a file a tool call wrote, as an artifact of the call.
pub fn output_snapshot_artifact(
    session_id: u128,
    task_id: u128,
    inv: &ToolInvocationRecord,
    out: &ToolArtifact,
) -> (f: ArtifactFile)
    ensures
        is_output_snapshot(f, session_id, task_id, *inv, *out),
{
    let mut path = folder_of(inv.run_id, inv.id);
    path.append("/outputs/workspace/");
    path.append(out.relative_path.as_str());
    let content = match &out.content {
        ToolArtifactContent::Utf8(text) => text.clone(),
    };
    let now = now_millis();
    let size_bytes = size_of(&content);
    ArtifactFile {
        artifact: ArtifactRecord {
            id: fresh_id(),
            session_id,
            task_id,
            run_id: inv.run_id,
            path,
            display_name: out.display_name.clone(),
            description: out.description.clone(),
            kind: out.kind,
            render_mode: out.render_mode,
            media_type: out.media_type.clone(),
            size_bytes,
            producer_kind: ArtifactProducerKind::Tool,
            producer_ref_id: Some(inv.id),
            created_at: now,
            updated_at: now,
        },
        content,
    }
}

/// The artifacts of `files`, in order.
pub open spec fn artifacts_of(files: Seq<ArtifactFile>) -> Seq<ArtifactRecord> {
    files.map_values(|f: ArtifactFile| f.artifact)
}

/// `s` with each of `rs` upserted in turn.
pub open spec fn upsert_each(s: Seq<ArtifactRecord>, rs: Seq<ArtifactRecord>) -> Seq<ArtifactRecord>
    decreases rs.len(),
{
    if rs.len() == 0 {
        s
    } else {
        upsert(upsert_each(s, rs.drop_last()), rs.last())
    }
}

impl StoreState {
    /// Stores the artifacts of a tool call: its JSON record first, then a
    /// snapshot of each file the tool wrote, in order. It returns them with
    /// the text of their files, which belong in the session workspace under
    /// their paths. The session, the task and the run must exist.
    pub fn record_tool_artifacts(
        &mut self,
        session_id: u128,
        task_id: u128,
        inv: &ToolInvocationRecord,
        outputs: &[ToolArtifact],
    ) -> (r: CoreResult<Vec<ArtifactFile>>)
        requires
            old(self).wf(),
        ensures
            final(self).wf(),
            final(self).same_sessions(old(self)),
            final(self).same_runs(old(self)),
            final(self).same_tasks(old(self)),
            final(self).same_catalog(old(self)),
            match r {
                Ok(files) => {
                    &&& has_key(old(self).sessions@, session_id)
                    &&& has_key(old(self).tasks@, task_id)
                    &&& has_key(old(self).runs@, inv.run_id)
                    &&& files@.len() == outputs@.len() + 1
                    &&& is_call_record(files@[0], session_id, task_id, *inv)
                    &&& forall|i: int|
                        0 <= i < outputs@.len() ==> is_output_snapshot(
                            #[trigger] files@[i + 1],
                            session_id,
                            task_id,
                            *inv,
                            outputs@[i],
                        )
                    &&& final(self).artifacts@ == upsert_each(old(self).artifacts@, artifacts_of(files@))
                },
                Err(e) => {
                    &&& e.status == STATUS_NOT_FOUND
                    &&& final(self).artifacts@ == old(self).artifacts@
                    &&& if !has_key(old(self).sessions@, session_id) {
                        e.message@ == not_found_message("session"@)
                    } else if !has_key(old(self).tasks@, task_id) {
                        e.message@ == not_found_message("task"@)
                    } else {
                        !has_key(old(self).runs@, inv.run_id) && e.message@ == not_found_message(
                            "run"@,
                        )
                    }
                },
            },
    {
        if find_index(&self.sessions, session_id).is_none() {
            return Err(CoreError::not_found("session"));
        }
        if find_index(&self.tasks, task_id).is_none() {
            return Err(CoreError::not_found("task"));
        }
        if find_index(&self.runs, inv.run_id).is_none() {
            return Err(CoreError::not_found("run"));
        }
        let ghost start = self.artifacts@;
        let mut files: Vec<ArtifactFile> = Vec::new();
        let first = call_record_artifact(session_id, task_id, inv);
        let ghost fa = first.artifact;
        upsert_record(&mut self.artifacts, first.artifact.clone());
        files.push(first);
        proof {
            assert(artifacts_of(files@) =~= seq![fa]);
            assert(seq![fa].drop_last() =~= Seq::<ArtifactRecord>::empty());
            assert(seq![fa].last() == fa);
            assert(upsert_each(start, Seq::<ArtifactRecord>::empty()) == start);
            assert(upsert_each(start, seq![fa]) == upsert(upsert_each(start, seq![fa].drop_last()), fa));
        }
        let mut i: usize = 0;
        while i < outputs.len()
            invariant
                i <= outputs.len(),
                files@.len() == i + 1,
                self.wf(),
                self.same_sessions(old(self)),
                self.same_runs(old(self)),
                self.same_tasks(old(self)),
                self.same_catalog(old(self)),
                is_call_record(files@[0], session_id, task_id, *inv),
                forall|k: int|
                    0 <= k < i ==> is_output_snapshot(
                        #[trigger] files@[k + 1],
                        session_id,
                        task_id,
                        *inv,
                        outputs@[k],
                    ),
                self.artifacts@ == upsert_each(start, artifacts_of(files@)),
            decreases outputs.len() - i,
        {
            let f = output_snapshot_artifact(session_id, task_id, inv, &outputs[i]);
            let ghost before = files@;
            upsert_record(&mut self.artifacts, f.artifact.clone());
            files.push(f);
            proof {
                assert(artifacts_of(files@).drop_last() =~= artifacts_of(before));
                assert(files@[i + 1] == f);
            }
            i = i + 1;
        }
        Ok(files)
    }
}

} // verus!
