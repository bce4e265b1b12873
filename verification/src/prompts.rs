//! The local reply a run gives when no model can answer.
use vstd::prelude::*;

use crate::domain::MemorySearchHit;
use crate::error::CoreResult;
use crate::routing::ProviderSelection;
use crate::scan::{decimal, decimal_string};

verus! {

/// A memory hit as the reply names it: the document's title and namespace.
pub open spec fn hit_label(h: MemorySearchHit) -> Seq<char> {
    h.document_title@ + " ["@ + h.namespace@ + "]"@
}

/// The labels of the hits, separated by commas.
pub open spec fn hit_labels(hits: Seq<MemorySearchHit>) -> Seq<char>
    decreases hits.len(),
{
    if hits.len() == 0 {
        Seq::empty()
    } else if hits.len() == 1 {
        hit_label(hits[0])
    } else {
        hit_labels(hits.drop_last()) + ", "@ + hit_label(hits.last())
    }
}

/// The sentence about long-term memory.
pub open spec fn retrieval_note(hits: Seq<MemorySearchHit>) -> Seq<char> {
    if hits.len() == 0 {
        "No long-term memory hits matched strongly enough for injection."@
    } else {
        "Relevant memory hits: "@ + hit_labels(hits) + "."@
    }
}

/// The sentence about the provider and model.
pub open spec fn provider_note(selection: Option<ProviderSelection>) -> Seq<char> {
    match selection {
        Some(s) => "Selected provider "@ + s.provider_name@ + " using model "@ + s.model_name@
            + "."@,
        None => "No active provider/model pair was available."@,
    }
}

/// The local reply: how many provider accounts are configured, the provider
/// note, the memory note, and the user's words quoted back.
pub open spec fn fallback_text(
    selection: Option<ProviderSelection>,
    hits: Seq<MemorySearchHit>,
    user_content: Seq<char>,
    providers_count: nat,
) -> Seq<char> {
    "This run was processed by the decoupled agent-core runtime. It is currently configured with "@
        + decimal(providers_count) + " provider account(s). "@ + provider_note(selection) + " "@
        + retrieval_note(hits)
        + " The runtime will fall back to this local response path whenever upstream model invocation is unavailable.\n\nYou said: "@
        + user_content
}

fn write_retrieval_note(hits: &[MemorySearchHit]) -> (r: String)
    ensures
        r@ == retrieval_note(hits@),
{
    if hits.len() == 0 {
        return String::from_str("No long-term memory hits matched strongly enough for injection.");
    }
    let mut joined = String::new();
    let mut i: usize = 0;
    while i < hits.len()
        invariant
            i <= hits.len(),
            joined@ == hit_labels(hits@.take(i as int)),
        decreases hits.len() - i,
    {
        proof {
            assert(hits@.take(i + 1).drop_last() =~= hits@.take(i as int));
            assert(hits@.take(i + 1).last() == hits@[i as int]);
        }
        if i > 0 {
            joined.append(", ");
        }
        joined.append(hits[i].document_title.as_str());
        joined.append(" [");
        joined.append(hits[i].namespace.as_str());
        joined.append("]");
        proof {
            if i > 0 {
                assert(joined@ =~= hit_labels(hits@.take(i as int)) + ", "@ + hit_label(hits@[i as int]));
            } else {
                assert(joined@ =~= hit_label(hits@[i as int]));
            }
        }
        i = i + 1;
    }
    proof {
        assert(hits@.take(hits.len() as int) =~= hits@);
    }
    let mut note = String::from_str("Relevant memory hits: ");
    note.append(joined.as_str());
    note.append(".");
    note
}

/// The reply a run falls back to when no model answers.
pub fn fallback_response(
    selection: Option<&ProviderSelection>,
    memory_hits: &[MemorySearchHit],
    user_content: &str,
    providers_count: usize,
) -> (r: String)
    ensures
        r@ == fallback_text(
            match selection {
                Some(s) => Some(*s),
                None => None,
            },
            memory_hits@,
            user_content@,
            providers_count as nat,
        ),
{
    let mut out = String::from_str(
        "This run was processed by the decoupled agent-core runtime. It is currently configured with ",
    );
    let count = decimal_string(providers_count as u64);
    out.append(count.as_str());
    out.append(" provider account(s). ");
    match selection {
        Some(s) => {
            out.append("Selected provider ");
            out.append(s.provider_name.as_str());
            out.append(" using model ");
            out.append(s.model_name.as_str());
            out.append(".");
        },
        None => {
            out.append("No active provider/model pair was available.");
        },
    }
    out.append(" ");
    let note = write_retrieval_note(memory_hits);
    out.append(note.as_str());
    out.append(
        " The runtime will fall back to this local response path whenever upstream model invocation is unavailable.\n\nYou said: ",
    );
    out.append(user_content);
    out
}

/// The reply of a run and, when the model failed, the failure's message.
/// With no model selected there is no model answer and the reply is the
/// fallback reply. With a model, `model_answer` is what the tool loop gave:
/// its answer is the reply; its failure gives the fallback reply (naming
/// the selection) and the failure's message.
pub fn response_or_fallback(
    selection: Option<&ProviderSelection>,
    model_answer: Option<CoreResult<String>>,
    memory_hits: &[MemorySearchHit],
    user_content: &str,
    providers_count: usize,
) -> (r: (String, Option<String>))
    requires
        selection is None <==> model_answer is None,
    ensures
        match model_answer {
            Some(Ok(text)) => r.0 == text && r.1 is None,
            Some(Err(e)) => {
                &&& r.0@ == fallback_text(
                    match selection {
                        Some(s) => Some(*s),
                        None => None,
                    },
                    memory_hits@,
                    user_content@,
                    providers_count as nat,
                )
                &&& r.1 matches Some(m) && m == e.message
            },
            None => r.0@ == fallback_text(None, memory_hits@, user_content@, providers_count as nat)
                && r.1 is None,
        },
{
    match model_answer {
        Some(Ok(text)) => (text, None),
        Some(Err(e)) => (
            fallback_response(selection, memory_hits, user_content, providers_count),
            Some(e.message),
        ),
        None => (fallback_response(None, memory_hits, user_content, providers_count), None),
    }
}

} // verus!
