//! The context a run is built from.
use vstd::prelude::*;
use vstd::relations::sorted_by;

use crate::domain::{MemorySearchHit, MessageRecord, ProviderAccountRecord};
use crate::error::{not_found_message, CoreError, CoreResult, STATUS_NOT_FOUND};
use crate::ordering::{by_name, lemma_multiset_map, sort_by_name};
use crate::store::catalog::{clone_providers, providers_view};
use crate::store::{messages_of, StoreState};
use crate::table::{find_index, has_key, select_owned, BY_SESSION};

verus! {

/// How many of a session's latest messages a run sees.
pub const RECENT_MESSAGE_COUNT: usize = 6;

/// The last `n` of `s` (all of `s` when it is shorter), in order.
pub open spec fn last_n<T>(s: Seq<T>, n: nat) -> Seq<T> {
    if s.len() <= n {
        s
    } else {
        s.skip(s.len() - n)
    }
}

/// How many memory hits a run works with at most.
pub const MAX_MEMORY_HITS: usize = 6;

/// The texts of a list of strings.
pub open spec fn texts(v: Seq<String>) -> Seq<Seq<char>> {
    v.map_values(|t: String| t@)
}

/// The names of the resolved skills of a session, in order.
pub open spec fn skill_names(skills: Seq<(String, bool)>) -> Seq<Seq<char>> {
    skills.map_values(|p: (String, bool)| p.0@)
}

/// The names of the resolved skills that are pinned, in order.
pub open spec fn pinned_skill_names_of(skills: Seq<(String, bool)>) -> Seq<Seq<char>>
    decreases skills.len(),
{
    if skills.len() == 0 {
        Seq::empty()
    } else {
        let rest = pinned_skill_names_of(skills.drop_last());
        if skills.last().1 {
            rest.push(skills.last().0@)
        } else {
            rest
        }
    }
}

/// Every pinned skill is among the effective ones.
pub proof fn lemma_pinned_within(skills: Seq<(String, bool)>)
    ensures
        forall|i: int|
            0 <= i < pinned_skill_names_of(skills).len() ==> skill_names(skills).contains(
                #[trigger] pinned_skill_names_of(skills)[i],
            ),
    decreases skills.len(),
{
    if skills.len() > 0 {
        let init = skills.drop_last();
        lemma_pinned_within(init);
        let p = pinned_skill_names_of(skills);
        let q = pinned_skill_names_of(init);
        assert forall|i: int| 0 <= i < p.len() implies skill_names(skills).contains(#[trigger] p[i]) by {
            if i < q.len() {
                assert(p[i] == q[i]);
                let j = choose|j: int| 0 <= j < skill_names(init).len() && skill_names(init)[j] == q[i];
                assert(skill_names(skills)[j] == skill_names(init)[j]);
            } else {
                assert(skill_names(skills)[skills.len() - 1] == skills.last().0@);
            }
        }
    }
}

/// Splits the resolved skills of a session into the names of the effective
/// skills (all of them) and of the pinned ones, both in order.
pub fn split_skill_names(skills: &[(String, bool)]) -> (r: (Vec<String>, Vec<String>))
    ensures
        texts(r.0@) == skill_names(skills@),
        texts(r.1@) == pinned_skill_names_of(skills@),
{
    let mut effective: Vec<String> = Vec::new();
    let mut pinned: Vec<String> = Vec::new();
    let mut i: usize = 0;
    while i < skills.len()
        invariant
            i <= skills.len(),
            texts(effective@) == skill_names(skills@.take(i as int)),
            texts(pinned@) == pinned_skill_names_of(skills@.take(i as int)),
        decreases skills.len() - i,
    {
        let ghost (e0, p0) = (effective@, pinned@);
        let ghost next = skills@.take(i + 1);
        proof {
            assert(next.drop_last() =~= skills@.take(i as int));
            assert(next.last() == skills@[i as int]);
        }
        let name = skills[i].0.clone();
        effective.push(name);
        proof {
            assert(texts(effective@) =~= texts(e0).push(skills@[i as int].0@));
            assert(skill_names(next) =~= skill_names(skills@.take(i as int)).push(skills@[i as int].0@));
        }
        if skills[i].1 {
            let name = skills[i].0.clone();
            pinned.push(name);
            proof {
                assert(texts(pinned@) =~= texts(p0).push(skills@[i as int].0@));
            }
        }
        i = i + 1;
    }
    proof {
        assert(skills@.take(skills.len() as int) =~= skills@);
    }
    (effective, pinned)
}

/// What a run works from: the provider accounts by display name, the
/// session's latest messages, its memory hits, and the names of its
/// effective and pinned skills.
#[derive(Debug)]
pub struct RunContext {
    pub providers: Vec<ProviderAccountRecord>,
    pub recent_messages: Vec<MessageRecord>,
    pub memory_hits: Vec<MemorySearchHit>,
    pub effective_skill_names: Vec<String>,
    pub pinned_skill_names: Vec<String>,
}

impl StoreState {
    /// Builds the context of a run in a session: every provider account,
    /// sorted by display name; the session's last messages; the first (at
    /// most six) of the memory hits handed in, in their order; and the names
    /// of the skills handed in, each with whether it is pinned: all of them
    /// are effective, the pinned ones also pinned. Finding the hits and
    /// resolving the skills is the caller's part.
    pub fn build_run_context(
        &self,
        session_id: u128,
        memory_hits: Vec<MemorySearchHit>,
        skills: Vec<(String, bool)>,
    ) -> (r: CoreResult<RunContext>)
        ensures
            match r {
                Ok(c) => {
                    &&& has_key(self.sessions@, session_id)
                    &&& providers_view(c.providers@).to_multiset() == providers_view(
                        self.providers@,
                    ).to_multiset()
                    &&& sorted_by(c.providers@, by_name::<ProviderAccountRecord>())
                    &&& c.recent_messages@ == last_n(
                        messages_of(self.messages@, session_id),
                        RECENT_MESSAGE_COUNT as nat,
                    )
                    &&& c.memory_hits@ == memory_hits@.take(
                        if memory_hits@.len() <= MAX_MEMORY_HITS {
                            memory_hits@.len() as int
                        } else {
                            MAX_MEMORY_HITS as int
                        },
                    )
                    &&& c.memory_hits@.len() <= MAX_MEMORY_HITS
                    &&& texts(c.effective_skill_names@) == skill_names(skills@)
                    &&& texts(c.pinned_skill_names@) == pinned_skill_names_of(skills@)
                    &&& forall|i: int|
                        0 <= i < c.pinned_skill_names@.len() ==> texts(
                            c.effective_skill_names@,
                        ).contains(#[trigger] c.pinned_skill_names@[i]@)
                },
                Err(e) => {
                    &&& !has_key(self.sessions@, session_id)
                    &&& e.status == STATUS_NOT_FOUND
                    &&& e.message@ == not_found_message("session"@)
                },
            },
    {
        if find_index(&self.sessions, session_id).is_none() {
            return Err(CoreError::not_found("session"));
        }
        let mut messages = select_owned::<BY_SESSION, MessageRecord>(&self.messages, session_id);
        let recent = if messages.len() <= RECENT_MESSAGE_COUNT {
            messages
        } else {
            let at = messages.len() - RECENT_MESSAGE_COUNT;
            messages.split_off(at)
        };
        let copies = clone_providers(&self.providers);
        let providers = sort_by_name(copies);
        proof {
            lemma_multiset_map(providers@, copies@, |p: ProviderAccountRecord| p@);
        }
        let mut hits = memory_hits;
        hits.truncate(MAX_MEMORY_HITS);
        let (effective_skill_names, pinned_skill_names) = split_skill_names(skills.as_slice());
        proof {
            lemma_pinned_within(skills@);
            assert forall|i: int| 0 <= i < pinned_skill_names@.len() implies texts(
                effective_skill_names@,
            ).contains(#[trigger] pinned_skill_names@[i]@) by {
                assert(texts(pinned_skill_names@)[i] == pinned_skill_names@[i]@);
            }
        }
        Ok(
            RunContext {
                providers,
                recent_messages: recent,
                memory_hits: hits,
                effective_skill_names,
                pinned_skill_names,
            },
        )
    }
}

} // verus!
