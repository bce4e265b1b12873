//! Completing a run: storing its reply, and deciding whether the exchange
//! goes into the session's memory.
use vstd::prelude::*;

use crate::domain::{MessageRecord, RunStatus};
use crate::error::{CoreResult, STATUS_CONFLICT};
use crate::scan::{split_words, words};
use crate::store::StoreState;
use crate::table::lookup;
use crate::text::{chars_eq, chars_of, lowercase, to_lowercase};

verus! {

/// The words that ask for a note in memory.
pub open spec fn is_memory_word(w: Seq<char>) -> bool {
    ||| w == "remember"@
    ||| w == "save"@
    ||| w == "store"@
    ||| w == "memorize"@
}

/// The message, lower-cased, has a word that asks for a note in memory.
pub open spec fn asks_to_remember(user_content: Seq<char>) -> bool {
    let ws = words(lowercase(user_content));
    exists|i: int| 0 <= i < ws.len() && is_memory_word(#[trigger] ws[i])
}

/// Whether the user's message asks for its exchange to be kept in memory.
pub fn should_write_memory_note(user_content: &str) -> (r: bool)
    ensures
        r == asks_to_remember(user_content@),
{
    let lowered = to_lowercase(user_content);
    let chars = chars_of(lowered.as_str());
    let ws = split_words(chars.as_slice());
    let ghost all = ws@.map_values(|w: Vec<char>| w@);
    let remember = chars_of("remember");
    let save = chars_of("save");
    let store = chars_of("store");
    let memorize = chars_of("memorize");
    let mut i: usize = 0;
    while i < ws.len()
        invariant
            i <= ws.len(),
            all == ws@.map_values(|w: Vec<char>| w@),
            all == words(lowercase(user_content@)),
            remember@ == "remember"@,
            save@ == "save"@,
            store@ == "store"@,
            memorize@ == "memorize"@,
            forall|k: int| 0 <= k < i ==> !is_memory_word(#[trigger] all[k]),
        decreases ws.len() - i,
    {
        let w = ws[i].as_slice();
        assert(all[i as int] == ws@[i as int]@);
        if chars_eq(w, remember.as_slice()) || chars_eq(w, save.as_slice()) || chars_eq(
            w,
            store.as_slice(),
        ) || chars_eq(w, memorize.as_slice()) {
            return true;
        }
        i = i + 1;
    }
    false
}

/// What a completion reports for the reply's outcome: the stored message;
/// nothing when the run was no longer active (a conflict); other errors as
/// they are.
pub open spec fn settled_reply(r: CoreResult<MessageRecord>) -> CoreResult<Option<MessageRecord>> {
    match r {
        Ok(m) => Ok(Some(m)),
        Err(e) => if e.status == STATUS_CONFLICT {
            Ok(None)
        } else {
            Err(e)
        },
    }
}

impl StoreState {
    /// The run exists and is still running.
    pub open spec fn run_active(&self, run_id: u128) -> bool {
        lookup(self.runs@, run_id) matches Some(run) && run.status == RunStatus::Running
    }

    /// Stores the reply of a run that is still active and completes it. A
    /// run that is no longer active (it was cancelled or failed meanwhile)
    /// is left as it is, and so is one whose reply meets a conflict: both
    /// give `Ok(None)`.
    pub fn finalize_run_reply(&mut self, session_id: u128, run_id: u128, response: String) -> (r:
        CoreResult<Option<MessageRecord>>)
        requires
            old(self).wf(),
        ensures
            final(self).wf(),
            if !old(self).run_active(run_id) {
                r matches Ok(None) && *final(self) == *old(self)
            } else {
                exists|a: CoreResult<MessageRecord>|
                    #[trigger] StoreState::reply_post(
                        *old(self),
                        *final(self),
                        session_id,
                        run_id,
                        response,
                        a,
                    ) && r == settled_reply(a)
            },
    {
        if !self.run_is_active(run_id) {
            return Ok(None);
        }
        let a = self.append_assistant_message_and_complete_run(session_id, run_id, response);
        let ghost g = a;
        let r = match a {
            Ok(m) => Ok(Some(m)),
            Err(e) => if e.status == STATUS_CONFLICT {
                Ok(None)
            } else {
                Err(e)
            },
        };
        proof {
            assert(r == settled_reply(g));
        }
        r
    }
}

} // verus!
