//! Numbering run events: every event a runtime publishes takes the next
//! number of one counter, so events are ordered as they were published.
use vstd::prelude::*;

use crate::domain::RunEventEnvelope;
use crate::ids::now_millis;

verus! {

/// The number after `n`, wrapping to zero after the largest.
pub open spec fn next_number(n: u64) -> u64 {
    if n == u64::MAX {
        0
    } else {
        (n + 1) as u64
    }
}

/// The counter that numbers events.
#[derive(Debug)]
pub struct EventSequencer {
    pub next_sequence: u64,
}

impl EventSequencer {
    /// A counter whose first event is number 1.
    pub fn new() -> (s: Self)
        ensures
            s.next_sequence == 1,
    {
        EventSequencer { next_sequence: 1 }
    }

    /// An event of the given kind for a run, numbered next.
    pub fn envelope(
        &mut self,
        event_type: &str,
        run_id: u128,
        session_id: u128,
        timestamp: i64,
        payload_json: String,
    ) -> (e: RunEventEnvelope)
        ensures
            e.event_type@ == event_type@,
            e.run_id == run_id,
            e.session_id == session_id,
            e.timestamp == timestamp,
            e.sequence == old(self).next_sequence,
            e.payload_json == payload_json,
            final(self).next_sequence == next_number(old(self).next_sequence),
    {
        let sequence = self.next_sequence;
        self.next_sequence = if sequence == u64::MAX {
            0
        } else {
            sequence + 1
        };
        RunEventEnvelope {
            event_type: String::from_str(event_type),
            run_id,
            session_id,
            timestamp,
            sequence,
            payload_json,
        }
    }

    /// The event that opens a client's stream of a run, stamped now.
    pub fn stream_ready_event(&mut self, run_id: u128, session_id: u128) -> (e: RunEventEnvelope)
        ensures
            e.event_type@ == "run.stream.ready"@,
            e.run_id == run_id,
            e.session_id == session_id,
            e.sequence == old(self).next_sequence,
            e.payload_json@ == "{\"message\":\"stream connected\"}"@,
            final(self).next_sequence == next_number(old(self).next_sequence),
    {
        let now = now_millis();
        self.envelope(
            "run.stream.ready",
            run_id,
            session_id,
            now,
            String::from_str("{\"message\":\"stream connected\"}"),
        )
    }
}

} // verus!
