use agent_core::events::EventSequencer;

#[test]
fn event_numbers_increase_in_publication_order() {
    let mut sequencer = EventSequencer::new();
    let ready = sequencer.stream_ready_event(1, 2);
    let started = sequencer.envelope("run.started", 1, 2, 10, "{\"step\":1}".to_string());
    let completed = sequencer.envelope("run.completed", 1, 2, 11, "{\"step\":2}".to_string());
    assert_eq!(ready.sequence, 1);
    assert_eq!(started.sequence, 2);
    assert_eq!(completed.sequence, 3);
    assert_eq!(ready.event_type, "run.stream.ready");
    assert_eq!(ready.payload_json, "{\"message\":\"stream connected\"}");
    assert_eq!(started.event_type, "run.started");
    assert_eq!(completed.event_type, "run.completed");
    assert_eq!(completed.timestamp, 11);
}

#[test]
fn event_numbers_wrap_after_the_largest() {
    let mut sequencer = EventSequencer {
        next_sequence: u64::MAX,
    };
    let last = sequencer.envelope("x", 0, 0, 0, String::new());
    assert_eq!(last.sequence, u64::MAX);
    assert_eq!(sequencer.next_sequence, 0);
}
