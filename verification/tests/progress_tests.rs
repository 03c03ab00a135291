use upload_engine::progress::{
    event_state, new_error_event, new_progress_event, part_progress, FileUploadState, ProgressHub,
    BROADCAST_CAPACITY, PROGRESS_DONE, PROGRESS_PART_CAP,
};

fn mk(s: &str) -> String {
    s.to_string()
}

#[test]
fn part_progress_of_three_chunks() {
    assert_eq!(part_progress(1, 3), 333);
    assert_eq!(part_progress(2, 3), 666);
    assert_eq!(part_progress(3, 3), PROGRESS_PART_CAP);
}

#[test]
fn part_progress_is_capped_before_completion() {
    assert_eq!(part_progress(1, 1), PROGRESS_PART_CAP);
    assert_eq!(part_progress(10, 10), PROGRESS_PART_CAP);
    assert_eq!(part_progress(9, 10), PROGRESS_PART_CAP);
    assert_eq!(part_progress(8, 10), 800);
}

#[test]
fn part_progress_handles_large_part_counts() {
    assert_eq!(part_progress(2_000_000, 3_000_000), 666);
    assert_eq!(part_progress(1, u64::MAX), 0);
}

#[test]
fn part_progress_is_monotone() {
    let mut last = 0;
    for part in 1..=20u64 {
        let p = part_progress(part, 20);
        assert!(p >= last);
        last = p;
    }
}

#[test]
fn events_translate_to_states() {
    let done = new_progress_event(mk("u"), mk("f"), PROGRESS_DONE);
    assert!(matches!(event_state(&done), FileUploadState::Finished));
    let mid = new_progress_event(mk("u"), mk("f"), 500);
    assert!(matches!(event_state(&mid), FileUploadState::Uploading { progress: 500 }));
    let err = new_error_event(mk("u"), mk("f"), mk("boom"));
    match event_state(&err) {
        FileUploadState::Failed { msg } => assert_eq!(msg, "boom"),
        other => panic!("unexpected state: {:?}", other),
    }
}

#[test]
fn publish_caches_the_latest_state_per_file() {
    let mut hub = ProgressHub::new();
    assert!(hub.snapshot(&mk("f")).is_none());
    hub.publish(new_progress_event(mk("u"), mk("f"), 250));
    assert!(matches!(hub.snapshot(&mk("f")), Some(FileUploadState::Uploading { progress: 250 })));
    hub.publish(new_progress_event(mk("u"), mk("f"), 500));
    assert!(matches!(hub.snapshot(&mk("f")), Some(FileUploadState::Uploading { progress: 500 })));
    hub.publish(new_progress_event(mk("u"), mk("f"), PROGRESS_DONE));
    assert!(matches!(hub.snapshot(&mk("f")), Some(FileUploadState::Finished)));
    assert!(hub.snapshot(&mk("other")).is_none());
}

#[test]
fn broadcast_buffer_drops_the_oldest_on_overflow() {
    let mut hub = ProgressHub::new();
    for i in 0..(BROADCAST_CAPACITY + 5) {
        hub.publish(new_progress_event(mk("u"), format!("f{}", i), 100));
    }
    assert_eq!(hub.event_count(), BROADCAST_CAPACITY);
}
