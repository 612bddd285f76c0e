use replay_control::cycle::{
    complete, on_race, plan_cycle, Completion, CyclePlan, Directive, Event, PlaybackOutcome, Race,
    IDLE_BACKOFF_SECS, RETRY_BACKOFF_SECS, VIEWER_TIMEOUT_SECS,
};
use replay_control::queue::ReplayQueue;
use replay_control::resolve::{resolve_batch, Extraction};
use replay_control::target::{PlayTarget, CANONICAL_NAME};

fn names(list: &[&str]) -> Vec<String> {
    list.iter().map(|s| s.to_string()).collect()
}

fn ran(text: &str) -> Extraction {
    Extraction::Finished { success: true, stdout: text.as_bytes().to_vec() }
}

fn queue_of(list: &[&str]) -> ReplayQueue {
    let mut q = ReplayQueue::new();
    let all = names(list);
    let picks: Vec<usize> = (0..all.len()).collect();
    q.append_picks(&all, &picks);
    q
}

#[test]
fn three_files_give_update_with_three_documents() {
    let mut q = ReplayQueue::new();
    q.refill(&names(&["a.rep", "b.rep", "c.rep"]));
    let batch: Vec<Extraction> = (0..q.len()).map(|i| ran(&format!("{{\"n\":{}}}", i))).collect();
    let resolution = resolve_batch(&batch);
    let base = "http://h/".to_string();
    match plan_cycle(&mut q, resolution, &base) {
        CyclePlan::Play { update: Event::QueueUpdated(docs), started, .. } => {
            assert_eq!(docs.len(), 3);
            assert!(matches!(started, Event::PlaybackStarted(_, _)));
        }
        _ => panic!("expected to play"),
    }
    assert_eq!(q.len(), 3);
}

#[test]
fn malformed_output_means_no_playback_and_retry() {
    let mut q = queue_of(&["a.rep", "b.rep", "c.rep"]);
    let batch = vec![ran("{}"), ran("garbage"), ran("{}")];
    let plan = plan_cycle(&mut q, resolve_batch(&batch), &"http://h/".to_string());
    match plan {
        CyclePlan::Retry { backoff_secs } => assert_eq!(backoff_secs, 15),
        _ => panic!("expected a retry"),
    }
    assert_eq!(RETRY_BACKOFF_SECS, 15);
    assert_eq!(q.len(), 3);
}

#[test]
fn empty_queue_idles() {
    let mut q = ReplayQueue::new();
    let plan = plan_cycle(&mut q, resolve_batch(&Vec::new()), &"http://h/".to_string());
    match plan {
        CyclePlan::Idle { update: Event::QueueUpdated(docs), backoff_secs } => {
            assert!(docs.is_empty());
            assert_eq!(backoff_secs, IDLE_BACKOFF_SECS);
            assert_eq!(backoff_secs, 5);
        }
        _ => panic!("expected idle"),
    }
}

#[test]
fn play_publishes_url_and_head_document() {
    let mut q = queue_of(&["bWF0Y2ggb25l", "b.rep"]);
    let batch = vec![ran("{\"first\":true}"), ran("{}")];
    let plan = plan_cycle(&mut q, resolve_batch(&batch), &"https://r.example/".to_string());
    match plan {
        CyclePlan::Play { target, started: Event::PlaybackStarted(url, doc), .. } => {
            // "bWF0Y2ggb25l" is the base64 form of "match one"
            assert_eq!(url, "https://r.example/match+one");
            assert_eq!(doc["first"], serde_json::Value::Bool(true));
            assert_eq!(target.launch_name(), CANONICAL_NAME);
        }
        _ => panic!("expected to play"),
    }
}

#[test]
fn undecodable_head_is_skipped() {
    let mut q = queue_of(&["bad name!", "b.rep"]);
    let batch = vec![ran("{}"), ran("{}")];
    match plan_cycle(&mut q, resolve_batch(&batch), &"u".to_string()) {
        CyclePlan::Skip { backoff_secs, .. } => assert_eq!(backoff_secs, RETRY_BACKOFF_SECS),
        _ => panic!("expected a skip"),
    }
    assert_eq!(q.len(), 1);
    assert_eq!(q.get(0), "b.rep");
}

#[test]
fn timeout_forces_termination_and_completion() {
    // a viewer that would run 40 minutes loses the race to the 35 minute limit
    assert_eq!(VIEWER_TIMEOUT_SECS, 35 * 60);
    assert!(40 * 60 > VIEWER_TIMEOUT_SECS);
    assert!(matches!(on_race(Race::DeadlineElapsed), Directive::TerminateThenCollect));
    let mut q = queue_of(&["long.rep", "next.rep"]);
    let target = PlayTarget::Direct { name: "long.rep".to_string() };
    match complete(&mut q, &target, PlaybackOutcome::Ended) {
        Completion::Done { delete, event } => {
            assert_eq!(delete, "long.rep");
            assert!(matches!(event, Event::PlaybackCompleted));
        }
        _ => panic!("expected completion"),
    }
    assert_eq!(q.len(), 1);
    assert!(!q.contains(&"long.rep".to_string()));
}

#[test]
fn natural_exit_is_collected() {
    assert!(matches!(on_race(Race::Exited), Directive::Collect));
}

#[test]
fn unlaunched_viewer_keeps_head() {
    let mut q = queue_of(&["aGk=", "b.rep"]);
    let target = PlayTarget::Encoded { stored: "aGk=".to_string(), label: "hi".to_string() };
    match complete(&mut q, &target, PlaybackOutcome::Unlaunched) {
        Completion::Retry { rename_back, backoff_secs } => {
            assert_eq!(rename_back, Some("aGk=".to_string()));
            assert_eq!(backoff_secs, 15);
        }
        _ => panic!("expected a retry"),
    }
    assert_eq!(q.len(), 2);
    assert_eq!(q.get(0), "aGk=");
}

#[test]
fn encoded_completion_deletes_canonical_file() {
    let mut q = queue_of(&["aGk="]);
    let target = PlayTarget::Encoded { stored: "aGk=".to_string(), label: "hi".to_string() };
    match complete(&mut q, &target, PlaybackOutcome::Ended) {
        Completion::Done { delete, .. } => assert_eq!(delete, "next_replay.rep"),
        _ => panic!("expected completion"),
    }
    assert!(q.is_empty());
}
