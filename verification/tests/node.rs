use gridcore::client::{
    adopt_node_id, check_status, heartbeat_outcome, heartbeat_request, is_success, task_poll,
    ClientError, HubEndpoint,
};
use gridcore::feed::{task_changed, FeedDecision, FeedPoll, TaskFeed};
use gridcore::liveness::{
    derive_status, raise, stop_signalled, HeartbeatOutcome, SlotReport, StatusBoard,
};
use gridcore::node_config::{
    default_container_memory, default_stop_timeout, generate_default_config, GridNodeConfig,
};
use gridcore::registry::NodeRuntimeStatus;
use gridcore::retry::{after_attempt, after_connect_attempt, may_begin, RetryStep};
use gridcore::shutdown::{all_finished, exit_code, supervise, Supervision};
use gridcore::task::TaskConfig;

fn config(name: &str, image: &str) -> TaskConfig {
    TaskConfig {
        task_name: name.to_string(),
        image: image.to_string(),
        redis_url: None,
        input_redis: None,
        output_redis: None,
        input_queue: None,
        output_queue: None,
    }
}

#[test]
fn feed_publishes_only_a_changed_name() {
    let mut feed = TaskFeed::new(None);
    assert_eq!(feed.observe(FeedPoll::Fetched(None)), FeedDecision::Keep);
    assert_eq!(
        feed.observe(FeedPoll::Fetched(Some(config("A", "img:1")))),
        FeedDecision::Publish(Some(config("A", "img:1")))
    );
    assert_eq!(feed.observe(FeedPoll::Fetched(Some(config("A", "img:2")))), FeedDecision::Keep);
    assert_eq!(feed.last(), &Some(config("A", "img:1")));
    assert_eq!(
        feed.observe(FeedPoll::Fetched(Some(config("B", "img:1")))),
        FeedDecision::Publish(Some(config("B", "img:1")))
    );
    assert_eq!(feed.observe(FeedPoll::Fetched(None)), FeedDecision::Publish(None));
    assert_eq!(feed.last(), &None);
    assert_eq!(feed.observe(FeedPoll::Fetched(None)), FeedDecision::Keep);
}

#[test]
fn feed_keeps_the_last_task_through_failed_polls() {
    let mut feed = TaskFeed::new(Some(config("A", "img:1")));
    for _ in 0..3 {
        assert_eq!(feed.observe(FeedPoll::Failed), FeedDecision::Keep);
        assert_eq!(feed.last(), &Some(config("A", "img:1")));
    }
    assert_eq!(feed.observe(FeedPoll::Fetched(Some(config("A", "img:1")))), FeedDecision::Keep);
}

#[test]
fn task_change_is_a_change_of_name() {
    let a = Some(config("A", "x"));
    let a2 = Some(config("A", "y"));
    let b = Some(config("B", "x"));
    assert!(!task_changed(&a, &a2));
    assert!(task_changed(&a, &b));
    assert!(task_changed(&None, &a));
    assert!(task_changed(&a, &None));
    assert!(!task_changed(&None, &None));
}

#[test]
fn reported_status_puts_errors_first() {
    assert_eq!(derive_status(true, 0), NodeRuntimeStatus::Error);
    assert_eq!(derive_status(true, 3), NodeRuntimeStatus::Error);
    assert_eq!(derive_status(false, 1), NodeRuntimeStatus::Running);
    assert_eq!(derive_status(false, u32::MAX), NodeRuntimeStatus::Running);
    assert_eq!(derive_status(false, 0), NodeRuntimeStatus::Idle);
}

#[test]
fn board_counts_active_slots() {
    let mut b = StatusBoard::new(3);
    assert_eq!(b.summary(), (NodeRuntimeStatus::Idle, 0));
    assert!(b.publish(0, SlotReport { active: true, error: None }));
    assert!(b.publish(2, SlotReport { active: true, error: None }));
    assert_eq!(b.summary(), (NodeRuntimeStatus::Running, 2));
    assert!(b.publish(1, SlotReport { active: false, error: Some("boom".to_string()) }));
    assert_eq!(b.summary(), (NodeRuntimeStatus::Error, 2));
    assert!(b.publish(1, SlotReport { active: false, error: None }));
    assert!(b.publish(0, SlotReport { active: false, error: None }));
    assert_eq!(b.summary(), (NodeRuntimeStatus::Running, 1));
    assert!(!b.publish(3, SlotReport { active: true, error: Some("x".to_string()) }));
    assert_eq!(b.summary(), (NodeRuntimeStatus::Running, 1));
    assert_eq!(StatusBoard::new(0).summary(), (NodeRuntimeStatus::Idle, 0));
}

#[test]
fn only_the_hub_word_sets_the_shutdown_flag() {
    assert!(stop_signalled(HeartbeatOutcome::Acknowledged { stop_requested: true }));
    assert!(!stop_signalled(HeartbeatOutcome::Acknowledged { stop_requested: false }));
    assert!(!stop_signalled(HeartbeatOutcome::Rejected));
    assert!(!stop_signalled(HeartbeatOutcome::Unreachable));
    assert!(raise(false, true));
    assert!(raise(true, false));
    assert!(raise(true, true));
    assert!(!raise(false, false));
}

#[test]
fn supervision_tells_shutdown_from_collapse() {
    assert_eq!(supervise(false, &vec![false, true]), Supervision::KeepWaiting);
    assert_eq!(supervise(false, &vec![true, true]), Supervision::ExitCollapsed);
    assert_eq!(supervise(true, &vec![false, true]), Supervision::AwaitSlots);
    assert_eq!(supervise(true, &vec![true, true]), Supervision::ExitClean);
    assert_eq!(supervise(true, &vec![]), Supervision::ExitClean);
    assert_eq!(supervise(false, &vec![]), Supervision::ExitCollapsed);
    assert!(all_finished(&vec![]));
    assert!(!all_finished(&vec![true, false, true]));
    assert_eq!(exit_code(Supervision::ExitClean), Some(0));
    assert_eq!(exit_code(Supervision::ExitCollapsed), Some(1));
    assert_eq!(exit_code(Supervision::KeepWaiting), None);
    assert_eq!(exit_code(Supervision::AwaitSlots), None);
}

#[test]
fn retries_are_bounded() {
    assert_eq!(after_attempt(1, 3, true), RetryStep::Done);
    assert_eq!(after_attempt(1, 3, false), RetryStep::RetryAfter { millis: 5000 });
    assert_eq!(after_attempt(2, 3, false), RetryStep::RetryAfter { millis: 5000 });
    assert_eq!(after_attempt(3, 3, false), RetryStep::GiveUp);
    assert_eq!(after_attempt(3, 3, true), RetryStep::Done);
    assert_eq!(after_attempt(9, 3, false), RetryStep::GiveUp);
    for attempt in 1..5 {
        assert_eq!(after_connect_attempt(attempt, false), RetryStep::RetryAfter { millis: 5000 });
    }
    assert_eq!(after_connect_attempt(5, false), RetryStep::GiveUp);
    assert_eq!(after_connect_attempt(5, true), RetryStep::Done);
    assert!(!may_begin(0));
    assert!(may_begin(1));
}

#[test]
fn endpoint_addresses() {
    let e = HubEndpoint::new(
        "http://hub:8080".to_string(),
        "tok".to_string(),
        "linux/arm64".to_string(),
    );
    assert_eq!(e.register_url(), "http://hub:8080/gridnode/register");
    assert_eq!(e.heartbeat_url(), "http://hub:8080/gridnode/heartbeat");
    assert_eq!(e.task_url(), "http://hub:8080/gridnode/task?platform=linux/arm64");
    assert_eq!(e.authorization(), "Bearer tok");
    let r = heartbeat_request("n1", NodeRuntimeStatus::Running, 3);
    assert_eq!(r.node_id, "n1");
    assert_eq!(r.status, NodeRuntimeStatus::Running);
    assert_eq!(r.active_containers, 3);
}

#[test]
fn hub_answers_are_read_by_status() {
    assert!(is_success(200));
    assert!(is_success(201));
    assert!(is_success(299));
    assert!(!is_success(199));
    assert!(!is_success(300));
    assert!(!is_success(404));
    assert_eq!(check_status(200, "{}".to_string()), Ok("{}".to_string()));
    let rejected = check_status(401, "nope".to_string()).unwrap_err();
    assert_eq!(rejected, ClientError::Rejected { status: 401, body: "nope".to_string() });
    assert_eq!(rejected.message(), "Hub answered 401: nope");
    assert_eq!(ClientError::Transport("timed out".to_string()).message(), "timed out");
    assert_eq!(heartbeat_outcome(None), HeartbeatOutcome::Unreachable);
    assert_eq!(heartbeat_outcome(Some((404, None))), HeartbeatOutcome::Rejected);
    assert_eq!(heartbeat_outcome(Some((404, Some(true)))), HeartbeatOutcome::Rejected);
    assert_eq!(
        heartbeat_outcome(Some((200, Some(true)))),
        HeartbeatOutcome::Acknowledged { stop_requested: true }
    );
    assert_eq!(
        heartbeat_outcome(Some((200, None))),
        HeartbeatOutcome::Acknowledged { stop_requested: false }
    );
    assert_eq!(task_poll(None), FeedPoll::Failed);
    assert_eq!(task_poll(Some((500, Some(config("A", "i"))))), FeedPoll::Failed);
    assert_eq!(task_poll(Some((200, None))), FeedPoll::Fetched(None));
    assert_eq!(
        task_poll(Some((200, Some(config("A", "i"))))),
        FeedPoll::Fetched(Some(config("A", "i")))
    );
}

#[test]
fn node_id_is_saved_once() {
    let mut c = GridNodeConfig::with_identity("h".to_string(), "x86_64".to_string());
    assert!(adopt_node_id(&mut c, "n1"));
    assert_eq!(c.node_id, Some("n1".to_string()));
    assert!(!adopt_node_id(&mut c, "n2"));
    assert_eq!(c.node_id, Some("n1".to_string()));
}

#[test]
fn node_config_defaults() {
    let c = GridNodeConfig::with_identity("box".to_string(), "aarch64".to_string());
    assert_eq!(c.server_url, "http://localhost:8080");
    assert_eq!(c.token, "default-token");
    assert_eq!(c.node_id, None);
    assert_eq!(c.hostname, "box");
    assert_eq!(c.architecture, "aarch64");
    assert_eq!(c.parallelism, None);
    assert_eq!(c.heartbeat_interval, 30);
    assert_eq!(c.stop_timeout, 30);
    assert_eq!(c.container_memory, 1024);
    assert_eq!(default_stop_timeout(), 30);
    assert_eq!(default_container_memory(), 1024);
}

#[test]
fn node_config_takes_the_host_name_from_the_system() {
    let c = GridNodeConfig::for_architecture("x86_64".to_string());
    let expected = gethostname::gethostname().to_string_lossy().to_string();
    assert_eq!(c.hostname, expected);
    assert_eq!(c.architecture, "x86_64");
    assert_eq!(c.heartbeat_interval, 30);
    assert_eq!(c.node_id, None);
}

#[test]
fn parallelism_falls_back_to_the_processors_then_to_one() {
    let mut c = GridNodeConfig::with_identity("h".to_string(), "x86_64".to_string());
    assert_eq!(c.get_parallelism(Some(8)), 8);
    assert_eq!(c.get_parallelism(None), 1);
    c.parallelism = Some(3);
    assert_eq!(c.get_parallelism(Some(8)), 3);
    assert_eq!(c.get_parallelism(None), 3);
}

#[test]
fn generated_node_config_parses() {
    let text = generate_default_config();
    let parsed: toml::Table = text.parse().unwrap();
    assert_eq!(parsed["server_url"].as_str(), Some("http://localhost:8080"));
    assert_eq!(parsed["token"].as_str(), Some("your-secret-token"));
    assert_eq!(parsed["heartbeat_interval"].as_integer(), Some(30));
    assert!(parsed.get("node_id").is_none());
    assert!(parsed.get("stop_timeout").is_none());
    assert_eq!(parsed.len(), 3);
}
