use gridcore::controller::{backoff_millis, build_env, count_failure, SlotController};
use gridcore::slot::{
    Phase, SlotAction, SlotEvent, SlotFault, SlotMisuse, StartRequest, UnitPoll, Wake,
};
use gridcore::task::TaskConfig;

fn config(name: &str, image: &str) -> TaskConfig {
    TaskConfig {
        task_name: name.to_string(),
        image: image.to_string(),
        redis_url: None,
        input_redis: None,
        output_redis: None,
        input_queue: None,
        output_queue: None,
    }
}

fn controller() -> SlotController {
    SlotController::new(2, "node-1".to_string(), 30, 1024)
}

fn observed(task: Option<TaskConfig>) -> SlotEvent {
    SlotEvent::Observed { shutdown: false, task }
}

fn pause() -> SlotAction {
    SlotAction::Sleep { millis: 100, interruptible: false }
}

fn poll(unit: &str) -> SlotAction {
    SlotAction::Poll { unit: unit.to_string(), millis: 100 }
}

fn polled(feed: Option<&str>, unit: UnitPoll) -> SlotEvent {
    SlotEvent::Polled { shutdown: false, feed_name: feed.map(|s| s.to_string()), unit }
}

fn env_of(pairs: &[(&str, &str)]) -> Vec<(String, String)> {
    pairs.iter().map(|(k, v)| (k.to_string(), v.to_string())).collect()
}

fn start_of(name: &str, image: &str) -> SlotAction {
    SlotAction::Start(StartRequest {
        task_name: name.to_string(),
        image: image.to_string(),
        node_id: "node-1".to_string(),
        slot: 2,
        env: env_of(&[("TASK_NAME", name), ("NODE_ID", "node-1"), ("INSTANCE_ID", "2")]),
        memory_mb: 1024,
    })
}

/// Drives a fresh controller until the unit of task `name` has been polled
/// once and still runs.
fn running(name: &str, image: &str, unit: &str) -> SlotController {
    let mut c = controller();
    assert_eq!(
        c.step(observed(Some(config(name, image)))),
        Ok(SlotAction::Pull { image: image.to_string() })
    );
    assert_eq!(c.step(SlotEvent::PullFinished(Ok(()))), Ok(start_of(name, image)));
    assert_eq!(c.step(SlotEvent::StartFinished(Ok(unit.to_string()))), Ok(poll(unit)));
    assert_eq!(c.step(polled(Some(name), UnitPoll::StillRunning)), Ok(poll(unit)));
    assert!(c.is_active());
    c
}

#[test]
fn a_fresh_slot_waits_for_its_first_observation() {
    let c = controller();
    assert_eq!(c.slot(), 2);
    assert_eq!(c.consecutive_failures(), 0);
    assert!(!c.is_active());
    assert!(c.fault().is_none());
    assert!(c.last_task_name().is_none());
    assert_eq!(*c.phase(), Phase::Observing);
    assert!(!c.has_exited());
    let r = c.report();
    assert!(!r.active);
    assert_eq!(r.error, None);
}

#[test]
fn scenario_task_change_preempts_the_running_unit() {
    let mut c = running("A", "img:a", "unit-a");
    assert_eq!(c.last_task_name(), Some(&"A".to_string()));
    assert_eq!(
        c.step(polled(Some("B"), UnitPoll::StillRunning)),
        Ok(SlotAction::Stop { unit: "unit-a".to_string(), grace_secs: 30 })
    );
    assert!(c.is_active());
    assert_eq!(c.step(SlotEvent::Stopped), Ok(SlotAction::Remove { unit: "unit-a".to_string() }));
    assert!(!c.is_active());
    assert_eq!(c.consecutive_failures(), 0);
    assert!(c.fault().is_none());
    assert_eq!(c.step(SlotEvent::Removed), Ok(pause()));
    assert_eq!(c.step(SlotEvent::SleepFinished { interrupted: false }), Ok(SlotAction::Observe));
    assert_eq!(
        c.step(observed(Some(config("B", "img:b")))),
        Ok(SlotAction::Pull { image: "img:b".to_string() })
    );
    assert_eq!(c.step(SlotEvent::PullFinished(Ok(()))), Ok(start_of("B", "img:b")));
    assert_eq!(c.step(SlotEvent::StartFinished(Ok("unit-b".to_string()))), Ok(poll("unit-b")));
    assert_eq!(c.consecutive_failures(), 0);
    assert_eq!(c.last_task_name(), Some(&"B".to_string()));
    assert!(c.is_active());
}

#[test]
fn preemption_wins_over_an_exit_seen_in_the_same_poll() {
    let mut c = running("A", "img:a", "unit-a");
    assert_eq!(
        c.step(polled(None, UnitPoll::Exited(7))),
        Ok(SlotAction::Stop { unit: "unit-a".to_string(), grace_secs: 30 })
    );
    c.step(SlotEvent::Stopped).unwrap();
    assert_eq!(c.consecutive_failures(), 0);
    assert!(c.fault().is_none());
}

#[test]
fn a_preempted_unit_is_not_restarted_under_the_old_name() {
    let mut c = running("A", "img:a", "unit-a");
    c.step(polled(Some("B"), UnitPoll::StillRunning)).unwrap();
    c.step(SlotEvent::Stopped).unwrap();
    c.step(SlotEvent::Removed).unwrap();
    c.step(SlotEvent::SleepFinished { interrupted: false }).unwrap();
    for _ in 0..3 {
        assert_eq!(c.step(observed(Some(config("A", "img:a")))), Ok(pause()));
        assert_eq!(c.step(SlotEvent::SleepFinished { interrupted: false }), Ok(SlotAction::Observe));
    }
    assert!(!c.is_active());
}

#[test]
fn the_first_poll_already_preempts() {
    let mut c = controller();
    c.step(observed(Some(config("A", "img:a")))).unwrap();
    c.step(SlotEvent::PullFinished(Ok(()))).unwrap();
    c.step(SlotEvent::StartFinished(Ok("u".to_string()))).unwrap();
    assert_eq!(
        c.step(polled(Some("B"), UnitPoll::StillRunning)),
        Ok(SlotAction::Stop { unit: "u".to_string(), grace_secs: 30 })
    );
    assert_eq!(*c.phase(), Phase::Stopping { unit: "u".to_string(), shutdown: false });
    assert_eq!(c.step(SlotEvent::Stopped), Ok(SlotAction::Remove { unit: "u".to_string() }));
    assert_eq!(c.consecutive_failures(), 0);
    assert!(!c.is_active());
}

#[test]
fn a_feed_without_task_preempts_the_running_unit() {
    let mut c = running("A", "img:a", "u");
    assert_eq!(
        c.step(polled(None, UnitPoll::StillRunning)),
        Ok(SlotAction::Stop { unit: "u".to_string(), grace_secs: 30 })
    );
    assert_eq!(c.step(SlotEvent::Stopped), Ok(SlotAction::Remove { unit: "u".to_string() }));
    assert_eq!(c.step(SlotEvent::Removed), Ok(pause()));
    assert_eq!(c.step(SlotEvent::SleepFinished { interrupted: false }), Ok(SlotAction::Observe));
    assert_eq!(c.step(observed(None)), Ok(SlotAction::Sleep { millis: 5000, interruptible: true }));
    assert!(c.last_task_name().is_none());
}

#[test]
fn the_unit_runs_on_while_the_feed_names_its_task() {
    let mut c = running("A", "img:a", "u");
    for _ in 0..5 {
        assert_eq!(c.step(polled(Some("A"), UnitPoll::StillRunning)), Ok(poll("u")));
        assert_eq!(*c.phase(), Phase::Running { unit: "u".to_string() });
        assert!(c.is_active());
    }
}

#[test]
fn shutdown_stops_the_running_unit_and_ends_the_slot() {
    let mut c = running("A", "img:a", "u");
    let seen = SlotEvent::Polled {
        shutdown: true,
        feed_name: Some("A".to_string()),
        unit: UnitPoll::StillRunning,
    };
    assert_eq!(c.step(seen), Ok(SlotAction::Stop { unit: "u".to_string(), grace_secs: 30 }));
    assert_eq!(*c.phase(), Phase::Stopping { unit: "u".to_string(), shutdown: true });
    assert!(c.is_active());
    assert_eq!(c.step(SlotEvent::Stopped), Ok(SlotAction::Remove { unit: "u".to_string() }));
    assert_eq!(c.step(SlotEvent::Removed), Ok(SlotAction::Exit));
    assert!(c.has_exited());
    assert!(!c.is_active());
    assert_eq!(c.last_task_name(), Some(&"A".to_string()));
}

#[test]
fn shutdown_comes_before_a_task_change_and_an_exit() {
    let mut c = running("A", "img:a", "u");
    let seen = SlotEvent::Polled {
        shutdown: true,
        feed_name: Some("B".to_string()),
        unit: UnitPoll::Exited(0),
    };
    assert_eq!(c.step(seen), Ok(SlotAction::Stop { unit: "u".to_string(), grace_secs: 30 }));
    assert_eq!(*c.phase(), Phase::Stopping { unit: "u".to_string(), shutdown: true });
}

#[test]
fn exit_code_zero_clears_and_nonzero_counts() {
    let mut c = running("A", "img:a", "u1");
    assert_eq!(c.step(polled(Some("A"), UnitPoll::Exited(3))), Ok(pause()));
    assert!(!c.is_active());
    assert_eq!(c.consecutive_failures(), 1);
    assert_eq!(c.fault(), Some(&SlotFault::ExitCode(3)));
    assert_eq!(c.report().error, Some("Container exited with code 3".to_string()));

    let mut c = running("A", "img:a", "u1");
    assert_eq!(c.step(polled(Some("A"), UnitPoll::Exited(0))), Ok(pause()));
    assert!(!c.is_active());
    assert_eq!(c.consecutive_failures(), 0);
    assert!(c.fault().is_none());

    let mut c = running("A", "img:a", "u1");
    assert_eq!(c.step(polled(Some("A"), UnitPoll::WaitFailed)), Ok(pause()));
    assert_eq!(c.consecutive_failures(), 1);
    assert_eq!(c.fault(), Some(&SlotFault::ExitCode(-1)));
    assert_eq!(c.report().error, Some("Container exited with code -1".to_string()));
}

#[test]
fn a_finished_task_is_not_run_again_until_the_name_changes() {
    let mut c = running("A", "img:a", "u1");
    c.step(polled(Some("A"), UnitPoll::Exited(1))).unwrap();
    c.step(SlotEvent::SleepFinished { interrupted: false }).unwrap();
    assert_eq!(c.step(observed(Some(config("A", "img:a")))), Ok(pause()));
    assert_eq!(c.consecutive_failures(), 1);
    c.step(SlotEvent::SleepFinished { interrupted: false }).unwrap();
    assert_eq!(
        c.step(observed(Some(config("B", "img:b")))),
        Ok(SlotAction::Pull { image: "img:b".to_string() })
    );
    assert_eq!(c.consecutive_failures(), 0);
    assert!(c.fault().is_none());
}

#[test]
fn pull_is_tried_three_times_then_given_up() {
    let mut c = controller();
    let pull = SlotAction::Pull { image: "img:a".to_string() };
    let retry = SlotAction::Sleep { millis: 5000, interruptible: false };
    assert_eq!(c.step(observed(Some(config("A", "img:a")))), Ok(pull.clone_action()));
    assert_eq!(c.step(SlotEvent::PullFinished(Err("e1".to_string()))), Ok(retry.clone_action()));
    assert_eq!(c.step(SlotEvent::SleepFinished { interrupted: false }), Ok(pull.clone_action()));
    assert_eq!(c.step(SlotEvent::PullFinished(Err("e2".to_string()))), Ok(retry.clone_action()));
    assert_eq!(c.consecutive_failures(), 0);
    assert_eq!(c.step(SlotEvent::SleepFinished { interrupted: true }), Ok(pull.clone_action()));
    assert_eq!(
        c.step(SlotEvent::PullFinished(Err("e3".to_string()))),
        Ok(SlotAction::Sleep { millis: 30000, interruptible: true })
    );
    assert_eq!(c.consecutive_failures(), 1);
    assert_eq!(c.fault(), Some(&SlotFault::PullFailed("e3".to_string())));
    assert_eq!(c.report().error, Some("Image pull failed: e3".to_string()));
    assert_eq!(c.step(SlotEvent::SleepFinished { interrupted: true }), Ok(SlotAction::Observe));
    assert_eq!(c.step(observed(Some(config("A", "img:a")))), Ok(pause()));
}

trait CloneAction {
    fn clone_action(&self) -> SlotAction;
}

impl CloneAction for SlotAction {
    fn clone_action(&self) -> SlotAction {
        match self {
            SlotAction::Pull { image } => SlotAction::Pull { image: image.clone() },
            SlotAction::Sleep { millis, interruptible } => {
                SlotAction::Sleep { millis: *millis, interruptible: *interruptible }
            }
            _ => unreachable!(),
        }
    }
}

#[test]
fn start_is_tried_three_times_then_backed_off() {
    let mut c = controller();
    c.step(observed(Some(config("A", "img:a")))).unwrap();
    assert_eq!(c.step(SlotEvent::PullFinished(Ok(()))), Ok(start_of("A", "img:a")));
    let wait = SlotAction::Sleep { millis: 5000, interruptible: true };
    assert_eq!(c.step(SlotEvent::StartFinished(Err("x".to_string()))), Ok(wait.clone_action()));
    assert_eq!(
        c.step(SlotEvent::SleepFinished { interrupted: false }),
        Ok(start_of("A", "img:a"))
    );
    assert_eq!(c.step(SlotEvent::StartFinished(Err("x".to_string()))), Ok(wait.clone_action()));
    assert_eq!(
        c.step(SlotEvent::SleepFinished { interrupted: false }),
        Ok(start_of("A", "img:a"))
    );
    assert_eq!(c.consecutive_failures(), 0);
    assert_eq!(
        c.step(SlotEvent::StartFinished(Err("x".to_string()))),
        Ok(SlotAction::Sleep { millis: 10000, interruptible: true })
    );
    assert_eq!(c.consecutive_failures(), 1);
    assert_eq!(c.fault(), Some(&SlotFault::StartFailed));
    assert_eq!(
        c.report().error,
        Some("Failed to start container after 3 attempts".to_string())
    );
    assert_eq!(c.step(SlotEvent::SleepFinished { interrupted: false }), Ok(pause()));
    assert_eq!(c.step(SlotEvent::SleepFinished { interrupted: false }), Ok(SlotAction::Observe));
}

#[test]
fn a_task_change_cuts_the_start_retries_short() {
    let mut c = controller();
    c.step(observed(Some(config("A", "img:a")))).unwrap();
    c.step(SlotEvent::PullFinished(Ok(()))).unwrap();
    c.step(SlotEvent::StartFinished(Err("x".to_string()))).unwrap();
    assert_eq!(
        c.step(SlotEvent::SleepFinished { interrupted: true }),
        Ok(SlotAction::Sleep { millis: 10000, interruptible: true })
    );
    assert_eq!(c.consecutive_failures(), 1);
    assert_eq!(c.fault(), Some(&SlotFault::StartFailed));
    assert_eq!(*c.phase(), Phase::Sleeping(Wake::Pause));
}

#[test]
fn a_started_unit_clears_the_fault() {
    let mut c = controller();
    c.step(observed(Some(config("A", "img:a")))).unwrap();
    c.step(SlotEvent::PullFinished(Ok(()))).unwrap();
    c.step(SlotEvent::StartFinished(Err("x".to_string()))).unwrap();
    c.step(SlotEvent::SleepFinished { interrupted: false }).unwrap();
    assert_eq!(c.step(SlotEvent::StartFinished(Ok("u".to_string()))), Ok(poll("u")));
    assert!(c.is_active());
    assert!(c.fault().is_none());
    assert!(c.report().active);
}

#[test]
fn backoff_grows_by_ten_seconds_up_to_sixty() {
    let expected = [0u64, 10, 20, 30, 40, 50, 60, 60, 60];
    for (failures, secs) in expected.iter().enumerate() {
        assert_eq!(backoff_millis(failures as u32), secs * 1000);
    }
    assert_eq!(backoff_millis(u32::MAX), 60000);
    let mut last = 0;
    for f in 0..100 {
        let b = backoff_millis(f);
        assert!(b >= last);
        assert!(b <= 60000);
        last = b;
    }
    assert_eq!(count_failure(0), 1);
    assert_eq!(count_failure(41), 42);
    assert_eq!(count_failure(u32::MAX), u32::MAX);
}

#[test]
fn idle_slot_forgets_its_task_and_waits() {
    let mut c = running("A", "img:a", "u1");
    c.step(polled(Some("A"), UnitPoll::Exited(9))).unwrap();
    c.step(SlotEvent::SleepFinished { interrupted: false }).unwrap();
    assert_eq!(c.consecutive_failures(), 1);
    assert_eq!(c.step(observed(None)), Ok(SlotAction::Sleep { millis: 5000, interruptible: true }));
    assert!(c.last_task_name().is_none());
    assert_eq!(c.consecutive_failures(), 0);
    assert!(c.fault().is_none());
    assert_eq!(c.step(SlotEvent::SleepFinished { interrupted: true }), Ok(pause()));
    assert_eq!(c.step(SlotEvent::SleepFinished { interrupted: false }), Ok(SlotAction::Observe));
    assert_eq!(
        c.step(observed(Some(config("A", "img:a")))),
        Ok(SlotAction::Pull { image: "img:a".to_string() })
    );
}

#[test]
fn shutdown_comes_before_new_work() {
    let mut c = controller();
    assert_eq!(
        c.step(SlotEvent::Observed { shutdown: true, task: Some(config("A", "img:a")) }),
        Ok(SlotAction::Exit)
    );
    assert!(c.has_exited());
    assert!(c.last_task_name().is_none());
    assert_eq!(c.step(observed(None)), Err(SlotMisuse::UnexpectedEvent));
    assert_eq!(c.step(SlotEvent::Removed), Err(SlotMisuse::UnexpectedEvent));
    assert!(c.has_exited());
}

#[test]
fn unexpected_events_change_nothing() {
    let mut c = running("A", "img:a", "u1");
    let events = vec![
        observed(None),
        SlotEvent::PullFinished(Ok(())),
        SlotEvent::StartFinished(Ok("other".to_string())),
        SlotEvent::Stopped,
        SlotEvent::Removed,
        SlotEvent::SleepFinished { interrupted: false },
    ];
    for e in events {
        assert_eq!(c.step(e), Err(SlotMisuse::UnexpectedEvent));
        assert!(c.is_active());
        assert_eq!(*c.phase(), Phase::Running { unit: "u1".to_string() });
    }
    assert_eq!(c.step(polled(Some("A"), UnitPoll::StillRunning)), Ok(poll("u1")));
}

#[test]
fn unit_environment_holds_the_overrides_that_the_task_supplies() {
    let mut t = config("job", "img:1");
    assert_eq!(
        build_env(&t, "n-7", 0),
        env_of(&[("TASK_NAME", "job"), ("NODE_ID", "n-7"), ("INSTANCE_ID", "0")])
    );
    t.input_redis = Some("redis://in".to_string());
    t.output_queue = Some("out-q".to_string());
    t.redis_url = Some("ignored".to_string());
    assert_eq!(
        build_env(&t, "n-7", 4294967295),
        env_of(&[
            ("TASK_NAME", "job"),
            ("NODE_ID", "n-7"),
            ("INSTANCE_ID", "4294967295"),
            ("INPUT_REDIS_URL", "redis://in"),
            ("OUTPUT_QUEUE", "out-q"),
        ])
    );
    t.output_redis = Some("redis://out".to_string());
    t.input_queue = Some("in-q".to_string());
    assert_eq!(
        build_env(&t, "n", 12),
        env_of(&[
            ("TASK_NAME", "job"),
            ("NODE_ID", "n"),
            ("INSTANCE_ID", "12"),
            ("INPUT_REDIS_URL", "redis://in"),
            ("OUTPUT_REDIS_URL", "redis://out"),
            ("INPUT_QUEUE", "in-q"),
            ("OUTPUT_QUEUE", "out-q"),
        ])
    );
}

#[test]
fn fault_messages() {
    assert_eq!(SlotFault::PullFailed("denied".to_string()).message(), "Image pull failed: denied");
    assert_eq!(SlotFault::StartFailed.message(), "Failed to start container after 3 attempts");
    assert_eq!(SlotFault::ExitCode(137).message(), "Container exited with code 137");
    assert_eq!(
        SlotFault::ExitCode(i64::MIN).message(),
        "Container exited with code -9223372036854775808"
    );
}
