use gridcore::driver::{
    after_create_failure, after_default_connect_failure, after_socket_connect_failure,
    container_name, env_lines, grace_seconds, image_present, is_fatal_pull_error,
    memory_limit_bytes, names_absent_unit, plan_unit, poll_outcome, pull_outcome, settle_absent,
    stopped_units, tags_name_image, wait_outcome, ConnectStep, CreateRecovery, DriverError,
    UnitSummary,
};
use gridcore::slot::{StartRequest, UnitPoll};
use gridcore::text::{contains, render_signed, render_unsigned, same_text, starts_with};

fn strings(v: &[&str]) -> Vec<String> {
    v.iter().map(|s| s.to_string()).collect()
}

#[test]
fn stopping_an_absent_unit_is_success() {
    assert_eq!(settle_absent(Ok(())), Ok(()));
    assert_eq!(
        settle_absent(Err("Docker responded with status code 404: No such container: abc".to_string())),
        Ok(())
    );
    assert_eq!(settle_absent(Err("container abc not found".to_string())), Ok(()));
    assert_eq!(
        settle_absent(Err("connection reset".to_string())),
        Err(DriverError::Runtime("connection reset".to_string()))
    );
    assert_eq!(
        settle_absent(Err("no such container".to_string())),
        Err(DriverError::Runtime("no such container".to_string()))
    );
    assert!(names_absent_unit("No such container"));
    assert!(names_absent_unit("x not found y"));
    assert!(!names_absent_unit(""));
}

#[test]
fn a_taken_name_is_freed_once() {
    assert_eq!(
        after_create_failure("409 Conflict. The container name is in use", false),
        CreateRecovery::RemoveAndRetry
    );
    assert_eq!(
        after_create_failure("409 Conflict. The container name is in use", true),
        CreateRecovery::Fail
    );
    assert_eq!(after_create_failure("no such image", false), CreateRecovery::Fail);
    assert_eq!(after_create_failure("conflict", false), CreateRecovery::Fail);
}

#[test]
fn connection_failures_are_told_apart() {
    assert_eq!(
        after_default_connect_failure("dial unix: permission denied".to_string()),
        ConnectStep::Fail(DriverError::PermissionDenied("dial unix: permission denied".to_string()))
    );
    assert_eq!(
        after_default_connect_failure("no such file".to_string()),
        ConnectStep::TrySocket { path: "/var/run/docker.sock", timeout_secs: 120 }
    );
    assert_eq!(
        after_socket_connect_failure("first".to_string(), "permission denied".to_string()),
        DriverError::PermissionDenied("permission denied".to_string())
    );
    assert_eq!(
        after_socket_connect_failure("first".to_string(), "second".to_string()),
        DriverError::Unavailable("first".to_string())
    );
}

#[test]
fn unit_names_and_environment_lines() {
    assert_eq!(container_name("job", "n1", 0), "idm-job-n1-0");
    assert_eq!(container_name("a-b", "node", 17), "idm-a-b-node-17");
    assert_eq!(container_name("", "", 4294967295), "idm---4294967295");
    let env = vec![
        ("TASK_NAME".to_string(), "job".to_string()),
        ("EMPTY".to_string(), String::new()),
        ("URL".to_string(), "redis://h?a=b".to_string()),
    ];
    assert_eq!(env_lines(&env), strings(&["TASK_NAME=job", "EMPTY=", "URL=redis://h?a=b"]));
    assert!(env_lines(&vec![]).is_empty());
}

#[test]
fn memory_limit_in_bytes() {
    assert_eq!(memory_limit_bytes(0), Some(0));
    assert_eq!(memory_limit_bytes(1), Some(1048576));
    assert_eq!(memory_limit_bytes(1024), Some(1073741824));
    assert_eq!(memory_limit_bytes(8796093022207), Some(9223372036853727232));
    assert_eq!(memory_limit_bytes(8796093022208), None);
    assert_eq!(memory_limit_bytes(u64::MAX), None);
    assert_eq!(grace_seconds(30), 30);
    assert_eq!(grace_seconds(0), 0);
    assert_eq!(grace_seconds(u64::MAX), i64::MAX);
}

#[test]
fn unit_plan_follows_the_request() {
    let req = StartRequest {
        task_name: "job".to_string(),
        image: "img:1".to_string(),
        node_id: "n1".to_string(),
        slot: 3,
        env: vec![("K".to_string(), "v".to_string())],
        memory_mb: 512,
    };
    let spec = plan_unit(&req, "linux/arm64").unwrap();
    assert_eq!(spec.name, "idm-job-n1-3");
    assert_eq!(spec.image, "img:1");
    assert_eq!(spec.env, strings(&["K=v"]));
    assert_eq!(spec.cpu_count, 1);
    assert_eq!(spec.memory_bytes, 536870912);
    assert_eq!(spec.platform, "linux/arm64");
    let huge = StartRequest { memory_mb: u64::MAX, ..req };
    assert_eq!(plan_unit(&huge, "linux/arm64"), Err(DriverError::MemoryLimitTooLarge));
}

#[test]
fn wait_and_poll_outcomes() {
    assert_eq!(wait_outcome(Some(Ok(0))), Ok(0));
    assert_eq!(wait_outcome(Some(Ok(137))), Ok(137));
    assert_eq!(
        wait_outcome(Some(Err("gone".to_string()))),
        Err(DriverError::Runtime("gone".to_string()))
    );
    assert_eq!(wait_outcome(None), Err(DriverError::WaitEnded));
    assert_eq!(poll_outcome(None), UnitPoll::StillRunning);
    assert_eq!(poll_outcome(Some(Ok(2))), UnitPoll::Exited(2));
    assert_eq!(poll_outcome(Some(Err(DriverError::WaitEnded))), UnitPoll::WaitFailed);
}

#[test]
fn pull_fails_on_the_last_fatal_message() {
    assert_eq!(pull_outcome("img", &vec![]), Ok(()));
    assert_eq!(pull_outcome("img", &strings(&["timeout", "reset"])), Ok(()));
    assert_eq!(
        pull_outcome("img", &strings(&["manifest not found", "timeout"])),
        Err(DriverError::PullFailed {
            image: "img".to_string(),
            message: "manifest not found".to_string()
        })
    );
    assert_eq!(
        pull_outcome("img", &strings(&["not found", "x", "pull access denied for img", "y"])),
        Err(DriverError::PullFailed {
            image: "img".to_string(),
            message: "pull access denied for img".to_string()
        })
    );
    assert!(is_fatal_pull_error("permission denied"));
    assert!(is_fatal_pull_error("a not found b"));
    assert!(is_fatal_pull_error("pull access denied"));
    assert!(!is_fatal_pull_error("i/o timeout"));
}

#[test]
fn image_is_found_by_its_tags() {
    assert!(tags_name_image(&strings(&["a:1", "img:latest"]), "img"));
    assert!(tags_name_image(&strings(&["img:1"]), "img:1"));
    assert!(!tags_name_image(&strings(&["img:1"]), "img:2"));
    assert!(!tags_name_image(&strings(&["image:1"]), "img"));
    assert!(!tags_name_image(&strings(&["my/img:1"]), "img"));
    assert!(tags_name_image(&strings(&["img:1:x"]), "img:1"));
    assert!(!tags_name_image(&vec![], "img"));
    let images = vec![strings(&["a:1"]), vec![], strings(&["b:1", "img:2"])];
    assert!(image_present(&images, "img"));
    assert!(image_present(&images, "a:1"));
    assert!(!image_present(&images, "c"));
    assert!(!image_present(&vec![], "img"));
}

#[test]
fn leftover_units_are_ours_and_exited() {
    let unit = |id: Option<&str>, names: Option<&[&str]>, state: Option<&str>| UnitSummary {
        id: id.map(|s| s.to_string()),
        names: names.map(strings),
        state: state.map(|s| s.to_string()),
    };
    let units = vec![
        unit(Some("1"), Some(&["/idm-a-n-0"]), Some("exited")),
        unit(Some("2"), Some(&["/idm-a-n-1"]), Some("running")),
        unit(Some("3"), Some(&["/other"]), Some("exited")),
        unit(None, Some(&["/idm-a-n-2"]), Some("exited")),
        unit(Some("5"), None, Some("exited")),
        unit(Some("6"), Some(&["/x", "/idm-b-n-0", "/idm-alias"]), Some("exited")),
        unit(Some("7"), Some(&["/idm-c-n-0"]), None),
        unit(Some("8"), Some(&["idm-c-n-0"]), Some("exited")),
    ];
    assert_eq!(stopped_units(&units), strings(&["1", "6"]));
    assert!(stopped_units(&vec![]).is_empty());
}

#[test]
fn driver_error_messages() {
    assert_eq!(
        DriverError::PermissionDenied("why".to_string()).message(),
        "Docker permission denied: why"
    );
    assert_eq!(DriverError::Unavailable("why".to_string()).message(), "Docker not available");
    assert_eq!(
        DriverError::PullFailed { image: "img:1".to_string(), message: "not found".to_string() }
            .message(),
        "Failed to pull image 'img:1': not found"
    );
    assert_eq!(DriverError::WaitEnded.message(), "Wait stream ended unexpectedly");
    assert_eq!(DriverError::MemoryLimitTooLarge.message(), "Memory limit too large");
    assert_eq!(DriverError::Runtime("as is".to_string()).message(), "as is");
}

#[test]
fn text_search() {
    assert!(contains("hello world", "o w"));
    assert!(contains("hello", "hello"));
    assert!(contains("hello", ""));
    assert!(contains("", ""));
    assert!(!contains("", "a"));
    assert!(!contains("hello", "hello!"));
    assert!(!contains("hello", "world"));
    assert!(contains("aaab", "aab"));
    assert!(contains("错误: not found", "not found"));
    assert!(contains("错误", "误"));
    assert!(starts_with("/idm-x", "/idm-"));
    assert!(starts_with("abc", ""));
    assert!(starts_with("abc", "abc"));
    assert!(!starts_with("abc", "abcd"));
    assert!(!starts_with("xabc", "abc"));
    assert!(same_text("a", "a"));
    assert!(!same_text("a", "A"));
}

#[test]
fn numbers_in_decimal() {
    assert_eq!(render_unsigned(0), "0");
    assert_eq!(render_unsigned(7), "7");
    assert_eq!(render_unsigned(10), "10");
    assert_eq!(render_unsigned(1234567890), "1234567890");
    assert_eq!(render_unsigned(u64::MAX), "18446744073709551615");
    assert_eq!(render_signed(0), "0");
    assert_eq!(render_signed(-1), "-1");
    assert_eq!(render_signed(255), "255");
    assert_eq!(render_signed(i64::MAX), "9223372036854775807");
    assert_eq!(render_signed(i64::MIN), "-9223372036854775808");
    for n in [0u64, 9, 10, 99, 100, 101, 4096, 65535, 1 << 40] {
        assert_eq!(render_unsigned(n), n.to_string());
        assert_eq!(render_signed(-(n as i64)), (-(n as i64)).to_string());
    }
}
