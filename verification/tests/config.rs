use bedu_claim::client::{
    ClaimError, ConfigError, RequestFailure, AUDIT_TASK, MIN_INTERVAL_MS, PRODUCE_TASK,
};
use bedu_claim::AutoClaimConfig;

fn valid_config() -> AutoClaimConfig {
    AutoClaimConfig {
        server_base_url: "https://example.test".to_string(),
        cookie: "SESSION=abc".to_string(),
        task_type: "audittask".to_string(),
        claim_limit: 10,
        interval_ms: 3000,
        step_id: 1,
        subject_id: 2,
        clue_type_id: 1,
    }
}

#[test]
fn valid_configuration_is_accepted() {
    assert_eq!(valid_config().validate(), Ok(()));
    let produce = AutoClaimConfig { task_type: "producetask".to_string(), ..valid_config() };
    assert_eq!(produce.validate(), Ok(()));
}

#[test]
fn empty_cookie_is_refused() {
    let config = AutoClaimConfig { cookie: String::new(), ..valid_config() };
    assert_eq!(config.validate(), Err(ConfigError::EmptyCookie));
}

#[test]
fn interval_below_the_minimum_is_refused() {
    assert_eq!(MIN_INTERVAL_MS, 100);
    let config = AutoClaimConfig { interval_ms: 99, ..valid_config() };
    assert_eq!(config.validate(), Err(ConfigError::IntervalTooShort));
    let config = AutoClaimConfig { interval_ms: 0, ..valid_config() };
    assert_eq!(config.validate(), Err(ConfigError::IntervalTooShort));
    let config = AutoClaimConfig { interval_ms: 100, ..valid_config() };
    assert_eq!(config.validate(), Ok(()));
    let config = AutoClaimConfig { interval_ms: u64::MAX, ..valid_config() };
    assert_eq!(config.validate(), Ok(()));
}

#[test]
fn unknown_task_type_is_refused() {
    assert_eq!(AUDIT_TASK, "audittask");
    assert_eq!(PRODUCE_TASK, "producetask");
    for task_type in ["", "audit", "AuditTask", "producetask ", "audittask,producetask"] {
        let config = AutoClaimConfig { task_type: task_type.to_string(), ..valid_config() };
        assert_eq!(config.validate(), Err(ConfigError::UnknownTaskType), "{:?}", task_type);
    }
}

#[test]
fn first_broken_rule_is_reported() {
    let config = AutoClaimConfig {
        cookie: String::new(),
        interval_ms: 1,
        task_type: "x".to_string(),
        ..valid_config()
    };
    assert_eq!(config.validate(), Err(ConfigError::EmptyCookie));
    let config = AutoClaimConfig { interval_ms: 1, task_type: "x".to_string(), ..valid_config() };
    assert_eq!(config.validate(), Err(ConfigError::IntervalTooShort));
}

#[test]
fn quota_is_not_part_of_validation() {
    let config = AutoClaimConfig { claim_limit: 0, ..valid_config() };
    assert_eq!(config.validate(), Ok(()));
    let config = AutoClaimConfig { claim_limit: -1, ..valid_config() };
    assert_eq!(config.validate(), Ok(()));
}

#[test]
fn configuration_faults_have_messages() {
    assert_eq!(ConfigError::EmptyCookie.message(), "Cookie不能为空");
    assert_eq!(ConfigError::IntervalTooShort.message(), "轮询间隔不能小于0.1秒");
    assert_eq!(
        ConfigError::UnknownTaskType.message(),
        "任务类型必须是 audittask 或 producetask"
    );
}

#[test]
fn request_failure_message_is_the_report_of_the_driver() {
    assert_eq!(RequestFailure::Transport("timed out".to_string()).message(), "timed out");
    assert_eq!(RequestFailure::Parse("bad body".to_string()).message(), "bad body");
}

#[test]
fn claim_errors_have_messages() {
    let failure = RequestFailure::Transport("timed out".to_string());
    assert_eq!(ClaimError::Request(failure.clone()).message(), "timed out");
    assert_eq!(
        ClaimError::Listing { errno: 3, errmsg: "busy".to_string() }.message(),
        "获取任务列表失败: busy"
    );
    assert_eq!(
        ClaimError::Identity { errno: 3, errmsg: "login required".to_string() }.message(),
        "用户验证失败: login required"
    );
    assert_eq!(ClaimError::Credential(failure).message(), "Cookie验证失败: timed out");
    assert_eq!(ClaimError::InvalidId { id: "-7".to_string() }.message(), "无效的任务ID: -7");
}
