use bedu_claim::client::{
    AttemptAction, AttemptEvent, ClaimError, HttpMethod, RequestFailure, RunAction, RunEvent,
    RunPhase, RunStep,
};
use bedu_claim::{
    AutoClaimConfig, AutoClaimer, ClaimResponse, TaskItem, TaskListData, TaskListResponse,
    UserInfoData, UserInfoResponse,
};

fn run_config(claim_limit: i32, interval_ms: u64) -> AutoClaimConfig {
    AutoClaimConfig {
        server_base_url: "https://example.test".to_string(),
        cookie: "SESSION=abc".to_string(),
        task_type: "audittask".to_string(),
        claim_limit,
        interval_ms,
        step_id: 1,
        subject_id: 2,
        clue_type_id: 1,
    }
}

fn user_info(errno: i32, errmsg: &str, user_name: &str) -> UserInfoResponse {
    UserInfoResponse {
        errno,
        errmsg: errmsg.to_string(),
        data: UserInfoData {
            role_links: vec![],
            role_names: vec![],
            user_name: user_name.to_string(),
            avatar: String::new(),
        },
    }
}

fn run_task(task_id: i32) -> TaskItem {
    TaskItem {
        task_id,
        clue_id: task_id + 1000,
        brief: String::new(),
        step: 1,
        subject: 2,
        state: 0,
        step_name: String::new(),
        subject_name: String::new(),
        clue_type: 1,
        clue_type_name: String::new(),
        state_name: String::new(),
        create_time: String::new(),
        dispatch_time: Some("2024-01-02".to_string()),
    }
}

fn all_events() -> Vec<RunEvent> {
    vec![
        RunEvent::Identified(Ok(user_info(0, "", "alice"))),
        RunEvent::Identified(Ok(user_info(3, "no", "alice"))),
        RunEvent::Identified(Err(RequestFailure::Transport("down".to_string()))),
        RunEvent::Tick,
        RunEvent::AttemptSucceeded,
        RunEvent::AttemptFailed,
        RunEvent::BackoffElapsed,
    ]
}

#[test]
fn run_starts_with_the_identity_check() {
    let claimer = AutoClaimer::new(run_config(5, 3000));
    let step = claimer.start();
    assert_eq!(step.phase, RunPhase::Validating);
    match step.action {
        RunAction::Identify(request) => {
            assert_eq!(request.method, HttpMethod::Get);
            assert_eq!(request.url, "https://example.test/edushop/user/common/info");
            assert_eq!(request.headers.len(), 2);
            assert_eq!(request.headers[0].name, "Cookie");
            assert_eq!(request.headers[0].value, "SESSION=abc");
            assert_eq!(request.body, None);
        }
        other => panic!("unexpected action {:?}", other),
    }
}

#[test]
fn identified_user_starts_the_timer() {
    let claimer = AutoClaimer::new(run_config(5, 2500));
    let step =
        claimer.advance(RunPhase::Validating, RunEvent::Identified(Ok(user_info(0, "", "alice"))));
    assert_eq!(
        step,
        RunStep {
            phase: RunPhase::Running,
            action: RunAction::StartTimer { user_name: "alice".to_string(), interval_ms: 2500 },
        }
    );
}

#[test]
fn rejected_identity_aborts_before_polling() {
    let claimer = AutoClaimer::new(run_config(5, 3000));
    let step = claimer.advance(
        RunPhase::Validating,
        RunEvent::Identified(Ok(user_info(10001, "login required", "alice"))),
    );
    assert_eq!(
        step,
        RunStep {
            phase: RunPhase::Aborted,
            action: RunAction::Abort(ClaimError::Identity {
                errno: 10001,
                errmsg: "login required".to_string(),
            }),
        }
    );
    for event in all_events() {
        let next = claimer.advance(step.phase, event);
        assert_eq!(next, RunStep { phase: RunPhase::Aborted, action: RunAction::Idle });
    }
    assert_eq!(claimer.get_attempt_count(), 0);
}

#[test]
fn failed_identity_request_aborts_before_polling() {
    let claimer = AutoClaimer::new(run_config(5, 3000));
    let failure = RequestFailure::Transport("dns error".to_string());
    let step = claimer.advance(RunPhase::Validating, RunEvent::Identified(Err(failure.clone())));
    assert_eq!(
        step,
        RunStep {
            phase: RunPhase::Aborted,
            action: RunAction::Abort(ClaimError::Credential(failure)),
        }
    );
}

#[test]
fn tick_asks_for_an_attempt_while_the_quota_is_unmet() {
    let claimer = AutoClaimer::new(run_config(5, 3000));
    let step = claimer.advance(RunPhase::Running, RunEvent::Tick);
    assert_eq!(step, RunStep { phase: RunPhase::Running, action: RunAction::Attempt });
}

#[test]
fn tick_completes_the_run_once_the_quota_is_met() {
    let mut claimer = AutoClaimer::new(run_config(2, 3000));
    claimer.perform_single_claim(AttemptEvent::Begin);
    claimer.perform_single_claim(AttemptEvent::ClaimAnswered {
        task_ids: vec!["1".to_string(), "2".to_string()],
        outcome: Ok(ClaimResponse { errno: 0, errmsg: String::new(), data: None }),
    });
    let step = claimer.advance(RunPhase::Running, RunEvent::Tick);
    assert_eq!(
        step,
        RunStep {
            phase: RunPhase::Completed,
            action: RunAction::Report { claimed: 2, attempts: 1 },
        }
    );
    for event in all_events() {
        let next = claimer.advance(RunPhase::Completed, event);
        assert_eq!(next, RunStep { phase: RunPhase::Completed, action: RunAction::Idle });
    }
}

#[test]
fn quota_of_zero_completes_on_the_first_tick() {
    let claimer = AutoClaimer::new(run_config(0, 3000));
    let step = claimer.advance(RunPhase::Running, RunEvent::Tick);
    assert_eq!(
        step,
        RunStep {
            phase: RunPhase::Completed,
            action: RunAction::Report { claimed: 0, attempts: 0 },
        }
    );
}

#[test]
fn finished_attempt_waits_for_the_next_tick() {
    let claimer = AutoClaimer::new(run_config(5, 3000));
    let step = claimer.advance(RunPhase::Running, RunEvent::AttemptSucceeded);
    assert_eq!(step, RunStep { phase: RunPhase::Running, action: RunAction::AwaitTick });
}

#[test]
fn failed_attempt_pauses_and_goes_on() {
    let claimer = AutoClaimer::new(run_config(5, 3000));
    let step = claimer.advance(RunPhase::Running, RunEvent::AttemptFailed);
    assert_eq!(
        step,
        RunStep { phase: RunPhase::Running, action: RunAction::Backoff { millis: 1000 } }
    );
    let step = claimer.advance(step.phase, RunEvent::BackoffElapsed);
    assert_eq!(step, RunStep { phase: RunPhase::Running, action: RunAction::AwaitTick });
}

#[test]
fn event_that_does_not_belong_to_the_phase_changes_nothing() {
    let claimer = AutoClaimer::new(run_config(5, 3000));
    for event in [
        RunEvent::Tick,
        RunEvent::AttemptSucceeded,
        RunEvent::AttemptFailed,
        RunEvent::BackoffElapsed,
    ] {
        let step = claimer.advance(RunPhase::Validating, event);
        assert_eq!(step, RunStep { phase: RunPhase::Validating, action: RunAction::Idle });
    }
    let step =
        claimer.advance(RunPhase::Running, RunEvent::Identified(Ok(user_info(0, "", "alice"))));
    assert_eq!(step, RunStep { phase: RunPhase::Running, action: RunAction::Idle });
}

/// A scripted service: every listing holds two tasks; the answers to claims
/// are taken from `answers` in turn, where `None` stands for a failed request.
fn simulate_run(claim_limit: i32, answers: Vec<Option<ClaimResponse>>) -> (Vec<String>, i32, i32) {
    let mut claimer = AutoClaimer::new(run_config(claim_limit, 3000));
    let mut answers = answers.into_iter();
    let mut trace: Vec<String> = Vec::new();
    let mut step = claimer.start();
    for _ in 0..200 {
        let event = match step.action {
            RunAction::Identify(_) => {
                trace.push("identify".to_string());
                RunEvent::Identified(Ok(user_info(0, "", "alice")))
            }
            RunAction::StartTimer { .. } => {
                trace.push("timer".to_string());
                RunEvent::Tick
            }
            RunAction::AwaitTick => RunEvent::Tick,
            RunAction::Attempt => {
                let remaining = match claimer.perform_single_claim(AttemptEvent::Begin) {
                    AttemptAction::FetchTasks { remaining, .. } => remaining,
                    other => panic!("unexpected action {:?}", other),
                };
                let listing = TaskListResponse {
                    errno: 0,
                    errmsg: String::new(),
                    data: TaskListData { total: 2, list: vec![run_task(1), run_task(2)] },
                };
                let listed = AttemptEvent::TasksListed { remaining, outcome: Ok(listing) };
                let task_ids = match claimer.perform_single_claim(listed) {
                    AttemptAction::SubmitClaim { task_ids, .. } => task_ids,
                    other => panic!("unexpected action {:?}", other),
                };
                let outcome = match answers.next().expect("enough answers") {
                    Some(response) => Ok(response),
                    None => Err(RequestFailure::Transport("timed out".to_string())),
                };
                match claimer.perform_single_claim(AttemptEvent::ClaimAnswered { task_ids, outcome })
                {
                    AttemptAction::Finished { claimed, .. } => {
                        trace.push(format!("claimed {}", claimed));
                        RunEvent::AttemptSucceeded
                    }
                    AttemptAction::Failed(_) => {
                        trace.push("failed".to_string());
                        RunEvent::AttemptFailed
                    }
                    other => panic!("unexpected action {:?}", other),
                }
            }
            RunAction::Backoff { millis } => {
                trace.push(format!("pause {}", millis));
                RunEvent::BackoffElapsed
            }
            RunAction::Report { claimed, attempts } => {
                assert_eq!(step.phase, RunPhase::Completed);
                return (trace, claimed, attempts);
            }
            RunAction::Abort(error) => panic!("aborted: {:?}", error),
            RunAction::Idle => panic!("idle"),
        };
        step = claimer.advance(step.phase, event);
    }
    panic!("the run did not end");
}

#[test]
fn run_goes_on_after_failures_until_the_quota_is_met() {
    let accepted = ClaimResponse { errno: 0, errmsg: String::new(), data: None };
    let pending = ClaimResponse { errno: 10003, errmsg: "pending".to_string(), data: None };
    let (trace, claimed, attempts) = simulate_run(
        3,
        vec![None, Some(pending), Some(accepted.clone()), None, Some(accepted)],
    );
    assert_eq!(
        trace,
        vec![
            "identify", "timer", "failed", "pause 1000", "claimed 0", "claimed 2", "failed",
            "pause 1000", "claimed 1",
        ]
    );
    assert_eq!(claimed, 3);
    assert_eq!(attempts, 5);
}
