//! The claim controller: the progress of a session and the single attempt.
//!
//! An attempt alternates decisions with calls to the service. The decisions
//! are taken here; the calls are made by a driver. The driver starts an
//! attempt with [`AttemptEvent::Begin`], performs the request that each
//! returned action carries, and hands the answer back as the next event,
//! until the action is [`AttemptAction::Finished`] or [`AttemptAction::Failed`].
//!
//! The controller owns the two counters of the session. Every change of them
//! goes through `&mut self`, so no two attempts can write them at once; a
//! driver that shares the controller with readers keeps it behind a lock and
//! holds the lock for the length of one call.

use vstd::prelude::*;

use crate::api::types::{ClaimResponse, TaskItem, TaskListResponse, UserInfoResponse};
use crate::client::config::{AutoClaimConfig, PRODUCE_TASK};
use crate::client::error::{ClaimError, RequestFailure};
use crate::client::http::{
    claim_request, is_produce_task, list_request, user_info_request, HttpClient, HttpRequest,
    ListQuery, TaskListOptions,
};
use crate::client::interpret::{claim_verdict, interpret_claim, ClaimVerdict};
use crate::text::{decimal_string, decimal_text, lemma_decimal_text_parses, parsed_u64, same_text};

verus! {

/// The page that an attempt lists.
pub const LIST_PAGE: i64 = 1;

/// The number of tasks that an attempt asks the listing for.
pub const LIST_PAGE_SIZE: i64 = 20;

/// What a driver reports to the controller in the course of one attempt.
#[derive(Debug)]
pub enum AttemptEvent {
    /// A new attempt starts.
    Begin,
    /// The listing that the attempt asked for has ended with `outcome`.
    /// `remaining` is the number that the attempt asked the listing with.
    TasksListed { remaining: i64, outcome: Result<TaskListResponse, RequestFailure> },
    /// The submission of `task_ids` has ended with `outcome`.
    ClaimAnswered { task_ids: Vec<String>, outcome: Result<ClaimResponse, RequestFailure> },
}

/// Why an attempt ended without failure.
#[derive(Debug, Clone, Copy, PartialEq, Eq, Structural)]
pub enum AttemptNote {
    /// The quota was met before the attempt; nothing was asked of the service.
    QuotaReached,
    /// The service listed no task.
    NoTasks,
    /// Tasks were listed, but none was needed.
    NothingSelected,
    /// A batch was submitted and the service answered.
    Answered(ClaimVerdict),
}

/// What the controller asks of the driver next.
#[derive(Debug, PartialEq, Eq)]
pub enum AttemptAction {
    /// Send `request`, a listing, and report [`AttemptEvent::TasksListed`]
    /// with the same `remaining`.
    FetchTasks { request: HttpRequest, remaining: i64 },
    /// Send `request`, the claim of `task_ids`, and report
    /// [`AttemptEvent::ClaimAnswered`] with the same `task_ids`.
    SubmitClaim { request: HttpRequest, task_ids: Vec<String> },
    /// The attempt is over and `claimed` items were confirmed in it.
    Finished { claimed: i32, note: AttemptNote },
    /// The attempt is over and has failed.
    Failed(ClaimError),
}

/// The two counters of a session.
pub struct Progress {
    /// The number of attempts begun.
    pub attempts: int,
    /// The number of items confirmed as claimed.
    pub claimed: int,
}

/// The number of tasks that an attempt selects when it still needs
/// `remaining` items and the service listed `listed` tasks: the smaller of
/// the two, and none if nothing is needed.
pub open spec fn batch_size(remaining: int, listed: int) -> int {
    if remaining <= 0 {
        0
    } else if remaining < listed {
        remaining
    } else {
        listed
    }
}

/// The identifier under which `task` is claimed: the secondary one in the
/// alternate mode, the primary one otherwise.
pub open spec fn submission_id(task: TaskItem, clue_mode: bool) -> int {
    if clue_mode {
        task.clue_id as int
    } else {
        task.task_id as int
    }
}

/// Whether `ids` is the batch selected from `tasks`: the submission
/// identifiers of the first `batch_size` tasks, in the order of the listing,
/// each as decimal text.
pub open spec fn is_batch(
    ids: Seq<String>,
    tasks: Seq<TaskItem>,
    remaining: int,
    clue_mode: bool,
) -> bool {
    &&& ids.len() == batch_size(remaining, tasks.len() as int)
    &&& forall|i: int|
        0 <= i < ids.len() ==> (#[trigger] ids[i])@ == decimal_text(
            submission_id(tasks[i], clue_mode),
        )
}

/// Whether one of the first `count` of `tasks` has a negative submission
/// identifier. Such an identifier cannot be submitted.
pub open spec fn has_negative_id(tasks: Seq<TaskItem>, count: int, clue_mode: bool) -> bool {
    exists|i: int| 0 <= i < count && #[trigger] submission_id(tasks[i], clue_mode) < 0
}

/// Whether `bad` is the position of the first among the first `count` of
/// `tasks` that has a negative submission identifier.
pub open spec fn first_negative_id_at(
    tasks: Seq<TaskItem>,
    count: int,
    clue_mode: bool,
    bad: int,
) -> bool {
    &&& 0 <= bad < count
    &&& submission_id(tasks[bad], clue_mode) < 0
    &&& forall|i: int| 0 <= i < bad ==> #[trigger] submission_id(tasks[i], clue_mode) >= 0
}

/// The numbers that the batch selected from `tasks` is submitted as.
pub open spec fn batch_numbers(tasks: Seq<TaskItem>, remaining: int, clue_mode: bool) -> Seq<u64> {
    Seq::new(
        batch_size(remaining, tasks.len() as int) as nat,
        |i: int| submission_id(tasks[i], clue_mode) as u64,
    )
}

/// The number of items that `event` confirms: the count of the verdict on an
/// answered claim, and nothing for any other event.
pub open spec fn event_confirmed(event: AttemptEvent) -> int {
    match event {
        AttemptEvent::ClaimAnswered { task_ids, outcome: Ok(response) } => claim_verdict(
            response,
            task_ids.len(),
        ).confirmed(),
        _ => 0,
    }
}

/// The counters after `event`: a beginning attempt is counted, and what an
/// answered claim confirms is added to the claimed items.
pub open spec fn progress_step(before: Progress, event: AttemptEvent) -> Progress {
    Progress {
        attempts: before.attempts + if event is Begin {
            1int
        } else {
            0int
        },
        claimed: before.claimed + event_confirmed(event),
    }
}

/// An identifier of a batch reads back as the number it was written from
/// where that number is not negative, and as nothing where it is negative.
pub proof fn lemma_batch_reads_back(
    ids: Seq<String>,
    tasks: Seq<TaskItem>,
    remaining: int,
    clue_mode: bool,
)
    requires
        is_batch(ids, tasks, remaining, clue_mode),
    ensures
        forall|i: int|
            0 <= i < ids.len() ==> parsed_u64(#[trigger] ids[i]@) == if submission_id(
                tasks[i],
                clue_mode,
            ) >= 0 {
                Some(submission_id(tasks[i], clue_mode) as u64)
            } else {
                None
            },
{
    assert forall|i: int| 0 <= i < ids.len() implies parsed_u64(#[trigger] ids[i]@)
        == if submission_id(tasks[i], clue_mode) >= 0 {
        Some(submission_id(tasks[i], clue_mode) as u64)
    } else {
        None
    } by {
        lemma_decimal_text_parses(submission_id(tasks[i], clue_mode));
    }
}

/// Selects the batch of an attempt that still needs `remaining` items from
/// the listed `tasks`: the first tasks in the order of the listing, no more
/// than are needed, each by the identifier that the mode asks for.
pub fn select_batch(tasks: &Vec<TaskItem>, remaining: i64, clue_mode: bool) -> (ids: Vec<String>)
    ensures
        is_batch(ids@, tasks@, remaining as int, clue_mode),
        ids@.len() <= tasks@.len(),
        remaining >= 0 ==> ids@.len() <= remaining,
{
    let count: usize = if remaining <= 0 {
        0
    } else if (remaining as u64) < (tasks.len() as u64) {
        remaining as usize
    } else {
        tasks.len()
    };
    let mut ids: Vec<String> = Vec::new();
    let mut i: usize = 0;
    while i < count
        invariant
            i <= count <= tasks@.len(),
            ids@.len() == i,
            forall|j: int|
                0 <= j < i ==> (#[trigger] ids@[j])@ == decimal_text(
                    submission_id(tasks@[j], clue_mode),
                ),
        decreases count - i,
    {
        let id: i32 = if clue_mode {
            tasks[i].clue_id
        } else {
            tasks[i].task_id
        };
        ids.push(decimal_string(id as i64));
        i += 1;
    }
    ids
}

/// The pause after a failed attempt, in milliseconds.
pub const BACKOFF_MS: u64 = 1000;

/// Where a run of the polling loop stands.
#[derive(Debug, Clone, Copy, PartialEq, Eq, Structural)]
pub enum RunPhase {
    /// The identity of the user is being checked; nothing is polled yet.
    Validating,
    /// The loop polls.
    Running,
    /// The quota is met and the run is over.
    Completed,
    /// The identity check failed and the run is over.
    Aborted,
}

/// What a driver reports to the polling loop.
#[derive(Debug)]
pub enum RunEvent {
    /// The identity check has ended with this outcome.
    Identified(Result<UserInfoResponse, RequestFailure>),
    /// The poll timer has ticked.
    Tick,
    /// The attempt that was asked for has finished.
    AttemptSucceeded,
    /// The attempt that was asked for has failed.
    AttemptFailed,
    /// The pause that was asked for is over.
    BackoffElapsed,
}

/// What the polling loop asks of the driver next.
#[derive(Debug, PartialEq, Eq)]
pub enum RunAction {
    /// Send the request, the identity check, and report
    /// [`RunEvent::Identified`].
    Identify(HttpRequest),
    /// The user `user_name` is signed in: start a timer that ticks at once
    /// and then every `interval_ms` milliseconds, and report its first tick.
    StartTimer { user_name: String, interval_ms: u64 },
    /// Report the next tick of the timer.
    AwaitTick,
    /// Run one attempt and report how it ended.
    Attempt,
    /// Pause for `millis` milliseconds and report [`RunEvent::BackoffElapsed`].
    Backoff { millis: u64 },
    /// The run is over: `claimed` items were claimed in `attempts` attempts.
    Report { claimed: i32, attempts: i32 },
    /// The run is over: the identity check failed.
    Abort(ClaimError),
    /// The event does not belong to the phase; there is nothing to do.
    Idle,
}

/// One step of the polling loop: the phase it leads to and what to do next.
#[derive(Debug, PartialEq, Eq)]
pub struct RunStep {
    pub phase: RunPhase,
    pub action: RunAction,
}

/// The verdict on the outcome of the identity check: the display name of the
/// user where the service answered with zero status, and an error where it
/// answered with another status or the request failed.
pub open spec fn identity_verdict(
    outcome: Result<UserInfoResponse, RequestFailure>,
) -> Result<String, ClaimError> {
    match outcome {
        Ok(response) => if response.errno == 0 {
            Ok(response.data.user_name)
        } else {
            Err(ClaimError::Identity { errno: response.errno, errmsg: response.errmsg })
        },
        Err(failure) => Err(ClaimError::Credential(failure)),
    }
}

/// The claim controller of one session.
pub struct AutoClaimer {
    config: AutoClaimConfig,
    client: HttpClient,
    successful_claims: i32,
    attempt_count: i32,
}

impl AutoClaimer {
    /// The configuration of the session.
    pub closed spec fn config(&self) -> AutoClaimConfig {
        self.config
    }

    /// The client that the requests of the session are made with.
    pub closed spec fn client(&self) -> HttpClient {
        self.client
    }

    /// The number of items confirmed as claimed so far.
    pub closed spec fn claimed(&self) -> int {
        self.successful_claims as int
    }

    /// The number of attempts begun so far.
    pub closed spec fn attempts(&self) -> int {
        self.attempt_count as int
    }

    /// The two counters.
    pub open spec fn progress(&self) -> Progress {
        Progress { attempts: self.attempts(), claimed: self.claimed() }
    }

    /// The number of items that the session sets out to claim.
    pub open spec fn quota(&self) -> int {
        self.config().claim_limit as int
    }

    /// Whether the session claims tasks by their secondary identifier.
    pub open spec fn clue_mode(&self) -> bool {
        is_produce_task(self.config().task_type@)
    }

    /// The listing that every attempt of the session asks for: the first
    /// page, the task type and the three filters of the configuration, and no
    /// item identifier.
    pub open spec fn list_query(&self) -> ListQuery {
        ListQuery {
            task_type: self.config().task_type@,
            pn: LIST_PAGE as int,
            rn: LIST_PAGE_SIZE as int,
            clue_id: Seq::<char>::empty(),
            clue_type: self.config().clue_type_id as int,
            step: self.config().step_id as int,
            subject: self.config().subject_id as int,
        }
    }

    /// What a beginning attempt asks for. Once the quota is met it ends at
    /// once with nothing claimed and nothing asked of the service. Otherwise
    /// it asks for the listing, with the number of items still needed.
    pub open spec fn begin_yields(&self, action: AttemptAction) -> bool {
        if self.claimed() >= self.quota() {
            action == (AttemptAction::Finished { claimed: 0, note: AttemptNote::QuotaReached })
        } else {
            &&& action matches AttemptAction::FetchTasks { request, remaining }
            &&& remaining == self.quota() - self.claimed()
            &&& request@ == list_request(
                self.client().base_url(),
                self.client().cookie(),
                self.list_query(),
            )
        }
    }

    /// What follows a listing. A failed request and a non-zero status fail
    /// the attempt. An empty listing ends it with nothing claimed, and so
    /// does a batch of no tasks. Otherwise the batch is submitted, unless one
    /// of its identifiers is negative: the first such fails the attempt.
    pub open spec fn listing_yields(
        &self,
        remaining: i64,
        outcome: Result<TaskListResponse, RequestFailure>,
        action: AttemptAction,
    ) -> bool {
        match outcome {
            Err(failure) => action == AttemptAction::Failed(ClaimError::Request(failure)),
            Ok(response) => {
                let tasks = response.data.list@;
                let count = batch_size(remaining as int, tasks.len() as int);
                if response.errno != 0 {
                    action == AttemptAction::Failed(
                        ClaimError::Listing { errno: response.errno, errmsg: response.errmsg },
                    )
                } else if tasks.len() == 0 {
                    action == (AttemptAction::Finished { claimed: 0, note: AttemptNote::NoTasks })
                } else if count == 0 {
                    action == (AttemptAction::Finished {
                        claimed: 0,
                        note: AttemptNote::NothingSelected,
                    })
                } else if has_negative_id(tasks, count, self.clue_mode()) {
                    exists|bad: int|
                        {
                            &&& #[trigger] first_negative_id_at(tasks, count, self.clue_mode(), bad)
                            &&& action matches AttemptAction::Failed(ClaimError::InvalidId { id })
                            &&& id@ == decimal_text(submission_id(tasks[bad], self.clue_mode()))
                        }
                } else {
                    &&& action matches AttemptAction::SubmitClaim { request, task_ids }
                    &&& is_batch(task_ids@, tasks, remaining as int, self.clue_mode())
                    &&& request@ == claim_request(
                        self.client().base_url(),
                        self.client().cookie(),
                        self.clue_mode(),
                        batch_numbers(tasks, remaining as int, self.clue_mode()),
                    )
                }
            },
        }
    }

    /// What follows the answer to a submission of `task_ids`. A failed
    /// request fails the attempt. Any answer of the service ends it, with the
    /// verdict on the answer and the number of items that the verdict
    /// confirms.
    pub open spec fn answer_yields(
        task_ids: Vec<String>,
        outcome: Result<ClaimResponse, RequestFailure>,
        action: AttemptAction,
    ) -> bool {
        match outcome {
            Err(failure) => action == AttemptAction::Failed(ClaimError::Request(failure)),
            Ok(response) => {
                let verdict = claim_verdict(response, task_ids.len());
                &&& action matches AttemptAction::Finished { claimed, note }
                &&& claimed == verdict.confirmed()
                &&& note == AttemptNote::Answered(verdict)
            },
        }
    }

    /// Whether the counters have room for `event`: an attempt can begin
    /// unless the attempt counter stands at its largest value, and an answer
    /// can be recorded if the sum of the claimed items and what it confirms
    /// fits in 32 bits.
    pub open spec fn admits(&self, event: AttemptEvent) -> bool {
        &&& event is Begin ==> self.attempts() < i32::MAX
        &&& i32::MIN <= self.claimed() + event_confirmed(event) <= i32::MAX
    }

    /// What the controller, in this state, asks for in answer to `event`.
    pub open spec fn yields(&self, event: AttemptEvent, action: AttemptAction) -> bool {
        match event {
            AttemptEvent::Begin => self.begin_yields(action),
            AttemptEvent::TasksListed { remaining, outcome } => self.listing_yields(
                remaining,
                outcome,
                action,
            ),
            AttemptEvent::ClaimAnswered { task_ids, outcome } => Self::answer_yields(
                task_ids,
                outcome,
                action,
            ),
        }
    }

    /// The step that the polling loop takes in `phase` on `event`.
    ///
    /// While validating, a successful identity check starts the timer and a
    /// failed one aborts the run. While running, a tick ends the run once the
    /// quota is met and asks for an attempt otherwise; a finished attempt is
    /// followed by the next tick, a failed one by a pause and then the next
    /// tick. No other event changes the phase.
    pub open spec fn next_step(&self, phase: RunPhase, event: RunEvent) -> RunStep {
        match (phase, event) {
            (RunPhase::Validating, RunEvent::Identified(outcome)) => match identity_verdict(
                outcome,
            ) {
                Ok(user_name) => RunStep {
                    phase: RunPhase::Running,
                    action: RunAction::StartTimer {
                        user_name,
                        interval_ms: self.config().interval_ms,
                    },
                },
                Err(error) => RunStep { phase: RunPhase::Aborted, action: RunAction::Abort(error) },
            },
            (RunPhase::Running, RunEvent::Tick) => if self.claimed() >= self.quota() {
                RunStep {
                    phase: RunPhase::Completed,
                    action: RunAction::Report {
                        claimed: self.claimed() as i32,
                        attempts: self.attempts() as i32,
                    },
                }
            } else {
                RunStep { phase: RunPhase::Running, action: RunAction::Attempt }
            },
            (RunPhase::Running, RunEvent::AttemptSucceeded) => RunStep {
                phase: RunPhase::Running,
                action: RunAction::AwaitTick,
            },
            (RunPhase::Running, RunEvent::AttemptFailed) => RunStep {
                phase: RunPhase::Running,
                action: RunAction::Backoff { millis: BACKOFF_MS },
            },
            (RunPhase::Running, RunEvent::BackoffElapsed) => RunStep {
                phase: RunPhase::Running,
                action: RunAction::AwaitTick,
            },
            _ => RunStep { phase, action: RunAction::Idle },
        }
    }

    /// A controller for a session run with `config`. Nothing is claimed and
    /// no attempt is begun yet; its client asks the service of the
    /// configuration with the credential of the configuration.
    pub fn new(config: AutoClaimConfig) -> (claimer: Self)
        ensures
            claimer.config() == config,
            claimer.client().base_url() == config.server_base_url@,
            claimer.client().cookie() == config.cookie@,
            claimer.claimed() == 0,
            claimer.attempts() == 0,
    {
        let client = HttpClient::new(config.server_base_url.clone(), config.cookie.clone());
        AutoClaimer { config, client, successful_claims: 0, attempt_count: 0 }
    }

    /// The number of items confirmed as claimed so far.
    pub fn get_successful_claims(&self) -> (claimed: i32)
        ensures
            claimed == self.claimed(),
    {
        self.successful_claims
    }

    /// The number of attempts begun so far.
    pub fn get_attempt_count(&self) -> (attempts: i32)
        ensures
            attempts == self.attempts(),
    {
        self.attempt_count
    }

    /// Judges the outcome of the identity check: the display name of the
    /// user where the service answered with zero status, and an error where
    /// it answered with another status or the request failed.
    pub fn validate_user(
        &self,
        outcome: Result<UserInfoResponse, RequestFailure>,
    ) -> (result: Result<String, ClaimError>)
        ensures
            result == identity_verdict(outcome),
    {
        match outcome {
            Ok(response) => {
                if response.errno == 0 {
                    Ok(response.data.user_name)
                } else {
                    Err(ClaimError::Identity { errno: response.errno, errmsg: response.errmsg })
                }
            },
            Err(failure) => Err(ClaimError::Credential(failure)),
        }
    }

    /// Takes one step of an attempt: counts a beginning attempt, decides what
    /// follows `event`, and adds what an answered claim confirms to the
    /// claimed items.
    pub fn perform_single_claim(&mut self, event: AttemptEvent) -> (action: AttemptAction)
        requires
            old(self).admits(event),
        ensures
            final(self).config() == old(self).config(),
            final(self).client() == old(self).client(),
            final(self).progress() == progress_step(old(self).progress(), event),
            old(self).yields(event, action),
    {
        match event {
            AttemptEvent::Begin => {
                self.attempt_count = self.attempt_count + 1;
                if self.successful_claims >= self.config.claim_limit {
                    return AttemptAction::Finished { claimed: 0, note: AttemptNote::QuotaReached };
                }
                let remaining: i64 = self.config.claim_limit as i64 - self.successful_claims as i64;
                let options = TaskListOptions {
                    task_type: Some(self.config.task_type.clone()),
                    pn: Some(LIST_PAGE),
                    rn: Some(LIST_PAGE_SIZE),
                    clue_id: Some(String::new()),
                    clue_type: Some(self.config.clue_type_id as i64),
                    step: Some(self.config.step_id as i64),
                    subject: Some(self.config.subject_id as i64),
                };
                let request = self.client.get_audit_task_list(&options);
                AttemptAction::FetchTasks { request, remaining }
            },
            AttemptEvent::TasksListed { remaining, outcome } => {
                let response = match outcome {
                    Ok(response) => response,
                    Err(failure) => {
                        return AttemptAction::Failed(ClaimError::Request(failure));
                    },
                };
                if response.errno != 0 {
                    return AttemptAction::Failed(
                        ClaimError::Listing { errno: response.errno, errmsg: response.errmsg },
                    );
                }
                let tasks = response.data.list;
                if tasks.len() == 0 {
                    return AttemptAction::Finished { claimed: 0, note: AttemptNote::NoTasks };
                }
                let clue_mode = same_text(self.config.task_type.as_str(), PRODUCE_TASK);
                let task_ids = select_batch(&tasks, remaining, clue_mode);
                if task_ids.len() == 0 {
                    return AttemptAction::Finished {
                        claimed: 0,
                        note: AttemptNote::NothingSelected,
                    };
                }
                proof {
                    lemma_batch_reads_back(task_ids@, tasks@, remaining as int, clue_mode);
                }
                match self.client.claim_audit_task(&task_ids, self.config.task_type.as_str()) {
                    Ok(request) => {
                        proof {
                            assert forall|i: int|
                                0 <= i < task_ids@.len() implies #[trigger] submission_id(
                                tasks@[i],
                                clue_mode,
                            ) >= 0 by {
                                assert(parsed_u64(task_ids@[i]@) is Some);
                            }
                            assert(request@.body->0.ids =~= batch_numbers(
                                tasks@,
                                remaining as int,
                                clue_mode,
                            ));
                        }
                        AttemptAction::SubmitClaim { request, task_ids }
                    },
                    Err(error) => {
                        proof {
                            let bad = choose|bad: int|
                                {
                                    &&& 0 <= bad < task_ids@.len()
                                    &&& parsed_u64(#[trigger] task_ids@[bad]@) is None
                                    &&& forall|i: int|
                                        0 <= i < bad ==> parsed_u64(
                                            #[trigger] task_ids@[i]@,
                                        ) is Some
                                    &&& error == (ClaimError::InvalidId { id: task_ids@[bad] })
                                };
                            assert(submission_id(tasks@[bad], clue_mode) < 0);
                            assert forall|i: int| 0 <= i < bad implies #[trigger] submission_id(
                                tasks@[i],
                                clue_mode,
                            ) >= 0 by {
                                assert(parsed_u64(task_ids@[i]@) is Some);
                            }
                            assert(first_negative_id_at(
                                tasks@,
                                task_ids@.len() as int,
                                clue_mode,
                                bad,
                            ));
                        }
                        AttemptAction::Failed(error)
                    },
                }
            },
            AttemptEvent::ClaimAnswered { task_ids, outcome } => {
                match outcome {
                    Ok(response) => {
                        let verdict = interpret_claim(&response, task_ids.len());
                        let claimed: i32 = self.claim_tasks(&task_ids, &response);
                        AttemptAction::Finished { claimed, note: AttemptNote::Answered(verdict) }
                    },
                    Err(failure) => AttemptAction::Failed(ClaimError::Request(failure)),
                }
            },
        }
    }

    /// Takes one step of an attempt if the counters have room for `event`,
    /// and hands the event back, with nothing changed, if they have not.
    pub fn try_single_claim(
        &mut self,
        event: AttemptEvent,
    ) -> (result: Result<AttemptAction, AttemptEvent>)
        ensures
            match result {
                Ok(action) => {
                    &&& old(self).admits(event)
                    &&& final(self).config() == old(self).config()
                    &&& final(self).client() == old(self).client()
                    &&& final(self).progress() == progress_step(old(self).progress(), event)
                    &&& old(self).yields(event, action)
                },
                Err(refused) => {
                    &&& !old(self).admits(event)
                    &&& refused == event
                    &&& *final(self) == *old(self)
                },
            },
    {
        let room: bool = match &event {
            AttemptEvent::Begin => self.attempt_count < i32::MAX,
            AttemptEvent::TasksListed { .. } => true,
            AttemptEvent::ClaimAnswered { task_ids, outcome } => match outcome {
                Ok(response) => {
                    let verdict = interpret_claim(response, task_ids.len());
                    let confirmed: i32 = verdict.confirmed_count();
                    self.successful_claims.checked_add(confirmed).is_some()
                },
                Err(_) => true,
            },
        };
        if room {
            Ok(self.perform_single_claim(event))
        } else {
            Err(event)
        }
    }

    /// Records the answer `response` of the service to the submission of
    /// `task_ids`: what the verdict on the answer confirms is added to the
    /// claimed items and returned. An answer with a non-zero status changes
    /// nothing and returns zero.
    pub fn claim_tasks(
        &mut self,
        task_ids: &Vec<String>,
        response: &ClaimResponse,
    ) -> (confirmed: i32)
        requires
            i32::MIN <= old(self).claimed() + claim_verdict(*response, task_ids.len()).confirmed()
                <= i32::MAX,
        ensures
            confirmed == claim_verdict(*response, task_ids.len()).confirmed(),
            final(self).claimed() == old(self).claimed() + confirmed,
            final(self).attempts() == old(self).attempts(),
            final(self).config() == old(self).config(),
            final(self).client() == old(self).client(),
    {
        let confirmed: i32 = interpret_claim(response, task_ids.len()).confirmed_count();
        self.successful_claims = self.successful_claims + confirmed;
        confirmed
    }
    /// Starts a run of the polling loop: it begins by validating, and asks
    /// for the identity check.
    pub fn start(&self) -> (step: RunStep)
        ensures
            step.phase == RunPhase::Validating,
            step.action matches RunAction::Identify(request) && request@ == user_info_request(
                self.client().base_url(),
                self.client().cookie(),
            ),
    {
        let request = self.client.get_user_info();
        RunStep { phase: RunPhase::Validating, action: RunAction::Identify(request) }
    }

    /// Takes the step of the polling loop that follows `event` in `phase`.
    pub fn advance(&self, phase: RunPhase, event: RunEvent) -> (step: RunStep)
        ensures
            step == self.next_step(phase, event),
    {
        match phase {
            RunPhase::Validating => match event {
                RunEvent::Identified(outcome) => match self.validate_user(outcome) {
                    Ok(user_name) => RunStep {
                        phase: RunPhase::Running,
                        action: RunAction::StartTimer {
                            user_name,
                            interval_ms: self.config.interval_ms,
                        },
                    },
                    Err(error) => RunStep {
                        phase: RunPhase::Aborted,
                        action: RunAction::Abort(error),
                    },
                },
                _ => RunStep { phase, action: RunAction::Idle },
            },
            RunPhase::Running => match event {
                RunEvent::Tick => {
                    if self.successful_claims >= self.config.claim_limit {
                        RunStep {
                            phase: RunPhase::Completed,
                            action: RunAction::Report {
                                claimed: self.successful_claims,
                                attempts: self.attempt_count,
                            },
                        }
                    } else {
                        RunStep { phase: RunPhase::Running, action: RunAction::Attempt }
                    }
                },
                RunEvent::AttemptSucceeded => RunStep {
                    phase: RunPhase::Running,
                    action: RunAction::AwaitTick,
                },
                RunEvent::AttemptFailed => RunStep {
                    phase: RunPhase::Running,
                    action: RunAction::Backoff { millis: BACKOFF_MS },
                },
                RunEvent::BackoffElapsed => RunStep {
                    phase: RunPhase::Running,
                    action: RunAction::AwaitTick,
                },
                RunEvent::Identified(_) => RunStep { phase, action: RunAction::Idle },
            },
            _ => RunStep { phase, action: RunAction::Idle },
        }
    }
}

} // verus!
