//! What holds of a session over any sequence of events.

use vstd::prelude::*;

use crate::api::types::{TaskItem, TaskListResponse};
use crate::client::claimer::{
    event_confirmed, is_batch, progress_step, AttemptAction, AttemptEvent, AttemptNote,
    AutoClaimer, Progress, RunEvent, RunPhase,
};
use crate::client::error::RequestFailure;
use crate::text::decimal_text;

verus! {

/// The counters after the events `events`, reported in order to a session
/// whose counters stood at `start`.
pub open spec fn progress_after(start: Progress, events: Seq<AttemptEvent>) -> Progress
    decreases events.len(),
{
    if events.len() == 0 {
        start
    } else {
        progress_step(progress_after(start, events.drop_last()), events.last())
    }
}

/// The number of attempts that begin among `events`.
pub open spec fn begun(events: Seq<AttemptEvent>) -> nat
    decreases events.len(),
{
    if events.len() == 0 {
        0
    } else if events.last() is Begin {
        begun(events.drop_last()) + 1
    } else {
        begun(events.drop_last())
    }
}

/// Whether none of `events` confirms a negative number of items.
pub open spec fn confirms_no_loss(events: Seq<AttemptEvent>) -> bool {
    forall|i: int| 0 <= i < events.len() ==> event_confirmed(#[trigger] events[i]) >= 0
}

/// The attempt counter grows by one with every attempt that begins, and by
/// nothing else: after any events it has grown by the number of attempts
/// begun among them. In a session that starts at zero it is that number.
pub proof fn attempts_count_begun_attempts(start: Progress, events: Seq<AttemptEvent>)
    ensures
        progress_after(start, events).attempts == start.attempts + begun(events),
        start.attempts == 0 ==> progress_after(start, events).attempts == begun(events),
    decreases events.len(),
{
    if events.len() > 0 {
        attempts_count_begun_attempts(start, events.drop_last());
    }
}

/// The count of claimed items never decreases: it is no smaller after all of
/// `events` than after the first `k` of them, as long as no answer of the
/// service confirms a negative number of items.
pub proof fn claimed_never_decreases(start: Progress, events: Seq<AttemptEvent>, k: int)
    requires
        0 <= k <= events.len(),
        confirms_no_loss(events),
    ensures
        progress_after(start, events.take(k)).claimed <= progress_after(start, events).claimed,
    decreases events.len(),
{
    if k == events.len() {
        assert(events.take(k) =~= events);
    } else {
        let shorter = events.drop_last();
        claimed_never_decreases(start, shorter, k);
        assert(shorter.take(k) =~= events.take(k));
    }
}

/// Whether `event` reports an answer to a claim that the service gave with
/// zero status.
pub open spec fn is_accepted_answer(event: AttemptEvent) -> bool {
    event matches AttemptEvent::ClaimAnswered { outcome: Ok(response), .. } && response.errno == 0
}

/// The count of claimed items changes only on an answer to a claim that the
/// service gave with zero status.
pub proof fn claimed_changes_only_on_accepted_answer(before: Progress, event: AttemptEvent)
    ensures
        !is_accepted_answer(event) ==> progress_step(before, event).claimed == before.claimed,
{
}

/// Once the quota is met, a beginning attempt ends at once: nothing is
/// claimed, the count of claimed items stays, and no request is asked for.
pub proof fn met_quota_asks_nothing(claimer: AutoClaimer, action: AttemptAction)
    requires
        claimer.claimed() >= claimer.quota(),
        claimer.yields(AttemptEvent::Begin, action),
    ensures
        action == (AttemptAction::Finished { claimed: 0, note: AttemptNote::QuotaReached }),
        !(action is FetchTasks),
        !(action is SubmitClaim),
        progress_step(claimer.progress(), AttemptEvent::Begin).claimed == claimer.claimed(),
{
}

/// A submitted batch holds no more identifiers than the session still needed
/// when the attempt began, which is what it needs when the batch is selected
/// unless the count of claimed items has changed in between, and no more
/// than the service listed.
pub proof fn batch_within_need(
    at_begin: AutoClaimer,
    first: AttemptAction,
    at_listing: AutoClaimer,
    outcome: Result<TaskListResponse, RequestFailure>,
    second: AttemptAction,
)
    requires
        at_begin.yields(AttemptEvent::Begin, first),
        first is FetchTasks,
        at_listing.config() == at_begin.config(),
        at_listing.yields(
            AttemptEvent::TasksListed { remaining: first->remaining, outcome },
            second,
        ),
        second is SubmitClaim,
    ensures
        outcome is Ok,
        second->task_ids@.len() <= at_begin.quota() - at_begin.claimed(),
        at_listing.claimed() == at_begin.claimed() ==> second->task_ids@.len()
            <= at_listing.quota() - at_listing.claimed(),
        second->task_ids@.len() <= outcome->Ok_0.data.list@.len(),
        second->SubmitClaim_request@.body is Some,
        second->SubmitClaim_request@.body->0.ids.len() == second->task_ids@.len(),
{
}

/// In the alternate mode every identifier of a batch is the secondary
/// identifier of its task; otherwise it is the primary one.
pub proof fn batch_follows_mode(
    ids: Seq<String>,
    tasks: Seq<TaskItem>,
    remaining: int,
    clue_mode: bool,
    i: int,
)
    requires
        is_batch(ids, tasks, remaining, clue_mode),
        0 <= i < ids.len(),
    ensures
        i < tasks.len(),
        clue_mode ==> ids[i]@ == decimal_text(tasks[i].clue_id as int),
        !clue_mode ==> ids[i]@ == decimal_text(tasks[i].task_id as int),
{
}

/// A run leaves the running phase only for the completed one, and only on a
/// tick that finds the quota met: a failed attempt does not end the loop.
pub proof fn run_ends_only_on_quota(claimer: AutoClaimer, event: RunEvent)
    ensures
        claimer.next_step(RunPhase::Running, event).phase == RunPhase::Running
            || claimer.next_step(RunPhase::Running, event).phase == RunPhase::Completed,
        claimer.next_step(RunPhase::Running, event).phase == RunPhase::Completed <==> event is Tick
            && claimer.claimed() >= claimer.quota(),
{
}

/// Whether `event` reports an identity check that the service answered with
/// zero status.
pub open spec fn identifies_user(event: RunEvent) -> bool {
    event matches RunEvent::Identified(Ok(response)) && response.errno == 0
}

/// A run starts to poll only after an identity check that the service
/// answered with zero status; any other outcome of the check aborts it.
pub proof fn run_polls_only_when_identified(claimer: AutoClaimer, event: RunEvent)
    ensures
        claimer.next_step(RunPhase::Validating, event).phase == RunPhase::Running
            <==> identifies_user(event),
        event is Identified && !identifies_user(event) ==> claimer.next_step(
            RunPhase::Validating,
            event,
        ).phase == RunPhase::Aborted,
{
}

/// A run that is over stays over.
pub proof fn finished_run_stays(claimer: AutoClaimer, phase: RunPhase, event: RunEvent)
    requires
        phase == RunPhase::Completed || phase == RunPhase::Aborted,
    ensures
        claimer.next_step(phase, event).phase == phase,
        claimer.next_step(phase, event).action is Idle,
{
}

} // verus!
