//! Laws of scheduled jobs and heartbeats.
use vstd::prelude::*;

use crate::json::{group_members, or_empty, JsonView};
use crate::protocol::{DaemonResponse, ResponseView};
use crate::scheduled_jobs::{
    activity_of, added_answer, artifact_dir, cleared_lane, fire_report, fires, heartbeat_answer,
    heartbeat_json, heartbeat_key, is_added_job, is_cancel_request, is_cancelled, is_fire,
    is_fired, is_get_request, is_heartbeat_listing, is_job_listing, is_live_binding,
    is_manage_request, is_managed, is_set, is_set_heartbeat, is_update_request, is_updated,
    job_answer, job_value, listed_heartbeats, listed_jobs, manage_action, managed_lane, steers,
    update_action, AgentCronJob, CreateAgentCronJobInput, DeliveryMode, HeartbeatAction,
    HeartbeatRequest, JobStatus, SessionBinding,
};
use crate::text::opt_text;
use crate::worker::{QueuedItem, SessionCore};

verus! {

/// A heartbeat is paused exactly where a pause is asked for, stopped exactly where
/// a stop is, and resumed otherwise.
pub proof fn law_managed_heartbeats_do_as_asked(payload: JsonView)
    ensures
        manage_action(payload) == HeartbeatAction::Pause <==> payload.get_str("action"@) == Some(
            "pause"@,
        ),
        manage_action(payload) == HeartbeatAction::Stop <==> payload.get_str("action"@) == Some(
            "stop"@,
        ),
        manage_action(payload) == HeartbeatAction::Resume <==> payload.get_str("action"@) != Some(
            "pause"@,
        ) && payload.get_str("action"@) != Some("stop"@),
{
    reveal_strlit("pause");
    reveal_strlit("stop");
    assert("pause"@.len() != "stop"@.len());
}

/// A session's own heartbeat is paused exactly where a pause is asked for, resumed
/// exactly where a resume is, and cleared otherwise.
pub proof fn law_updated_heartbeats_do_as_asked(payload: JsonView)
    ensures
        update_action(payload) == HeartbeatAction::Pause <==> payload.get_str("action"@) == Some(
            "pause"@,
        ),
        update_action(payload) == HeartbeatAction::Resume <==> payload.get_str("action"@) == Some(
            "resume"@,
        ),
        update_action(payload) == HeartbeatAction::Stop <==> payload.get_str("action"@) != Some(
            "pause"@,
        ) && payload.get_str("action"@) != Some("resume"@),
{
    reveal_strlit("pause");
    reveal_strlit("resume");
    assert("pause"@.len() != "resume"@.len());
}

/// A due job fires exactly where it is active, its session is there and does not
/// shut down, and nothing defers it.
pub proof fn law_active_jobs_fire(job: AgentCronJob, core: SessionCore, deferred: bool)
    ensures
        fires(job, core, deferred) ==> job.status == JobStatus::Active && core.created
            && !core.shutdown_requested && !deferred,
        !fires(job, core, deferred) ==> deferred || !core.created || core.shutdown_requested
            || job.status == JobStatus::Paused || job.status == JobStatus::Ended,
{
}

/// A fire asks for exactly the job's prompt, alone, and under the job's own key
/// exactly where it is a heartbeat; a heartbeat steers its session unless it is to
/// follow up, and any other job follows up.
pub proof fn law_fires_ask_for_the_prompt(job: AgentCronJob, item: QueuedItem)
    ensures
        is_fire(item, job) ==> item.message@ == job.prompt@ && item.images@.len() == 0
            && item.custom_message is None && item.admission_id is None && (item.queue_key is Some
            <==> job.heartbeat) && (job.heartbeat ==> item.queue_key->0@ == heartbeat_key(job.id@)),
        steers(job) <==> job.heartbeat && (job.delivery_mode is None || job.delivery_mode == Some(
            DeliveryMode::Steer,
        )),
{
    match job.delivery_mode {
        None => {},
        Some(DeliveryMode::Steer) => {},
        Some(DeliveryMode::FollowUp) => {},
    }
}

/// Two heartbeats have the same key exactly where they are the same one.
pub proof fn law_heartbeats_have_their_own_key(left: Seq<char>, right: Seq<char>)
    ensures
        heartbeat_key(left) == heartbeat_key(right) <==> left == right,
{
    let n = "heartbeat:"@.len() as int;
    let a = heartbeat_key(left);
    let b = heartbeat_key(right);
    if a == b {
        assert(a.subrange(n, a.len() as int) =~= left);
        assert(b.subrange(n, b.len() as int) =~= right);
    }
}

/// A heartbeat's fire leaves a lane and every other input stays, in order; a plain
/// job takes nothing off a lane.
pub proof fn law_only_own_fires_leave_the_lane(items: Seq<QueuedItem>, job: AgentCronJob)
    ensures
        job.heartbeat ==> cleared_lane(items, job) == items.filter(
            |item: QueuedItem| opt_text(item.queue_key) != Some(heartbeat_key(job.id@)),
        ),
        !job.heartbeat ==> cleared_lane(items, job) == items,
    decreases items.len(),
{
    reveal(Seq::filter);
    if items.len() > 0 {
        law_only_own_fires_leave_the_lane(items.drop_last(), job);
    }
}

/// A heartbeat that is paused or stopped has no fire left in a lane, and loses
/// nothing else of it; one that is resumed keeps what is queued.
pub proof fn law_quieted_heartbeats_leave_their_lanes(
    items: Seq<QueuedItem>,
    action: HeartbeatAction,
    job: AgentCronJob,
)
    ensures
        action == HeartbeatAction::Resume ==> managed_lane(items, action, job) == items,
        action == HeartbeatAction::Pause || action == HeartbeatAction::Stop ==> (job.heartbeat
            ==> managed_lane(items, action, job) == items.filter(
            |item: QueuedItem| opt_text(item.queue_key) != Some(heartbeat_key(job.id@)),
        )),
        !job.heartbeat ==> managed_lane(items, action, job) == items,
{
    law_only_own_fires_leave_the_lane(items, job);
}

/// A fire adds one input to its session: the job's own, at the end of the lane that
/// the job goes by. An earlier fire of the same heartbeat gives way to it, so that a
/// heartbeat is never queued twice, and nothing else of the session changes but
/// that it takes queued input again.
pub proof fn law_fires_are_queued_once(before: SessionCore, after: SessionCore, job: AgentCronJob)
    requires
        is_fired(before, after, job),
    ensures
        ({
            let own = |item: QueuedItem| opt_text(item.queue_key) == Some(heartbeat_key(job.id@));
            let others = |item: QueuedItem| !own(item);
            let (lane, lane_before, rest, rest_before) = if job.heartbeat && job.delivery_mode
                != Some(DeliveryMode::FollowUp) {
                (after.steering@, before.steering@, after.follow_up@, before.follow_up@)
            } else {
                (after.follow_up@, before.follow_up@, after.steering@, before.steering@)
            };
            &&& lane.len() > 0
            &&& lane.last().message@ == job.prompt@
            &&& job.heartbeat ==> own(lane.last())
            &&& job.heartbeat ==> lane.drop_last() == lane_before.filter(others)
            &&& job.heartbeat ==> rest == rest_before.filter(others)
            &&& !job.heartbeat ==> lane.drop_last() == lane_before && rest == rest_before
        }),
        !after.queued_input_suspended,
        after.created == before.created && after.shutdown_requested == before.shutdown_requested,
{
    let own = |item: QueuedItem| opt_text(item.queue_key) == Some(heartbeat_key(job.id@));
    let others = |item: QueuedItem| !own(item);
    let kept = |item: QueuedItem| opt_text(item.queue_key) != Some(heartbeat_key(job.id@));
    law_only_own_fires_leave_the_lane(before.steering@, job);
    law_only_own_fires_leave_the_lane(before.follow_up@, job);
    assert(others =~= kept);
}

/// A fire is a run exactly where its input was queued and its turn settled; else it
/// was skipped.
pub proof fn law_fires_are_runs_once_settled(queued: bool, turn_settled: bool)
    ensures
        fire_report(queued, turn_settled) is None <==> queued && turn_settled,
        fire_report(queued, turn_settled) matches Some(report) ==> report == "skipped"@,
{
}

/// A listing holds the jobs that are asked for, in the store's order: those of the
/// named session where one is named, and none that ended unless all are asked for.
pub proof fn law_listed_jobs_are_those_asked_for(
    jobs: Seq<AgentCronJob>,
    all: bool,
    selector: Option<Seq<char>>,
)
    ensures
        listed_jobs(jobs, all, selector) == jobs.filter(
            |job: AgentCronJob|
                (all || job.status != JobStatus::Ended) && (selector is None || selector == Some(
                    job.active_session_id@,
                )),
        ).map_values(|job: AgentCronJob| job.value@),
    decreases jobs.len(),
{
    reveal(Seq::filter);
    let asked = |job: AgentCronJob|
        (all || job.status != JobStatus::Ended) && (selector is None || selector == Some(
            job.active_session_id@,
        ));
    let shown = |job: AgentCronJob| job.value@;
    if jobs.len() > 0 {
        law_listed_jobs_are_those_asked_for(jobs.drop_last(), all, selector);
        let before = jobs.drop_last().filter(asked);
        if asked(jobs.last()) {
            assert(before.push(jobs.last()).map_values(shown) =~= before.map_values(shown).push(
                jobs.last().value@,
            ));
        }
    } else {
        assert(jobs.filter(asked).map_values(shown) =~= Seq::empty());
    }
}

/// A listing of heartbeats holds all that have not ended, and no plain job, in the
/// store's order, each with its session's name and first message.
pub proof fn law_listed_heartbeats_are_live(
    jobs: Seq<AgentCronJob>,
    name: Option<Seq<char>>,
    first: Option<Seq<char>>,
)
    ensures
        listed_heartbeats(jobs, name, first) == jobs.filter(
            |job: AgentCronJob| job.heartbeat && job.status != JobStatus::Ended,
        ).map_values(|job: AgentCronJob| heartbeat_json(job, name, first)),
        forall|i: int|
            0 <= i < jobs.len() ==> heartbeat_json(#[trigger] jobs[i], name, first).carries(
                "job"@,
                jobs[i].value@,
            ) && (name is Some ==> heartbeat_json(jobs[i], name, first).carries(
                "sessionName"@,
                JsonView::Str(name->0),
            )) && (first is Some ==> heartbeat_json(jobs[i], name, first).carries(
                "firstMessage"@,
                JsonView::Str(first->0),
            )),
    decreases jobs.len(),
{
    broadcast use group_members;

    reveal(Seq::filter);
    let live = |job: AgentCronJob| job.heartbeat && job.status != JobStatus::Ended;
    let shown = |job: AgentCronJob| heartbeat_json(job, name, first);
    if jobs.len() > 0 {
        law_listed_heartbeats_are_live(jobs.drop_last(), name, first);
        let before = jobs.drop_last().filter(live);
        if live(jobs.last()) {
            assert(before.push(jobs.last()).map_values(shown) =~= before.map_values(shown).push(
                heartbeat_json(jobs.last(), name, first),
            ));
        }
    } else {
        assert(jobs.filter(live).map_values(shown) =~= Seq::empty());
    }
}

/// An answer carries the very job it is about, under the command it answers.
pub proof fn law_job_answers_carry_the_job(command: Seq<char>, job: AgentCronJob)
    ensures
        job_answer(command, job).success && job_answer(command, job).command == command,
        job_answer(command, job).data is Some && job_answer(command, job).data->0.carries(
            "job"@,
            job.value@,
        ),
        heartbeat_answer(command, job_value(Some(job))).success,
        heartbeat_answer(command, job_value(Some(job))).command == command,
        heartbeat_answer(command, job_value(Some(job))).data->0.carries(
            "heartbeat"@,
            job.value@,
        ),
        heartbeat_answer(command, job_value(None)).data->0.carries("heartbeat"@, JsonView::Null),
{
    broadcast use group_members;

}

/// A session's artifacts lie in a directory of its own: no two sessions share one.
pub proof fn law_sessions_have_their_own_artifacts(
    root: Seq<char>,
    left: Seq<char>,
    right: Seq<char>,
)
    requires
        left.len() == 0 || left[0] != '/',
        right.len() == 0 || right[0] != '/',
    ensures
        artifact_dir(Some(root), left) == artifact_dir(Some(root), right) <==> left == right,
        artifact_dir(None, left) is None,
{
    let base = crate::paths::joined(root, "session-artifacts"@);
    let a = crate::paths::joined(base, left);
    let b = crate::paths::joined(base, right);
    if a == b {
        assert(a.subrange(a.len() - left.len(), a.len() as int) =~= left);
        assert(b.subrange(b.len() - right.len(), b.len() as int) =~= right);
    }
}

/// A heartbeat that is set is for its session and asks for the prompt on the
/// schedule it was given. It is delivered as it asks for itself, and as the one
/// before it where it does not ask; and it is refused only for a delivery mode that
/// is not known or a session without a file.
pub proof fn law_set_heartbeats_ask_for_their_prompt(
    result: Result<CreateAgentCronJobInput, DaemonResponse>,
    payload: JsonView,
    core: SessionCore,
    delivery_mode: Result<Option<DeliveryMode>, String>,
    previous: Option<AgentCronJob>,
    schedule_text: String,
)
    requires
        is_set_heartbeat(result, None, payload, core, delivery_mode, previous, schedule_text),
    ensures
        delivery_mode is Err ==> result is Err,
        core.store is None ==> result is Err,
        core.store matches Some(store) ==> (delivery_mode is Ok && store.path@.len() > 0 ==> result
            is Ok),
        result matches Ok(input) ==> core.store is Some && core.store->0.path@.len() > 0
            && input.active_session_id == core.active_session_id && input.session_id
            == core.store->0.header.id && input.session_file == core.store->0.path && input.cwd
            == core.cwd && input.schedule_text@ == schedule_text@ && input.prompt@ == or_empty(
            payload.get_str("prompt"@),
        ),
        result matches Ok(input) ==> (delivery_mode matches Ok(Some(mode)) ==> input.delivery_mode
            == Some(mode)),
        result matches Ok(input) ==> (delivery_mode == Ok::<Option<DeliveryMode>, String>(None) ==> (
        previous matches Some(job) ==> input.delivery_mode == job.delivery_mode)),
        result matches Ok(input) ==> (delivery_mode == Ok::<Option<DeliveryMode>, String>(None)
            && previous is None ==> input.delivery_mode is None),
{
}

/// A job that is added is for its session and asks for the prompt of the command on
/// the command's schedule, in no mode of its own; a session without a file has no
/// jobs.
pub proof fn law_added_jobs_ask_for_their_prompt(
    result: Result<CreateAgentCronJobInput, DaemonResponse>,
    payload: JsonView,
    core: SessionCore,
)
    requires
        is_added_job(result, None, payload, core),
    ensures
        core.store is None ==> result is Err,
        core.store matches Some(store) ==> (result is Ok <==> store.path@.len() > 0),
        result matches Ok(input) ==> core.store is Some && input.active_session_id
            == core.active_session_id && input.session_id == core.store->0.header.id
            && input.session_file == core.store->0.path && input.cwd == core.cwd
            && input.delivery_mode is None && input.schedule_text@ == or_empty(
            payload.get_str("schedule"@),
        ) && input.prompt@ == or_empty(payload.get_str("prompt"@)),
{
}

/// The refusal of a session that is not created is the answer to every request for
/// its jobs.
pub proof fn law_refused_sessions_have_no_jobs(
    added: Result<CreateAgentCronJobInput, DaemonResponse>,
    listed: DaemonResponse,
    refusal: DaemonResponse,
    payload: JsonView,
    core: SessionCore,
    jobs: Seq<AgentCronJob>,
)
    requires
        is_added_job(added, Some(refusal), payload, core),
        is_job_listing(listed, Some(refusal), payload, jobs),
    ensures
        added == Err::<CreateAgentCronJobInput, DaemonResponse>(refusal),
        listed == refusal,
{
}

/// A managed heartbeat answers with itself. Paused or stopped, it has no fire left in
/// either lane, and resumed it loses none; a heartbeat that is not there fails, and
/// changes nothing.
pub proof fn law_managed_heartbeats_are_answered(
    before: SessionCore,
    after: SessionCore,
    answer: ResponseView,
    action: HeartbeatAction,
    job_id: Seq<char>,
    managed: Option<AgentCronJob>,
)
    requires
        is_managed(before, after, answer, action, job_id, managed),
    ensures
        answer.success <==> managed is Some,
        managed is None ==> after == before && answer.error == Some(
            "No active heartbeat found: "@ + job_id,
        ),
        managed matches Some(job) ==> answer.data is Some && answer.data->0.carries(
            "heartbeat"@,
            job.value@,
        ),
        managed matches Some(job) ==> (job.heartbeat && action != HeartbeatAction::Resume
            ==> forall|i: int|
            0 <= i < after.steering@.len() ==> opt_text((#[trigger] after.steering@[i]).queue_key)
                != Some(heartbeat_key(job.id@))),
        managed matches Some(job) ==> (job.heartbeat && action != HeartbeatAction::Resume
            ==> forall|i: int|
            0 <= i < after.follow_up@.len() ==> opt_text((#[trigger] after.follow_up@[i]).queue_key)
                != Some(heartbeat_key(job.id@))),
        action == HeartbeatAction::Resume ==> after.steering@ == before.steering@
            && after.follow_up@ == before.follow_up@,
        after.created == before.created && after.busy == before.busy && after.store
            == before.store && after.queued_input_suspended == before.queued_input_suspended,
{
    broadcast use group_members;
    broadcast use vstd::seq_lib::group_filter_ensures;

    if let Some(job) = managed {
        law_only_own_fires_leave_the_lane(before.steering@, job);
        law_only_own_fires_leave_the_lane(before.follow_up@, job);
    }
}

/// An updated heartbeat answers as a managed one does: with itself, or with nothing
/// where the session has none, which changes nothing; and an update that failed says
/// why and changes nothing.
pub proof fn law_updated_heartbeats_are_answered(
    before: SessionCore,
    after: SessionCore,
    answer: ResponseView,
    action: HeartbeatAction,
    updated: Result<Option<AgentCronJob>, String>,
)
    requires
        is_updated(before, after, answer, action, updated),
    ensures
        answer.success <==> updated is Ok,
        updated matches Err(error) ==> after == before && answer.error == Some(error@),
        updated == Ok::<Option<AgentCronJob>, String>(None) ==> after.steering@ == before.steering@
            && after.follow_up@ == before.follow_up@ && answer.data->0.carries(
            "heartbeat"@,
            JsonView::Null,
        ),
        updated matches Ok(Some(job)) ==> answer.data->0.carries("heartbeat"@, job.value@),
        updated matches Ok(Some(job)) ==> (job.heartbeat && action != HeartbeatAction::Resume
            ==> forall|i: int|
            0 <= i < after.steering@.len() ==> opt_text((#[trigger] after.steering@[i]).queue_key)
                != Some(heartbeat_key(job.id@))),
        updated matches Ok(Some(job)) ==> (job.heartbeat && action != HeartbeatAction::Resume
            ==> forall|i: int|
            0 <= i < after.follow_up@.len() ==> opt_text((#[trigger] after.follow_up@[i]).queue_key)
                != Some(heartbeat_key(job.id@))),
        action == HeartbeatAction::Resume ==> after.steering@ == before.steering@
            && after.follow_up@ == before.follow_up@,
        after.created == before.created && after.busy == before.busy && after.store
            == before.store && after.queued_input_suspended == before.queued_input_suspended,
{
    broadcast use group_members;
    broadcast use vstd::seq_lib::group_filter_ensures;

    if let Ok(Some(job)) = updated {
        law_only_own_fires_leave_the_lane(before.steering@, job);
        law_only_own_fires_leave_the_lane(before.follow_up@, job);
    }
}

/// A heartbeat that was set answers with itself, and no fire of the one it replaced is
/// left in either lane; one that could not be set says why, and changes nothing.
pub proof fn law_set_heartbeats_replace_the_last(
    before: SessionCore,
    after: SessionCore,
    answer: ResponseView,
    created: Result<AgentCronJob, String>,
    previous: Option<AgentCronJob>,
)
    requires
        is_set(before, after, answer, created, previous),
    ensures
        answer.success <==> created is Ok,
        created matches Err(error) ==> after == before && answer.error == Some(error@),
        created matches Ok(job) ==> answer.data->0.carries("heartbeat"@, job.value@),
        previous is None ==> after.steering@ == before.steering@ && after.follow_up@
            == before.follow_up@,
        created is Ok ==> (previous matches Some(job) ==> (job.heartbeat ==> forall|i: int|
            0 <= i < after.steering@.len() ==> opt_text((#[trigger] after.steering@[i]).queue_key)
                != Some(heartbeat_key(job.id@)))),
        created is Ok ==> (previous matches Some(job) ==> (job.heartbeat ==> forall|i: int|
            0 <= i < after.follow_up@.len() ==> opt_text((#[trigger] after.follow_up@[i]).queue_key)
                != Some(heartbeat_key(job.id@)))),
        after.created == before.created && after.busy == before.busy && after.store
            == before.store && after.queued_input_suspended == before.queued_input_suspended,
{
    broadcast use group_members;
    broadcast use vstd::seq_lib::group_filter_ensures;

    if let Some(job) = previous {
        law_only_own_fires_leave_the_lane(before.steering@, job);
        law_only_own_fires_leave_the_lane(before.follow_up@, job);
    }
}

/// A cancelled job answers with itself and has no fire left in either lane; a job that
/// is not there fails under its id, and changes nothing.
pub proof fn law_cancelled_jobs_leave_their_lanes(
    before: SessionCore,
    after: SessionCore,
    answer: ResponseView,
    job_id: Seq<char>,
    cancelled: Option<AgentCronJob>,
)
    requires
        is_cancelled(before, after, answer, job_id, cancelled),
    ensures
        answer.success <==> cancelled is Some,
        cancelled is None ==> after == before && answer.error == Some(
            "No cron job found: "@ + job_id,
        ),
        cancelled matches Some(job) ==> answer.data->0.carries("job"@, job.value@),
        cancelled matches Some(job) ==> (job.heartbeat ==> forall|i: int|
            0 <= i < after.steering@.len() ==> opt_text((#[trigger] after.steering@[i]).queue_key)
                != Some(heartbeat_key(job.id@))),
        cancelled matches Some(job) ==> (job.heartbeat ==> forall|i: int|
            0 <= i < after.follow_up@.len() ==> opt_text((#[trigger] after.follow_up@[i]).queue_key)
                != Some(heartbeat_key(job.id@))),
        cancelled matches Some(job) ==> (!job.heartbeat ==> after.steering@ == before.steering@
            && after.follow_up@ == before.follow_up@),
        after.created == before.created && after.busy == before.busy && after.store
            == before.store && after.queued_input_suspended == before.queued_input_suspended,
{
    broadcast use group_members;
    broadcast use vstd::seq_lib::group_filter_ensures;

    if let Some(job) = cancelled {
        law_only_own_fires_leave_the_lane(before.steering@, job);
        law_only_own_fires_leave_the_lane(before.follow_up@, job);
    }
}

/// A listing answers with the jobs it was asked for, the ended ones exactly where it
/// was asked for them, and those of the named session alone where one is named; a
/// listing of the heartbeats answers with the heartbeats.
pub proof fn law_listings_answer_with_the_jobs(
    listed: DaemonResponse,
    beats: DaemonResponse,
    payload: JsonView,
    jobs: Seq<AgentCronJob>,
    session_name: Option<Seq<char>>,
    first_message: Option<Seq<char>>,
)
    requires
        is_job_listing(listed, None, payload, jobs),
        is_heartbeat_listing(beats, None, jobs, session_name, first_message),
    ensures
        listed@.success && listed@.command == "cron_list"@ && listed@.error is None,
        payload.get_bool("includeInactive"@) == Some(true) ==> listed@.data->0.carries(
            "jobs"@,
            JsonView::Array(listed_jobs(jobs, true, payload.get_str("activeSessionId"@))),
        ),
        payload.get_bool("includeInactive"@) != Some(true) ==> listed@.data->0.carries(
            "jobs"@,
            JsonView::Array(listed_jobs(jobs, false, payload.get_str("activeSessionId"@))),
        ),
        beats@.success && beats@.command == "heartbeats_list"@,
        beats@.data->0.carries(
            "heartbeats"@,
            JsonView::Array(listed_heartbeats(jobs, session_name, first_message)),
        ),
{
    broadcast use group_members;

}

/// The jobs of a live session are bound to the session itself and to its own file,
/// where it has one; one without a file has no binding.
pub proof fn law_live_sessions_bind_their_jobs(
    result: Option<(SessionBinding, Option<String>)>,
    core: SessionCore,
)
    requires
        is_live_binding(result, core),
    ensures
        core.store is None ==> result is None,
        core.store matches Some(store) ==> (result is Some <==> store.path@.len() > 0),
        result matches Some((binding, _)) ==> binding.active_session_id == core.active_session_id
            && binding.cwd == core.cwd && core.store is Some && binding.session_id
            == core.store->0.header.id && binding.session_file == core.store->0.path,
{
}

/// A job that was added answers with itself, and one that could not be says why.
pub proof fn law_added_jobs_are_answered(created: Result<AgentCronJob, String>)
    ensures
        added_answer(created).success <==> created is Ok,
        added_answer(created).command == "cron_add"@,
        created matches Ok(job) ==> added_answer(created).data->0.carries("job"@, job.value@),
        created matches Err(error) ==> added_answer(created).error == Some(error@),
{
    broadcast use group_members;

}

/// A session is idle to its heartbeats exactly where it does nothing: no turn, no
/// compaction, no retry, no command, no work that waits and no queued input.
pub proof fn law_busy_sessions_show_it(core: SessionCore, bash_running: bool)
    requires
        core.steering@.len() + core.follow_up@.len() <= usize::MAX,
    ensures
        ({
            let doing = activity_of(core, bash_running);
            &&& doing.is_streaming <==> core.busy
            &&& doing.is_compacting <==> core.compacting
            &&& doing.is_retrying <==> core.retry_abort_requested
            &&& doing.is_bash_running <==> bash_running
            &&& doing.has_pending_session_work <==> core.pending_next_turn
            &&& doing.unfinished_action_count == core.steering@.len() + core.follow_up@.len()
        }),
{
}

/// What is asked of the store is for the named session and the named job, and does what
/// the command asks: a pause where a pause is asked for, a resume where a resume is.
pub proof fn law_requests_name_their_job(
    managed: Result<HeartbeatRequest, DaemonResponse>,
    updated: Result<HeartbeatRequest, DaemonResponse>,
    session: Result<String, DaemonResponse>,
    job: Result<String, DaemonResponse>,
    payload: JsonView,
)
    requires
        is_manage_request(managed, None, payload),
        is_update_request(updated, None, payload),
        is_get_request(session, None, payload),
        is_cancel_request(job, None, payload),
    ensures
        managed is Ok && updated is Ok && session is Ok && job is Ok,
        payload.get_str("jobId"@) matches Some(id) ==> managed->Ok_0.job_id@ == id
            && updated->Ok_0.job_id@ == id && job->Ok_0@ == id,
        payload.get_str("activeSessionId"@) matches Some(id) ==> managed->Ok_0.active_session_id@
            == id && updated->Ok_0.active_session_id@ == id && session->Ok_0@ == id,
        payload.get_str("action"@) == Some("pause"@) ==> managed->Ok_0.action
            == HeartbeatAction::Pause && updated->Ok_0.action == HeartbeatAction::Pause,
        payload.get_str("action"@) == Some("resume"@) ==> managed->Ok_0.action
            == HeartbeatAction::Resume && updated->Ok_0.action == HeartbeatAction::Resume,
        payload.get_str("action"@) == Some("stop"@) ==> managed->Ok_0.action
            == HeartbeatAction::Stop && updated->Ok_0.action == HeartbeatAction::Stop,
{
    law_managed_heartbeats_do_as_asked(payload);
    law_updated_heartbeats_do_as_asked(payload);
    reveal_strlit("pause");
    reveal_strlit("resume");
    reveal_strlit("stop");
    assert("pause"@.len() == 5 && "resume"@.len() == 6 && "stop"@.len() == 4);
}

/// A session that is not created is asked for nothing: its refusal is the answer.
pub proof fn law_refused_sessions_are_asked_nothing(
    managed: Result<HeartbeatRequest, DaemonResponse>,
    updated: Result<HeartbeatRequest, DaemonResponse>,
    session: Result<String, DaemonResponse>,
    job: Result<String, DaemonResponse>,
    refusal: DaemonResponse,
    payload: JsonView,
)
    requires
        is_manage_request(managed, Some(refusal), payload),
        is_update_request(updated, Some(refusal), payload),
        is_get_request(session, Some(refusal), payload),
        is_cancel_request(job, Some(refusal), payload),
    ensures
        managed == Err::<HeartbeatRequest, DaemonResponse>(refusal),
        updated == Err::<HeartbeatRequest, DaemonResponse>(refusal),
        session == Err::<String, DaemonResponse>(refusal),
        job == Err::<String, DaemonResponse>(refusal),
{
}

} // verus!
