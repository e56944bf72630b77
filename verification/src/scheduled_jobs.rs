//! Scheduled prompts of a session: when a due one is queued and on which lane,
//! and how the commands over them are answered.
use vstd::prelude::*;

use crate::json::{items_view, or_empty, or_null, Json, JsonView};
use crate::paths::{join_path, joined, parent, parent_of};
use crate::protocol::{
    failure, opt_string, response_failure, response_success, success, DaemonResponse, ResponseView,
};
use crate::text::{as_opt_str, concat2, is_empty_text, is_text, opt_str, opt_text, same_text};
use crate::worker::{count_key, drop_key, lemma_without_key, without_key, QueuedItem, SessionCore};

verus! {

/// How long a queued prompt may take to settle.
pub const FIRE_SETTLE_TIMEOUT_MS: u64 = 900_000;

/// How a heartbeat reaches its session.
#[derive(Debug, Clone, Copy, PartialEq, Eq, Structural)]
pub enum DeliveryMode {
    Steer,
    FollowUp,
}

/// The state of a scheduled job.
#[derive(Debug, Clone, Copy, PartialEq, Eq, Structural)]
pub enum JobStatus {
    Active,
    Paused,
    /// It fires no more.
    Ended,
}

/// A scheduled job, and the object it is shown by.
#[derive(Debug, PartialEq, Eq)]
pub struct AgentCronJob {
    pub id: String,
    pub active_session_id: String,
    pub prompt: String,
    pub status: JobStatus,
    /// Whether it is a heartbeat.
    pub heartbeat: bool,
    pub delivery_mode: Option<DeliveryMode>,
    pub value: Json,
}

/// What a session is doing when a job is due.
#[derive(Debug, Clone, Copy, PartialEq, Eq, Structural)]
pub struct HeartbeatSessionActivity {
    pub is_streaming: bool,
    pub is_compacting: bool,
    pub is_retrying: bool,
    pub is_bash_running: bool,
    pub has_pending_session_work: bool,
    pub unfinished_action_count: usize,
}

/// What a session is doing.
pub open spec fn activity_of(core: SessionCore, bash_running: bool) -> HeartbeatSessionActivity {
    (HeartbeatSessionActivity {
        is_streaming: core.busy,
        is_compacting: core.compacting,
        is_retrying: core.retry_abort_requested,
        is_bash_running: bash_running,
        has_pending_session_work: core.pending_next_turn,
        unfinished_action_count: (core.steering@.len() + core.follow_up@.len()) as usize,
    })
}

/// What a session is doing.
pub fn activity(core: &SessionCore, bash_running: bool) -> (r: HeartbeatSessionActivity)
    requires
        core.steering@.len() + core.follow_up@.len() <= usize::MAX,
    ensures
        r == activity_of(*core, bash_running),
{
    HeartbeatSessionActivity {
        is_streaming: core.busy,
        is_compacting: core.compacting,
        is_retrying: core.retry_abort_requested,
        is_bash_running: bash_running,
        has_pending_session_work: core.pending_next_turn,
        unfinished_action_count: core.steering.len() + core.follow_up.len(),
    }
}

/// The key that the fires of a heartbeat are queued under.
pub open spec fn heartbeat_key(id: Seq<char>) -> Seq<char> {
    "heartbeat:"@ + id
}

/// Whether a job that is due is queued: not where it is deferred, the session
/// is not there or shuts down, or the job is not active.
pub open spec fn fires(job: AgentCronJob, core: SessionCore, deferred: bool) -> bool {
    !deferred && core.created && !core.shutdown_requested && job.status == JobStatus::Active
}

/// Whether a job is queued to steer the session.
pub open spec fn steers(job: AgentCronJob) -> bool {
    job.heartbeat && job.delivery_mode != Some(DeliveryMode::FollowUp)
}

/// A lane before a job is queued: a heartbeat's own earlier fire leaves it.
pub open spec fn cleared_lane(items: Seq<QueuedItem>, job: AgentCronJob) -> Seq<QueuedItem> {
    if job.heartbeat {
        without_key(items, heartbeat_key(job.id@))
    } else {
        items
    }
}

/// Whether an input is the fire of a job.
pub open spec fn is_fire(item: QueuedItem, job: AgentCronJob) -> bool {
    &&& item.message@ == job.prompt@
    &&& item.custom_message is None
    &&& item.admission_id is None
    &&& item.images@.len() == 0
    &&& opt_text(item.queue_key) == if job.heartbeat {
        Some(heartbeat_key(job.id@))
    } else {
        None
    }
}

/// Whether a session is as the fire of a job leaves it: it takes queued input
/// again, an earlier fire of the same heartbeat is gone, and the job stands at the
/// end of its lane.
pub open spec fn is_fired(before: SessionCore, after: SessionCore, job: AgentCronJob) -> bool {
    let steering = cleared_lane(before.steering@, job);
    let follow_up = cleared_lane(before.follow_up@, job);
    &&& !after.queued_input_suspended
    &&& steers(job) ==> {
        &&& after.steering@.len() == steering.len() + 1
        &&& after.steering@.drop_last() == steering
        &&& is_fire(after.steering@.last(), job)
        &&& after.follow_up@ == follow_up
    }
    &&& !steers(job) ==> {
        &&& after.follow_up@.len() == follow_up.len() + 1
        &&& after.follow_up@.drop_last() == follow_up
        &&& is_fire(after.follow_up@.last(), job)
        &&& after.steering@ == steering
    }
    &&& after == (SessionCore {
        queued_input_suspended: false,
        steering: after.steering,
        follow_up: after.follow_up,
        ..before
    })
}

/// Queue a job that is due, where it fires.
pub fn run_job(job: &AgentCronJob, core: &mut SessionCore, deferred: bool) -> (r: bool)
    ensures
        r == fires(*job, *old(core), deferred),
        !r ==> *final(core) == *old(core),
        r ==> is_fired(*old(core), *final(core), *job),
{
    if deferred || !core.created || core.shutdown_requested || job.status != JobStatus::Active {
        return false;
    }
    core.queued_input_suspended = false;
    let mut queue_key: Option<String> = None;
    if job.heartbeat {
        let key = concat2("heartbeat:", job.id.as_str());
        drop_key(&mut core.steering, key.as_str());
        drop_key(&mut core.follow_up, key.as_str());
        queue_key = Some(key);
    }
    let item = QueuedItem {
        message: job.prompt.clone(),
        custom_message: None,
        admission_id: None,
        images: Vec::new(),
        queue_key,
    };
    let follow = match job.delivery_mode {
        Some(DeliveryMode::FollowUp) => true,
        _ => false,
    };
    if job.heartbeat && !follow {
        let ghost before = core.steering@;
        core.steering.push(item);
        assert(core.steering@.drop_last() =~= before);
    } else {
        let ghost before = core.follow_up@;
        core.follow_up.push(item);
        assert(core.follow_up@.drop_last() =~= before);
    }
    true
}

/// How a fire is reported: a settled turn is a run, and anything else a skip.
pub open spec fn fire_report(queued: bool, turn_settled: bool) -> Option<Seq<char>> {
    if queued && turn_settled {
        None
    } else {
        Some("skipped"@)
    }
}

/// How a fire is reported.
pub fn fire_outcome(queued: bool, turn_settled: bool) -> (r: Option<&'static str>)
    ensures
        opt_str(r) == fire_report(queued, turn_settled),
{
    if queued && turn_settled {
        None
    } else {
        Some("skipped")
    }
}

/// A heartbeat is queued once: after it fired, its session has exactly one
/// input under its key, however many were queued before, and as many inputs
/// under any other key as before.
pub proof fn law_heartbeats_are_queued_once(
    job: AgentCronJob,
    before: SessionCore,
    steering: Seq<QueuedItem>,
    follow_up: Seq<QueuedItem>,
    item: QueuedItem,
    other: Seq<char>,
)
    requires
        job.heartbeat,
        is_fire(item, job),
        steers(job) ==> steering == cleared_lane(before.steering@, job).push(item) && follow_up
            == cleared_lane(before.follow_up@, job),
        !steers(job) ==> follow_up == cleared_lane(before.follow_up@, job).push(item) && steering
            == cleared_lane(before.steering@, job),
        other != heartbeat_key(job.id@),
    ensures
        count_key(steering, heartbeat_key(job.id@)) + count_key(
            follow_up,
            heartbeat_key(job.id@),
        ) == 1,
        count_key(steering, other) == count_key(before.steering@, other),
        count_key(follow_up, other) == count_key(before.follow_up@, other),
{
    let key = heartbeat_key(job.id@);
    lemma_without_key(before.steering@, key, other);
    lemma_without_key(before.follow_up@, key, other);
    let lane = cleared_lane(before.steering@, job);
    assert(lane.push(item).drop_last() =~= lane);
    let lane = cleared_lane(before.follow_up@, job);
    assert(lane.push(item).drop_last() =~= lane);
}

/// Drop the queued fire of a heartbeat; any other job has none of its own.
pub fn remove_queued_heartbeat_follow_up(job: &AgentCronJob, core: &mut SessionCore)
    ensures
        final(core).steering@ == cleared_lane(old(core).steering@, *job),
        final(core).follow_up@ == cleared_lane(old(core).follow_up@, *job),
        *final(core) == (SessionCore {
            steering: final(core).steering,
            follow_up: final(core).follow_up,
            ..*old(core)
        }),
{
    if !job.heartbeat {
        return;
    }
    let key = concat2("heartbeat:", job.id.as_str());
    drop_key(&mut core.steering, key.as_str());
    drop_key(&mut core.follow_up, key.as_str());
}

// ---------------------------------------------------------------------------
// The live session
// ---------------------------------------------------------------------------

/// The artifact directory of a session below a directory, where there is one.
pub open spec fn artifact_dir(root: Option<Seq<char>>, session_id: Seq<char>) -> Option<Seq<char>> {
    match root {
        Some(root) => Some(joined(joined(root, "session-artifacts"@), session_id)),
        None => None,
    }
}

/// The directory two levels above a session file, where there is one.
pub open spec fn sessions_root(session_file: Seq<char>) -> Option<Seq<char>> {
    match parent_of(session_file) {
        Some(dir) => parent_of(dir),
        None => None,
    }
}

/// The artifact directory of a session, beside the directory of its file.
pub fn session_artifact_dir(session_file: &str, session_id: &str) -> (r: Option<String>)
    ensures
        opt_text(r) == artifact_dir(sessions_root(session_file@), session_id@),
{
    let root = match parent(session_file) {
        Some(dir) => parent(dir.as_str()),
        None => None,
    };
    artifact_dir_below(as_opt_str(&root), session_id)
}

/// The artifact directory of a session below a directory, where there is one.
pub fn artifact_dir_below(root: Option<&str>, session_id: &str) -> (r: Option<String>)
    ensures
        opt_text(r) == artifact_dir(opt_str(root), session_id@),
{
    match root {
        Some(root) => Some(
            join_path(join_path(root, "session-artifacts").as_str(), session_id),
        ),
        None => None,
    }
}

/// What jobs are bound to: a session, its file and where it works.
#[derive(Debug, PartialEq, Eq)]
pub struct SessionBinding {
    pub active_session_id: String,
    pub session_id: String,
    pub session_file: String,
    pub cwd: String,
}

/// Whether a session is kept in a file.
pub open spec fn is_persisted(core: SessionCore) -> bool {
    core.store is Some && core.store->0.path@.len() > 0
}

/// Whether a binding is the one of a live session.
pub open spec fn is_live_binding(
    result: Option<(SessionBinding, Option<String>)>,
    core: SessionCore,
) -> bool {
    match result {
        Some((binding, dir)) => is_persisted(core) && binding == (SessionBinding {
            active_session_id: core.active_session_id,
            session_id: core.store->0.header.id,
            session_file: core.store->0.path,
            cwd: core.cwd,
        }) && opt_text(dir) == artifact_dir(
            sessions_root(core.store->0.path@),
            core.store->0.header.id@,
        ),
        None => !is_persisted(core),
    }
}

/// What the jobs of a live session are bound to, and its artifact directory;
/// none where the session is not kept in a file.
pub fn live_binding(core: &SessionCore) -> (r: Option<(SessionBinding, Option<String>)>)
    ensures
        is_live_binding(r, *core),
{
    match &core.store {
        Some(store) => {
            if is_empty_text(store.path.as_str()) {
                return None;
            }
            let binding = SessionBinding {
                active_session_id: core.active_session_id.clone(),
                session_id: store.header.id.clone(),
                session_file: store.path.clone(),
                cwd: core.cwd.clone(),
            };
            Some(
                (binding, session_artifact_dir(store.path.as_str(), store.header.id.as_str())),
            )
        },
        None => None,
    }
}

/// What binding a session does: whether its artifacts are registered, whether
/// its jobs move onto it, and whether the scheduler starts or only wakes.
#[derive(Debug, Clone, Copy, PartialEq, Eq, Structural)]
pub struct BindPlan {
    pub register_artifacts: bool,
    pub rebind_jobs: bool,
    pub start_scheduler: bool,
}

/// What binding a session does.
pub fn bind_session(binding: &SessionBinding, artifact_dir: Option<&str>, scheduler_runs: bool) -> (r:
    BindPlan)
    ensures
        r == (BindPlan {
            register_artifacts: artifact_dir is Some,
            rebind_jobs: binding.session_file@.len() > 0,
            start_scheduler: !scheduler_runs,
        }),
{
    BindPlan {
        register_artifacts: artifact_dir.is_some(),
        rebind_jobs: !is_empty_text(binding.session_file.as_str()),
        start_scheduler: !scheduler_runs,
    }
}

// ---------------------------------------------------------------------------
// Commands
// ---------------------------------------------------------------------------

/// Whether a job is active or paused.
pub open spec fn is_live(job: AgentCronJob) -> bool {
    job.status == JobStatus::Active || job.status == JobStatus::Paused
}

/// Whether a job is listed.
pub open spec fn is_listed(
    job: AgentCronJob,
    include_inactive: bool,
    selector: Option<Seq<char>>,
) -> bool {
    (include_inactive || is_live(job)) && (selector is None || job.active_session_id@
        == selector->0)
}

/// The listed jobs as they are shown, in the order of the store.
pub open spec fn listed_jobs(
    jobs: Seq<AgentCronJob>,
    include_inactive: bool,
    selector: Option<Seq<char>>,
) -> Seq<JsonView>
    decreases jobs.len(),
{
    if jobs.len() == 0 {
        Seq::empty()
    } else {
        let before = listed_jobs(jobs.drop_last(), include_inactive, selector);
        if is_listed(jobs.last(), include_inactive, selector) {
            before.push(jobs.last().value@)
        } else {
            before
        }
    }
}

/// Whether an answer lists the jobs that are asked for.
pub open spec fn is_job_listing(
    result: DaemonResponse,
    refusal: Option<DaemonResponse>,
    payload: JsonView,
    jobs: Seq<AgentCronJob>,
) -> bool {
    match refusal {
        Some(refusal) => result == refusal,
        None => result@ == success(
            None,
            "cron_list"@,
            Some(
                JsonView::object().field(
                    "jobs"@,
                    JsonView::Array(
                        listed_jobs(
                            jobs,
                            payload.get_bool("includeInactive"@) == Some(true),
                            payload.get_str("activeSessionId"@),
                        ),
                    ),
                ),
            ),
        ),
    }
}

/// The answer with a session's jobs: the live ones unless all are asked for,
/// and those of one session where one is named. The refusal of a session that is
/// not created is the answer where there is one.
pub fn handle_cron_list(
    refusal: Option<DaemonResponse>,
    payload: &Json,
    jobs: &Vec<AgentCronJob>,
) -> (r: DaemonResponse)
    ensures
        is_job_listing(r, refusal, payload@, jobs@),
{
    match refusal {
        Some(refusal) => {
            return refusal;
        },
        None => {},
    }
    let include_inactive = payload.get_bool("includeInactive") == Some(true);
    let selector = payload.get_str("activeSessionId");
    let mut out: Vec<Json> = Vec::new();
    let mut i: usize = 0;
    assert(items_view(out@) =~= listed_jobs(jobs@.take(0), include_inactive, opt_str(selector)));
    while i < jobs.len()
        invariant
            i <= jobs@.len(),
            items_view(out@) == listed_jobs(
                jobs@.take(i as int),
                include_inactive,
                opt_str(selector),
            ),
        decreases jobs@.len() - i,
    {
        assert(jobs@.take(i + 1).drop_last() =~= jobs@.take(i as int));
        let live = jobs[i].status == JobStatus::Active || jobs[i].status == JobStatus::Paused;
        let own = match selector {
            Some(selector) => same_text(jobs[i].active_session_id.as_str(), selector),
            None => true,
        };
        if (include_inactive || live) && own {
            let ghost before = out@;
            out.push(jobs[i].value.duplicate());
            assert(out@.drop_last() =~= before);
        }
        i = i + 1;
    }
    assert(jobs@.take(i as int) =~= jobs@);
    response_success(None, "cron_list", Some(Json::object().field("jobs", Json::array(out))))
}

/// A heartbeat as it is listed.
pub open spec fn heartbeat_json(
    job: AgentCronJob,
    session_name: Option<Seq<char>>,
    first_message: Option<Seq<char>>,
) -> JsonView {
    JsonView::object().field("job"@, job.value@).field_opt(
        "sessionName"@,
        opt_string(session_name),
    ).field_opt("firstMessage"@, opt_string(first_message))
}

/// The live heartbeats as they are listed, in the order of the store.
pub open spec fn listed_heartbeats(
    jobs: Seq<AgentCronJob>,
    session_name: Option<Seq<char>>,
    first_message: Option<Seq<char>>,
) -> Seq<JsonView>
    decreases jobs.len(),
{
    if jobs.len() == 0 {
        Seq::empty()
    } else {
        let before = listed_heartbeats(jobs.drop_last(), session_name, first_message);
        if jobs.last().heartbeat && is_live(jobs.last()) {
            before.push(heartbeat_json(jobs.last(), session_name, first_message))
        } else {
            before
        }
    }
}

/// Whether an answer lists the live heartbeats.
pub open spec fn is_heartbeat_listing(
    result: DaemonResponse,
    refusal: Option<DaemonResponse>,
    jobs: Seq<AgentCronJob>,
    session_name: Option<Seq<char>>,
    first_message: Option<Seq<char>>,
) -> bool {
    match refusal {
        Some(refusal) => result == refusal,
        None => result@ == success(
            None,
            "heartbeats_list"@,
            Some(
                JsonView::object().field(
                    "heartbeats"@,
                    JsonView::Array(
                        listed_heartbeats(
                            jobs,
                            session_name,
                            first_message,
                        ),
                    ),
                ),
            ),
        ),
    }
}

/// The answer with a session's heartbeats; the refusal of a session that is not
/// created is the answer where there is one.
pub fn handle_heartbeats_list(
    refusal: Option<DaemonResponse>,
    jobs: &Vec<AgentCronJob>,
    session_name: Option<&str>,
    first_message: Option<&str>,
) -> (r: DaemonResponse)
    ensures
        is_heartbeat_listing(r, refusal, jobs@, opt_str(session_name), opt_str(first_message)),
{
    match refusal {
        Some(refusal) => {
            return refusal;
        },
        None => {},
    }
    let mut out: Vec<Json> = Vec::new();
    let mut i: usize = 0;
    assert(items_view(out@) =~= listed_heartbeats(
        jobs@.take(0),
        opt_str(session_name),
        opt_str(first_message),
    ));
    while i < jobs.len()
        invariant
            i <= jobs@.len(),
            items_view(out@) == listed_heartbeats(
                jobs@.take(i as int),
                opt_str(session_name),
                opt_str(first_message),
            ),
        decreases jobs@.len() - i,
    {
        assert(jobs@.take(i + 1).drop_last() =~= jobs@.take(i as int));
        let live = jobs[i].status == JobStatus::Active || jobs[i].status == JobStatus::Paused;
        if jobs[i].heartbeat && live {
            let ghost before = out@;
            let row = Json::object().field("job", jobs[i].value.duplicate()).field_opt_str(
                "sessionName",
                session_name,
            ).field_opt_str("firstMessage", first_message);
            out.push(row);
            assert(out@.drop_last() =~= before);
        }
        i = i + 1;
    }
    assert(jobs@.take(i as int) =~= jobs@);
    response_success(
        None,
        "heartbeats_list",
        Some(Json::object().field("heartbeats", Json::array(out))),
    )
}

/// What a heartbeat command asks for.
#[derive(Debug, Clone, Copy, PartialEq, Eq, Structural)]
pub enum HeartbeatAction {
    Pause,
    Resume,
    /// Stop it, or clear it.
    Stop,
}

/// What managing a heartbeat asks for: anything but a pause or a stop resumes.
pub open spec fn manage_action(payload: JsonView) -> HeartbeatAction {
    if payload.get_str("action"@) == Some("pause"@) {
        HeartbeatAction::Pause
    } else if payload.get_str("action"@) == Some("stop"@) {
        HeartbeatAction::Stop
    } else {
        HeartbeatAction::Resume
    }
}

/// What updating a session's heartbeat asks for: anything but a pause or a
/// resume clears it.
pub open spec fn update_action(payload: JsonView) -> HeartbeatAction {
    if payload.get_str("action"@) == Some("pause"@) {
        HeartbeatAction::Pause
    } else if payload.get_str("action"@) == Some("resume"@) {
        HeartbeatAction::Resume
    } else {
        HeartbeatAction::Stop
    }
}

/// What a command to a heartbeat asks of the store.
#[derive(Debug, PartialEq, Eq)]
pub struct HeartbeatRequest {
    pub active_session_id: String,
    pub job_id: String,
    pub action: HeartbeatAction,
}

/// Whether a request is what managing a heartbeat asks of the store.
pub open spec fn is_manage_request(
    result: Result<HeartbeatRequest, DaemonResponse>,
    refusal: Option<DaemonResponse>,
    payload: JsonView,
) -> bool {
    match refusal {
        Some(refusal) => result == Err::<HeartbeatRequest, DaemonResponse>(refusal),
        None => result matches Ok(request) && request.active_session_id@ == or_empty(
            payload.get_str("activeSessionId"@),
        ) && request.job_id@ == or_empty(payload.get_str("jobId"@)) && request.action
            == manage_action(payload),
    }
}

/// What managing a heartbeat asks of the store.
/// A session that is not created is asked nothing: its refusal is the answer.
pub fn manage_request(refusal: Option<DaemonResponse>, payload: &Json) -> (r: Result<
    HeartbeatRequest,
    DaemonResponse,
>)
    ensures
        is_manage_request(r, refusal, payload@),
{
    match refusal {
        Some(refusal) => {
            return Err(refusal);
        },
        None => {},
    }
    let action = if is_text(payload.get_str("action"), "pause") {
        HeartbeatAction::Pause
    } else if is_text(payload.get_str("action"), "stop") {
        HeartbeatAction::Stop
    } else {
        HeartbeatAction::Resume
    };
    Ok(
        HeartbeatRequest {
            active_session_id: payload.get_string_or_empty("activeSessionId"),
            job_id: payload.get_string_or_empty("jobId"),
            action,
        },
    )
}

/// Whether a request is what updating a heartbeat asks of the store.
pub open spec fn is_update_request(
    result: Result<HeartbeatRequest, DaemonResponse>,
    refusal: Option<DaemonResponse>,
    payload: JsonView,
) -> bool {
    match refusal {
        Some(refusal) => result == Err::<HeartbeatRequest, DaemonResponse>(refusal),
        None => result matches Ok(request) && request.active_session_id@ == or_empty(
            payload.get_str("activeSessionId"@),
        ) && request.job_id@ == or_empty(payload.get_str("jobId"@)) && request.action
            == update_action(payload),
    }
}

/// What updating a session's heartbeat asks of the store.
/// A session that is not created is asked nothing: its refusal is the answer.
pub fn update_request(refusal: Option<DaemonResponse>, payload: &Json) -> (r: Result<
    HeartbeatRequest,
    DaemonResponse,
>)
    ensures
        is_update_request(r, refusal, payload@),
{
    match refusal {
        Some(refusal) => {
            return Err(refusal);
        },
        None => {},
    }
    let action = if is_text(payload.get_str("action"), "pause") {
        HeartbeatAction::Pause
    } else if is_text(payload.get_str("action"), "resume") {
        HeartbeatAction::Resume
    } else {
        HeartbeatAction::Stop
    };
    Ok(
        HeartbeatRequest {
            active_session_id: payload.get_string_or_empty("activeSessionId"),
            job_id: payload.get_string_or_empty("jobId"),
            action,
        },
    )
}

/// Whether a job is the one that a cancel asks the store for.
pub open spec fn is_cancel_request(
    result: Result<String, DaemonResponse>,
    refusal: Option<DaemonResponse>,
    payload: JsonView,
) -> bool {
    match refusal {
        Some(refusal) => result == Err::<String, DaemonResponse>(refusal),
        None => result matches Ok(job_id) && job_id@ == or_empty(payload.get_str("jobId"@)),
    }
}

/// The job that a cancel asks the store for. A session that is not created is
/// asked nothing: its refusal is the answer.
pub fn cancel_request(refusal: Option<DaemonResponse>, payload: &Json) -> (r: Result<
    String,
    DaemonResponse,
>)
    ensures
        is_cancel_request(r, refusal, payload@),
{
    match refusal {
        Some(refusal) => Err(refusal),
        None => Ok(payload.get_string_or_empty("jobId")),
    }
}

/// Whether a session is the one whose heartbeat the store is asked for.
pub open spec fn is_get_request(
    result: Result<String, DaemonResponse>,
    refusal: Option<DaemonResponse>,
    payload: JsonView,
) -> bool {
    match refusal {
        Some(refusal) => result == Err::<String, DaemonResponse>(refusal),
        None => result matches Ok(session) && session@ == or_empty(
            payload.get_str("activeSessionId"@),
        ),
    }
}

/// The session whose heartbeat the store is asked for. A session that is not
/// created is asked nothing: its refusal is the answer.
pub fn get_request(refusal: Option<DaemonResponse>, payload: &Json) -> (r: Result<
    String,
    DaemonResponse,
>)
    ensures
        is_get_request(r, refusal, payload@),
{
    match refusal {
        Some(refusal) => Err(refusal),
        None => Ok(payload.get_string_or_empty("activeSessionId")),
    }
}

/// An answer with a heartbeat.
pub open spec fn heartbeat_answer(command: Seq<char>, job: Option<JsonView>) -> ResponseView {
    success(None, command, Some(JsonView::object().field("heartbeat"@, or_null(job))))
}

/// The object of an optional job.
pub open spec fn job_value(job: Option<AgentCronJob>) -> Option<JsonView> {
    match job {
        Some(job) => Some(job.value@),
        None => None,
    }
}

fn answer_heartbeat(command: &str, job: &Option<AgentCronJob>) -> (r: DaemonResponse)
    ensures
        r@ == heartbeat_answer(command@, job_value(*job)),
{
    let value = match job {
        Some(job) => job.value.duplicate(),
        None => Json::Null,
    };
    response_success(None, command, Some(Json::object().field("heartbeat", value)))
}

/// A lane once a heartbeat was paused, resumed or stopped: one that was not resumed
/// loses its queued fire.
pub open spec fn managed_lane(
    items: Seq<QueuedItem>,
    action: HeartbeatAction,
    job: AgentCronJob,
) -> Seq<QueuedItem> {
    if action == HeartbeatAction::Resume {
        items
    } else {
        cleared_lane(items, job)
    }
}

/// Whether a session and an answer are what managing a heartbeat gives.
pub open spec fn is_managed(
    before: SessionCore,
    after: SessionCore,
    answer: ResponseView,
    action: HeartbeatAction,
    job_id: Seq<char>,
    managed: Option<AgentCronJob>,
) -> bool {
    match managed {
        Some(job) => {
            &&& answer == heartbeat_answer("heartbeat_manage"@, Some(job.value@))
            &&& after.steering@ == managed_lane(before.steering@, action, job)
            &&& after.follow_up@ == managed_lane(
                before.follow_up@,
                action,
                job,
            )
            &&& after == (SessionCore {
                steering: after.steering,
                follow_up: after.follow_up,
                ..before
            })
        },
        None => after == before && answer == failure(
            None,
            "heartbeat_manage"@,
            "No active heartbeat found: "@ + job_id,
        ),
    }
}

/// Answer what managing a heartbeat did: a heartbeat that was not resumed loses
/// its queued fire, and one that is not there is refused.
pub fn handle_heartbeat_manage(
    request: &HeartbeatRequest,
    managed: Option<AgentCronJob>,
    core: &mut SessionCore,
) -> (r: DaemonResponse)
    ensures
        is_managed(*old(core), *final(core), r@, request.action, request.job_id@, managed),
{
    if managed.is_none() {
        let error = concat2("No active heartbeat found: ", request.job_id.as_str());
        return response_failure(None, "heartbeat_manage", error.as_str(), None);
    }
    match &managed {
        Some(job) => {
            if request.action != HeartbeatAction::Resume {
                remove_queued_heartbeat_follow_up(job, core);
            }
        },
        None => {},
    }
    answer_heartbeat("heartbeat_manage", &managed)
}

/// Whether a session and an answer are what updating a heartbeat gives.
pub open spec fn is_updated(
    before: SessionCore,
    after: SessionCore,
    answer: ResponseView,
    action: HeartbeatAction,
    updated: Result<Option<AgentCronJob>, String>,
) -> bool {
    match updated {
        Err(error) => after == before && answer == failure(
            None,
            "heartbeat_update"@,
            error@,
        ),
        Ok(job) => {
            &&& answer == heartbeat_answer("heartbeat_update"@, job_value(job))
            &&& after.steering@ == (match job {
                Some(job) => managed_lane(before.steering@, action, job),
                None => before.steering@,
            })
            &&& after.follow_up@ == (match job {
                Some(job) => managed_lane(before.follow_up@, action, job),
                None => before.follow_up@,
            })
            &&& after == (SessionCore {
                steering: after.steering,
                follow_up: after.follow_up,
                ..before
            })
        },
    }
}

/// Answer what updating a session's heartbeat did: a heartbeat that was not
/// resumed loses its queued fire.
pub fn handle_heartbeat_update(
    request: &HeartbeatRequest,
    updated: Result<Option<AgentCronJob>, String>,
    core: &mut SessionCore,
) -> (r: DaemonResponse)
    ensures
        is_updated(*old(core), *final(core), r@, request.action, updated),
{
    let job = match updated {
        Ok(job) => job,
        Err(error) => {
            return response_failure(None, "heartbeat_update", error.as_str(), None);
        },
    };
    match &job {
        Some(job) => {
            if request.action != HeartbeatAction::Resume {
                remove_queued_heartbeat_follow_up(job, core);
            }
        },
        None => {},
    }
    answer_heartbeat("heartbeat_update", &job)
}

/// The answer with a session's own heartbeat, or null.
pub fn handle_heartbeat_get(job: Option<AgentCronJob>) -> (r: DaemonResponse)
    ensures
        r@ == heartbeat_answer("heartbeat_get"@, job_value(job)),
{
    answer_heartbeat("heartbeat_get", &job)
}

/// A job that is to be made.
#[derive(Debug, PartialEq, Eq)]
pub struct CreateAgentCronJobInput {
    pub active_session_id: String,
    pub session_id: String,
    pub session_file: String,
    pub cwd: String,
    pub runtime_kind: Option<String>,
    pub delivery_mode: Option<DeliveryMode>,
    pub schedule_text: String,
    pub prompt: String,
}

/// Whether an input is for a live session.
pub open spec fn is_for_session(input: CreateAgentCronJobInput, core: SessionCore) -> bool {
    &&& is_persisted(core)
    &&& input.active_session_id == core.active_session_id
    &&& input.session_id == core.store->0.header.id
    &&& input.session_file == core.store->0.path
    &&& input.cwd == core.cwd
    &&& input.runtime_kind == Some(core.runtime_kind)
}

fn session_input(
    core: &SessionCore,
    delivery_mode: Option<DeliveryMode>,
    schedule_text: String,
    prompt: String,
) -> (r: Option<CreateAgentCronJobInput>)
    ensures
        match r {
            Some(input) => is_for_session(input, *core) && input.delivery_mode == delivery_mode
                && input.schedule_text == schedule_text && input.prompt == prompt,
            None => !is_persisted(*core),
        },
{
    match &core.store {
        Some(store) => {
            if is_empty_text(store.path.as_str()) {
                return None;
            }
            Some(
                CreateAgentCronJobInput {
                    active_session_id: core.active_session_id.clone(),
                    session_id: store.header.id.clone(),
                    session_file: store.path.clone(),
                    cwd: core.cwd.clone(),
                    runtime_kind: Some(core.runtime_kind.clone()),
                    delivery_mode,
                    schedule_text,
                    prompt,
                },
            )
        },
        None => None,
    }
}

/// Whether a job, or the refusal of one, is what a command adds.
pub open spec fn is_added_job(
    result: Result<CreateAgentCronJobInput, DaemonResponse>,
    refusal: Option<DaemonResponse>,
    payload: JsonView,
    core: SessionCore,
) -> bool {
    &&& refusal matches Some(refusal) ==> result == Err::<CreateAgentCronJobInput, DaemonResponse>(
        refusal,
    )
    &&& refusal is None ==> match result {
        Ok(input) => is_for_session(input, core) && input.delivery_mode is None
            && input.schedule_text@ == or_empty(payload.get_str("schedule"@))
            && input.prompt@ == or_empty(payload.get_str("prompt"@)),
        Err(response) => !is_persisted(core) && response@ == failure(
            None,
            "cron_add"@,
            "Cron jobs require a persisted session file"@,
        ),
    }
}

/// The job that a command adds. A session that is not created is refused first,
/// and one that is not kept in a file has no jobs.
pub fn cron_add_input(
    refusal: Option<DaemonResponse>,
    payload: &Json,
    core: &SessionCore,
) -> (r: Result<CreateAgentCronJobInput, DaemonResponse>)
    ensures
        is_added_job(r, refusal, payload@, *core),
{
    match refusal {
        Some(refusal) => {
            return Err(refusal);
        },
        None => {},
    }
    let schedule = payload.get_string_or_empty("schedule");
    let prompt = payload.get_string_or_empty("prompt");
    match session_input(core, None, schedule, prompt) {
        Some(input) => Ok(input),
        None => Err(
            response_failure(
                None,
                "cron_add",
                "Cron jobs require a persisted session file",
                None,
            ),
        ),
    }
}

/// Whether a heartbeat, or the refusal of one, is what a command sets.
pub open spec fn is_set_heartbeat(
    result: Result<CreateAgentCronJobInput, DaemonResponse>,
    refusal: Option<DaemonResponse>,
    payload: JsonView,
    core: SessionCore,
    delivery_mode: Result<Option<DeliveryMode>, String>,
    previous: Option<AgentCronJob>,
    schedule_text: String,
) -> bool {
    &&& refusal matches Some(refusal) ==> result == Err::<CreateAgentCronJobInput, DaemonResponse>(
        refusal,
    )
    &&& refusal is None ==> match result {
        Ok(input) => {
            &&& is_for_session(input, core)
            &&& delivery_mode matches Ok(mode) && input.delivery_mode == (if mode is Some {
                mode
            } else {
                match previous {
                    Some(job) => job.delivery_mode,
                    None => None,
                }
            })
            &&& input.schedule_text == schedule_text
            &&& input.prompt@ == or_empty(payload.get_str("prompt"@))
        },
        Err(response) => match delivery_mode {
            Err(error) => response@ == failure(None, "heartbeat_set"@, error@),
            Ok(_) => !is_persisted(core) && response@ == failure(
                None,
                "heartbeat_set"@,
                "Heartbeats require a persisted session file"@,
            ),
        },
    }
}

/// The heartbeat that a command sets. A session that is not created is refused
/// first, then a delivery mode that is not known; a session that is not kept in
/// a file has no heartbeat; and a replacement keeps the delivery mode of the one
/// before unless it brings its own. The schedule is handed in as it was
/// normalized.
pub fn heartbeat_set_input(
    refusal: Option<DaemonResponse>,
    payload: &Json,
    core: &SessionCore,
    delivery_mode: Result<Option<DeliveryMode>, String>,
    previous: &Option<AgentCronJob>,
    schedule_text: String,
) -> (r: Result<CreateAgentCronJobInput, DaemonResponse>)
    ensures
        is_set_heartbeat(r, refusal, payload@, *core, delivery_mode, *previous, schedule_text),
{
    match refusal {
        Some(refusal) => {
            return Err(refusal);
        },
        None => {},
    }
    let mode = match delivery_mode {
        Ok(mode) => mode,
        Err(error) => {
            return Err(response_failure(None, "heartbeat_set", error.as_str(), None));
        },
    };
    let mode = if mode.is_some() {
        mode
    } else {
        match previous {
            Some(job) => job.delivery_mode,
            None => None,
        }
    };
    let prompt = payload.get_string_or_empty("prompt");
    match session_input(core, mode, schedule_text, prompt) {
        Some(input) => Ok(input),
        None => Err(
            response_failure(
                None,
                "heartbeat_set",
                "Heartbeats require a persisted session file",
                None,
            ),
        ),
    }
}

/// An answer with a job.
pub open spec fn job_answer(command: Seq<char>, job: AgentCronJob) -> ResponseView {
    success(None, command, Some(JsonView::object().field("job"@, job.value@)))
}

/// The answer to a job that was added.
pub open spec fn added_answer(created: Result<AgentCronJob, String>) -> ResponseView {
    match created {
        Ok(job) => job_answer("cron_add"@, job),
        Err(error) => failure(None, "cron_add"@, error@),
    }
}

/// The answer to a job that was added.
pub fn handle_cron_add(created: Result<AgentCronJob, String>) -> (r: DaemonResponse)
    ensures
        r@ == added_answer(created),
{
    match created {
        Ok(job) => response_success(
            None,
            "cron_add",
            Some(Json::object().field("job", job.value)),
        ),
        Err(error) => response_failure(None, "cron_add", error.as_str(), None),
    }
}

/// Whether a session and an answer are what cancelling a job gives.
pub open spec fn is_cancelled(
    before: SessionCore,
    after: SessionCore,
    answer: ResponseView,
    job_id: Seq<char>,
    cancelled: Option<AgentCronJob>,
) -> bool {
    match cancelled {
        Some(job) => {
            &&& answer == job_answer("cron_cancel"@, job)
            &&& after.steering@ == cleared_lane(before.steering@, job)
            &&& after.follow_up@ == cleared_lane(before.follow_up@, job)
            &&& after == (SessionCore {
                steering: after.steering,
                follow_up: after.follow_up,
                ..before
            })
        },
        None => after == before && answer == failure(
            None,
            "cron_cancel"@,
            "No cron job found: "@ + job_id,
        ),
    }
}

/// Answer a cancelled job: its queued fire is dropped; a job that is not there
/// is refused.
pub fn handle_cron_cancel(
    job_id: &str,
    cancelled: Option<AgentCronJob>,
    core: &mut SessionCore,
) -> (r: DaemonResponse)
    ensures
        is_cancelled(*old(core), *final(core), r@, job_id@, cancelled),
{
    match cancelled {
        Some(job) => {
            remove_queued_heartbeat_follow_up(&job, core);
            response_success(None, "cron_cancel", Some(Json::object().field("job", job.value)))
        },
        None => response_failure(
            None,
            "cron_cancel",
            concat2("No cron job found: ", job_id).as_str(),
            None,
        ),
    }
}

/// Whether a session and an answer are what setting a heartbeat gives.
pub open spec fn is_set(
    before: SessionCore,
    after: SessionCore,
    answer: ResponseView,
    created: Result<AgentCronJob, String>,
    previous: Option<AgentCronJob>,
) -> bool {
    match created {
        Ok(job) => {
            &&& answer == heartbeat_answer("heartbeat_set"@, Some(job.value@))
            &&& after.steering@ == (match previous {
                Some(previous) => cleared_lane(before.steering@, previous),
                None => before.steering@,
            })
            &&& after.follow_up@ == (match previous {
                Some(previous) => cleared_lane(before.follow_up@, previous),
                None => before.follow_up@,
            })
            &&& after == (SessionCore {
                steering: after.steering,
                follow_up: after.follow_up,
                ..before
            })
        },
        Err(error) => after == before && answer == failure(
            None,
            "heartbeat_set"@,
            error@,
        ),
    }
}

/// Answer a heartbeat that was set: the queued fire of the one it replaced is
/// dropped.
pub fn handle_heartbeat_set(
    created: Result<AgentCronJob, String>,
    previous: &Option<AgentCronJob>,
    core: &mut SessionCore,
) -> (r: DaemonResponse)
    ensures
        is_set(*old(core), *final(core), r@, created, *previous),
{
    match created {
        Ok(job) => {
            match previous {
                Some(previous) => remove_queued_heartbeat_follow_up(previous, core),
                None => {},
            }
            response_success(
                None,
                "heartbeat_set",
                Some(Json::object().field("heartbeat", job.value)),
            )
        },
        Err(error) => response_failure(None, "heartbeat_set", error.as_str(), None),
    }
}

} // verus!
