//! Background jobs: submitting one-time, interval and cron jobs, recording
//! runs, cancelling and retrying, and recurring schedules.
use vstd::prelude::*;
use crate::common::{add_seconds, clone_opt_string, div_i64_truncating, div_toward_zero, in_time_range, new_id,
    plus_seconds, MAX_DELTA_SECONDS};

verus! {

#[derive(Debug, Clone, Copy, PartialEq, Eq, Structural)]
pub enum JobStatus {
    Pending,
    Scheduled,
    Running,
    Completed,
    Failed,
    Cancelled,
    Paused,
}

#[derive(Debug, Clone, Copy, PartialEq, Eq, Structural)]
pub enum JobType {
    OneTime,
    Recurring,
    Cron,
    EventTriggered,
}

#[derive(Debug, Clone, Copy, PartialEq, Eq, Structural)]
pub enum JobPriority {
    Low,
    Normal,
    High,
    Critical,
}

#[derive(Debug, Clone, Copy, PartialEq, Eq, Structural)]
pub enum ExecutionStatus {
    Running,
    Completed,
    Failed,
    Cancelled,
    Timeout,
}

#[derive(Debug, Clone, Copy, PartialEq, Eq, Structural)]
pub enum QueueStatus {
    Active,
    Paused,
    Stopped,
}

#[derive(Debug, Clone, Copy, PartialEq, Eq, Structural)]
pub enum WorkerStatus {
    Idle,
    Busy,
    Stopped,
    Crashed,
}

#[derive(Debug, Clone, Copy, PartialEq, Eq, Structural)]
pub enum ScheduleType {
    Cron,
    Interval,
    Daily,
    Weekly,
    Monthly,
    SpecificTimes,
}

#[derive(Debug, Clone, Copy, PartialEq, Eq, Structural)]
pub enum DependencyType {
    OnSuccess,
    OnFailure,
    OnCompletion,
}

#[derive(Debug, Clone, Copy, PartialEq, Eq, Structural)]
pub enum BulkRequestStatus {
    Pending,
    Processing,
    Completed,
    Failed,
    Cancelled,
}

/// Storage handle of jobs (holds no state).
pub struct SqliteJobRepository;

/// Storage handle of job executions (holds no state).
pub struct SqliteJobExecutionRepository;

/// Storage handle of job schedules (holds no state).
pub struct SqliteJobScheduleRepository;

pub struct JobService {
    job_repo: SqliteJobRepository,
    execution_repo: SqliteJobExecutionRepository,
    schedule_repo: SqliteJobScheduleRepository,
}

pub struct JobScheduleService {
    schedule_repo: SqliteJobScheduleRepository,
    job_service: JobService,
}

/// Why a job operation was refused.
#[derive(Debug, Clone, Copy, PartialEq, Eq, Structural)]
pub enum JobError {
    /// The cron expression does not parse.
    InvalidCronExpression,
    /// The cron expression has no run after the given instant.
    NoUpcomingRun,
    /// A running job cannot be cancelled.
    CannotCancelRunning,
}

/// A job, as the scheduling rules read and write it (its payload travels
/// beside it). Instants are milliseconds since the Unix epoch.
#[derive(Debug, Clone)]
pub struct ScheduledJob {
    pub id: u128,
    pub name: String,
    pub job_type: JobType,
    pub handler: String,
    pub priority: JobPriority,
    pub cron_expression: Option<String>,
    pub interval_seconds: Option<i64>,
    pub scheduled_at_ms: Option<i64>,
    pub started_at_ms: Option<i64>,
    pub completed_at_ms: Option<i64>,
    pub next_run_at_ms: Option<i64>,
    pub last_run_at_ms: Option<i64>,
    pub last_success_at_ms: Option<i64>,
    pub last_failure_at_ms: Option<i64>,
    pub status: JobStatus,
    pub run_count: i64,
    pub success_count: i64,
    pub failure_count: i64,
    pub max_retries: i32,
    pub retry_count: i32,
    pub retry_delay_seconds: i32,
    pub timeout_seconds: i32,
    pub last_error: Option<String>,
    pub last_duration_ms: Option<i64>,
    pub avg_duration_ms: Option<i64>,
    pub tags: Option<String>,
    pub created_by: Option<u128>,
    pub locked_by: Option<String>,
    pub locked_at_ms: Option<i64>,
    pub created_at_ms: i64,
    pub updated_at_ms: i64,
}

/// A recurring schedule that submits jobs (its default payload travels beside
/// it). Dates are days since the Unix epoch.
#[derive(Debug, Clone)]
pub struct JobSchedule {
    pub id: u128,
    pub name: String,
    pub job_template_id: Option<u128>,
    pub job_name: String,
    pub handler: String,
    pub schedule_type: ScheduleType,
    pub cron_expression: Option<String>,
    pub interval_minutes: Option<i32>,
    pub specific_times: Option<String>,
    pub run_on_days: Option<String>,
    pub timezone: String,
    pub start_date: Option<i32>,
    pub end_date: Option<i32>,
    pub next_scheduled_run_ms: Option<i64>,
    pub last_run_ms: Option<i64>,
    pub enabled: bool,
    pub created_at_ms: i64,
    pub updated_at_ms: i64,
}

/// What the `cron` crate gives as the first run of expression `expr` strictly
/// after instant `after_ms`: `None` when the expression does not parse,
/// `Some(None)` when it has no such run.
pub uninterp spec fn cron_next_after(expr: Seq<char>, after_ms: int) -> Option<Option<i64>>;

/// Parses `expr` with `cron::Schedule::from_str` and takes the first instant of
/// `Schedule::after` at `after_ms`, in milliseconds. The result is named
/// `cron_next_after`. Stated besides, as `cron`'s search starts one second
/// after the given instant: a run it finds is later than `after_ms`. The
/// search adds that second to the instant, so the instant a second later must
/// be one `chrono` can hold. Nothing more of cron's calendar rules is stated.
#[verifier::external_body]
fn next_cron_run(expr: &str, after_ms: i64) -> (r: Option<Option<i64>>)
    requires
        in_time_range(after_ms as int),
        in_time_range(after_ms + 1000),
    ensures
        r == cron_next_after(expr@, after_ms as int),
        r matches Some(Some(t)) ==> t > after_ms,
{
    let schedule = match <cron::Schedule as std::str::FromStr>::from_str(expr) {
        Ok(s) => s,
        Err(_) => return None,
    };
    let after = chrono::DateTime::from_timestamp_millis(after_ms).unwrap();
    Some(schedule.after(&after).next().map(|d| d.timestamp_millis()))
}

/// The next run of a cron job computed at `now_ms`, or why there is none.
pub open spec fn cron_next_run(expr: Seq<char>, now_ms: int) -> Result<i64, JobError> {
    match cron_next_after(expr, now_ms) {
        None => Err(JobError::InvalidCronExpression),
        Some(None) => Err(JobError::NoUpcomingRun),
        Some(Some(t)) => Ok(t),
    }
}

fn cron_next_run_exec(expr: &str, now_ms: i64) -> (r: Result<i64, JobError>)
    requires
        in_time_range(now_ms as int),
        in_time_range(now_ms + 1000),
    ensures
        r == cron_next_run(expr@, now_ms as int),
        r matches Ok(t) ==> t > now_ms,
{
    match next_cron_run(expr, now_ms) {
        None => Err(JobError::InvalidCronExpression),
        Some(None) => Err(JobError::NoUpcomingRun),
        Some(Some(t)) => Ok(t),
    }
}

/// A fresh job with the defaults every new job gets: nothing run yet, three
/// retries after sixty seconds, a five-minute timeout.
pub open spec fn fresh_job(
    j: ScheduledJob,
    name: String,
    handler: String,
    job_type: JobType,
    priority: JobPriority,
    cron_expression: Option<String>,
    interval_seconds: Option<i64>,
    scheduled_at_ms: Option<i64>,
    next_run_at_ms: Option<i64>,
    status: JobStatus,
    created_by: Option<u128>,
    now_ms: i64,
) -> bool {
    &&& j.name == name
    &&& j.job_type == job_type
    &&& j.handler == handler
    &&& j.priority == priority
    &&& j.cron_expression == cron_expression
    &&& j.interval_seconds == interval_seconds
    &&& j.scheduled_at_ms == scheduled_at_ms
    &&& j.started_at_ms is None
    &&& j.completed_at_ms is None
    &&& j.next_run_at_ms == next_run_at_ms
    &&& j.last_run_at_ms is None
    &&& j.last_success_at_ms is None
    &&& j.last_failure_at_ms is None
    &&& j.status == status
    &&& j.run_count == 0
    &&& j.success_count == 0
    &&& j.failure_count == 0
    &&& j.max_retries == 3
    &&& j.retry_count == 0
    &&& j.retry_delay_seconds == 60
    &&& j.timeout_seconds == 300
    &&& j.last_error is None
    &&& j.last_duration_ms is None
    &&& j.avg_duration_ms is None
    &&& j.tags is None
    &&& j.created_by == created_by
    &&& j.locked_by is None
    &&& j.locked_at_ms is None
    &&& j.created_at_ms == now_ms
    &&& j.updated_at_ms == now_ms
}

fn make_job(
    name: String,
    handler: String,
    job_type: JobType,
    priority: JobPriority,
    cron_expression: Option<String>,
    interval_seconds: Option<i64>,
    scheduled_at_ms: Option<i64>,
    next_run_at_ms: Option<i64>,
    status: JobStatus,
    created_by: Option<u128>,
    now_ms: i64,
) -> (j: ScheduledJob)
    ensures
        fresh_job(j, name, handler, job_type, priority, cron_expression, interval_seconds,
            scheduled_at_ms, next_run_at_ms, status, created_by, now_ms),
{
    ScheduledJob {
        id: new_id(),
        name,
        job_type,
        handler,
        priority,
        cron_expression,
        interval_seconds,
        scheduled_at_ms,
        started_at_ms: None,
        completed_at_ms: None,
        next_run_at_ms,
        last_run_at_ms: None,
        last_success_at_ms: None,
        last_failure_at_ms: None,
        status,
        run_count: 0,
        success_count: 0,
        failure_count: 0,
        max_retries: 3,
        retry_count: 0,
        retry_delay_seconds: 60,
        timeout_seconds: 300,
        last_error: None,
        last_duration_ms: None,
        avg_duration_ms: None,
        tags: None,
        created_by,
        locked_by: None,
        locked_at_ms: None,
        created_at_ms: now_ms,
        updated_at_ms: now_ms,
    }
}

/// The average run time after one more run lasting `duration_ms`, from the
/// previous average over `runs_before` runs.
pub open spec fn next_average(avg: Option<i64>, runs_before: int, duration_ms: int) -> int {
    let prev = match avg {
        Some(a) => a as int,
        None => 0,
    };
    div_toward_zero(prev * runs_before + duration_ms, runs_before + 1)
}

/// The job's next run after a run ending at `now_ms`, for a job that repeats:
/// from its cron expression when that yields one (else unchanged), else after
/// its interval, else unchanged.
pub open spec fn next_run_after_run(job: ScheduledJob, now_ms: int) -> Option<i64> {
    match job.cron_expression {
        Some(expr) => match cron_next_after(expr@, now_ms) {
            Some(Some(t)) => Some(t),
            _ => job.next_run_at_ms,
        },
        None => match job.interval_seconds {
            Some(iv) => Some(plus_seconds(now_ms, iv as int) as i64),
            None => job.next_run_at_ms,
        },
    }
}

/// A job after a run that ended at `now_ms` after `duration_ms`.
pub open spec fn after_run(job: ScheduledJob, success: bool, error: Option<String>, duration_ms: i64, now_ms: i64)
    -> ScheduledJob {
    ScheduledJob {
        run_count: (job.run_count + 1) as i64,
        last_run_at_ms: Some(now_ms),
        last_duration_ms: Some(duration_ms),
        success_count: if success { (job.success_count + 1) as i64 } else { job.success_count },
        failure_count: if success { job.failure_count } else { (job.failure_count + 1) as i64 },
        last_success_at_ms: if success { Some(now_ms) } else { job.last_success_at_ms },
        last_failure_at_ms: if success { job.last_failure_at_ms } else { Some(now_ms) },
        last_error: if success { None } else { error },
        avg_duration_ms: Some(next_average(job.avg_duration_ms, job.run_count as int,
            duration_ms as int) as i64),
        status: if job.job_type == JobType::OneTime {
            if success { JobStatus::Completed } else { JobStatus::Failed }
        } else {
            JobStatus::Scheduled
        },
        completed_at_ms: if job.job_type == JobType::OneTime { Some(now_ms) } else { job.completed_at_ms },
        next_run_at_ms: if job.job_type == JobType::OneTime { job.next_run_at_ms } else {
            next_run_after_run(job, now_ms as int)
        },
        ..job
    }
}

/// The outcome of cancelling `job`.
pub open spec fn cancel_outcome(job: ScheduledJob) -> Result<ScheduledJob, JobError> {
    if job.status == JobStatus::Running {
        Err(JobError::CannotCancelRunning)
    } else {
        Ok(ScheduledJob { status: JobStatus::Cancelled, ..job })
    }
}

impl JobService {
    /// The one value of the service, which holds no state.
    pub closed spec fn the_service() -> Self {
        JobService {
            job_repo: SqliteJobRepository,
            execution_repo: SqliteJobExecutionRepository,
            schedule_repo: SqliteJobScheduleRepository,
        }
    }
}

impl Default for JobService {
    /// The same service as `new`.
    fn default() -> (s: Self)
        ensures
            s == JobService::the_service(),
    {
        Self::new()
    }
}

/// `JobService` holds no state: every value of it is the one that `new` and
/// `default` give, so any two of them answer every call alike.
pub proof fn law_job_service_is_stateless(a: JobService)
    ensures
        a == JobService::the_service(),
{
}

impl JobService {
    pub fn new() -> (s: Self)
        ensures
            s == JobService::the_service(),
    {
        JobService {
            job_repo: SqliteJobRepository,
            execution_repo: SqliteJobExecutionRepository,
            schedule_repo: SqliteJobScheduleRepository,
        }
    }

    /// A one-time job: normal priority unless another is given; scheduled for
    /// `scheduled_at_ms` when given (and then `Scheduled`), else `Pending`.
    pub fn submit(
        &self,
        name: String,
        handler: String,
        priority: Option<JobPriority>,
        scheduled_at_ms: Option<i64>,
        created_by: Option<u128>,
        now_ms: i64,
    ) -> (j: ScheduledJob)
        ensures
            fresh_job(j, name, handler, JobType::OneTime,
                match priority { Some(p) => p, None => JobPriority::Normal },
                None, None, scheduled_at_ms, scheduled_at_ms,
                if scheduled_at_ms is Some { JobStatus::Scheduled } else { JobStatus::Pending },
                created_by, now_ms),
    {
        let p = match priority {
            Some(p) => p,
            None => JobPriority::Normal,
        };
        let status = if scheduled_at_ms.is_some() {
            JobStatus::Scheduled
        } else {
            JobStatus::Pending
        };
        make_job(name, handler, JobType::OneTime, p, None, None, scheduled_at_ms,
            scheduled_at_ms, status, created_by, now_ms)
    }

    /// A cron job whose first run is the first instant the expression gives
    /// after `now_ms`; refused when the expression does not parse or has no
    /// upcoming run.
    pub fn schedule_cron(&self, name: String, handler: String, cron_expression: String, now_ms: i64)
        -> (r: Result<ScheduledJob, JobError>)
        requires
            in_time_range(now_ms as int),
            in_time_range(now_ms + 1000),
        ensures
            match cron_next_run(cron_expression@, now_ms as int) {
                Ok(next) => r matches Ok(j) && fresh_job(j, name, handler, JobType::Cron,
                    JobPriority::Normal, Some(cron_expression), None, None, Some(next),
                    JobStatus::Scheduled, None, now_ms),
                Err(e) => r == Err::<ScheduledJob, JobError>(e),
            },
    {
        let next = match cron_next_run_exec(cron_expression.as_str(), now_ms) {
            Ok(t) => t,
            Err(e) => return Err(e),
        };
        Ok(make_job(name, handler, JobType::Cron, JobPriority::Normal, Some(cron_expression),
            None, None, Some(next), JobStatus::Scheduled, None, now_ms))
    }

    /// A recurring job whose first run is `interval_seconds` after `now_ms`.
    pub fn schedule_interval(&self, name: String, handler: String, interval_seconds: i64, now_ms: i64)
        -> (j: ScheduledJob)
        requires
            -MAX_DELTA_SECONDS <= interval_seconds <= MAX_DELTA_SECONDS,
            in_time_range(plus_seconds(now_ms as int, interval_seconds as int)),
        ensures
            fresh_job(j, name, handler, JobType::Recurring, JobPriority::Normal, None,
                Some(interval_seconds), None,
                Some(plus_seconds(now_ms as int, interval_seconds as int) as i64),
                JobStatus::Scheduled, None, now_ms),
    {
        let next = add_seconds(now_ms, interval_seconds);
        make_job(name, handler, JobType::Recurring, JobPriority::Normal, None,
            Some(interval_seconds), None, Some(next), JobStatus::Scheduled, None, now_ms)
    }

    /// Cancels a job; a running job cannot be cancelled.
    pub fn cancel(&self, job: ScheduledJob) -> (r: Result<ScheduledJob, JobError>)
        ensures
            r == cancel_outcome(job),
    {
        if job.status == JobStatus::Running {
            return Err(JobError::CannotCancelRunning);
        }
        let mut job = job;
        job.status = JobStatus::Cancelled;
        Ok(job)
    }

    /// Puts a job back in the queue now, with its retries reset.
    pub fn retry(&self, job: ScheduledJob, now_ms: i64) -> (j: ScheduledJob)
        ensures
            j == (ScheduledJob {
                status: JobStatus::Pending,
                retry_count: 0,
                scheduled_at_ms: Some(now_ms),
                ..job
            }),
    {
        let mut job = job;
        job.status = JobStatus::Pending;
        job.retry_count = 0;
        job.scheduled_at_ms = Some(now_ms);
        job
    }

    /// Records a run that ended at `now_ms` after `duration_ms`: counters,
    /// last run, success or failure data, running average duration; a
    /// one-time job is then completed or failed, any other is scheduled again
    /// for its next run.
    pub fn update_after_run(
        &self,
        job: ScheduledJob,
        success: bool,
        error: Option<String>,
        duration_ms: i64,
        now_ms: i64,
    ) -> (j: ScheduledJob)
        requires
            job.run_count < i64::MAX,
            job.run_count + 1 != 0,
            success ==> job.success_count < i64::MAX,
            !success ==> job.failure_count < i64::MAX,
            i64::MIN <= (match job.avg_duration_ms { Some(a) => a as int, None => 0 }) * job.run_count,
            (match job.avg_duration_ms { Some(a) => a as int, None => 0 }) * job.run_count <= i64::MAX,
            i64::MIN <= (match job.avg_duration_ms { Some(a) => a as int, None => 0 }) * job.run_count
                + duration_ms <= i64::MAX,
            job.run_count + 1 == -1 ==> (match job.avg_duration_ms { Some(a) => a as int, None => 0 })
                * job.run_count + duration_ms != i64::MIN,
            in_time_range(now_ms as int),
            job.job_type != JobType::OneTime && job.cron_expression is Some ==> in_time_range(now_ms + 1000),
            job.job_type != JobType::OneTime && job.cron_expression is None
                && job.interval_seconds is Some ==> {
                &&& -MAX_DELTA_SECONDS <= job.interval_seconds.unwrap() <= MAX_DELTA_SECONDS
                &&& in_time_range(plus_seconds(now_ms as int, job.interval_seconds.unwrap() as int))
            },
        ensures
            j == after_run(job, success, error, duration_ms, now_ms),
    {
        let mut job = job;
        job.run_count = job.run_count + 1;
        job.last_run_at_ms = Some(now_ms);
        job.last_duration_ms = Some(duration_ms);
        if success {
            job.success_count = job.success_count + 1;
            job.last_success_at_ms = Some(now_ms);
            job.last_error = None;
        } else {
            job.failure_count = job.failure_count + 1;
            job.last_failure_at_ms = Some(now_ms);
            job.last_error = error;
        }
        let prev: i64 = match job.avg_duration_ms {
            Some(a) => a,
            None => 0,
        };
        let total = prev * (job.run_count - 1) + duration_ms;
        job.avg_duration_ms = Some(div_i64_truncating(total, job.run_count));
        if job.job_type == JobType::OneTime {
            job.status = if success { JobStatus::Completed } else { JobStatus::Failed };
            job.completed_at_ms = Some(now_ms);
        } else {
            job.status = JobStatus::Scheduled;
            match &job.cron_expression {
                Some(expr) => {
                    match next_cron_run(expr.as_str(), now_ms) {
                        Some(Some(t)) => {
                            job.next_run_at_ms = Some(t);
                        },
                        _ => {},
                    }
                },
                None => {
                    match job.interval_seconds {
                        Some(iv) => {
                            job.next_run_at_ms = Some(add_seconds(now_ms, iv));
                        },
                        None => {},
                    }
                },
            }
        }
        job
    }
}

/// Milliseconds in a day.
pub const DAY_MS: i64 = 86400000;

/// The next run of a schedule of type `t` computed at `now_ms`, for every type
/// but `Cron`: after its interval, a day, a week or thirty days; none for
/// specific times, or for an interval schedule without an interval.
pub open spec fn calendar_next_run(t: ScheduleType, interval_minutes: Option<i32>, now_ms: int) -> Option<int> {
    match t {
        ScheduleType::Interval => match interval_minutes {
            Some(m) => Some(now_ms + m * 60000),
            None => None,
        },
        ScheduleType::Daily => Some(now_ms + DAY_MS),
        ScheduleType::Weekly => Some(now_ms + 7 * DAY_MS),
        ScheduleType::Monthly => Some(now_ms + 30 * DAY_MS),
        _ => None,
    }
}

/// The instants a computation at `now_ms` for a schedule of type `t` reaches
/// are all instants `chrono` can represent: the instant a second later, where
/// the cron search starts; the instant its interval, a day, a week or thirty
/// days later for the other kinds.
pub open spec fn schedule_times_in_range(t: ScheduleType, interval_minutes: Option<i32>, now_ms: int) -> bool {
    &&& in_time_range(now_ms)
    &&& match t {
        ScheduleType::Cron => in_time_range(now_ms + 1000),
        ScheduleType::Interval => interval_minutes matches Some(m) ==> in_time_range(now_ms + m * 60000),
        ScheduleType::Daily => in_time_range(now_ms + DAY_MS),
        ScheduleType::Weekly => in_time_range(now_ms + 7 * DAY_MS),
        ScheduleType::Monthly => in_time_range(now_ms + 30 * DAY_MS),
        ScheduleType::SpecificTimes => true,
    }
}

fn calendar_next_run_exec(t: ScheduleType, interval_minutes: Option<i32>, now_ms: i64) -> (r: Option<i64>)
    requires
        t != ScheduleType::Cron,
        schedule_times_in_range(t, interval_minutes, now_ms as int),
    ensures
        r matches Some(x) ==> calendar_next_run(t, interval_minutes, now_ms as int) == Some(x as int),
        r is None ==> calendar_next_run(t, interval_minutes, now_ms as int) is None,
{
    match t {
        ScheduleType::Interval => match interval_minutes {
            Some(m) => Some(now_ms + (m as i64) * 60000),
            None => None,
        },
        ScheduleType::Daily => Some(now_ms + DAY_MS),
        ScheduleType::Weekly => Some(now_ms + 7 * DAY_MS),
        ScheduleType::Monthly => Some(now_ms + 30 * DAY_MS),
        _ => None,
    }
}

/// The first run of a new schedule: for a cron schedule, the first instant of
/// its expression after `now_ms` (none without an expression; refused when
/// the expression yields none); otherwise its calendar rule.
pub open spec fn first_run(t: ScheduleType, cron_expression: Option<String>, interval_minutes: Option<i32>, now_ms: int)
    -> Result<Option<int>, JobError> {
    if t == ScheduleType::Cron {
        match cron_expression {
            Some(expr) => match cron_next_run(expr@, now_ms) {
                Ok(x) => Ok(Some(x as int)),
                Err(e) => Err(e),
            },
            None => Ok(None),
        }
    } else {
        Ok(calendar_next_run(t, interval_minutes, now_ms))
    }
}

/// The run after a schedule fired at `now_ms`: as for the first run, except
/// that a cron expression yielding nothing gives no next run.
pub open spec fn following_run(t: ScheduleType, cron_expression: Option<String>, interval_minutes: Option<i32>, now_ms: int)
    -> Option<int> {
    match first_run(t, cron_expression, interval_minutes, now_ms) {
        Ok(x) => x,
        Err(_) => None,
    }
}

/// The calendar periods of the schedules that are not cron: the next run
/// comes a day, a week (seven days) or thirty days after the instant it is
/// computed at for a daily, weekly or monthly schedule, the interval's
/// minutes after it for an interval schedule (none without an interval), and
/// never for a schedule of specific times. The first run and every later run
/// follow the same rule.
pub proof fn law_calendar_periods(cron_expression: Option<String>, interval_minutes: Option<i32>, now_ms: int)
    ensures
        first_run(ScheduleType::Daily, cron_expression, interval_minutes, now_ms)
            == Ok::<Option<int>, JobError>(Some(now_ms + 86400000)),
        first_run(ScheduleType::Weekly, cron_expression, interval_minutes, now_ms)
            == Ok::<Option<int>, JobError>(Some(now_ms + 604800000)),
        first_run(ScheduleType::Monthly, cron_expression, interval_minutes, now_ms)
            == Ok::<Option<int>, JobError>(Some(now_ms + 2592000000)),
        first_run(ScheduleType::SpecificTimes, cron_expression, interval_minutes, now_ms)
            == Ok::<Option<int>, JobError>(None),
        first_run(ScheduleType::Interval, cron_expression, interval_minutes, now_ms)
            == Ok::<Option<int>, JobError>(match interval_minutes {
                Some(m) => Some(now_ms + m * 60000),
                None => None,
            }),
        following_run(ScheduleType::Daily, cron_expression, interval_minutes, now_ms) == Some(now_ms + 86400000),
        following_run(ScheduleType::Weekly, cron_expression, interval_minutes, now_ms) == Some(now_ms + 604800000),
        following_run(ScheduleType::Monthly, cron_expression, interval_minutes, now_ms) == Some(now_ms + 2592000000),
        following_run(ScheduleType::SpecificTimes, cron_expression, interval_minutes, now_ms) is None,
{
}

/// Whether a schedule of this kind always runs next strictly after the
/// instant it is computed at: every kind but an interval that is not
/// positive.
pub open spec fn moves_forward(t: ScheduleType, interval_minutes: Option<i32>) -> bool {
    t == ScheduleType::Interval ==> (interval_minutes matches Some(m) && m > 0)
}

/// A schedule fired by a job submission.
#[derive(Debug, Clone)]
pub struct DueRun {
    /// Position of the schedule in the list that was examined.
    pub schedule_index: usize,
    /// The job submitted for it.
    pub job: ScheduledJob,
    /// The schedule after firing.
    pub schedule: JobSchedule,
}

/// Positions of the schedules due at `now_ms` (with a next run at or before
/// then), in order.
pub open spec fn due_positions(schedules: Seq<JobSchedule>, now_ms: i64) -> Seq<int>
    decreases schedules.len(),
{
    if schedules.len() == 0 {
        Seq::empty()
    } else {
        let rest = due_positions(schedules.drop_last(), now_ms);
        match schedules.last().next_scheduled_run_ms {
            Some(t) => if t <= now_ms { rest.push(schedules.len() - 1) } else { rest },
            None => rest,
        }
    }
}

impl JobScheduleService {
    /// The one value of the service, which holds no state.
    pub closed spec fn the_service() -> Self {
        JobScheduleService { schedule_repo: SqliteJobScheduleRepository, job_service: JobService::the_service() }
    }
}

impl Default for JobScheduleService {
    /// The same service as `new`.
    fn default() -> (s: Self)
        ensures
            s == JobScheduleService::the_service(),
    {
        Self::new()
    }
}

/// `JobScheduleService` holds no state: every value of it is the one that `new` and
/// `default` give, so any two of them answer every call alike.
pub proof fn law_job_schedule_service_is_stateless(a: JobScheduleService)
    ensures
        a == JobScheduleService::the_service(),
{
}

impl JobScheduleService {
    pub fn new() -> (s: Self)
        ensures
            s == JobScheduleService::the_service(),
    {
        JobScheduleService { schedule_repo: SqliteJobScheduleRepository, job_service: JobService::new() }
    }

    /// The first run of a new schedule (see `first_run`).
    pub fn initial_run(
        &self,
        schedule_type: ScheduleType,
        cron_expression: &Option<String>,
        interval_minutes: Option<i32>,
        now_ms: i64,
    ) -> (r: Result<Option<i64>, JobError>)
        requires
            schedule_times_in_range(schedule_type, interval_minutes, now_ms as int),
        ensures
            match first_run(schedule_type, *cron_expression, interval_minutes, now_ms as int) {
                Ok(Some(x)) => r == Ok::<Option<i64>, JobError>(Some(x as i64)),
                Ok(None) => r == Ok::<Option<i64>, JobError>(None),
                Err(e) => r == Err::<Option<i64>, JobError>(e),
            },
            moves_forward(schedule_type, interval_minutes) ==> (r matches Ok(Some(x)) ==> x > now_ms),
    {
        if schedule_type == ScheduleType::Cron {
            match cron_expression {
                Some(expr) => match cron_next_run_exec(expr.as_str(), now_ms) {
                    Ok(t) => Ok(Some(t)),
                    Err(e) => Err(e),
                },
                None => Ok(None),
            }
        } else {
            Ok(calendar_next_run_exec(schedule_type, interval_minutes, now_ms))
        }
    }

    /// A new enabled schedule in UTC whose first run is `first_run`; refused
    /// when its cron expression does not parse or has no upcoming run.
    pub fn create(
        &self,
        name: String,
        job_name: String,
        handler: String,
        schedule_type: ScheduleType,
        cron_expression: Option<String>,
        interval_minutes: Option<i32>,
        now_ms: i64,
    ) -> (r: Result<JobSchedule, JobError>)
        requires
            schedule_times_in_range(schedule_type, interval_minutes, now_ms as int),
        ensures
            match first_run(schedule_type, cron_expression, interval_minutes, now_ms as int) {
                Ok(next) => r matches Ok(s) && {
                    &&& s.name == name
                    &&& s.job_template_id is None
                    &&& s.job_name == job_name
                    &&& s.handler == handler
                    &&& s.schedule_type == schedule_type
                    &&& s.cron_expression == cron_expression
                    &&& s.interval_minutes == interval_minutes
                    &&& s.specific_times is None
                    &&& s.run_on_days is None
                    &&& s.timezone@ == seq!['U', 'T', 'C']
                    &&& s.start_date is None
                    &&& s.end_date is None
                    &&& match next {
                        Some(x) => s.next_scheduled_run_ms == Some(x as i64),
                        None => s.next_scheduled_run_ms is None,
                    }
                    &&& s.last_run_ms is None
                    &&& s.enabled
                    &&& s.created_at_ms == now_ms
                    &&& s.updated_at_ms == now_ms
                },
                Err(e) => r == Err::<JobSchedule, JobError>(e),
            },
    {
        let next = match self.initial_run(schedule_type, &cron_expression, interval_minutes, now_ms) {
            Ok(n) => n,
            Err(e) => return Err(e),
        };
        let timezone = String::from_str("UTC");
        proof {
            reveal_strlit("UTC");
        }
        Ok(JobSchedule {
            id: new_id(),
            name,
            job_template_id: None,
            job_name,
            handler,
            schedule_type,
            cron_expression,
            interval_minutes,
            specific_times: None,
            run_on_days: None,
            timezone,
            start_date: None,
            end_date: None,
            next_scheduled_run_ms: next,
            last_run_ms: None,
            enabled: true,
            created_at_ms: now_ms,
            updated_at_ms: now_ms,
        })
    }

    /// The run after a schedule fires at `now_ms` (see `following_run`).
    pub fn calculate_next_run(&self, schedule: &JobSchedule, now_ms: i64) -> (r: Option<i64>)
        requires
            schedule_times_in_range(schedule.schedule_type, schedule.interval_minutes, now_ms as int),
        ensures
            match following_run(schedule.schedule_type, schedule.cron_expression,
                schedule.interval_minutes, now_ms as int) {
                Some(x) => r == Some(x as i64),
                None => r is None,
            },
            moves_forward(schedule.schedule_type, schedule.interval_minutes) ==> (r matches Some(x)
                ==> x > now_ms),
    {
        match self.initial_run(schedule.schedule_type, &schedule.cron_expression, schedule.interval_minutes, now_ms) {
            Ok(x) => x,
            Err(_) => None,
        }
    }

    /// Fires every schedule due at `now_ms`: for each, in order, a pending
    /// one-time job named and handled as the schedule says, and the schedule
    /// with its last run at `now_ms` and its following run.
    pub fn trigger_due(&self, schedules: &Vec<JobSchedule>, now_ms: i64) -> (runs: Vec<DueRun>)
        requires
            forall|i: int| 0 <= i < schedules.len() ==>
                schedule_times_in_range(schedules[i].schedule_type, #[trigger] schedules[i].interval_minutes, now_ms as int),
        ensures
            runs.len() == due_positions(schedules@, now_ms).len(),
            forall|k: int| 0 <= k < runs.len() ==> {
                let i = due_positions(schedules@, now_ms)[k];
                let s = schedules[i];
                &&& (#[trigger] runs[k]).schedule_index == i
                &&& fresh_job(runs[k].job, s.job_name, s.handler, JobType::OneTime, JobPriority::Normal,
                    None, None, None, None, JobStatus::Pending, None, now_ms)
                &&& runs[k].schedule == (JobSchedule {
                    last_run_ms: Some(now_ms),
                    next_scheduled_run_ms: match following_run(s.schedule_type, s.cron_expression,
                        s.interval_minutes, now_ms as int) {
                        Some(x) => Some(x as i64),
                        None => None,
                    },
                    ..s
                })
            },
    {
        let mut runs: Vec<DueRun> = Vec::new();
        let ghost all = schedules@;
        let mut i: usize = 0;
        while i < schedules.len()
            invariant
                i <= schedules.len(),
                all == schedules@,
                forall|j: int| 0 <= j < schedules.len() ==>
                    schedule_times_in_range(schedules[j].schedule_type, #[trigger] schedules[j].interval_minutes, now_ms as int),
                runs.len() == due_positions(all.take(i as int), now_ms).len(),
                forall|k: int| 0 <= k < runs.len() ==> {
                    let i = due_positions(all.take(i as int), now_ms)[k];
                    let s = schedules[i];
                    &&& 0 <= i < schedules.len()
                    &&& (#[trigger] runs[k]).schedule_index == i
                    &&& fresh_job(runs[k].job, s.job_name, s.handler, JobType::OneTime, JobPriority::Normal,
                        None, None, None, None, JobStatus::Pending, None, now_ms)
                    &&& runs[k].schedule == (JobSchedule {
                        last_run_ms: Some(now_ms),
                        next_scheduled_run_ms: match following_run(s.schedule_type, s.cron_expression,
                            s.interval_minutes, now_ms as int) {
                            Some(x) => Some(x as i64),
                            None => None,
                        },
                        ..s
                    })
                },
            decreases schedules.len() - i,
        {
            let s = &schedules[i];
            assert(all.take(i + 1).drop_last() =~= all.take(i as int));
            assert(all.take(i + 1).last() == *s);
            let ghost prev = due_positions(all.take(i as int), now_ms);
            match s.next_scheduled_run_ms {
                Some(t) => {
                    if t <= now_ms {
                        let job = self.job_service.submit(s.job_name.clone(), s.handler.clone(), None,
                            None, None, now_ms);
                        let next = self.calculate_next_run(s, now_ms);
                        let updated = JobSchedule {
                            id: s.id,
                            name: s.name.clone(),
                            job_template_id: s.job_template_id,
                            job_name: s.job_name.clone(),
                            handler: s.handler.clone(),
                            schedule_type: s.schedule_type,
                            cron_expression: clone_opt_string(&s.cron_expression),
                            interval_minutes: s.interval_minutes,
                            specific_times: clone_opt_string(&s.specific_times),
                            run_on_days: clone_opt_string(&s.run_on_days),
                            timezone: s.timezone.clone(),
                            start_date: s.start_date,
                            end_date: s.end_date,
                            next_scheduled_run_ms: next,
                            last_run_ms: Some(now_ms),
                            enabled: s.enabled,
                            created_at_ms: s.created_at_ms,
                            updated_at_ms: s.updated_at_ms,
                        };
                        runs.push(DueRun { schedule_index: i, job, schedule: updated });
                        assert(due_positions(all.take(i + 1), now_ms) == prev.push(i as int));
                    }
                },
                None => {},
            }
            i = i + 1;
        }
        assert(all.take(schedules.len() as int) =~= all);
        runs
    }
}

/// Recording a run keeps a job's run count equal to its successes plus its
/// failures, whether the run succeeded or not.
pub proof fn law_run_counts_add_up(job: ScheduledJob, success: bool, error: Option<String>, duration_ms: i64, now_ms: i64)
    requires
        0 <= job.success_count,
        0 <= job.failure_count,
        job.run_count == job.success_count + job.failure_count,
        job.run_count < i64::MAX,
    ensures
        after_run(job, success, error, duration_ms, now_ms).run_count
            == after_run(job, success, error, duration_ms, now_ms).success_count
            + after_run(job, success, error, duration_ms, now_ms).failure_count,
        after_run(job, success, error, duration_ms, now_ms).run_count == job.run_count + 1,
{
}

/// Cancelling a job that is not running always succeeds and leaves it
/// cancelled; a running job is never cancelled.
pub proof fn law_cancel_outcome(job: ScheduledJob)
    ensures
        job.status == JobStatus::Running <==> cancel_outcome(job) is Err,
        cancel_outcome(job) matches Ok(j) ==> j.status == JobStatus::Cancelled,
{
}

} // verus!
