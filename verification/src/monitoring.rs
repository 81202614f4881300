//! System monitoring: health check bookkeeping, the overall system status,
//! alert acknowledgement and resolution.
use vstd::prelude::*;
use vstd::string::StringExecFns;
use crate::common::clone_opt_string;

verus! {

#[derive(Debug, Clone, Copy, PartialEq, Eq, Structural)]
pub enum MetricType {
    Cpu,
    Memory,
    Disk,
    Network,
    Database,
    Application,
    Custom,
}

#[derive(Debug, Clone, Copy, PartialEq, Eq, Structural)]
pub enum HealthCheckType {
    Database,
    Http,
    Tcp,
    Custom,
}

#[derive(Debug, Clone, Copy, PartialEq, Eq, Structural)]
pub enum HealthStatus {
    Healthy,
    Degraded,
    Unhealthy,
    Unknown,
}

#[derive(Debug, Clone, Copy, PartialEq, Eq, Structural)]
pub enum AlertCondition {
    GreaterThan,
    LessThan,
    Equals,
    NotEquals,
    Missing,
}

#[derive(Debug, Clone, Copy, PartialEq, Eq, Structural)]
pub enum AlertSeverity {
    Info,
    Warning,
    Critical,
    Emergency,
}

#[derive(Debug, Clone, Copy, PartialEq, Eq, Structural)]
pub enum AlertStatus {
    Firing,
    Acknowledged,
    Resolved,
}

/// Storage handle of the monitoring module (holds no state).
pub struct SqliteMonitoringRepository;

pub struct MonitoringService {
    repo: SqliteMonitoringRepository,
}

/// A health check. Instants are milliseconds since the Unix epoch.
#[derive(Debug, Clone)]
pub struct HealthCheck {
    pub id: u128,
    pub name: String,
    pub check_type: HealthCheckType,
    pub endpoint: Option<String>,
    pub timeout_seconds: i32,
    pub interval_seconds: i32,
    pub is_active: bool,
    pub last_check_ms: Option<i64>,
    pub last_status: Option<HealthStatus>,
    pub last_response_time_ms: Option<i64>,
    pub consecutive_failures: i32,
    pub last_error: Option<String>,
    pub updated_at_ms: i64,
}

#[derive(Debug, Clone)]
pub struct ComponentStatus {
    pub name: String,
    pub status: HealthStatus,
    pub response_time_ms: Option<i64>,
    pub message: Option<String>,
    pub last_check_ms: Option<i64>,
}

/// What acknowledging and resolving read and change of an alert (its
/// measured value and threshold travel beside it).
#[derive(Debug, Clone)]
pub struct AlertState {
    pub id: u128,
    pub rule_id: u128,
    pub status: AlertStatus,
    pub severity: AlertSeverity,
    pub message: String,
    pub triggered_at_ms: i64,
    pub acknowledged_at_ms: Option<i64>,
    pub acknowledged_by: Option<u128>,
    pub resolved_at_ms: Option<i64>,
    pub resolution_note: Option<String>,
    pub updated_at_ms: i64,
}

/// The status a check reports (unknown when it never ran).
pub open spec fn reported_status(c: HealthCheck) -> HealthStatus {
    match c.last_status {
        Some(s) => s,
        None => HealthStatus::Unknown,
    }
}

/// Whether every check reports healthy or unknown.
pub open spec fn all_healthy(checks: Seq<HealthCheck>) -> bool {
    forall|i: int| 0 <= i < checks.len() ==> {
        let s = reported_status(#[trigger] checks[i]);
        s == HealthStatus::Healthy || s == HealthStatus::Unknown
    }
}

pub open spec fn component_of(c: HealthCheck) -> (Seq<char>, HealthStatus, Option<i64>, Option<Seq<char>>, Option<i64>) {
    (c.name@, reported_status(c), c.last_response_time_ms, match c.last_error {
        Some(e) => Some(e@),
        None => None,
    }, c.last_check_ms)
}

pub open spec fn component_view(s: ComponentStatus) -> (Seq<char>, HealthStatus, Option<i64>, Option<Seq<char>>, Option<i64>) {
    (s.name@, s.status, s.response_time_ms, match s.message {
        Some(e) => Some(e@),
        None => None,
    }, s.last_check_ms)
}

impl MonitoringService {
    /// The one value of the service, which holds no state.
    pub closed spec fn the_service() -> Self {
        MonitoringService { repo: SqliteMonitoringRepository }
    }
}

/// `MonitoringService` holds no state: every value of it is the one that `new`
/// gives, so any two of them answer every call alike.
pub proof fn law_monitoring_service_is_stateless(a: MonitoringService)
    ensures
        a == MonitoringService::the_service(),
{
}

impl MonitoringService {
    pub fn new() -> (s: Self)
        ensures
            s == MonitoringService::the_service(),
    {
        MonitoringService { repo: SqliteMonitoringRepository }
    }

    /// The outcome of a check that needs no probe: healthy, message `OK`.
    pub fn default_check_outcome(&self) -> (r: (HealthStatus, Option<String>))
        ensures
            r.0 == HealthStatus::Healthy,
            r.1 matches Some(m) && m@ == "OK"@,
    {
        (HealthStatus::Healthy, Some(String::from_str("OK")))
    }

    /// A check after a run at `now_ms` that found `status` in `response_ms`:
    /// its failure streak grows when the run found it unhealthy and restarts
    /// otherwise.
    pub fn record_check_result(
        &self,
        check: HealthCheck,
        status: HealthStatus,
        message: Option<String>,
        response_ms: i64,
        now_ms: i64,
    ) -> (r: HealthCheck)
        requires
            status == HealthStatus::Unhealthy ==> check.consecutive_failures < i32::MAX,
        ensures
            r == (HealthCheck {
                last_check_ms: Some(now_ms),
                last_status: Some(status),
                last_response_time_ms: Some(response_ms),
                last_error: message,
                updated_at_ms: now_ms,
                consecutive_failures: if status == HealthStatus::Unhealthy {
                    (check.consecutive_failures + 1) as i32
                } else {
                    0
                },
                ..check
            }),
    {
        let mut check = check;
        check.last_check_ms = Some(now_ms);
        check.last_status = Some(status);
        check.last_response_time_ms = Some(response_ms);
        check.last_error = message;
        check.updated_at_ms = now_ms;
        if status == HealthStatus::Unhealthy {
            check.consecutive_failures = check.consecutive_failures + 1;
        } else {
            check.consecutive_failures = 0;
        }
        check
    }

    /// One component per check, reporting its last result, and the overall
    /// status: healthy when every check reports healthy or unknown, degraded
    /// otherwise. Without checks, a single healthy `Database` component
    /// checked at `now_ms` is reported.
    pub fn system_components(&self, checks: &Vec<HealthCheck>, now_ms: i64) -> (r: (Vec<ComponentStatus>, HealthStatus))
        ensures
            r.1 == if all_healthy(checks@) { HealthStatus::Healthy } else { HealthStatus::Degraded },
            checks.len() > 0 ==> r.0.len() == checks.len() && forall|i: int| 0 <= i < checks.len() ==>
                component_view(#[trigger] r.0[i]) == component_of(checks[i]),
            checks.len() == 0 ==> r.0.len() == 1 && r.0[0].name@ == "Database"@
                && r.0[0].status == HealthStatus::Healthy && r.0[0].response_time_ms == Some(0i64)
                && (r.0[0].message matches Some(m) && m@ == "Connected"@)
                && r.0[0].last_check_ms == Some(now_ms),
    {
        let mut comps: Vec<ComponentStatus> = Vec::new();
        let mut healthy = true;
        let mut i: usize = 0;
        while i < checks.len()
            invariant
                i <= checks.len(),
                comps.len() == i,
                healthy == all_healthy(checks@.take(i as int)),
                forall|k: int| 0 <= k < i ==> component_view(#[trigger] comps[k]) == component_of(checks[k]),
            decreases checks.len() - i,
        {
            let c = &checks[i];
            let status = match c.last_status {
                Some(s) => s,
                None => HealthStatus::Unknown,
            };
            if status != HealthStatus::Healthy && status != HealthStatus::Unknown {
                healthy = false;
            }
            assert(all_healthy(checks@.take(i + 1)) == (all_healthy(checks@.take(i as int))
                && (status == HealthStatus::Healthy || status == HealthStatus::Unknown))) by {
                let t = checks@.take(i + 1);
                if all_healthy(checks@.take(i as int)) && (status == HealthStatus::Healthy || status == HealthStatus::Unknown) {
                    assert forall|k: int| 0 <= k < t.len() implies {
                        let s = reported_status(#[trigger] t[k]);
                        s == HealthStatus::Healthy || s == HealthStatus::Unknown
                    } by {
                        if k < i {
                            assert(t[k] == checks@.take(i as int)[k]);
                        }
                    }
                }
                if all_healthy(t) {
                    assert(reported_status(t[i as int]) == status);
                    assert forall|k: int| 0 <= k < i implies {
                        let s = reported_status(#[trigger] checks@.take(i as int)[k]);
                        s == HealthStatus::Healthy || s == HealthStatus::Unknown
                    } by {
                        assert(checks@.take(i as int)[k] == t[k]);
                    }
                }
            }
            comps.push(ComponentStatus {
                name: c.name.clone(),
                status,
                response_time_ms: c.last_response_time_ms,
                message: clone_opt_string(&c.last_error),
                last_check_ms: c.last_check_ms,
            });
            i = i + 1;
        }
        assert(checks@.take(checks.len() as int) =~= checks@);
        if comps.len() == 0 {
            comps.push(ComponentStatus {
                name: String::from_str("Database"),
                status: HealthStatus::Healthy,
                response_time_ms: Some(0),
                message: Some(String::from_str("Connected")),
                last_check_ms: Some(now_ms),
            });
        }
        let overall = if healthy { HealthStatus::Healthy } else { HealthStatus::Degraded };
        (comps, overall)
    }

    /// An alert acknowledged by `by` at `now_ms`.
    pub fn acknowledge_alert(&self, alert: AlertState, by: u128, now_ms: i64) -> (r: AlertState)
        ensures
            r == (AlertState {
                status: AlertStatus::Acknowledged,
                acknowledged_at_ms: Some(now_ms),
                acknowledged_by: Some(by),
                updated_at_ms: now_ms,
                ..alert
            }),
    {
        let mut a = alert;
        a.status = AlertStatus::Acknowledged;
        a.acknowledged_at_ms = Some(now_ms);
        a.acknowledged_by = Some(by);
        a.updated_at_ms = now_ms;
        a
    }

    /// An alert resolved at `now_ms` with an optional note.
    pub fn resolve_alert(&self, alert: AlertState, note: Option<String>, now_ms: i64) -> (r: AlertState)
        ensures
            r == (AlertState {
                status: AlertStatus::Resolved,
                resolved_at_ms: Some(now_ms),
                resolution_note: note,
                updated_at_ms: now_ms,
                ..alert
            }),
    {
        let mut a = alert;
        a.status = AlertStatus::Resolved;
        a.resolved_at_ms = Some(now_ms);
        a.resolution_note = note;
        a.updated_at_ms = now_ms;
        a
    }

    /// Position of the first alert with identifier `id`.
    pub fn find_alert(&self, alerts: &Vec<AlertState>, id: u128) -> (r: Option<usize>)
        ensures
            match r {
                Some(i) => i < alerts.len() && alerts[i as int].id == id
                    && forall|k: int| 0 <= k < i ==> (#[trigger] alerts[k]).id != id,
                None => forall|k: int| 0 <= k < alerts.len() ==> (#[trigger] alerts[k]).id != id,
            },
    {
        let mut i: usize = 0;
        while i < alerts.len()
            invariant
                i <= alerts.len(),
                forall|k: int| 0 <= k < i ==> (#[trigger] alerts[k]).id != id,
            decreases alerts.len() - i,
        {
            if alerts[i].id == id {
                return Some(i);
            }
            i = i + 1;
        }
        None
    }

    /// Identifiers of the active checks, in order: the checks a full run
    /// probes.
    pub fn active_check_ids(&self, checks: &Vec<HealthCheck>) -> (r: Vec<u128>)
        ensures
            r@ == checks@.filter(|c: HealthCheck| c.is_active).map_values(|c: HealthCheck| c.id),
    {
        let ghost cs = checks@;
        let mut out: Vec<u128> = Vec::new();
        let mut i: usize = 0;
        while i < checks.len()
            invariant
                i <= checks.len(),
                cs == checks@,
                out@ == cs.take(i as int).filter(|c: HealthCheck| c.is_active).map_values(|c: HealthCheck| c.id),
            decreases checks.len() - i,
        {
            proof {
                reveal(Seq::filter);
                assert(cs.take(i + 1).drop_last() =~= cs.take(i as int));
            }
            if checks[i].is_active {
                out.push(checks[i].id);
            }
            assert(out@ =~= cs.take(i + 1).filter(|c: HealthCheck| c.is_active).map_values(|c: HealthCheck| c.id));
            i = i + 1;
        }
        assert(cs.take(checks.len() as int) =~= cs);
        out
    }
}

} // verus!
