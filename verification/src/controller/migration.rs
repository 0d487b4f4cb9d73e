//! Horizon-to-Soroban-RPC migration: the state machine that decides each
//! step of a zero-downtime migration.
//!
//! ```text
//! Pending → Provisioning → WaitingForSorobanReady → TrafficShifting
//!         → DrainHorizon → Cleanup → Completed
//!                                 ↘ Failed (any phase can roll back here)
//! ```
//!
//! The controller performs the [`MigrationAction`] the machine asks for and
//! reports how it went; the machine answers with the next action.
use crate::crd::types::NodeType;
use crate::text::{append_decimal, decimal, text_eq};
use vstd::prelude::*;
use vstd::string::*;

verus! {

/// Annotation that triggers the migration when set to `"soroban-rpc"`.
pub const MIGRATE_TO_ANNOTATION: &'static str = "stellar.org/migrate-to";

/// Ordered phases of the Horizon→SorobanRpc migration state machine.
#[derive(Debug, Clone, Copy, PartialEq, Eq, Structural)]
pub enum MigrationPhase {
    /// Waiting to start — annotation detected, validation pending.
    Pending,
    /// SorobanRpc `Deployment` is being provisioned alongside Horizon.
    Provisioning,
    /// Waiting for the new SorobanRpc pods to pass their readiness probe.
    WaitingForSorobanReady,
    /// Service selector is being updated to point to SorobanRpc.
    TrafficShifting,
    /// Legacy Horizon `Deployment` replicas are being scaled to zero.
    DrainHorizon,
    /// Horizon workload and migration annotation are being removed.
    Cleanup,
    /// Migration complete; node is now fully SorobanRpc.
    Completed,
    /// An unrecoverable error occurred; the Horizon workload is preserved.
    Failed,
}

/// The name of a phase.
pub open spec fn phase_label(p: MigrationPhase) -> Seq<char> {
    match p {
        MigrationPhase::Pending => "Pending"@,
        MigrationPhase::Provisioning => "Provisioning"@,
        MigrationPhase::WaitingForSorobanReady => "WaitingForSorobanReady"@,
        MigrationPhase::TrafficShifting => "TrafficShifting"@,
        MigrationPhase::DrainHorizon => "DrainHorizon"@,
        MigrationPhase::Cleanup => "Cleanup"@,
        MigrationPhase::Completed => "Completed"@,
        MigrationPhase::Failed => "Failed"@,
    }
}

/// Position of a phase on the success path (`Failed` is off the path).
pub open spec fn phase_rank(p: MigrationPhase) -> int {
    match p {
        MigrationPhase::Pending => 0,
        MigrationPhase::Provisioning => 1,
        MigrationPhase::WaitingForSorobanReady => 2,
        MigrationPhase::TrafficShifting => 3,
        MigrationPhase::DrainHorizon => 4,
        MigrationPhase::Cleanup => 5,
        MigrationPhase::Completed => 6,
        MigrationPhase::Failed => -1,
    }
}

impl MigrationPhase {
    /// The phase's name.
    pub fn to_string(&self) -> (s: String)
        ensures
            s@ == phase_label(*self),
    {
        match self {
            MigrationPhase::Pending => String::from_str("Pending"),
            MigrationPhase::Provisioning => String::from_str("Provisioning"),
            MigrationPhase::WaitingForSorobanReady => String::from_str("WaitingForSorobanReady"),
            MigrationPhase::TrafficShifting => String::from_str("TrafficShifting"),
            MigrationPhase::DrainHorizon => String::from_str("DrainHorizon"),
            MigrationPhase::Cleanup => String::from_str("Cleanup"),
            MigrationPhase::Completed => String::from_str("Completed"),
            MigrationPhase::Failed => String::from_str("Failed"),
        }
    }
}

/// Configuration for a single Horizon→SorobanRpc migration run.
#[derive(Debug, Clone)]
pub struct MigrationConfig {
    /// Namespace of the `StellarNode` being migrated.
    pub namespace: String,
    /// Name of the source `StellarNode` (currently `nodeType: Horizon`).
    pub node_name: String,
    /// How long to wait for the SorobanRpc pods to become Ready (seconds).
    pub readiness_timeout_secs: u64,
    /// How long to allow the Horizon drain to complete (seconds).
    pub drain_timeout_secs: u64,
    /// When `true`, roll back and preserve Horizon if any phase fails.
    pub rollback_on_failure: bool,
}

impl MigrationConfig {
    /// A config with the default timeouts (10 minutes for readiness,
    /// 5 minutes for the drain) and rollback on failure.
    pub fn new(namespace: &str, node_name: &str) -> (c: Self)
        ensures
            c.namespace@ == namespace@,
            c.node_name@ == node_name@,
            c.readiness_timeout_secs == 600,
            c.drain_timeout_secs == 300,
            c.rollback_on_failure,
    {
        MigrationConfig {
            namespace: namespace.to_owned(),
            node_name: node_name.to_owned(),
            readiness_timeout_secs: 600,
            drain_timeout_secs: 300,
            rollback_on_failure: true,
        }
    }
}

/// Point-in-time snapshot of migration progress.
#[derive(Debug, Clone)]
pub struct MigrationState {
    pub phase: MigrationPhase,
    pub soroban_deployment_name: Option<String>,
    pub started_at_unix: Option<i64>,
    pub completed_at_unix: Option<i64>,
    pub error_message: Option<String>,
}

impl Default for MigrationState {
    fn default() -> (s: Self)
        ensures
            s.phase == MigrationPhase::Pending,
            s.soroban_deployment_name is None,
            s.started_at_unix is None,
            s.completed_at_unix is None,
            s.error_message is None,
    {
        MigrationState {
            phase: MigrationPhase::Pending,
            soroban_deployment_name: None,
            started_at_unix: None,
            completed_at_unix: None,
            error_message: None,
        }
    }
}

/// Whether a node asks for the migration: a Horizon node whose
/// `stellar.org/migrate-to` annotation is `soroban-rpc`.
pub fn migration_requested(node_type: NodeType, migrate_to: Option<&str>) -> (b: bool)
    ensures
        b == (node_type == NodeType::Horizon && match migrate_to {
            Some(v) => v@ == "soroban-rpc"@,
            None => false,
        }),
{
    node_type == NodeType::Horizon && match migrate_to {
        Some(v) => text_eq(v, "soroban-rpc"),
        None => false,
    }
}

/// Name of the parallel SorobanRpc deployment of a node.
pub open spec fn soroban_deployment_for(node_name: Seq<char>) -> Seq<char> {
    node_name + "-soroban-migration"@
}

/// Name of the parallel SorobanRpc deployment of a node.
pub fn soroban_deployment_name(node_name: &str) -> (n: String)
    ensures
        n@ == soroban_deployment_for(node_name@),
{
    let mut n = node_name.to_owned();
    n.append("-soroban-migration");
    n
}

/// Errors that can occur during a Horizon→SorobanRpc migration.
#[derive(Debug, Clone, PartialEq, Eq)]
pub enum MigrationError {
    /// A Kubernetes API call failed; the text is the API error's.
    Kube(String),
    /// The source node is not a Horizon node, or the manifest is unusable.
    Precondition(String),
    /// The SorobanRpc pods did not become ready in time (seconds).
    Timeout(u64),
    /// The migration failed and was rolled back.
    RolledBack(String),
}

/// The text of a migration error.
pub open spec fn migration_error_text(e: MigrationError) -> Seq<char> {
    match e {
        MigrationError::Kube(m) => "Kubernetes API error: "@ + m@,
        MigrationError::Precondition(m) => "Migration precondition failed: "@ + m@,
        MigrationError::Timeout(secs) => "Migration timed out after "@ + decimal(secs as nat) + "s"@,
        MigrationError::RolledBack(m) => "Migration rolled back: "@ + m@,
    }
}

impl MigrationError {
    /// The human-readable description of the error.
    pub fn message(&self) -> (m: String)
        ensures
            m@ == migration_error_text(*self),
    {
        match self {
            MigrationError::Kube(e) => {
                let mut m = String::from_str("Kubernetes API error: ");
                m.append(e.as_str());
                m
            },
            MigrationError::Precondition(e) => {
                let mut m = String::from_str("Migration precondition failed: ");
                m.append(e.as_str());
                m
            },
            MigrationError::Timeout(secs) => {
                let mut m = String::from_str("Migration timed out after ");
                append_decimal(&mut m, *secs);
                m.append("s");
                m
            },
            MigrationError::RolledBack(e) => {
                let mut m = String::from_str("Migration rolled back: ");
                m.append(e.as_str());
                m
            },
        }
    }
}

/// Label keys and values as ordered pairs.
pub open spec fn label_pairs(ls: Seq<(String, String)>) -> Seq<(Seq<char>, Seq<char>)> {
    ls.map_values(|l: (String, String)| (l.0@, l.1@))
}

/// The Service selector of a node's pods of a given type:
/// `app=<node>` and `stellar.org/node-type=<type>`.
pub open spec fn selector_for(node_name: Seq<char>, node_type: Seq<char>) -> Seq<(Seq<char>, Seq<char>)> {
    seq![("app"@, node_name), ("stellar.org/node-type"@, node_type)]
}

/// The Service selector that sends a node's traffic to its SorobanRpc pods
/// (when `to_soroban`) or back to its Horizon pods.
pub fn service_selector(node_name: &str, to_soroban: bool) -> (r: Vec<(String, String)>)
    ensures
        label_pairs(r@) == selector_for(
            node_name@,
            if to_soroban { "SorobanRpc"@ } else { "Horizon"@ },
        ),
{
    let kind = if to_soroban {
        String::from_str("SorobanRpc")
    } else {
        String::from_str("Horizon")
    };
    let r = vec![
        (String::from_str("app"), node_name.to_owned()),
        (String::from_str("stellar.org/node-type"), kind),
    ];
    proof {
        assert(label_pairs(r@) =~= selector_for(
            node_name@,
            if to_soroban { "SorobanRpc"@ } else { "Horizon"@ },
        ));
    }
    r
}

/// The parallel SorobanRpc deployment created during a migration.
#[derive(Debug, Clone)]
pub struct SorobanDeploymentPlan {
    pub name: String,
    pub namespace: String,
    /// Labels of the deployment itself.
    pub labels: Vec<(String, String)>,
    /// Selector, and labels of the pod template.
    pub selector: Vec<(String, String)>,
    pub replicas: i32,
    pub container_name: String,
    pub image: String,
    pub container_port: i32,
    /// HTTP readiness probe: path, initial delay, period, failure threshold.
    pub probe_path: String,
    pub probe_initial_delay_secs: i32,
    pub probe_period_secs: i32,
    pub probe_failure_threshold: i32,
}

/// The SorobanRpc deployment of a migration: named after the node, labelled
/// as a migration SorobanRpc workload, with as many replicas as the Horizon
/// deployment (1 when it sets none), serving on port 8000.
pub fn soroban_deployment_plan(config: &MigrationConfig, horizon_replicas: Option<i32>) -> (p:
    SorobanDeploymentPlan)
    ensures
        p.name@ == soroban_deployment_for(config.node_name@),
        p.namespace@ == config.namespace@,
        label_pairs(p.labels@) == selector_for(config.node_name@, "SorobanRpc"@).push(
            ("stellar.org/migration"@, "true"@),
        ),
        label_pairs(p.selector@) == selector_for(config.node_name@, "SorobanRpc"@),
        p.replicas == match horizon_replicas {
            Some(n) => n,
            None => 1,
        },
        p.container_name@ == "soroban-rpc"@,
        p.image@ == "stellar/soroban-rpc:latest"@,
        p.container_port == 8000,
        p.probe_path@ == "/"@,
        p.probe_initial_delay_secs == 15,
        p.probe_period_secs == 5,
        p.probe_failure_threshold == 12,
{
    let mut labels = service_selector(config.node_name.as_str(), true);
    let ghost before = labels@;
    labels.push((String::from_str("stellar.org/migration"), String::from_str("true")));
    proof {
        assert(label_pairs(labels@) =~= label_pairs(before).push(("stellar.org/migration"@, "true"@)));
    }
    let selector = service_selector(config.node_name.as_str(), true);
    SorobanDeploymentPlan {
        name: soroban_deployment_name(config.node_name.as_str()),
        namespace: config.namespace.clone(),
        labels,
        selector,
        replicas: match horizon_replicas {
            Some(n) => n,
            None => 1,
        },
        container_name: String::from_str("soroban-rpc"),
        image: String::from_str("stellar/soroban-rpc:latest"),
        container_port: 8000,
        probe_path: String::from_str("/"),
        probe_initial_delay_secs: 15,
        probe_period_secs: 5,
        probe_failure_threshold: 12,
    }
}

/// Work the controller performs for the migration.
#[derive(Debug, Clone, Copy, PartialEq, Eq, Structural)]
pub enum MigrationAction {
    /// Check that the node exists and is of type Horizon.
    ValidatePreconditions,
    /// Create the parallel SorobanRpc deployment.
    ProvisionSorobanDeployment,
    /// Poll until the SorobanRpc deployment is Ready.
    WaitForSorobanReady,
    /// Point the node's Service at the SorobanRpc pods.
    ShiftTraffic,
    /// Scale the Horizon deployment to zero.
    DrainHorizon,
    /// Delete the Horizon deployment and the migration annotation.
    Cleanup,
    /// Restore Horizon and remove the SorobanRpc deployment (best effort).
    Rollback,
    /// Nothing more to do.
    Finish,
}

/// How the last action went.
#[derive(Debug, Clone)]
pub enum StepResult {
    Succeeded,
    Failed(String),
}

/// The action that performs a phase's work.
pub open spec fn action_for(p: MigrationPhase) -> MigrationAction {
    match p {
        MigrationPhase::Pending => MigrationAction::ValidatePreconditions,
        MigrationPhase::Provisioning => MigrationAction::ProvisionSorobanDeployment,
        MigrationPhase::WaitingForSorobanReady => MigrationAction::WaitForSorobanReady,
        MigrationPhase::TrafficShifting => MigrationAction::ShiftTraffic,
        MigrationPhase::DrainHorizon => MigrationAction::DrainHorizon,
        MigrationPhase::Cleanup => MigrationAction::Cleanup,
        MigrationPhase::Completed => MigrationAction::Finish,
        MigrationPhase::Failed => MigrationAction::Finish,
    }
}

/// The phase that follows a successful step.
pub open spec fn next_phase(p: MigrationPhase) -> MigrationPhase {
    match p {
        MigrationPhase::Pending => MigrationPhase::Provisioning,
        MigrationPhase::Provisioning => MigrationPhase::WaitingForSorobanReady,
        MigrationPhase::WaitingForSorobanReady => MigrationPhase::TrafficShifting,
        MigrationPhase::TrafficShifting => MigrationPhase::DrainHorizon,
        MigrationPhase::DrainHorizon => MigrationPhase::Cleanup,
        MigrationPhase::Cleanup => MigrationPhase::Completed,
        MigrationPhase::Completed => MigrationPhase::Completed,
        MigrationPhase::Failed => MigrationPhase::Failed,
    }
}

/// A migration state as plain values: phase, SorobanRpc deployment name,
/// start time, completion time, error message.
pub type StateView = (MigrationPhase, Option<Seq<char>>, Option<i64>, Option<i64>, Option<Seq<char>>);

pub open spec fn opt_view(o: Option<String>) -> Option<Seq<char>> {
    match o {
        Some(s) => Some(s@),
        None => None,
    }
}

pub open spec fn state_view(s: MigrationState) -> StateView {
    (s.phase, opt_view(s.soroban_deployment_name), s.started_at_unix, s.completed_at_unix, opt_view(s.error_message))
}

/// The state after a step and the action that comes next.
pub open spec fn step(
    s: StateView,
    node_name: Seq<char>,
    rollback_on_failure: bool,
    result: Option<Seq<char>>,
    now: i64,
) -> (StateView, MigrationAction) {
    let (phase, deployment, started, completed, error) = s;
    if phase == MigrationPhase::Completed || phase == MigrationPhase::Failed {
        (s, MigrationAction::Finish)
    } else {
        match result {
            Some(msg) => (
                (MigrationPhase::Failed, deployment, started, completed, Some(msg)),
                if rollback_on_failure {
                    MigrationAction::Rollback
                } else {
                    MigrationAction::Finish
                },
            ),
            None => {
                let p = next_phase(phase);
                let d = if phase == MigrationPhase::Provisioning {
                    Some(soroban_deployment_for(node_name))
                } else {
                    deployment
                };
                let c = if p == MigrationPhase::Completed {
                    Some(now)
                } else {
                    completed
                };
                ((p, d, started, c, error), action_for(p))
            },
        }
    }
}

pub open spec fn result_view(r: StepResult) -> Option<Seq<char>> {
    match r {
        StepResult::Succeeded => None,
        StepResult::Failed(m) => Some(m@),
    }
}

impl MigrationState {
    /// A migration started at `now_unix`, and its first action.
    pub fn start(now_unix: i64) -> (r: (MigrationState, MigrationAction))
        ensures
            state_view(r.0) == (MigrationPhase::Pending, None::<Seq<char>>, Some(now_unix), None::<i64>, None::<Seq<char>>),
            r.1 == MigrationAction::ValidatePreconditions,
    {
        (
            MigrationState {
                phase: MigrationPhase::Pending,
                soroban_deployment_name: None,
                started_at_unix: Some(now_unix),
                completed_at_unix: None,
                error_message: None,
            },
            MigrationAction::ValidatePreconditions,
        )
    }

    /// Records how the last action went and returns the next action: a
    /// success moves one phase along the path, a failure moves to `Failed`
    /// (asking for a rollback when the config says so); `Completed` and
    /// `Failed` do not change.
    pub fn advance(&mut self, config: &MigrationConfig, result: StepResult, now_unix: i64) -> (a: MigrationAction)
        ensures
            (state_view(*final(self)), a) == step(
                state_view(*old(self)),
                config.node_name@,
                config.rollback_on_failure,
                result_view(result),
                now_unix,
            ),
    {
        if self.phase == MigrationPhase::Completed || self.phase == MigrationPhase::Failed {
            return MigrationAction::Finish;
        }
        match result {
            StepResult::Failed(msg) => {
                self.phase = MigrationPhase::Failed;
                self.error_message = Some(msg);
                if config.rollback_on_failure {
                    MigrationAction::Rollback
                } else {
                    MigrationAction::Finish
                }
            },
            StepResult::Succeeded => {
                let next = match self.phase {
                    MigrationPhase::Pending => MigrationPhase::Provisioning,
                    MigrationPhase::Provisioning => MigrationPhase::WaitingForSorobanReady,
                    MigrationPhase::WaitingForSorobanReady => MigrationPhase::TrafficShifting,
                    MigrationPhase::TrafficShifting => MigrationPhase::DrainHorizon,
                    MigrationPhase::DrainHorizon => MigrationPhase::Cleanup,
                    _ => MigrationPhase::Completed,
                };
                if self.phase == MigrationPhase::Provisioning {
                    self.soroban_deployment_name = Some(soroban_deployment_name(config.node_name.as_str()));
                }
                if next == MigrationPhase::Completed {
                    self.completed_at_unix = Some(now_unix);
                }
                self.phase = next;
                match next {
                    MigrationPhase::Provisioning => MigrationAction::ProvisionSorobanDeployment,
                    MigrationPhase::WaitingForSorobanReady => MigrationAction::WaitForSorobanReady,
                    MigrationPhase::TrafficShifting => MigrationAction::ShiftTraffic,
                    MigrationPhase::DrainHorizon => MigrationAction::DrainHorizon,
                    MigrationPhase::Cleanup => MigrationAction::Cleanup,
                    _ => MigrationAction::Finish,
                }
            },
        }
    }
}

/// What a readiness or drain poll decides.
#[derive(Debug, Clone, Copy, PartialEq, Eq, Structural)]
pub enum PollVerdict {
    /// The condition holds; go on.
    Done,
    /// The deadline passed before the condition held.
    TimedOut,
    /// Poll again later.
    Wait,
}

/// Readiness of the SorobanRpc deployment: ready when the available
/// replicas (0 when unknown) reach the desired count (1 when unknown).
pub fn readiness_verdict(desired: Option<i32>, available: Option<i32>, past_deadline: bool) -> (v: PollVerdict)
    ensures
        ({
            let d: int = match desired { Some(x) => x as int, None => 1 };
            let a: int = match available { Some(x) => x as int, None => 0 };
            v == (if a >= d {
                PollVerdict::Done
            } else if past_deadline {
                PollVerdict::TimedOut
            } else {
                PollVerdict::Wait
            })
        }),
{
    let d: i32 = match desired {
        Some(x) => x,
        None => 1,
    };
    let a: i32 = match available {
        Some(x) => x,
        None => 0,
    };
    if a >= d {
        PollVerdict::Done
    } else if past_deadline {
        PollVerdict::TimedOut
    } else {
        PollVerdict::Wait
    }
}

/// Drain of the Horizon deployment: done when no replica is ready (0 when
/// unknown); a passed deadline ends the wait too (the migration goes on).
pub fn drain_verdict(ready: Option<i32>, past_deadline: bool) -> (v: PollVerdict)
    ensures
        ({
            let r: int = match ready { Some(x) => x as int, None => 0 };
            v == (if r == 0 {
                PollVerdict::Done
            } else if past_deadline {
                PollVerdict::TimedOut
            } else {
                PollVerdict::Wait
            })
        }),
{
    let r: i32 = match ready {
        Some(x) => x,
        None => 0,
    };
    if r == 0 {
        PollVerdict::Done
    } else if past_deadline {
        PollVerdict::TimedOut
    } else {
        PollVerdict::Wait
    }
}

/// A consistent migration state: an error message exactly when failed, a
/// completion time exactly when completed, and the SorobanRpc deployment
/// recorded exactly from the moment it was provisioned (kept on failure).
pub open spec fn consistent(s: StateView, node_name: Seq<char>) -> bool {
    let (phase, deployment, started, completed, error) = s;
    &&& (error is Some) == (phase == MigrationPhase::Failed)
    &&& (completed is Some) == (phase == MigrationPhase::Completed)
    &&& (phase_rank(phase) >= 2 ==> deployment == Some(soroban_deployment_for(node_name)))
    &&& (0 <= phase_rank(phase) < 2 ==> deployment is None)
    &&& (phase == MigrationPhase::Failed ==> (deployment is None || deployment == Some(
        soroban_deployment_for(node_name),
    )))
}

/// Every step keeps a migration state consistent.
pub proof fn law_steps_keep_state_consistent(
    s: StateView,
    node_name: Seq<char>,
    rollback_on_failure: bool,
    result: Option<Seq<char>>,
    now: i64,
)
    requires
        consistent(s, node_name),
    ensures
        consistent(step(s, node_name, rollback_on_failure, result, now).0, node_name),
{
}

/// The phase only moves forward one phase at a time along the success
/// path, or to `Failed`; `Completed` and `Failed` are final and ask for no
/// further work.
pub proof fn law_phases_move_forward(
    s: StateView,
    node_name: Seq<char>,
    rollback_on_failure: bool,
    result: Option<Seq<char>>,
    now: i64,
)
    ensures
        ({
            let (t, a) = step(s, node_name, rollback_on_failure, result, now);
            &&& (s.0 == MigrationPhase::Completed || s.0 == MigrationPhase::Failed) ==> (t == s
                && a == MigrationAction::Finish)
            &&& (s.0 != MigrationPhase::Completed && s.0 != MigrationPhase::Failed) ==> (
            (result is None && phase_rank(t.0) == phase_rank(s.0) + 1) || (result is Some && t.0
                == MigrationPhase::Failed))
        }),
{
}

/// A failure in any unfinished phase ends the migration as `Failed` with
/// the failure's message, and a rollback is asked for exactly when the
/// config says to roll back.
pub proof fn law_failure_rolls_back_when_configured(
    s: StateView,
    node_name: Seq<char>,
    rollback_on_failure: bool,
    msg: Seq<char>,
    now: i64,
)
    requires
        s.0 != MigrationPhase::Completed,
        s.0 != MigrationPhase::Failed,
    ensures
        ({
            let (t, a) = step(s, node_name, rollback_on_failure, Some(msg), now);
            &&& t.0 == MigrationPhase::Failed
            &&& t.4 == Some(msg)
            &&& t.1 == s.1
            &&& (a == MigrationAction::Rollback) == rollback_on_failure
            &&& !rollback_on_failure ==> a == MigrationAction::Finish
        }),
{
}

/// The states reached by `n` successful steps.
pub open spec fn after_successes(
    s: StateView,
    node_name: Seq<char>,
    rollback_on_failure: bool,
    n: nat,
    now: i64,
) -> StateView
    decreases n,
{
    if n == 0 {
        s
    } else {
        after_successes(step(s, node_name, rollback_on_failure, None, now).0, node_name, rollback_on_failure, (n - 1) as nat, now)
    }
}

/// A migration whose six steps (validation, provisioning, readiness,
/// traffic shift, drain, cleanup) all succeed ends `Completed`, with the
/// SorobanRpc deployment recorded, the completion time set and no error.
pub proof fn law_successful_run_completes(node_name: Seq<char>, rollback_on_failure: bool, started: i64, now: i64)
    ensures
        after_successes(
            (MigrationPhase::Pending, None, Some(started), None, None),
            node_name,
            rollback_on_failure,
            6,
            now,
        ) == (
            MigrationPhase::Completed,
            Some(soroban_deployment_for(node_name)),
            Some(started),
            Some(now),
            None::<Seq<char>>,
        ),
{
    reveal_with_fuel(after_successes, 7);
}

} // verus!
