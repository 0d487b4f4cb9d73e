use stellar_k8s::controller::migration::{
    drain_verdict, migration_requested, readiness_verdict, service_selector, soroban_deployment_name,
    soroban_deployment_plan, MigrationAction, MigrationError, MigrationConfig, MigrationPhase, MigrationState, PollVerdict, StepResult,
    MIGRATE_TO_ANNOTATION,
};
use stellar_k8s::crd::types::NodeType;

#[test]
fn migration_phase_display() {
    assert_eq!(MigrationPhase::Pending.to_string(), "Pending");
    assert_eq!(MigrationPhase::Provisioning.to_string(), "Provisioning");
    assert_eq!(
        MigrationPhase::WaitingForSorobanReady.to_string(),
        "WaitingForSorobanReady"
    );
    assert_eq!(
        MigrationPhase::TrafficShifting.to_string(),
        "TrafficShifting"
    );
    assert_eq!(MigrationPhase::DrainHorizon.to_string(), "DrainHorizon");
    assert_eq!(MigrationPhase::Cleanup.to_string(), "Cleanup");
    assert_eq!(MigrationPhase::Completed.to_string(), "Completed");
    assert_eq!(MigrationPhase::Failed.to_string(), "Failed");
}

#[test]
fn migration_state_default_is_pending() {
    let state = MigrationState::default();
    assert_eq!(state.phase, MigrationPhase::Pending);
    assert!(state.soroban_deployment_name.is_none());
    assert!(state.error_message.is_none());
}

#[test]
fn migration_config_defaults() {
    let cfg = MigrationConfig::new("stellar", "my-node");
    assert_eq!(cfg.namespace, "stellar");
    assert_eq!(cfg.node_name, "my-node");
    assert_eq!(cfg.readiness_timeout_secs, 600);
    assert!(cfg.rollback_on_failure);
}

#[test]
fn migration_config_drain_timeout() {
    let cfg = MigrationConfig::new("stellar", "my-node");
    assert_eq!(cfg.drain_timeout_secs, 300);
}

#[test]
fn successful_run_walks_every_phase() {
    let cfg = MigrationConfig::new("stellar", "horizon-1");
    let (mut state, first) = MigrationState::start(100);
    assert_eq!(first, MigrationAction::ValidatePreconditions);
    assert_eq!(state.started_at_unix, Some(100));

    let expected = [
        (MigrationPhase::Provisioning, MigrationAction::ProvisionSorobanDeployment),
        (MigrationPhase::WaitingForSorobanReady, MigrationAction::WaitForSorobanReady),
        (MigrationPhase::TrafficShifting, MigrationAction::ShiftTraffic),
        (MigrationPhase::DrainHorizon, MigrationAction::DrainHorizon),
        (MigrationPhase::Cleanup, MigrationAction::Cleanup),
        (MigrationPhase::Completed, MigrationAction::Finish),
    ];
    for (i, (phase, action)) in expected.iter().enumerate() {
        let a = state.advance(&cfg, StepResult::Succeeded, 200 + i as i64);
        assert_eq!(a, *action);
        assert_eq!(state.phase, *phase);
    }
    assert_eq!(
        state.soroban_deployment_name.as_deref(),
        Some("horizon-1-soroban-migration")
    );
    assert_eq!(state.completed_at_unix, Some(205));
    assert!(state.error_message.is_none());

    // A finished migration stays finished.
    let a = state.advance(&cfg, StepResult::Failed("late".to_string()), 300);
    assert_eq!(a, MigrationAction::Finish);
    assert_eq!(state.phase, MigrationPhase::Completed);
    assert!(state.error_message.is_none());
}

#[test]
fn failure_rolls_back_when_configured() {
    let cfg = MigrationConfig::new("stellar", "horizon-1");
    let (mut state, _) = MigrationState::start(0);
    state.advance(&cfg, StepResult::Succeeded, 1);
    state.advance(&cfg, StepResult::Succeeded, 2);
    assert_eq!(state.phase, MigrationPhase::WaitingForSorobanReady);
    let a = state.advance(&cfg, StepResult::Failed("timed out".to_string()), 3);
    assert_eq!(a, MigrationAction::Rollback);
    assert_eq!(state.phase, MigrationPhase::Failed);
    assert_eq!(state.error_message.as_deref(), Some("timed out"));
    assert_eq!(
        state.soroban_deployment_name.as_deref(),
        Some("horizon-1-soroban-migration")
    );
    assert_eq!(state.completed_at_unix, None);
}

#[test]
fn failure_without_rollback_finishes() {
    let mut cfg = MigrationConfig::new("stellar", "horizon-1");
    cfg.rollback_on_failure = false;
    let (mut state, _) = MigrationState::start(0);
    let a = state.advance(&cfg, StepResult::Failed("not horizon".to_string()), 1);
    assert_eq!(a, MigrationAction::Finish);
    assert_eq!(state.phase, MigrationPhase::Failed);
    assert!(state.soroban_deployment_name.is_none());
}

#[test]
fn migration_requested_only_for_horizon_with_annotation() {
    assert_eq!(MIGRATE_TO_ANNOTATION, "stellar.org/migrate-to");
    assert!(migration_requested(NodeType::Horizon, Some("soroban-rpc")));
    assert!(!migration_requested(NodeType::Horizon, Some("horizon")));
    assert!(!migration_requested(NodeType::Horizon, None));
    assert!(!migration_requested(NodeType::Validator, Some("soroban-rpc")));
    assert!(!migration_requested(NodeType::SorobanRpc, Some("soroban-rpc")));
}

#[test]
fn soroban_deployment_name_suffix() {
    assert_eq!(soroban_deployment_name("h"), "h-soroban-migration");
}

#[test]
fn readiness_verdicts() {
    assert_eq!(readiness_verdict(Some(2), Some(2), false), PollVerdict::Done);
    assert_eq!(readiness_verdict(Some(2), Some(1), false), PollVerdict::Wait);
    assert_eq!(readiness_verdict(Some(2), Some(1), true), PollVerdict::TimedOut);
    assert_eq!(readiness_verdict(None, None, false), PollVerdict::Wait);
    assert_eq!(readiness_verdict(None, Some(1), false), PollVerdict::Done);
}

#[test]
fn drain_verdicts() {
    assert_eq!(drain_verdict(None, false), PollVerdict::Done);
    assert_eq!(drain_verdict(Some(0), true), PollVerdict::Done);
    assert_eq!(drain_verdict(Some(3), false), PollVerdict::Wait);
    assert_eq!(drain_verdict(Some(3), true), PollVerdict::TimedOut);
}

#[test]
fn migration_error_messages() {
    assert_eq!(
        MigrationError::Timeout(600).message(),
        "Migration timed out after 600s"
    );
    assert_eq!(
        MigrationError::Precondition("not horizon".to_string()).message(),
        "Migration precondition failed: not horizon"
    );
    assert_eq!(
        MigrationError::Kube("404".to_string()).message(),
        "Kubernetes API error: 404"
    );
    assert_eq!(
        MigrationError::RolledBack("x".to_string()).message(),
        "Migration rolled back: x"
    );
}

#[test]
fn selectors_point_at_node_type() {
    let to_soroban = service_selector("h1", true);
    assert_eq!(
        to_soroban,
        vec![
            ("app".to_string(), "h1".to_string()),
            ("stellar.org/node-type".to_string(), "SorobanRpc".to_string()),
        ]
    );
    let back = service_selector("h1", false);
    assert_eq!(back[1].1, "Horizon");
}

#[test]
fn deployment_plan_copies_replicas() {
    let cfg = MigrationConfig::new("stellar", "horizon-1");
    let plan = soroban_deployment_plan(&cfg, Some(3));
    assert_eq!(plan.name, "horizon-1-soroban-migration");
    assert_eq!(plan.namespace, "stellar");
    assert_eq!(plan.replicas, 3);
    assert_eq!(plan.labels.len(), 3);
    assert_eq!(
        plan.labels[2],
        ("stellar.org/migration".to_string(), "true".to_string())
    );
    assert_eq!(plan.selector, service_selector("horizon-1", true));
    assert_eq!(plan.image, "stellar/soroban-rpc:latest");
    assert_eq!(plan.container_port, 8000);
    assert_eq!(soroban_deployment_plan(&cfg, None).replicas, 1);
}
