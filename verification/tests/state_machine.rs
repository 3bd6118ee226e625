//! The actor state machine: forward transitions, idempotent re-applies,
//! cleanup deferral, and the finalizer protocol.

use amp_composer::actor_controller::{error_policy, reconcile, ReconcileAction};
use amp_composer::cluster::{Cluster, NamespaceRecord};
use amp_composer::errors::Error;
use amp_composer::types::{Actor, ActorSpec, ActorState};

fn spec_of(name: &str, commit: &str) -> ActorSpec {
    ActorSpec {
        name: name.to_string(),
        description: String::new(),
        image: name.to_string(),
        repo: format!("https://example.test/{name}.git"),
        path: ".".to_string(),
        reference: "main".to_string(),
        commit: commit.to_string(),
        environment: vec![],
        partners: vec![],
    }
}

fn actor(status: Option<ActorState>, deleting: bool, finalizer: bool) -> Actor {
    Actor {
        name: "svc-a".to_string(),
        namespace: Some("demo".to_string()),
        spec: spec_of("svc-a", "abc123"),
        status,
        marked_for_deletion: deleting,
        has_finalizer: finalizer,
    }
}

fn demo_namespace(phase: Option<&str>) -> NamespaceRecord {
    NamespaceRecord {
        owner: "demo".to_string(),
        labels: vec![],
        phase: phase.map(|p| p.to_string()),
    }
}

#[test]
fn pending_never_skips_building() {
    let mut c = Cluster::new();
    let a = actor(Some(ActorState::Pending), false, true);
    c.apply_actor(a.clone());
    a.reconcile(&mut c).unwrap();
    let stored = c.actors.get(&"svc-a".to_string()).unwrap();
    assert_eq!(stored.status, Some(ActorState::Building));
    assert_eq!(c.images.len(), 0);
    assert_eq!(c.deployments.len(), 0);
}

#[test]
fn building_twice_creates_one_image() {
    let mut c = Cluster::new();
    let a = actor(Some(ActorState::Building), false, true);
    c.apply_actor(a.clone());

    a.reconcile(&mut c).unwrap();
    assert_eq!(c.images.len(), 1);
    assert_eq!(c.events[0].message, "Create new image: svc-a-abc123");

    a.reconcile(&mut c).unwrap();
    assert_eq!(c.images.len(), 1);
    // The second call took the update branch.
    assert_eq!(
        c.events[2].message,
        "Image svc-a-abc123 already exists, update it if there are new changes"
    );
}

#[test]
fn running_twice_is_idempotent() {
    let mut c = Cluster::new();
    let a = actor(
        Some(ActorState::Running {
            ready: true,
            reason: "AutoRun".to_string(),
            message: None,
        }),
        false,
        true,
    );
    c.apply_actor(a.clone());

    a.reconcile(&mut c).unwrap();
    assert_eq!(c.deployments.len(), 1);
    let first = c.deployments.get(&"svc-a".to_string()).unwrap().clone();

    a.reconcile(&mut c).unwrap();
    assert_eq!(c.deployments.len(), 1);
    let second = c.deployments.get(&"svc-a".to_string()).unwrap().clone();
    assert_eq!(first, second);
    // Status is unchanged: Running is terminal here.
    let stored = c.actors.get(&"svc-a".to_string()).unwrap();
    assert!(matches!(stored.status, Some(ActorState::Running { .. })));
}

#[test]
fn reconcile_without_status_does_nothing() {
    let mut c = Cluster::new();
    let a = actor(None, false, true);
    c.apply_actor(a.clone());
    let action = a.reconcile(&mut c).unwrap();
    assert_eq!(action, ReconcileAction::Requeue(120));
    assert_eq!(c.events.len(), 0);
    assert_eq!(c.images.len(), 0);
}

#[test]
fn cleanup_deferred_while_namespace_terminating() {
    let mut c = Cluster::new();
    c.apply_namespace("demo".to_string(), demo_namespace(Some("Terminating")));
    let a = actor(Some(ActorState::Building), true, true);
    let action = a.cleanup(&mut c).unwrap();
    assert_eq!(action, ReconcileAction::AwaitChange);
    // Not even an event is recorded while the namespace terminates.
    assert_eq!(c.events.len(), 0);
}

#[test]
fn cleanup_of_live_namespace_awaits_and_deletes_nothing() {
    let mut c = Cluster::new();
    c.apply_namespace("demo".to_string(), demo_namespace(Some("Active")));
    let a = actor(Some(ActorState::Building), true, true);
    c.apply_actor(a.clone());
    amp_composer::image::create(&mut c, &a).unwrap();

    let action = a.cleanup(&mut c).unwrap();

    assert_eq!(action, ReconcileAction::AwaitChange);
    assert_eq!(c.events.len(), 1);
    assert_eq!(c.events[0].message, "Delete Actor `svc-a`");
    // Nothing was deleted.
    assert_eq!(c.images.len(), 1);
    assert_eq!(c.namespaces.len(), 1);
    assert_eq!(c.actors.len(), 1);
}

#[test]
fn cleanup_without_namespace_field_fails() {
    let mut c = Cluster::new();
    let mut a = actor(Some(ActorState::Pending), true, true);
    a.namespace = None;
    let err = a.cleanup(&mut c).unwrap_err();
    assert_eq!(err, Error::MissingObjectKey(".metadata.namespace"));
}

#[test]
fn cleanup_with_absent_namespace_fails_not_found() {
    let mut c = Cluster::new();
    let a = actor(Some(ActorState::Pending), true, true);
    let err = a.cleanup(&mut c).unwrap_err();
    assert_eq!(err, Error::KubeError(404));
}

#[test]
fn first_reconcile_adds_finalizer() {
    let mut c = Cluster::new();
    let a = actor(Some(ActorState::Pending), false, false);
    c.apply_actor(a.clone());

    let action = reconcile(&a, &mut c).unwrap();

    assert_eq!(action, ReconcileAction::AwaitChange);
    let stored = c.actors.get(&"svc-a".to_string()).unwrap();
    assert!(stored.has_finalizer);
    // The apply step did not run yet: no event, status untouched.
    assert_eq!(c.events.len(), 0);
    assert_eq!(stored.status, Some(ActorState::Pending));
}

#[test]
fn reconcile_with_finalizer_applies() {
    let mut c = Cluster::new();
    let a = actor(Some(ActorState::Pending), false, true);
    c.apply_actor(a.clone());

    let action = reconcile(&a, &mut c).unwrap();

    assert_eq!(action, ReconcileAction::Requeue(120));
    let stored = c.actors.get(&"svc-a".to_string()).unwrap();
    assert_eq!(stored.status, Some(ActorState::Building));
}

#[test]
fn reconcile_of_deleting_actor_cleans_up_and_removes_finalizer() {
    let mut c = Cluster::new();
    c.apply_namespace("demo".to_string(), demo_namespace(Some("Active")));
    let a = actor(Some(ActorState::Building), true, true);
    c.apply_actor(a.clone());

    let action = reconcile(&a, &mut c).unwrap();

    assert_eq!(action, ReconcileAction::AwaitChange);
    let stored = c.actors.get(&"svc-a".to_string()).unwrap();
    assert!(!stored.has_finalizer);
    assert_eq!(c.events[0].message, "Delete Actor `svc-a`");
}

#[test]
fn reconcile_of_deleting_actor_without_finalizer_is_a_no_op() {
    let mut c = Cluster::new();
    let a = actor(Some(ActorState::Building), true, false);
    let action = reconcile(&a, &mut c).unwrap();
    assert_eq!(action, ReconcileAction::AwaitChange);
    assert_eq!(c.events.len(), 0);
}

#[test]
fn reconcile_errors_are_wrapped_as_finalizer_errors() {
    let mut c = Cluster::new();
    // The actor object is absent, so the status patch must fail.
    let a = actor(Some(ActorState::Pending), false, true);
    let err = reconcile(&a, &mut c).unwrap_err();
    assert_eq!(err, Error::FinalizerError(Box::new(Error::KubeError(404))));
}

#[test]
fn error_policy_requeues_after_sixty_seconds() {
    let a = actor(Some(ActorState::Pending), false, true);
    let action = error_policy(&a, &Error::KubeError(500));
    assert_eq!(action, ReconcileAction::Requeue(60));
}
