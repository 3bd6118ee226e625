//! End-to-end scenarios: a playbook is created, and one actor walks the
//! whole lifecycle from `Pending` through `Building` to `Running`.

use amp_composer::actor_controller::ReconcileAction;
use amp_composer::cluster::Cluster;
use amp_composer::composer;
use amp_composer::types::{Actor, ActorSpec, ActorState, PlaybookStatus};

fn svc_a() -> ActorSpec {
    ActorSpec {
        name: "svc-a".to_string(),
        description: "a service".to_string(),
        image: "svc-a".to_string(),
        repo: "https://example.test/svc-a.git".to_string(),
        path: ".".to_string(),
        reference: "main".to_string(),
        commit: "abc123".to_string(),
        environment: vec![("PORT".to_string(), "8080".to_string())],
        partners: vec![],
    }
}

fn actor_in(status: Option<ActorState>) -> Actor {
    Actor {
        name: "svc-a".to_string(),
        namespace: Some("demo".to_string()),
        spec: svc_a(),
        status,
        marked_for_deletion: false,
        has_finalizer: true,
    }
}

#[test]
fn scenario_a_create_playbook() {
    let mut c = Cluster::new();
    let created = composer::create(
        &mut c,
        "demo".to_string(),
        "demo".to_string(),
        "T".to_string(),
        "D".to_string(),
    )
    .unwrap();

    assert_eq!(created.spec.title, "T");
    assert_eq!(created.spec.description, "D");
    assert_eq!(created.spec.actors.len(), 1);
    assert_eq!(created.spec.actors[0].name, "amp-example-java");

    assert_eq!(c.playbooks.len(), 1);
    let stored = c.playbooks.get(&"demo".to_string()).unwrap();
    assert_eq!(stored.status, Some(PlaybookStatus::Pending));
    assert_eq!(stored.spec.actors.len(), 1);
    assert_eq!(stored.spec.actors[0].name, "amp-example-java");
    assert_eq!(
        stored.spec.actors[0].commit,
        "875db185acc8bf7c7effc389a350cae7aa926e57"
    );
}

#[test]
fn scenario_b_pending_to_building() {
    let mut c = Cluster::new();
    let actor = actor_in(Some(ActorState::Pending));
    c.apply_actor(actor.clone());

    let action = actor.reconcile(&mut c).unwrap();

    assert_eq!(action, ReconcileAction::Requeue(120));
    let stored = c.actors.get(&"svc-a".to_string()).unwrap();
    assert_eq!(stored.status, Some(ActorState::Building));
    assert_eq!(c.events.len(), 1);
    assert!(c.events[0].message.contains("svc-a"));
    assert_eq!(c.events[0].message, "Building the image for Actor svc-a");
    // No workload objects yet.
    assert_eq!(c.images.len(), 0);
    assert_eq!(c.deployments.len(), 0);
}

#[test]
fn scenario_c_building_creates_image() {
    let mut c = Cluster::new();
    let actor = actor_in(Some(ActorState::Building));
    c.apply_actor(actor.clone());

    let action = actor.reconcile(&mut c).unwrap();

    assert_eq!(action, ReconcileAction::Requeue(120));
    assert_eq!(c.images.len(), 1);
    let image = c.images.get(&"svc-a-abc123".to_string()).unwrap();
    assert_eq!(
        image.tag,
        "harbor.amp-system.svc.cluster.local/library/svc-a:abc123"
    );
    assert_eq!(image.git_url, "https://example.test/svc-a.git");
    assert_eq!(image.git_revision, "abc123");
    assert_eq!(image.builder_name, "amp-default-cluster-builder");

    let stored = c.actors.get(&"svc-a".to_string()).unwrap();
    assert_eq!(
        stored.status,
        Some(ActorState::Running {
            ready: true,
            reason: "AutoRun".to_string(),
            message: None,
        })
    );
    assert_eq!(c.events[0].message, "Create new image: svc-a-abc123");
    assert_eq!(c.events[1].message, "The images builded, Running");
}

#[test]
fn full_lifecycle_from_watch_events() {
    let mut c = Cluster::new();
    let mut a = actor_in(Some(ActorState::Pending));
    a.has_finalizer = false;
    c.apply_actor(a.clone());

    // First watch event: the wrapper only adds the finalizer.
    let action = amp_composer::actor_controller::reconcile(&a, &mut c).unwrap();
    assert_eq!(action, ReconcileAction::AwaitChange);

    // Each following event reconciles the object as the watch now sees it.
    for _ in 0..3 {
        let seen = c.actors.get(&"svc-a".to_string()).unwrap().clone();
        let action = amp_composer::actor_controller::reconcile(&seen, &mut c).unwrap();
        assert_eq!(action, ReconcileAction::Requeue(120));
    }

    // Pending walked to Building to Running, one step per reconcile,
    // and exactly one image and one deployment exist.
    let stored = c.actors.get(&"svc-a".to_string()).unwrap();
    assert!(matches!(stored.status, Some(ActorState::Running { .. })));
    assert_eq!(c.images.len(), 1);
    assert_eq!(c.deployments.len(), 1);
}

#[test]
fn scenario_d_running_updates_existing_deployment() {
    let mut c = Cluster::new();
    // A deployment from an earlier commit already exists under the
    // actor's deterministic name.
    let mut old_spec = svc_a();
    old_spec.commit = "0ld999".to_string();
    let old_actor = Actor {
        spec: old_spec,
        ..actor_in(Some(ActorState::Pending))
    };
    amp_composer::deployment::create(&mut c, &old_actor).unwrap();
    assert_eq!(c.deployments.len(), 1);

    let running = actor_in(Some(ActorState::Running {
        ready: true,
        reason: "AutoRun".to_string(),
        message: None,
    }));
    c.apply_actor(running.clone());

    let action = running.reconcile(&mut c).unwrap();

    assert_eq!(action, ReconcileAction::Requeue(120));
    // Still exactly one deployment, its content reflecting the new spec.
    assert_eq!(c.deployments.len(), 1);
    let dep = c.deployments.get(&"svc-a".to_string()).unwrap();
    assert_eq!(
        dep.image,
        "harbor.amp-system.svc.cluster.local/library/svc-a:abc123"
    );
    // The update branch was taken.
    assert_eq!(
        c.events[1].message,
        "Deployment svc-a already exists, update it if there are new changes"
    );
}
