//! Deterministic naming, namespace composition, change detection, and
//! the digest itself.

use amp_composer::cluster::Cluster;
use amp_composer::errors::Error;
use amp_composer::namespace;
use amp_composer::naming;
use amp_composer::types::{ActorSpec, Playbook, PlaybookSpec};
use amp_composer::{hash, hash_changed};

fn sample_spec() -> ActorSpec {
    ActorSpec {
        name: "svc-a".to_string(),
        description: String::new(),
        image: "svc-a-image".to_string(),
        repo: "https://example.test/svc-a.git".to_string(),
        path: ".".to_string(),
        reference: "main".to_string(),
        commit: "abc123".to_string(),
        environment: vec![],
        partners: vec![],
    }
}

fn demo_playbook() -> Playbook {
    Playbook {
        name: "demo".to_string(),
        namespace: Some("demo-space".to_string()),
        spec: PlaybookSpec {
            title: "T".to_string(),
            description: "D".to_string(),
            actors: vec![sample_spec()],
        },
        status: None,
    }
}

#[test]
fn derived_names_are_deterministic() {
    let a = sample_spec();
    assert_eq!(naming::kpack_image_name(&a), "svc-a-abc123");
    assert_eq!(
        naming::image_tag(&a),
        "harbor.amp-system.svc.cluster.local/library/svc-a-image:abc123"
    );
    assert_eq!(naming::deployment_name(&a), "svc-a");
    // The same spec yields the same names again.
    assert_eq!(naming::kpack_image_name(&a), naming::kpack_image_name(&a));
}

#[test]
fn well_known_names() {
    assert_eq!(naming::finalizer_name(), "actors.amphitheatre.app/finalizer");
    assert_eq!(
        naming::last_applied_hash_key(),
        "amphitheatre.app/last-applied-hash"
    );
    assert_eq!(naming::controllers_field_manager(), "amp-controllers");
    assert_eq!(naming::composer_field_manager(), "amp-composer");
}

#[test]
fn namespace_create_is_idempotent() {
    let mut c = Cluster::new();
    let pb = demo_playbook();

    let first = namespace::create(&mut c, &pb).unwrap();
    assert_eq!(c.namespaces.len(), 1);
    let second = namespace::create(&mut c, &pb).unwrap();
    assert_eq!(c.namespaces.len(), 1);
    assert_eq!(first, second);

    let stored = c.namespaces.get(&"demo-space".to_string()).unwrap();
    assert_eq!(stored.owner, "demo");
    assert_eq!(
        stored.labels,
        vec![
            (
                "app.kubernetes.io/managed-by".to_string(),
                "Amphitheatre".to_string()
            ),
            ("syncer.amphitheatre.app/sync".to_string(), "true".to_string()),
        ]
    );
    assert_eq!(stored.phase, None);
}

#[test]
fn namespace_create_without_namespace_fails() {
    let mut c = Cluster::new();
    let mut pb = demo_playbook();
    pb.namespace = None;
    let err = namespace::create(&mut c, &pb).unwrap_err();
    assert_eq!(err, Error::MissingObjectKey(".metadata.namespace"));
}

#[test]
fn hash_of_empty_text() {
    assert_eq!(
        hash(""),
        "e3b0c44298fc1c149afbf4c8996fb92427ae41e4649b934ca495991b7852b855"
    );
}

#[test]
fn hash_of_sample_text() {
    assert_eq!(
        hash("hello"),
        "2cf24dba5fb0a30e26e83b2ac5b9e29e1b161e5c1fa7425e73043362938b9824"
    );
    assert_eq!(hash("hello").len(), 64);
}

#[test]
fn hash_detects_change() {
    let current = hash("spec-v2");
    // No recorded annotation: an update is due.
    assert!(hash_changed(None, &current));
    // Stale annotation: an update is due.
    let stale = hash("spec-v1");
    assert!(hash_changed(Some(&stale), &current));
    // Matching annotation: nothing to do.
    let same = hash("spec-v2");
    assert!(!hash_changed(Some(&same), &current));
}

#[test]
fn error_messages_render() {
    let e = Error::FinalizerError(Box::new(Error::KubeError(404)));
    assert_eq!(e.message(), "finalizer step failed: cluster API call failed");
    assert_eq!(
        Error::MissingObjectKey(".metadata.namespace").message(),
        "required object key is missing"
    );
}
