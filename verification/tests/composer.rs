//! The playbook composer: definition install, playbook creation, status
//! patches, seeded builds, and actor addition.

use amp_composer::cluster::Cluster;
use amp_composer::composer::{add, build, create, example_actor, install, status, uninstall};
use amp_composer::errors::Error;
use amp_composer::types::{ActorSpec, Playbook, PlaybookSpec, PlaybookStatus};

fn extra_actor() -> ActorSpec {
    ActorSpec {
        name: "svc-b".to_string(),
        description: "second actor".to_string(),
        image: "svc-b".to_string(),
        repo: "https://example.test/svc-b.git".to_string(),
        path: "services/b".to_string(),
        reference: "main".to_string(),
        commit: "fff000".to_string(),
        environment: vec![("MODE".to_string(), "prod".to_string())],
        partners: vec!["https://example.test/svc-a.git".to_string()],
    }
}

#[test]
fn install_is_idempotent() {
    let mut c = Cluster::new();
    install(&mut c).unwrap();
    assert!(c.crd_installed);
    // The second call observes the existing definition and succeeds.
    install(&mut c).unwrap();
    assert!(c.crd_installed);
}

#[test]
fn uninstall_removes_the_definition() {
    let mut c = Cluster::new();
    install(&mut c).unwrap();
    uninstall(&mut c).unwrap();
    assert!(!c.crd_installed);
}

#[test]
fn uninstall_is_idempotent() {
    let mut c = Cluster::new();
    install(&mut c).unwrap();
    uninstall(&mut c).unwrap();
    // The second delete finds nothing and still succeeds.
    uninstall(&mut c).unwrap();
    assert!(!c.crd_installed);
    // So does a delete before any install.
    let mut fresh = Cluster::new();
    uninstall(&mut fresh).unwrap();
    assert!(!fresh.crd_installed);
}

#[test]
fn create_seeds_the_example_actor() {
    let seeded = example_actor();
    assert_eq!(seeded.name, "amp-example-java");
    assert_eq!(seeded.description, "A simple Java example app");
    assert_eq!(seeded.repo, "https://github.com/amphitheatre-app/amp-example-java");
    assert_eq!(seeded.reference, "master");
    assert_eq!(
        seeded.partners,
        vec!["https://github.com/amphitheatre-app/amp-example-nodejs.git".to_string()]
    );
}

#[test]
fn create_twice_conflicts() {
    let mut c = Cluster::new();
    create(
        &mut c,
        "demo".to_string(),
        "demo".to_string(),
        "T".to_string(),
        "D".to_string(),
    )
    .unwrap();
    let err = create(
        &mut c,
        "demo".to_string(),
        "demo".to_string(),
        "T".to_string(),
        "D".to_string(),
    )
    .unwrap_err();
    assert_eq!(err, Error::KubeError(409));
    assert_eq!(c.playbooks.len(), 1);
}

#[test]
fn status_patches_only_the_status() {
    let mut c = Cluster::new();
    let pb = create(
        &mut c,
        "demo".to_string(),
        "demo".to_string(),
        "T".to_string(),
        "D".to_string(),
    )
    .unwrap();
    status(&mut c, &pb, PlaybookStatus::Running).unwrap();
    let stored = c.playbooks.get(&"demo".to_string()).unwrap();
    assert_eq!(stored.status, Some(PlaybookStatus::Running));
    assert_eq!(stored.spec.title, "T");
}

#[test]
fn status_without_namespace_fails() {
    let mut c = Cluster::new();
    let pb = Playbook {
        name: "demo".to_string(),
        namespace: None,
        spec: PlaybookSpec {
            title: "T".to_string(),
            description: "D".to_string(),
            actors: vec![],
        },
        status: None,
    };
    let err = status(&mut c, &pb, PlaybookStatus::Pending).unwrap_err();
    assert_eq!(err, Error::MissingObjectKey(".metadata.namespace"));
}

#[test]
fn status_of_missing_playbook_fails_not_found() {
    let mut c = Cluster::new();
    let pb = Playbook {
        name: "ghost".to_string(),
        namespace: Some("demo".to_string()),
        spec: PlaybookSpec {
            title: "T".to_string(),
            description: "D".to_string(),
            actors: vec![],
        },
        status: None,
    };
    let err = status(&mut c, &pb, PlaybookStatus::Pending).unwrap_err();
    assert_eq!(err, Error::KubeError(404));
}

#[test]
fn build_creates_the_image_object() {
    let mut c = Cluster::new();
    let pb = create(
        &mut c,
        "demo".to_string(),
        "demo".to_string(),
        "T".to_string(),
        "D".to_string(),
    )
    .unwrap();
    let actor = extra_actor();
    build(&mut c, &pb, &actor).unwrap();

    let image = c.images.get(&"svc-b-fff000".to_string()).unwrap();
    assert_eq!(
        image.tag,
        "harbor.amp-system.svc.cluster.local/library/svc-b:fff000"
    );
    assert_eq!(image.git_url, "https://example.test/svc-b.git");
    assert_eq!(image.git_revision, "fff000");
    assert_eq!(image.sub_path, "services/b");
    assert_eq!(image.builder_kind, "ClusterBuilder");
    assert_eq!(image.service_account, "default");
    assert_eq!(image.owner, None);
}

#[test]
fn build_of_existing_image_conflicts() {
    let mut c = Cluster::new();
    let pb = create(
        &mut c,
        "demo".to_string(),
        "demo".to_string(),
        "T".to_string(),
        "D".to_string(),
    )
    .unwrap();
    let actor = extra_actor();
    build(&mut c, &pb, &actor).unwrap();
    let err = build(&mut c, &pb, &actor).unwrap_err();
    assert_eq!(err, Error::KubeError(409));
    assert_eq!(c.images.len(), 1);
}

#[test]
fn add_appends_an_actor() {
    let mut c = Cluster::new();
    let pb = create(
        &mut c,
        "demo".to_string(),
        "demo".to_string(),
        "T".to_string(),
        "D".to_string(),
    )
    .unwrap();
    add(&mut c, &pb, extra_actor()).unwrap();

    let stored = c.playbooks.get(&"demo".to_string()).unwrap();
    assert_eq!(stored.spec.actors.len(), 2);
    assert_eq!(stored.spec.actors[0].name, "amp-example-java");
    assert_eq!(stored.spec.actors[1].name, "svc-b");
    // The status patched earlier is untouched by the actor patch.
    assert_eq!(stored.status, Some(PlaybookStatus::Pending));
}

#[test]
fn add_to_missing_playbook_fails_not_found() {
    let mut c = Cluster::new();
    let pb = Playbook {
        name: "ghost".to_string(),
        namespace: Some("demo".to_string()),
        spec: PlaybookSpec {
            title: "T".to_string(),
            description: "D".to_string(),
            actors: vec![],
        },
        status: None,
    };
    let err = add(&mut c, &pb, extra_actor()).unwrap_err();
    assert_eq!(err, Error::KubeError(404));
}
