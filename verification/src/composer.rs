//! The playbook composer: the entry points used outside the watch loop,
//! on user-initiated actions — installing the custom resource
//! definition, creating a playbook, patching its status, seeding an
//! image build, and appending an actor.

use vstd::prelude::*;
use vstd::string::*;

use crate::cluster::Cluster;
use crate::cluster::ClusterView;
use crate::cluster::ImageRecord;
use crate::cluster::ImageRecordView;
use crate::errors::CONFLICT;
use crate::errors::Error;
use crate::errors::NOT_FOUND;
use crate::naming::image_tag;
use crate::naming::image_tag_view;
use crate::naming::kpack_image_name;
use crate::naming::kpack_image_name_view;
use crate::types::ActorSpec;
use crate::types::ActorSpecView;
use crate::types::Playbook;
use crate::types::PlaybookSpec;
use crate::types::PlaybookSpecView;
use crate::types::PlaybookStatus;
use crate::types::PlaybookView;

verus! {

// ---------------------------------------------------------------------------
// Custom resource definition bootstrap
// ---------------------------------------------------------------------------

/// The cluster with the playbook custom resource definition installed.
pub open spec fn installed(c: ClusterView) -> ClusterView {
    ClusterView { crd_installed: true, ..c }
}

/// Install the playbook custom resource definition.  A conflict — the
/// definition already exists — counts as success, which is what makes
/// installing idempotent.
pub fn install(c: &mut Cluster) -> (r: Result<(), Error>)
    requires
        old(c).inv(),
    ensures
        final(c).inv(),
        r is Ok,
        final(c)@ == installed(old(c)@),
{
    c.crd_installed = true;
    proof {
        assert(final(c)@ =~= installed(old(c)@));
    }
    Ok(())
}

/// The cluster with the playbook custom resource definition removed.
pub open spec fn uninstalled(c: ClusterView) -> ClusterView {
    ClusterView { crd_installed: false, ..c }
}

/// Delete the playbook custom resource definition.  Deleting is
/// idempotent: a definition that is already absent counts as deleted,
/// and the delete call's not-found answer is ignored.
pub fn uninstall(c: &mut Cluster) -> (r: Result<(), Error>)
    requires
        old(c).inv(),
    ensures
        final(c).inv(),
        r is Ok,
        final(c)@ == uninstalled(old(c)@),
{
    c.crd_installed = false;
    proof {
        assert(final(c)@ =~= uninstalled(old(c)@));
    }
    Ok(())
}

// ---------------------------------------------------------------------------
// The seeded example actor
// ---------------------------------------------------------------------------

/// The one example actor every fresh playbook is seeded with.
pub open spec fn example_actor_view() -> ActorSpecView {
    ActorSpecView {
        name: "amp-example-java"@,
        description: "A simple Java example app"@,
        image: "amp-example-java"@,
        repo: "https://github.com/amphitheatre-app/amp-example-java"@,
        path: "."@,
        reference: "master"@,
        commit: "875db185acc8bf7c7effc389a350cae7aa926e57"@,
        environment: Seq::empty(),
        partners: seq!["https://github.com/amphitheatre-app/amp-example-nodejs.git"@],
    }
}

/// Build the seeded example actor.
pub fn example_actor() -> (r: ActorSpec)
    ensures
        r@ == example_actor_view(),
{
    let mut partners: Vec<String> = Vec::new();
    partners.push(String::from_str("https://github.com/amphitheatre-app/amp-example-nodejs.git"));
    let r = ActorSpec {
        name: String::from_str("amp-example-java"),
        description: String::from_str("A simple Java example app"),
        image: String::from_str("amp-example-java"),
        repo: String::from_str("https://github.com/amphitheatre-app/amp-example-java"),
        path: String::from_str("."),
        reference: String::from_str("master"),
        commit: String::from_str("875db185acc8bf7c7effc389a350cae7aa926e57"),
        environment: Vec::new(),
        partners,
    };
    proof {
        assert(r@.environment =~= example_actor_view().environment);
        assert(r@.partners =~= example_actor_view().partners);
        assert(r@ =~= example_actor_view());
    }
    r
}

// ---------------------------------------------------------------------------
// Playbook creation and status
// ---------------------------------------------------------------------------

/// The playbook object as `create` persists it, before the status patch.
pub open spec fn created_playbook_view(
    namespace: Seq<char>,
    name: Seq<char>,
    title: Seq<char>,
    description: Seq<char>,
) -> PlaybookView {
    PlaybookView {
        name,
        namespace: Some(namespace),
        spec: PlaybookSpecView { title, description, actors: seq![example_actor_view()] },
        status: None,
    }
}

/// The cluster after a playbook's status has been merge-patched.
pub open spec fn patch_playbook_status_view(
    c: ClusterView,
    name: Seq<char>,
    status: PlaybookStatus,
) -> ClusterView
    recommends
        c.playbooks.contains_key(name),
{
    ClusterView {
        playbooks: c.playbooks.insert(
            name,
            (PlaybookView { status: Some(status), ..c.playbooks[name] }),
        ),
        ..c
    }
}

/// Construct a playbook seeded with the example actor, persist it, then
/// patch its status to `Pending`.  Returns the persisted object as it
/// was created, before the status patch.  Fails with the cluster's
/// conflict code when a playbook of that name already exists.
pub fn create(
    c: &mut Cluster,
    namespace: String,
    name: String,
    title: String,
    description: String,
) -> (r: Result<Playbook, Error>)
    requires
        old(c).inv(),
    ensures
        final(c).inv(),
        match r {
            Ok(pb) => !old(c)@.playbooks.contains_key(name@) && pb@ == created_playbook_view(
                namespace@,
                name@,
                title@,
                description@,
            ) && final(c)@ == (ClusterView {
                playbooks: old(c)@.playbooks.insert(
                    name@,
                    (PlaybookView {
                        status: Some(PlaybookStatus::Pending),
                        ..created_playbook_view(namespace@, name@, title@, description@)
                    }),
                ),
                ..old(c)@
            }),
            Err(e) => old(c)@.playbooks.contains_key(name@) && final(c)@ == old(c)@ && e
                == Error::KubeError(CONFLICT),
        },
{
    if c.playbooks.contains(&name) {
        return Err(Error::KubeError(CONFLICT));
    }
    let mut actors: Vec<ActorSpec> = Vec::new();
    actors.push(example_actor());
    let playbook = Playbook {
        name: name.clone(),
        namespace: Some(namespace),
        spec: PlaybookSpec { title, description, actors },
        status: None,
    };
    proof {
        assert(playbook@.spec.actors =~= seq![example_actor_view()]);
        assert(playbook@ =~= created_playbook_view(
            playbook@.namespace->0,
            name@,
            playbook@.spec.title,
            playbook@.spec.description,
        ));
    }
    let stored = playbook.duplicate();
    c.playbooks.upsert(name.clone(), stored);
    let patched = status(c, &playbook, PlaybookStatus::Pending);
    proof {
        assert(final(c)@.playbooks =~= old(c)@.playbooks.insert(
            name@,
            (PlaybookView { status: Some(PlaybookStatus::Pending), ..playbook@ }),
        ));
        assert(final(c)@ =~= (ClusterView {
            playbooks: old(c)@.playbooks.insert(
                name@,
                (PlaybookView { status: Some(PlaybookStatus::Pending), ..playbook@ }),
            ),
            ..old(c)@
        }));
    }
    match patched {
        Ok(()) => Ok(playbook),
        Err(e) => Err(e),
    }
}

/// Merge-patch a playbook's status field, never touching its spec.
/// Fails when the playbook carries no namespace, or with the cluster's
/// not-found code when no playbook of that name exists.
pub fn status(c: &mut Cluster, playbook: &Playbook, state: PlaybookStatus) -> (r: Result<
    (),
    Error,
>)
    requires
        old(c).inv(),
    ensures
        final(c).inv(),
        match r {
            Ok(()) => playbook@.namespace is Some && old(c)@.playbooks.contains_key(
                playbook@.name,
            ) && final(c)@ == patch_playbook_status_view(old(c)@, playbook@.name, state),
            Err(e) => final(c)@ == old(c)@ && (match playbook@.namespace {
                None => e matches Error::MissingObjectKey(k) && k@ == ".metadata.namespace"@,
                Some(_) => !old(c)@.playbooks.contains_key(playbook@.name) && e
                    == Error::KubeError(NOT_FOUND),
            }),
        },
{
    if playbook.namespace.is_none() {
        return Err(Error::MissingObjectKey(".metadata.namespace"));
    }
    let existing = match c.playbooks.get(&playbook.name) {
        Some(rec) => Some(rec.duplicate()),
        None => None,
    };
    match existing {
        Some(mut rec) => {
            rec.status = Some(state);
            proof {
                assert(rec@ =~= (PlaybookView {
                    status: Some(state),
                    ..old(c)@.playbooks[playbook@.name]
                }));
            }
            c.playbooks.upsert(playbook.name.clone(), rec);
            proof {
                assert(final(c)@ =~= patch_playbook_status_view(old(c)@, playbook@.name, state));
            }
            Ok(())
        },
        None => Err(Error::KubeError(NOT_FOUND)),
    }
}

// ---------------------------------------------------------------------------
// Out-of-band image builds and actor addition
// ---------------------------------------------------------------------------

/// The image-build record the composer path creates for an actor spec:
/// as the actor controller's, but with no owning actor object yet.
pub open spec fn composed_image_record_view(a: ActorSpecView) -> ImageRecordView {
    ImageRecordView {
        tag: image_tag_view(a),
        builder_name: "amp-default-cluster-builder"@,
        builder_kind: "ClusterBuilder"@,
        service_account: "default"@,
        git_url: a.repo,
        git_revision: a.commit,
        sub_path: a.path,
        owner: None,
    }
}

/// Create the image-build object for one of a playbook's actors
/// directly, outside the actor reconcile path.  Fails when the playbook
/// carries no namespace, or with the cluster's conflict code when the
/// image object already exists.
pub fn build(c: &mut Cluster, playbook: &Playbook, actor: &ActorSpec) -> (r: Result<(), Error>)
    requires
        old(c).inv(),
    ensures
        final(c).inv(),
        match r {
            Ok(()) => playbook@.namespace is Some && !old(c)@.images.contains_key(
                kpack_image_name_view(actor@),
            ) && final(c)@ == (ClusterView {
                images: old(c)@.images.insert(
                    kpack_image_name_view(actor@),
                    composed_image_record_view(actor@),
                ),
                ..old(c)@
            }),
            Err(e) => final(c)@ == old(c)@ && (match playbook@.namespace {
                None => e matches Error::MissingObjectKey(k) && k@ == ".metadata.namespace"@,
                Some(_) => old(c)@.images.contains_key(kpack_image_name_view(actor@)) && e
                    == Error::KubeError(CONFLICT),
            }),
        },
{
    if playbook.namespace.is_none() {
        return Err(Error::MissingObjectKey(".metadata.namespace"));
    }
    let name = kpack_image_name(actor);
    if c.images.contains(&name) {
        return Err(Error::KubeError(CONFLICT));
    }
    let record = ImageRecord {
        tag: image_tag(actor),
        builder_name: String::from_str("amp-default-cluster-builder"),
        builder_kind: String::from_str("ClusterBuilder"),
        service_account: String::from_str("default"),
        git_url: actor.repo.clone(),
        git_revision: actor.commit.clone(),
        sub_path: actor.path.clone(),
        owner: None,
    };
    proof {
        assert(record@ =~= composed_image_record_view(actor@));
    }
    c.images.upsert(name, record);
    proof {
        assert(final(c)@ =~= (ClusterView {
            images: old(c)@.images.insert(
                kpack_image_name_view(actor@),
                composed_image_record_view(actor@),
            ),
            ..old(c)@
        }));
    }
    Ok(())
}

/// The cluster after a playbook's actor list has been merge-patched.
pub open spec fn patch_playbook_actors_view(
    c: ClusterView,
    name: Seq<char>,
    actors: Seq<ActorSpecView>,
) -> ClusterView
    recommends
        c.playbooks.contains_key(name),
{
    ClusterView {
        playbooks: c.playbooks.insert(
            name,
            (PlaybookView {
                spec: (PlaybookSpecView { actors, ..c.playbooks[name].spec }),
                ..c.playbooks[name]
            }),
        ),
        ..c
    }
}

/// Append one actor to a playbook's actor list: the stored list becomes
/// the caller's snapshot of the list with `actor` appended.  Fails when
/// the playbook carries no namespace, or with the cluster's not-found
/// code when no playbook of that name exists.
pub fn add(c: &mut Cluster, playbook: &Playbook, actor: ActorSpec) -> (r: Result<(), Error>)
    requires
        old(c).inv(),
    ensures
        final(c).inv(),
        match r {
            Ok(()) => playbook@.namespace is Some && old(c)@.playbooks.contains_key(
                playbook@.name,
            ) && final(c)@ == patch_playbook_actors_view(
                old(c)@,
                playbook@.name,
                playbook@.spec.actors.push(actor@),
            ),
            Err(e) => final(c)@ == old(c)@ && (match playbook@.namespace {
                None => e matches Error::MissingObjectKey(k) && k@ == ".metadata.namespace"@,
                Some(_) => !old(c)@.playbooks.contains_key(playbook@.name) && e
                    == Error::KubeError(NOT_FOUND),
            }),
        },
{
    if playbook.namespace.is_none() {
        return Err(Error::MissingObjectKey(".metadata.namespace"));
    }
    let existing = match c.playbooks.get(&playbook.name) {
        Some(rec) => Some(rec.duplicate()),
        None => None,
    };
    match existing {
        Some(mut rec) => {
            let mut actors = playbook.spec.duplicate().actors;
            actors.push(actor);
            proof {
                assert(actors.deep_view() =~= playbook@.spec.actors.push(actor@));
            }
            rec.spec.actors = actors;
            proof {
                assert(rec@ =~= (PlaybookView {
                    spec: (PlaybookSpecView {
                        actors: playbook@.spec.actors.push(actor@),
                        ..old(c)@.playbooks[playbook@.name].spec
                    }),
                    ..old(c)@.playbooks[playbook@.name]
                }));
            }
            c.playbooks.upsert(playbook.name.clone(), rec);
            proof {
                assert(final(c)@ =~= patch_playbook_actors_view(
                    old(c)@,
                    playbook@.name,
                    playbook@.spec.actors.push(actor@),
                ));
            }
            Ok(())
        },
        None => Err(Error::KubeError(NOT_FOUND)),
    }
}

} // verus!
