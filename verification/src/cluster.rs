//! The cluster model: every kind of object the engine reads or writes,
//! plus the trace-event log.
//!
//! The engine holds no authoritative state of its own; the cluster is the
//! single source of truth.  The process around the library keeps a
//! [`Cluster`] value in step with the real cluster API and mirrors the
//! changes the engine makes to it.

use vstd::prelude::*;
use vstd::string::*;

use crate::errors::Error;
use crate::errors::NOT_FOUND;
use crate::registry::Registry;
use crate::types::Actor;
use crate::types::ActorState;
use crate::types::ActorStateView;
use crate::types::ActorView;
use crate::types::Playbook;
use crate::types::PlaybookView;

verus! {

// ---------------------------------------------------------------------------
// Derived object records
// ---------------------------------------------------------------------------

/// Mathematical view of a [`NamespaceRecord`].
#[verifier::ext_equal]
pub struct NamespaceRecordView {
    pub owner: Seq<char>,
    pub labels: Seq<(Seq<char>, Seq<char>)>,
    pub phase: Option<Seq<char>>,
}

/// A namespace object: its owning playbook (owner reference), its labels,
/// and the lifecycle phase that the cluster itself maintains.
#[derive(Clone, Debug, PartialEq)]
pub struct NamespaceRecord {
    pub owner: String,
    pub labels: Vec<(String, String)>,
    pub phase: Option<String>,
}

impl View for NamespaceRecord {
    type V = NamespaceRecordView;

    open spec fn view(&self) -> NamespaceRecordView {
        NamespaceRecordView {
            owner: self.owner@,
            labels: self.labels.deep_view(),
            phase: match self.phase {
                Some(ref p) => Some(p@),
                None => None,
            },
        }
    }
}

impl NamespaceRecord {
    /// A copy whose view is equal to the original's.
    pub fn duplicate(&self) -> (r: NamespaceRecord)
        ensures
            r@ == self@,
    {
        let mut labels: Vec<(String, String)> = Vec::new();
        let mut i: usize = 0;
        while i < self.labels.len()
            invariant
                i <= self.labels.len(),
                labels.len() == i,
                forall|j: int|
                    0 <= j < i ==> labels@[j].0@ == self.labels@[j].0@ && labels@[j].1@
                        == self.labels@[j].1@,
            decreases self.labels.len() - i,
        {
            let key = self.labels[i].0.clone();
            let value = self.labels[i].1.clone();
            labels.push((key, value));
            i += 1;
        }
        let phase = match &self.phase {
            Some(p) => Some(p.clone()),
            None => None,
        };
        let r = NamespaceRecord { owner: self.owner.clone(), labels, phase };
        proof {
            assert(r@.labels =~= self@.labels);
            assert(r@ =~= self@);
        }
        r
    }
}

/// Mathematical view of an [`ImageRecord`].
#[verifier::ext_equal]
pub struct ImageRecordView {
    pub tag: Seq<char>,
    pub builder_name: Seq<char>,
    pub builder_kind: Seq<char>,
    pub service_account: Seq<char>,
    pub git_url: Seq<char>,
    pub git_revision: Seq<char>,
    pub sub_path: Seq<char>,
    pub owner: Option<Seq<char>>,
}

/// An image-build object: the destination tag, the builder it runs under,
/// and the pinned source location.  Re-applying the same record is a
/// no-op for the underlying build system; a changed commit or tag
/// triggers a new build.
#[derive(Clone, Debug, PartialEq)]
pub struct ImageRecord {
    pub tag: String,
    pub builder_name: String,
    pub builder_kind: String,
    pub service_account: String,
    pub git_url: String,
    pub git_revision: String,
    pub sub_path: String,
    pub owner: Option<String>,
}

impl View for ImageRecord {
    type V = ImageRecordView;

    open spec fn view(&self) -> ImageRecordView {
        ImageRecordView {
            tag: self.tag@,
            builder_name: self.builder_name@,
            builder_kind: self.builder_kind@,
            service_account: self.service_account@,
            git_url: self.git_url@,
            git_revision: self.git_revision@,
            sub_path: self.sub_path@,
            owner: match self.owner {
                Some(ref o) => Some(o@),
                None => None,
            },
        }
    }
}

/// Mathematical view of a [`DeploymentRecord`].
#[verifier::ext_equal]
pub struct DeploymentRecordView {
    pub image: Seq<char>,
    pub owner: Seq<char>,
}

/// A deployment object: the container image it runs and the owning actor
/// (owner reference).
#[derive(Clone, Debug, PartialEq)]
pub struct DeploymentRecord {
    pub image: String,
    pub owner: String,
}

impl View for DeploymentRecord {
    type V = DeploymentRecordView;

    open spec fn view(&self) -> DeploymentRecordView {
        DeploymentRecordView { image: self.image@, owner: self.owner@ }
    }
}

/// Mathematical view of a [`TraceEvent`].
#[verifier::ext_equal]
pub struct TraceEventView {
    pub object: Seq<char>,
    pub message: Seq<char>,
}

/// One normal-severity event, attributed to a named object.
#[derive(Clone, Debug, PartialEq)]
pub struct TraceEvent {
    pub object: String,
    pub message: String,
}

impl View for TraceEvent {
    type V = TraceEventView;

    open spec fn view(&self) -> TraceEventView {
        TraceEventView { object: self.object@, message: self.message@ }
    }
}

// ---------------------------------------------------------------------------
// The cluster
// ---------------------------------------------------------------------------

/// Mathematical view of a [`Cluster`].
#[verifier::ext_equal]
pub struct ClusterView {
    pub namespaces: Map<Seq<char>, NamespaceRecordView>,
    pub images: Map<Seq<char>, ImageRecordView>,
    pub deployments: Map<Seq<char>, DeploymentRecordView>,
    pub actors: Map<Seq<char>, ActorView>,
    pub playbooks: Map<Seq<char>, PlaybookView>,
    pub crd_installed: bool,
    pub events: Seq<TraceEventView>,
}

/// Everything the engine reads or writes through the cluster API.
///
/// Each store keys its objects by bare name: the model is one
/// namespace's view of the cluster, the scope a single reconcile works
/// in.  Actors of the same name in different namespaces belong to
/// different `Cluster` values, as they belong to different watch
/// scopes; only the namespace store itself, which is cluster-wide,
/// carries whole-cluster names.
pub struct Cluster {
    pub namespaces: Registry<NamespaceRecord>,
    pub images: Registry<ImageRecord>,
    pub deployments: Registry<DeploymentRecord>,
    pub actors: Registry<Actor>,
    pub playbooks: Registry<Playbook>,
    pub crd_installed: bool,
    pub events: Vec<TraceEvent>,
}

impl View for Cluster {
    type V = ClusterView;

    open spec fn view(&self) -> ClusterView {
        ClusterView {
            namespaces: self.namespaces@,
            images: self.images@,
            deployments: self.deployments@,
            actors: self.actors@,
            playbooks: self.playbooks@,
            crd_installed: self.crd_installed,
            events: self.events@.map_values(|e: TraceEvent| e@),
        }
    }
}

impl Cluster {
    /// The stores of every object kind keep names unique.
    pub open spec fn inv(&self) -> bool {
        &&& self.namespaces.wf()
        &&& self.images.wf()
        &&& self.deployments.wf()
        &&& self.actors.wf()
        &&& self.playbooks.wf()
    }

    /// An empty cluster: no objects, no events, no definitions installed.
    pub fn new() -> (r: Cluster)
        ensures
            r.inv(),
            r@ == empty_cluster_view(),
    {
        let r = Cluster {
            namespaces: Registry::new(),
            images: Registry::new(),
            deployments: Registry::new(),
            actors: Registry::new(),
            playbooks: Registry::new(),
            crd_installed: false,
            events: Vec::new(),
        };
        proof {
            assert(r@ =~= empty_cluster_view());
        }
        r
    }

    /// Put a namespace object in place, or replace the one of the same
    /// name.  This models state the cluster maintains on its own — in
    /// particular a phase, such as `Terminating`, that no composer of
    /// this engine ever writes.
    pub fn apply_namespace(&mut self, name: String, record: NamespaceRecord)
        requires
            old(self).inv(),
        ensures
            final(self).inv(),
            final(self)@ == (ClusterView {
                namespaces: old(self)@.namespaces.insert(name@, record@),
                ..old(self)@
            }),
    {
        self.namespaces.upsert(name, record);
        proof {
            assert(self@ =~= (ClusterView {
                namespaces: old(self)@.namespaces.insert(name@, record@),
                ..old(self)@
            }));
        }
    }

    /// Create the actor custom resource, or replace the one of the same
    /// name.  This models what the external watch sees after a user (or
    /// the resolution layer) has applied an actor.
    pub fn apply_actor(&mut self, actor: Actor)
        requires
            old(self).inv(),
        ensures
            final(self).inv(),
            final(self)@ == (ClusterView {
                actors: old(self)@.actors.insert(actor@.name, actor@),
                ..old(self)@
            }),
    {
        let name = actor.name.clone();
        self.actors.upsert(name, actor);
        proof {
            assert(self@ =~= (ClusterView {
                actors: old(self)@.actors.insert(actor@.name, actor@),
                ..old(self)@
            }));
        }
    }
}

/// The view of [`Cluster::new`]'s result.
pub open spec fn empty_cluster_view() -> ClusterView {
    ClusterView {
        namespaces: Map::empty(),
        images: Map::empty(),
        deployments: Map::empty(),
        actors: Map::empty(),
        playbooks: Map::empty(),
        crd_installed: false,
        events: Seq::empty(),
    }
}

/// The cluster after one more trace event.
pub open spec fn push_event(c: ClusterView, object: Seq<char>, message: Seq<char>) -> ClusterView {
    ClusterView { events: c.events.push(TraceEventView { object, message }), ..c }
}

/// The cluster after an actor's status subresource has been merge-patched.
pub open spec fn patch_actor_status_view(
    c: ClusterView,
    name: Seq<char>,
    status: ActorStateView,
) -> ClusterView
    recommends
        c.actors.contains_key(name),
{
    ClusterView {
        actors: c.actors.insert(name, (ActorView { status: Some(status), ..c.actors[name] })),
        ..c
    }
}

/// The cluster after an actor's finalizer flag has been patched.
pub open spec fn patch_actor_finalizer_view(
    c: ClusterView,
    name: Seq<char>,
    has_finalizer: bool,
) -> ClusterView
    recommends
        c.actors.contains_key(name),
{
    ClusterView {
        actors: c.actors.insert(name, (ActorView { has_finalizer, ..c.actors[name] })),
        ..c
    }
}

proof fn lemma_map_values_push<A, B>(s: Seq<A>, f: spec_fn(A) -> B, x: A)
    ensures
        s.push(x).map_values(f) == s.map_values(f).push(f(x)),
{
    assert(s.push(x).map_values(f) =~= s.map_values(f).push(f(x)));
}

/// Record a normal-severity trace event attributed to `object`.
///
/// In this model event recording always succeeds; the fallible signature
/// mirrors the protocol, in which a recording failure aborts the step
/// that attempted it.
pub fn trace(c: &mut Cluster, object: String, message: String) -> (r: Result<(), Error>)
    requires
        old(c).inv(),
    ensures
        final(c).inv(),
        r is Ok,
        final(c)@ == push_event(old(c)@, object@, message@),
{
    proof {
        lemma_map_values_push(c.events@, |e: TraceEvent| e@, (TraceEvent {
            object: object,
            message: message,
        }));
    }
    c.events.push(TraceEvent { object, message });
    proof {
        assert(final(c)@ =~= push_event(old(c)@, object@, message@));
    }
    Ok(())
}

/// Merge-patch the status subresource of the actor named by `actor`,
/// never touching its spec.  Fails with the cluster's not-found code when
/// the actor object does not exist.
pub fn patch_status(c: &mut Cluster, actor: &Actor, status: ActorState) -> (r: Result<
    (),
    Error,
>)
    requires
        old(c).inv(),
    ensures
        final(c).inv(),
        match r {
            Ok(()) => old(c)@.actors.contains_key(actor@.name) && final(c)@
                == patch_actor_status_view(old(c)@, actor@.name, status@),
            Err(e) => !old(c)@.actors.contains_key(actor@.name) && final(c)@ == old(c)@ && e
                == Error::KubeError(NOT_FOUND),
        },
{
    let existing = match c.actors.get(&actor.name) {
        Some(rec) => Some(rec.duplicate()),
        None => None,
    };
    match existing {
        Some(mut rec) => {
            rec.status = Some(status);
            proof {
                assert(rec@ =~= (ActorView {
                    status: Some(status@),
                    ..old(c)@.actors[actor@.name]
                }));
            }
            c.actors.upsert(actor.name.clone(), rec);
            proof {
                assert(final(c)@ =~= patch_actor_status_view(old(c)@, actor@.name, status@));
            }
            Ok(())
        },
        None => Err(Error::KubeError(NOT_FOUND)),
    }
}

/// Patch the finalizer list of the actor named by `actor`: `value` says
/// whether the engine's finalizer is present afterwards.  Fails with the
/// cluster's not-found code when the actor object does not exist.
pub fn patch_finalizer(c: &mut Cluster, actor: &Actor, value: bool) -> (r: Result<(), Error>)
    requires
        old(c).inv(),
    ensures
        final(c).inv(),
        match r {
            Ok(()) => old(c)@.actors.contains_key(actor@.name) && final(c)@
                == patch_actor_finalizer_view(old(c)@, actor@.name, value),
            Err(e) => !old(c)@.actors.contains_key(actor@.name) && final(c)@ == old(c)@ && e
                == Error::KubeError(NOT_FOUND),
        },
{
    let existing = match c.actors.get(&actor.name) {
        Some(rec) => Some(rec.duplicate()),
        None => None,
    };
    match existing {
        Some(mut rec) => {
            rec.has_finalizer = value;
            proof {
                assert(rec@ =~= (ActorView {
                    has_finalizer: value,
                    ..old(c)@.actors[actor@.name]
                }));
            }
            c.actors.upsert(actor.name.clone(), rec);
            proof {
                assert(final(c)@ =~= patch_actor_finalizer_view(old(c)@, actor@.name, value));
            }
            Ok(())
        },
        None => Err(Error::KubeError(NOT_FOUND)),
    }
}

} // verus!
