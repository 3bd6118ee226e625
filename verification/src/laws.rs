//! The laws of the engine: what holds of every actor, playbook and
//! cluster, proved once and for all over the same transition functions
//! that the executable functions' contracts are stated with.

use vstd::prelude::*;

use crate::actor_controller::apply_succeeds;
use crate::actor_controller::apply_transition;
use crate::actor_controller::cleanup_state;
use crate::actor_controller::cleanup_succeeds;
use crate::actor_controller::namespace_terminating;
use crate::cluster::ClusterView;
use crate::composer::installed;
use crate::composer::uninstalled;
use crate::namespace::with_namespace;
use crate::naming::image_exists_message_view;
use crate::naming::kpack_image_name_view;
use crate::types::ActorStateView;
use crate::types::ActorView;
use crate::types::PlaybookView;

verus! {

/// A reconcile starting in `Pending` transitions to `Building` — never
/// past it — and creates no workload objects: images and deployments
/// are exactly what they were.  The step succeeds, so by the contract
/// of `Actor::reconcile` its result is `Ok` with the two-minute
/// requeue, and the stored status is patched to `Building`.
pub proof fn lemma_pending_reconciles_to_building(a: ActorView, c: ClusterView)
    requires
        a.status == Some(ActorStateView::Pending),
        c.actors.contains_key(a.name),
    ensures
        apply_succeeds(a, c),
        apply_transition(a, c).actors.contains_key(a.name),
        apply_transition(a, c).actors[a.name].status == Some(ActorStateView::Building),
        apply_transition(a, c).images == c.images,
        apply_transition(a, c).deployments == c.deployments,
{
}

/// Transitions are strictly forward and one step at a time: a reconcile
/// moves `Pending` to `Building` and `Building` to `Running`; an actor
/// in `Running`, or one with no status yet, keeps its recorded status.
pub proof fn lemma_transitions_are_forward(a: ActorView, c: ClusterView)
    requires
        apply_succeeds(a, c),
        c.actors.contains_key(a.name),
    ensures
        a.status == Some(ActorStateView::Pending) ==> apply_transition(a, c).actors[a.name].status
            == Some(ActorStateView::Building),
        a.status == Some(ActorStateView::Building) ==> apply_transition(a, c).actors[a.name].status
            matches Some(ActorStateView::Running { .. }),
        (a.status matches Some(ActorStateView::Running { .. }) || a.status is None)
            ==> apply_transition(a, c).actors[a.name].status == c.actors[a.name].status,
{
}

/// Reconciling an actor in `Building` twice in a row, with no external
/// change in between, does not create a second image object: after the
/// first reconcile the image exists — so the second takes the update
/// branch — and the image objects after the second reconcile are
/// exactly those after the first.
pub proof fn lemma_build_idempotent(a: ActorView, c: ClusterView)
    requires
        a.status == Some(ActorStateView::Building),
    ensures
        apply_transition(a, c).images.contains_key(kpack_image_name_view(a.spec)),
        apply_transition(a, apply_transition(a, c)).images == apply_transition(a, c).images,
        apply_transition(a, apply_transition(a, c)).events[apply_transition(
            a,
            c,
        ).events.len() as int].message == image_exists_message_view(a.spec),
{
    assert(apply_transition(a, apply_transition(a, c)).images =~= apply_transition(
        a,
        c,
    ).images);
}

/// Reconciling an actor in `Running` never fails, and doing it twice in
/// a row yields the same deployments as doing it once: re-applying the
/// same deployment spec adds no object.
pub proof fn lemma_run_idempotent(a: ActorView, c: ClusterView)
    requires
        a.status matches Some(ActorStateView::Running { .. }),
    ensures
        apply_succeeds(a, c),
        apply_transition(a, c).deployments.contains_key(a.spec.name),
        apply_transition(a, apply_transition(a, c)).deployments == apply_transition(
            a,
            c,
        ).deployments,
{
    assert(apply_transition(a, apply_transition(a, c)).deployments =~= apply_transition(
        a,
        c,
    ).deployments);
}

/// Applying the same playbook's namespace twice yields exactly the
/// cluster of applying it once: one namespace, identical content.
pub proof fn lemma_namespace_apply_idempotent(p: PlaybookView, c: ClusterView, ns: Seq<char>)
    ensures
        with_namespace(with_namespace(c, ns, p), ns, p) == with_namespace(c, ns, p),
{
    assert(with_namespace(with_namespace(c, ns, p), ns, p).namespaces =~= with_namespace(
        c,
        ns,
        p,
    ).namespaces);
    assert(with_namespace(with_namespace(c, ns, p), ns, p) =~= with_namespace(c, ns, p));
}

/// Cleanup never deletes anything itself: every object store is left
/// exactly as it was, and while the owning namespace is terminating the
/// cluster is not touched at all.  Deletion of derived objects is the
/// owner-reference cascade's job.
pub proof fn lemma_cleanup_never_deletes(a: ActorView, c: ClusterView)
    requires
        cleanup_succeeds(a, c),
    ensures
        cleanup_state(a, c).namespaces == c.namespaces,
        cleanup_state(a, c).images == c.images,
        cleanup_state(a, c).deployments == c.deployments,
        cleanup_state(a, c).actors == c.actors,
        cleanup_state(a, c).playbooks == c.playbooks,
        namespace_terminating(c, a.namespace->0) ==> cleanup_state(a, c) == c,
{
}

/// Installing the custom resource definition twice leaves the cluster
/// exactly as installing it once: the second call observes a conflict
/// and succeeds without change.  Deleting is idempotent the same way:
/// the second delete finds nothing and succeeds without change.
pub proof fn lemma_install_idempotent(c: ClusterView)
    ensures
        installed(installed(c)) == installed(c),
        uninstalled(uninstalled(c)) == uninstalled(c),
{
    assert(installed(installed(c)) =~= installed(c));
    assert(uninstalled(uninstalled(c)) =~= uninstalled(c));
}

} // verus!
