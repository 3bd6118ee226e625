//! The actor lifecycle state machine and the finalizer-wrapped reconcile
//! entry point.
//!
//! Every transition is re-entrant: reconcile may run arbitrarily many
//! times for the same object in the same state, and each branch is a
//! no-op or a safe idempotent patch when nothing has changed.

use vstd::prelude::*;

use crate::cluster::Cluster;
use crate::cluster::ClusterView;
use crate::cluster::patch_actor_finalizer_view;
use crate::cluster::patch_actor_status_view;
use crate::cluster::patch_finalizer;
use crate::cluster::patch_status;
use crate::cluster::push_event;
use crate::cluster::trace;
use crate::deployment;
use crate::deployment::with_deployment;
use crate::errors::Error;
use crate::errors::NOT_FOUND;
use crate::image;
use crate::image::with_image;
use crate::naming::cleanup_message;
use crate::naming::cleanup_message_view;
use crate::naming::deploy_message;
use crate::naming::deploy_message_view;
use crate::naming::deployment_create_message;
use crate::naming::deployment_create_message_view;
use crate::naming::deployment_exists_message;
use crate::naming::deployment_exists_message_view;
use crate::naming::deployment_name_view;
use crate::naming::image_create_message;
use crate::naming::image_create_message_view;
use crate::naming::image_exists_message;
use crate::naming::image_exists_message_view;
use crate::naming::images_built_message;
use crate::naming::images_built_message_view;
use crate::naming::init_message;
use crate::naming::init_message_view;
use crate::naming::kpack_image_name_view;
use crate::types::Actor;
use crate::types::ActorState;
use crate::types::ActorStateView;
use crate::types::ActorView;

verus! {

/// Seconds until the scheduled re-check after a successful reconcile:
/// the system is level-triggered, so drift is corrected even without a
/// new event.
pub const REQUEUE_SECS: u64 = 120;

/// Seconds until the retry after a failed reconcile: every error is
/// handled by the same fixed-delay requeue.
pub const ERROR_REQUEUE_SECS: u64 = 60;

/// What the reconciler asks the watch runtime to do next.
#[derive(Clone, Copy, Debug, PartialEq, Eq, Structural)]
pub enum ReconcileAction {
    /// Reconcile again after this many seconds.
    Requeue(u64),
    /// Wait until the object changes.
    AwaitChange,
}

/// The optimistic `Running` condition patched right after a build has
/// been submitted.
pub open spec fn auto_run_state_view() -> ActorStateView {
    ActorStateView::Running { ready: true, reason: "AutoRun"@, message: None }
}

// ---------------------------------------------------------------------------
// Transition functions of the state machine, at the view level
// ---------------------------------------------------------------------------

/// `Pending` to `Building`: an event is recorded and the status patched;
/// no workload objects exist yet, none are created.
pub open spec fn after_init(a: ActorView, c: ClusterView) -> ClusterView {
    patch_actor_status_view(
        push_event(c, a.name, init_message_view(a.name)),
        a.name,
        ActorStateView::Building,
    )
}

/// The object changes of the `Building` step: the image-build object is
/// created or updated under its deterministic name, with an event for
/// the branch taken and one for the submitted build.
pub open spec fn build_objects(a: ActorView, c: ClusterView) -> ClusterView {
    let existed = c.images.contains_key(kpack_image_name_view(a.spec));
    let c1 = push_event(
        c,
        a.name,
        if existed {
            image_exists_message_view(a.spec)
        } else {
            image_create_message_view(a.spec)
        },
    );
    let c2 = with_image(c1, a);
    push_event(c2, a.name, images_built_message_view())
}

/// `Building` to `Running`: the image-build object is applied and the
/// status optimistically patched to `Running`; readiness of the build
/// itself is watched elsewhere.
pub open spec fn after_build(a: ActorView, c: ClusterView) -> ClusterView {
    patch_actor_status_view(build_objects(a, c), a.name, auto_run_state_view())
}

/// `Running` re-entered: the deployment is created or updated under its
/// deterministic name; no further status transition occurs.
pub open spec fn after_run(a: ActorView, c: ClusterView) -> ClusterView {
    let c1 = push_event(c, a.name, deploy_message_view(a.name));
    let existed = c.deployments.contains_key(deployment_name_view(a.spec));
    let c2 = push_event(
        c1,
        a.name,
        if existed {
            deployment_exists_message_view(a.spec)
        } else {
            deployment_create_message_view(a.spec)
        },
    );
    with_deployment(c2, a)
}

/// The cluster after one apply-reconcile of `a`, by `a`'s status.
pub open spec fn apply_transition(a: ActorView, c: ClusterView) -> ClusterView {
    match a.status {
        None => c,
        Some(ActorStateView::Pending) => after_init(a, c),
        Some(ActorStateView::Building) => after_build(a, c),
        Some(ActorStateView::Running { .. }) => after_run(a, c),
    }
}

/// An apply-reconcile succeeds unless it must patch the status of an
/// actor object that does not exist.
pub open spec fn apply_succeeds(a: ActorView, c: ClusterView) -> bool {
    match a.status {
        None => true,
        Some(ActorStateView::Pending) => c.actors.contains_key(a.name),
        Some(ActorStateView::Building) => c.actors.contains_key(a.name),
        Some(ActorStateView::Running { .. }) => true,
    }
}

/// The cluster a failed apply-reconcile leaves behind: the work done
/// before the failing status patch remains.
pub open spec fn apply_failed_state(a: ActorView, c: ClusterView) -> ClusterView {
    match a.status {
        Some(ActorStateView::Pending) => push_event(c, a.name, init_message_view(a.name)),
        Some(ActorStateView::Building) => build_objects(a, c),
        _ => c,
    }
}

// ---------------------------------------------------------------------------
// Cleanup, at the view level
// ---------------------------------------------------------------------------

/// Whether the namespace is in its terminating phase.
pub open spec fn namespace_terminating(c: ClusterView, ns: Seq<char>) -> bool
    recommends
        c.namespaces.contains_key(ns),
{
    c.namespaces[ns].phase matches Some(p) && p == "Terminating"@
}

/// Cleanup succeeds whenever the actor names a namespace that exists.
pub open spec fn cleanup_succeeds(a: ActorView, c: ClusterView) -> bool {
    a.namespace matches Some(ns) && c.namespaces.contains_key(ns)
}

/// The error a failed cleanup reports.
pub open spec fn cleanup_error(a: ActorView, c: ClusterView, e: Error) -> bool {
    match a.namespace {
        None => e matches Error::MissingObjectKey(k) && k@ == ".metadata.namespace"@,
        Some(ns) => !c.namespaces.contains_key(ns) && e == Error::KubeError(NOT_FOUND),
    }
}

/// The cluster after a successful cleanup: nothing is ever deleted
/// here — deletion is left to the owner-reference cascade — and while
/// the owning namespace is terminating not even an event is recorded.
pub open spec fn cleanup_state(a: ActorView, c: ClusterView) -> ClusterView
    recommends
        cleanup_succeeds(a, c),
{
    if namespace_terminating(c, a.namespace->0) {
        c
    } else {
        push_event(c, a.name, cleanup_message_view(a.name))
    }
}

// ---------------------------------------------------------------------------
// The state machine, executable
// ---------------------------------------------------------------------------

impl Actor {
    /// One apply-reconcile: dispatch on the current status and perform
    /// that state's idempotent step, then ask for a re-check.
    pub fn reconcile(&self, c: &mut Cluster) -> (r: Result<ReconcileAction, Error>)
        requires
            old(c).inv(),
        ensures
            final(c).inv(),
            match r {
                Ok(action) => action == ReconcileAction::Requeue(REQUEUE_SECS) && apply_succeeds(
                    self@,
                    old(c)@,
                ) && final(c)@ == apply_transition(self@, old(c)@),
                Err(e) => !apply_succeeds(self@, old(c)@) && final(c)@ == apply_failed_state(
                    self@,
                    old(c)@,
                ) && e == Error::KubeError(NOT_FOUND),
            },
    {
        if let Some(status) = &self.status {
            if status.pending() {
                self.init(c)?;
            } else if status.building() {
                self.build(c)?;
            } else if status.running() {
                self.run(c)?;
            }
        }
        Ok(ReconcileAction::Requeue(REQUEUE_SECS))
    }

    /// `Pending`: record the event, then patch the status to `Building`.
    fn init(&self, c: &mut Cluster) -> (r: Result<(), Error>)
        requires
            old(c).inv(),
        ensures
            final(c).inv(),
            match r {
                Ok(()) => old(c)@.actors.contains_key(self@.name) && final(c)@ == after_init(
                    self@,
                    old(c)@,
                ),
                Err(e) => !old(c)@.actors.contains_key(self@.name) && final(c)@ == push_event(
                    old(c)@,
                    self@.name,
                    init_message_view(self@.name),
                ) && e == Error::KubeError(NOT_FOUND),
            },
    {
        trace(c, self.reference(), init_message(&self.name))?;
        patch_status(c, self, ActorState::Building)
    }

    /// `Building`: create the image-build object if it is absent, update
    /// it in place if it is present, then optimistically patch the
    /// status to `Running`.
    fn build(&self, c: &mut Cluster) -> (r: Result<(), Error>)
        requires
            old(c).inv(),
        ensures
            final(c).inv(),
            match r {
                Ok(()) => old(c)@.actors.contains_key(self@.name) && final(c)@ == after_build(
                    self@,
                    old(c)@,
                ),
                Err(e) => !old(c)@.actors.contains_key(self@.name) && final(c)@ == build_objects(
                    self@,
                    old(c)@,
                ) && e == Error::KubeError(NOT_FOUND),
            },
    {
        if image::exists_for(c, self) {
            trace(c, self.reference(), image_exists_message(&self.spec))?;
            image::update(c, self)?;
        } else {
            trace(c, self.reference(), image_create_message(&self.spec))?;
            image::create(c, self)?;
        }
        trace(c, self.reference(), images_built_message())?;
        let condition = ActorState::Running {
            ready: true,
            reason: "AutoRun".to_owned(),
            message: None,
        };
        patch_status(c, self, condition)
    }

    /// `Running`: create the deployment if it is absent, update it in
    /// place if it is present.
    fn run(&self, c: &mut Cluster) -> (r: Result<(), Error>)
        requires
            old(c).inv(),
        ensures
            final(c).inv(),
            r is Ok,
            final(c)@ == after_run(self@, old(c)@),
    {
        trace(c, self.reference(), deploy_message(&self.name))?;
        if deployment::exists_for(c, self) {
            trace(c, self.reference(), deployment_exists_message(&self.spec))?;
            deployment::update(c, self)?;
        } else {
            trace(c, self.reference(), deployment_create_message(&self.spec))?;
            deployment::create(c, self)?;
        }
        Ok(())
    }

    /// Cleanup on deletion: while the owning namespace is terminating,
    /// just await the next change; otherwise record the event and await.
    /// Nothing is deleted directly — deletion of derived objects is the
    /// owner-reference cascade's job.
    pub fn cleanup(&self, c: &mut Cluster) -> (r: Result<ReconcileAction, Error>)
        requires
            old(c).inv(),
        ensures
            final(c).inv(),
            match r {
                Ok(action) => action == ReconcileAction::AwaitChange && cleanup_succeeds(
                    self@,
                    old(c)@,
                ) && final(c)@ == cleanup_state(self@, old(c)@),
                Err(e) => !cleanup_succeeds(self@, old(c)@) && final(c)@ == old(c)@
                    && cleanup_error(self@, old(c)@, e),
            },
    {
        let namespace = match &self.namespace {
            Some(ns) => ns,
            None => {
                return Err(Error::MissingObjectKey(".metadata.namespace"));
            },
        };
        let mut found: bool = false;
        let mut terminating: bool = false;
        match c.namespaces.get(namespace) {
            Some(rec) => {
                found = true;
                terminating = match &rec.phase {
                    Some(p) => {
                        let term = String::from_str("Terminating");
                        *p == term
                    },
                    None => false,
                };
            },
            None => {},
        }
        if !found {
            return Err(Error::KubeError(NOT_FOUND));
        }
        if terminating {
            return Ok(ReconcileAction::AwaitChange);
        }
        trace(c, self.reference(), cleanup_message(&self.name))?;
        Ok(ReconcileAction::AwaitChange)
    }
}

// ---------------------------------------------------------------------------
// The finalizer-wrapped entry point
// ---------------------------------------------------------------------------

/// The reconciler called for every actor change, wrapped in the
/// finalizer protocol of the watch runtime:
///
/// - no finalizer, not deleting: add the finalizer and await the change
///   this patch itself causes;
/// - finalizer present, not deleting: run the apply step;
/// - finalizer present, deleting: run cleanup, then remove the
///   finalizer so deletion can continue;
/// - no finalizer, deleting: nothing left to do.
///
/// Any error of a step is wrapped as a finalizer error.
pub fn reconcile(actor: &Actor, c: &mut Cluster) -> (r: Result<ReconcileAction, Error>)
    requires
        old(c).inv(),
    ensures
        final(c).inv(),
        (!actor@.has_finalizer && !actor@.marked_for_deletion) ==> (match r {
            Ok(action) => action == ReconcileAction::AwaitChange && old(c)@.actors.contains_key(
                actor@.name,
            ) && final(c)@ == patch_actor_finalizer_view(old(c)@, actor@.name, true),
            Err(e) => !old(c)@.actors.contains_key(actor@.name) && final(c)@ == old(c)@ && (
            e matches Error::FinalizerError(inner) && inner == Error::KubeError(NOT_FOUND)),
        }),
        (actor@.has_finalizer && !actor@.marked_for_deletion) ==> (match r {
            Ok(action) => action == ReconcileAction::Requeue(REQUEUE_SECS) && apply_succeeds(
                actor@,
                old(c)@,
            ) && final(c)@ == apply_transition(actor@, old(c)@),
            Err(e) => !apply_succeeds(actor@, old(c)@) && final(c)@ == apply_failed_state(
                actor@,
                old(c)@,
            ) && (e matches Error::FinalizerError(inner) && inner == Error::KubeError(NOT_FOUND)),
        }),
        (actor@.has_finalizer && actor@.marked_for_deletion) ==> (match r {
            Ok(action) => action == ReconcileAction::AwaitChange && cleanup_succeeds(
                actor@,
                old(c)@,
            ) && old(c)@.actors.contains_key(actor@.name) && final(c)@
                == patch_actor_finalizer_view(
                cleanup_state(actor@, old(c)@),
                actor@.name,
                false,
            ),
            Err(e) => (e matches Error::FinalizerError(inner) && ((!cleanup_succeeds(
                actor@,
                old(c)@,
            ) && final(c)@ == old(c)@ && cleanup_error(actor@, old(c)@, *inner)) || (
            cleanup_succeeds(actor@, old(c)@) && !old(c)@.actors.contains_key(actor@.name)
                && final(c)@ == cleanup_state(actor@, old(c)@) && inner == Error::KubeError(
                NOT_FOUND,
            )))),
        }),
        (!actor@.has_finalizer && actor@.marked_for_deletion) ==> (r matches Ok(action)
            && action == ReconcileAction::AwaitChange && final(c)@ == old(c)@),
{
    if !actor.marked_for_deletion {
        if actor.has_finalizer {
            match actor.reconcile(c) {
                Ok(action) => Ok(action),
                Err(e) => Err(Error::FinalizerError(Box::new(e))),
            }
        } else {
            match patch_finalizer(c, actor, true) {
                Ok(()) => Ok(ReconcileAction::AwaitChange),
                Err(e) => Err(Error::FinalizerError(Box::new(e))),
            }
        }
    } else {
        if actor.has_finalizer {
            match actor.cleanup(c) {
                Ok(action) => match patch_finalizer(c, actor, false) {
                    Ok(()) => Ok(action),
                    Err(e) => Err(Error::FinalizerError(Box::new(e))),
                },
                Err(e) => Err(Error::FinalizerError(Box::new(e))),
            }
        } else {
            Ok(ReconcileAction::AwaitChange)
        }
    }
}

/// The uniform error policy: log-and-requeue after a fixed delay, with
/// no error classification.
pub fn error_policy(_actor: &Actor, _error: &Error) -> (r: ReconcileAction)
    ensures
        r == ReconcileAction::Requeue(ERROR_REQUEUE_SECS),
{
    ReconcileAction::Requeue(ERROR_REQUEUE_SECS)
}

} // verus!
