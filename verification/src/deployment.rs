//! The deployment composer: create-or-update of the workload object
//! derived from an actor, under its deterministic name.

use vstd::prelude::*;

use crate::cluster::Cluster;
use crate::cluster::ClusterView;
use crate::cluster::DeploymentRecord;
use crate::cluster::DeploymentRecordView;
use crate::errors::CONFLICT;
use crate::errors::Error;
use crate::errors::NOT_FOUND;
use crate::naming::deployment_name;
use crate::naming::deployment_name_view;
use crate::naming::image_tag;
use crate::naming::image_tag_view;
use crate::types::Actor;
use crate::types::ActorView;

verus! {

/// The deployment record derived from an actor: it runs the actor's
/// image at its deterministic tag and is owned by the actor.
pub open spec fn deployment_record_view_of(a: ActorView) -> DeploymentRecordView {
    DeploymentRecordView { image: image_tag_view(a.spec), owner: a.name }
}

/// The cluster after the actor's deployment has been applied.
pub open spec fn with_deployment(c: ClusterView, a: ActorView) -> ClusterView {
    ClusterView {
        deployments: c.deployments.insert(
            deployment_name_view(a.spec),
            deployment_record_view_of(a),
        ),
        ..c
    }
}

/// Build the deployment record for an actor.
pub fn deployment_record_of(actor: &Actor) -> (r: DeploymentRecord)
    ensures
        r@ == deployment_record_view_of(actor@),
{
    DeploymentRecord { image: image_tag(&actor.spec), owner: actor.name.clone() }
}

/// Whether the actor's deployment exists.
pub fn exists_for(c: &Cluster, actor: &Actor) -> (r: bool)
    ensures
        r == c@.deployments.contains_key(deployment_name_view(actor@.spec)),
{
    let name = deployment_name(&actor.spec);
    c.deployments.contains(&name)
}

/// Create the actor's deployment.  Fails with the cluster's conflict
/// code when an object of that name already exists.
pub fn create(c: &mut Cluster, actor: &Actor) -> (r: Result<(), Error>)
    requires
        old(c).inv(),
    ensures
        final(c).inv(),
        match r {
            Ok(()) => !old(c)@.deployments.contains_key(deployment_name_view(actor@.spec))
                && final(c)@ == with_deployment(old(c)@, actor@),
            Err(e) => old(c)@.deployments.contains_key(deployment_name_view(actor@.spec))
                && final(c)@ == old(c)@ && e == Error::KubeError(CONFLICT),
        },
{
    let name = deployment_name(&actor.spec);
    if c.deployments.contains(&name) {
        Err(Error::KubeError(CONFLICT))
    } else {
        c.deployments.upsert(name, deployment_record_of(actor));
        proof {
            assert(final(c)@ =~= with_deployment(old(c)@, actor@));
        }
        Ok(())
    }
}

/// Update the actor's deployment in place; applying the same spec twice
/// yields the same object.  Fails with the cluster's not-found code when
/// the object does not exist.
pub fn update(c: &mut Cluster, actor: &Actor) -> (r: Result<(), Error>)
    requires
        old(c).inv(),
    ensures
        final(c).inv(),
        match r {
            Ok(()) => old(c)@.deployments.contains_key(deployment_name_view(actor@.spec))
                && final(c)@ == with_deployment(old(c)@, actor@),
            Err(e) => !old(c)@.deployments.contains_key(deployment_name_view(actor@.spec))
                && final(c)@ == old(c)@ && e == Error::KubeError(NOT_FOUND),
        },
{
    let name = deployment_name(&actor.spec);
    if c.deployments.contains(&name) {
        c.deployments.upsert(name, deployment_record_of(actor));
        proof {
            assert(final(c)@ =~= with_deployment(old(c)@, actor@));
        }
        Ok(())
    } else {
        Err(Error::KubeError(NOT_FOUND))
    }
}

} // verus!
