//! The image composer: create-or-update of the image-build object
//! derived from an actor, under its deterministic name.

use vstd::prelude::*;
use vstd::string::*;

use crate::cluster::Cluster;
use crate::cluster::ClusterView;
use crate::cluster::ImageRecord;
use crate::cluster::ImageRecordView;
use crate::errors::CONFLICT;
use crate::errors::Error;
use crate::errors::NOT_FOUND;
use crate::naming::image_tag;
use crate::naming::image_tag_view;
use crate::naming::kpack_image_name;
use crate::naming::kpack_image_name_view;
use crate::types::Actor;
use crate::types::ActorView;

verus! {

/// The image-build record derived from an actor: destination tag, fixed
/// builder reference, and the actor's pinned source location, owned by
/// the actor.
pub open spec fn image_record_view_of(a: ActorView) -> ImageRecordView {
    ImageRecordView {
        tag: image_tag_view(a.spec),
        builder_name: "amp-default-cluster-builder"@,
        builder_kind: "ClusterBuilder"@,
        service_account: "default"@,
        git_url: a.spec.repo,
        git_revision: a.spec.commit,
        sub_path: a.spec.path,
        owner: Some(a.name),
    }
}

/// The cluster after the actor's image-build object has been applied.
pub open spec fn with_image(c: ClusterView, a: ActorView) -> ClusterView {
    ClusterView {
        images: c.images.insert(kpack_image_name_view(a.spec), image_record_view_of(a)),
        ..c
    }
}

/// Build the image record for an actor.
pub fn image_record_of(actor: &Actor) -> (r: ImageRecord)
    ensures
        r@ == image_record_view_of(actor@),
{
    let r = ImageRecord {
        tag: image_tag(&actor.spec),
        builder_name: String::from_str("amp-default-cluster-builder"),
        builder_kind: String::from_str("ClusterBuilder"),
        service_account: String::from_str("default"),
        git_url: actor.spec.repo.clone(),
        git_revision: actor.spec.commit.clone(),
        sub_path: actor.spec.path.clone(),
        owner: Some(actor.name.clone()),
    };
    proof {
        assert(r@ =~= image_record_view_of(actor@));
    }
    r
}

/// Whether the actor's image-build object exists.
pub fn exists_for(c: &Cluster, actor: &Actor) -> (r: bool)
    ensures
        r == c@.images.contains_key(kpack_image_name_view(actor@.spec)),
{
    let name = kpack_image_name(&actor.spec);
    c.images.contains(&name)
}

/// Create the actor's image-build object.  Fails with the cluster's
/// conflict code when an object of that name already exists.
pub fn create(c: &mut Cluster, actor: &Actor) -> (r: Result<(), Error>)
    requires
        old(c).inv(),
    ensures
        final(c).inv(),
        match r {
            Ok(()) => !old(c)@.images.contains_key(kpack_image_name_view(actor@.spec)) && final(c)@ == with_image(old(c)@, actor@),
            Err(e) => old(c)@.images.contains_key(kpack_image_name_view(actor@.spec)) && final(c)@ == old(c)@ && e == Error::KubeError(CONFLICT),
        },
{
    let name = kpack_image_name(&actor.spec);
    if c.images.contains(&name) {
        Err(Error::KubeError(CONFLICT))
    } else {
        c.images.upsert(name, image_record_of(actor));
        proof {
            assert(final(c)@ =~= with_image(old(c)@, actor@));
        }
        Ok(())
    }
}

/// Update the actor's image-build object in place: re-applying the same
/// spec is a no-op for the build system, a changed spec triggers a new
/// build.  Fails with the cluster's not-found code when the object does
/// not exist.
pub fn update(c: &mut Cluster, actor: &Actor) -> (r: Result<(), Error>)
    requires
        old(c).inv(),
    ensures
        final(c).inv(),
        match r {
            Ok(()) => old(c)@.images.contains_key(kpack_image_name_view(actor@.spec)) && final(c)@ == with_image(old(c)@, actor@),
            Err(e) => !old(c)@.images.contains_key(kpack_image_name_view(actor@.spec)) && final(c)@ == old(c)@ && e == Error::KubeError(NOT_FOUND),
        },
{
    let name = kpack_image_name(&actor.spec);
    if c.images.contains(&name) {
        c.images.upsert(name, image_record_of(actor));
        proof {
            assert(final(c)@ =~= with_image(old(c)@, actor@));
        }
        Ok(())
    } else {
        Err(Error::KubeError(NOT_FOUND))
    }
}

} // verus!
