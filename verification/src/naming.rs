//! Deterministic names, tags, labels and event messages.
//!
//! Every derived cluster object's identity is a pure function of its
//! owning spec: re-computing the same spec always yields the same target
//! name, which is what makes lookups and re-applies idempotent.

use vstd::prelude::*;
use vstd::string::*;

use crate::types::ActorSpec;
use crate::types::ActorSpecView;

verus! {

/// Host of the image registry that build results are pushed to.
pub open spec fn registry_host_view() -> Seq<char> {
    "harbor.amp-system.svc.cluster.local"@
}

/// Name of the image-build object derived from an actor:
/// `{actor.name}-{actor.commit}`.
pub open spec fn kpack_image_name_view(a: ActorSpecView) -> Seq<char> {
    a.name + "-"@ + a.commit
}

pub fn kpack_image_name(a: &ActorSpec) -> (r: String)
    ensures
        r@ == kpack_image_name_view(a@),
{
    let mut s = a.name.clone();
    s.append("-");
    s.append(a.commit.as_str());
    s
}

/// Destination tag of an actor's image build:
/// `{registry-host}/library/{actor.image}:{actor.commit}`.
pub open spec fn image_tag_view(a: ActorSpecView) -> Seq<char> {
    registry_host_view() + "/library/"@ + a.image + ":"@ + a.commit
}

pub fn image_tag(a: &ActorSpec) -> (r: String)
    ensures
        r@ == image_tag_view(a@),
{
    let mut s = String::from_str("harbor.amp-system.svc.cluster.local");
    s.append("/library/");
    s.append(a.image.as_str());
    s.append(":");
    s.append(a.commit.as_str());
    s
}

/// Name of the deployment derived from an actor: the actor's own name.
pub open spec fn deployment_name_view(a: ActorSpecView) -> Seq<char> {
    a.name
}

pub fn deployment_name(a: &ActorSpec) -> (r: String)
    ensures
        r@ == deployment_name_view(a@),
{
    a.name.clone()
}

// ---------------------------------------------------------------------------
// Well-known keys and values
// ---------------------------------------------------------------------------

/// Finalizer that guards actor deletion until cleanup has run.
pub open spec fn finalizer_name_view() -> Seq<char> {
    "actors.amphitheatre.app/finalizer"@
}

pub fn finalizer_name() -> (r: &'static str)
    ensures
        r@ == finalizer_name_view(),
{
    "actors.amphitheatre.app/finalizer"
}

/// Label key marking a namespace as managed by this engine.
pub open spec fn managed_by_key_view() -> Seq<char> {
    "app.kubernetes.io/managed-by"@
}

/// Label value naming the managing system.
pub open spec fn managed_by_value_view() -> Seq<char> {
    "Amphitheatre"@
}

/// Label key that enables an external syncer on a managed namespace.
pub open spec fn sync_key_view() -> Seq<char> {
    "syncer.amphitheatre.app/sync"@
}

/// Label value that switches the syncer on.
pub open spec fn sync_value_view() -> Seq<char> {
    "true"@
}

/// Annotation key that records the hash of the last applied spec.
pub open spec fn last_applied_hash_key_view() -> Seq<char> {
    "amphitheatre.app/last-applied-hash"@
}

pub fn last_applied_hash_key() -> (r: &'static str)
    ensures
        r@ == last_applied_hash_key_view(),
{
    "amphitheatre.app/last-applied-hash"
}

/// Field manager used for server-side apply on the reconcile path.
pub open spec fn controllers_field_manager_view() -> Seq<char> {
    "amp-controllers"@
}

pub fn controllers_field_manager() -> (r: &'static str)
    ensures
        r@ == controllers_field_manager_view(),
{
    "amp-controllers"
}

/// Field manager used for server-side apply on the composer path.
pub open spec fn composer_field_manager_view() -> Seq<char> {
    "amp-composer"@
}

pub fn composer_field_manager() -> (r: &'static str)
    ensures
        r@ == composer_field_manager_view(),
{
    "amp-composer"
}

// ---------------------------------------------------------------------------
// Event messages
// ---------------------------------------------------------------------------

pub open spec fn init_message_view(name: Seq<char>) -> Seq<char> {
    "Building the image for Actor "@ + name
}

pub fn init_message(name: &String) -> (r: String)
    ensures
        r@ == init_message_view(name@),
{
    let mut s = String::from_str("Building the image for Actor ");
    s.append(name.as_str());
    s
}

pub open spec fn image_exists_message_view(a: ActorSpecView) -> Seq<char> {
    "Image "@ + kpack_image_name_view(a) + " already exists, update it if there are new changes"@
}

pub fn image_exists_message(a: &ActorSpec) -> (r: String)
    ensures
        r@ == image_exists_message_view(a@),
{
    let mut s = String::from_str("Image ");
    s.append(kpack_image_name(a).as_str());
    s.append(" already exists, update it if there are new changes");
    s
}

pub open spec fn image_create_message_view(a: ActorSpecView) -> Seq<char> {
    "Create new image: "@ + kpack_image_name_view(a)
}

pub fn image_create_message(a: &ActorSpec) -> (r: String)
    ensures
        r@ == image_create_message_view(a@),
{
    let mut s = String::from_str("Create new image: ");
    s.append(kpack_image_name(a).as_str());
    s
}

pub open spec fn images_built_message_view() -> Seq<char> {
    "The images builded, Running"@
}

pub fn images_built_message() -> (r: String)
    ensures
        r@ == images_built_message_view(),
{
    String::from_str("The images builded, Running")
}

pub open spec fn deploy_message_view(name: Seq<char>) -> Seq<char> {
    "Try to deploying the resources for Actor "@ + name
}

pub fn deploy_message(name: &String) -> (r: String)
    ensures
        r@ == deploy_message_view(name@),
{
    let mut s = String::from_str("Try to deploying the resources for Actor ");
    s.append(name.as_str());
    s
}

pub open spec fn deployment_exists_message_view(a: ActorSpecView) -> Seq<char> {
    "Deployment "@ + deployment_name_view(a)
        + " already exists, update it if there are new changes"@
}

pub fn deployment_exists_message(a: &ActorSpec) -> (r: String)
    ensures
        r@ == deployment_exists_message_view(a@),
{
    let mut s = String::from_str("Deployment ");
    s.append(deployment_name(a).as_str());
    s.append(" already exists, update it if there are new changes");
    s
}

pub open spec fn deployment_create_message_view(a: ActorSpecView) -> Seq<char> {
    "Create new Deployment: "@ + deployment_name_view(a)
}

pub fn deployment_create_message(a: &ActorSpec) -> (r: String)
    ensures
        r@ == deployment_create_message_view(a@),
{
    let mut s = String::from_str("Create new Deployment: ");
    s.append(deployment_name(a).as_str());
    s
}

pub open spec fn cleanup_message_view(name: Seq<char>) -> Seq<char> {
    "Delete Actor `"@ + name + "`"@
}

pub fn cleanup_message(name: &String) -> (r: String)
    ensures
        r@ == cleanup_message_view(name@),
{
    let mut s = String::from_str("Delete Actor `");
    s.append(name.as_str());
    s.append("`");
    s
}

} // verus!
