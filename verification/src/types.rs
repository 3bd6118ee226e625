//! The data model: actor and playbook descriptors and their lifecycle
//! states, together with the mathematical views that the contracts of the
//! engine are stated over.

use vstd::prelude::*;

verus! {

// ---------------------------------------------------------------------------
// ActorSpec
// ---------------------------------------------------------------------------

/// Mathematical view of an [`ActorSpec`].
#[verifier::ext_equal]
pub struct ActorSpecView {
    pub name: Seq<char>,
    pub description: Seq<char>,
    pub image: Seq<char>,
    pub repo: Seq<char>,
    pub path: Seq<char>,
    pub reference: Seq<char>,
    pub commit: Seq<char>,
    pub environment: Seq<(Seq<char>, Seq<char>)>,
    pub partners: Seq<Seq<char>>,
}

/// One buildable and deployable unit of an application: where its source
/// lives (`repo`, `path`, `reference`, `commit`, all pinned before the
/// spec enters the engine), the target image name, its environment, and
/// the addresses of partner repositories.
#[derive(Clone, Debug, PartialEq)]
pub struct ActorSpec {
    pub name: String,
    pub description: String,
    pub image: String,
    pub repo: String,
    pub path: String,
    pub reference: String,
    pub commit: String,
    pub environment: Vec<(String, String)>,
    pub partners: Vec<String>,
}

impl View for ActorSpec {
    type V = ActorSpecView;

    open spec fn view(&self) -> ActorSpecView {
        ActorSpecView {
            name: self.name@,
            description: self.description@,
            image: self.image@,
            repo: self.repo@,
            path: self.path@,
            reference: self.reference@,
            commit: self.commit@,
            environment: self.environment.deep_view(),
            partners: self.partners.deep_view(),
        }
    }
}

impl DeepView for ActorSpec {
    type V = ActorSpecView;

    open spec fn deep_view(&self) -> ActorSpecView {
        self.view()
    }
}

impl ActorSpec {
    /// A copy whose view is equal to the original's.
    pub fn duplicate(&self) -> (r: ActorSpec)
        ensures
            r@ == self@,
    {
        let mut environment: Vec<(String, String)> = Vec::new();
        let mut i: usize = 0;
        while i < self.environment.len()
            invariant
                i <= self.environment.len(),
                environment.len() == i,
                forall|j: int|
                    0 <= j < i ==> environment@[j].0@ == self.environment@[j].0@
                        && environment@[j].1@ == self.environment@[j].1@,
            decreases self.environment.len() - i,
        {
            let key = self.environment[i].0.clone();
            let value = self.environment[i].1.clone();
            environment.push((key, value));
            i += 1;
        }
        let mut partners: Vec<String> = Vec::new();
        let mut k: usize = 0;
        while k < self.partners.len()
            invariant
                k <= self.partners.len(),
                partners.len() == k,
                forall|j: int| 0 <= j < k ==> partners@[j]@ == self.partners@[j]@,
            decreases self.partners.len() - k,
        {
            partners.push(self.partners[k].clone());
            k += 1;
        }
        let r = ActorSpec {
            name: self.name.clone(),
            description: self.description.clone(),
            image: self.image.clone(),
            repo: self.repo.clone(),
            path: self.path.clone(),
            reference: self.reference.clone(),
            commit: self.commit.clone(),
            environment,
            partners,
        };
        proof {
            assert(r@.environment =~= self@.environment);
            assert(r@.partners =~= self@.partners);
            assert(r@ =~= self@);
        }
        r
    }
}

// ---------------------------------------------------------------------------
// ActorState
// ---------------------------------------------------------------------------

/// Mathematical view of an [`ActorState`].
#[verifier::ext_equal]
pub enum ActorStateView {
    Pending,
    Building,
    Running { ready: bool, reason: Seq<char>, message: Option<Seq<char>> },
}

/// Lifecycle status of an actor custom resource.  Exactly one variant
/// holds at any time; transitions are strictly forward
/// (`Pending` to `Building` to `Running`), except that `Running` may
/// re-enter itself with an updated readiness condition.
#[derive(Clone, Debug, PartialEq)]
pub enum ActorState {
    Pending,
    Building,
    Running { ready: bool, reason: String, message: Option<String> },
}

impl View for ActorState {
    type V = ActorStateView;

    open spec fn view(&self) -> ActorStateView {
        match self {
            ActorState::Pending => ActorStateView::Pending,
            ActorState::Building => ActorStateView::Building,
            ActorState::Running { ready, reason, message } => ActorStateView::Running {
                ready: *ready,
                reason: reason@,
                message: message.deep_view(),
            },
        }
    }
}

impl ActorState {
    pub fn pending(&self) -> (r: bool)
        ensures
            r == (self@ is Pending),
    {
        match self {
            ActorState::Pending => true,
            _ => false,
        }
    }

    pub fn building(&self) -> (r: bool)
        ensures
            r == (self@ is Building),
    {
        match self {
            ActorState::Building => true,
            _ => false,
        }
    }

    pub fn running(&self) -> (r: bool)
        ensures
            r == (self@ is Running),
    {
        match self {
            ActorState::Running { .. } => true,
            _ => false,
        }
    }

    /// A copy whose view is equal to the original's.
    pub fn duplicate(&self) -> (r: ActorState)
        ensures
            r@ == self@,
    {
        match self {
            ActorState::Pending => ActorState::Pending,
            ActorState::Building => ActorState::Building,
            ActorState::Running { ready, reason, message } => {
                let m = match message {
                    Some(s) => Some(s.clone()),
                    None => None,
                };
                ActorState::Running { ready: *ready, reason: reason.clone(), message: m }
            },
        }
    }
}

// ---------------------------------------------------------------------------
// Actor custom resource
// ---------------------------------------------------------------------------

/// Mathematical view of an [`Actor`].
#[verifier::ext_equal]
pub struct ActorView {
    pub name: Seq<char>,
    pub namespace: Option<Seq<char>>,
    pub spec: ActorSpecView,
    pub status: Option<ActorStateView>,
    pub marked_for_deletion: bool,
    pub has_finalizer: bool,
}

/// The actor custom resource: its metadata name and namespace, the
/// immutable [`ActorSpec`], the lifecycle status, whether deletion has
/// been requested, and whether the engine's finalizer is present on it.
#[derive(Clone, Debug, PartialEq)]
pub struct Actor {
    pub name: String,
    pub namespace: Option<String>,
    pub spec: ActorSpec,
    pub status: Option<ActorState>,
    pub marked_for_deletion: bool,
    pub has_finalizer: bool,
}

impl View for Actor {
    type V = ActorView;

    open spec fn view(&self) -> ActorView {
        ActorView {
            name: self.name@,
            namespace: match self.namespace {
                Some(ns) => Some(ns@),
                None => None,
            },
            spec: self.spec@,
            status: match self.status {
                Some(s) => Some(s@),
                None => None,
            },
            marked_for_deletion: self.marked_for_deletion,
            has_finalizer: self.has_finalizer,
        }
    }
}

impl Actor {
    /// A copy whose view is equal to the original's.
    pub fn duplicate(&self) -> (r: Actor)
        ensures
            r@ == self@,
    {
        let namespace = match &self.namespace {
            Some(ns) => Some(ns.clone()),
            None => None,
        };
        let status = match &self.status {
            Some(s) => Some(s.duplicate()),
            None => None,
        };
        let r = Actor {
            name: self.name.clone(),
            namespace,
            spec: self.spec.duplicate(),
            status,
            marked_for_deletion: self.marked_for_deletion,
            has_finalizer: self.has_finalizer,
        };
        proof {
            assert(r@ =~= self@);
        }
        r
    }

    /// Name of the object that events about this actor are attributed to.
    pub fn reference(&self) -> (r: String)
        ensures
            r@ == self@.name,
    {
        self.name.clone()
    }
}

// ---------------------------------------------------------------------------
// Playbook
// ---------------------------------------------------------------------------

/// Status of a playbook document.
#[derive(Clone, Copy, Debug, PartialEq, Eq, Structural)]
pub enum PlaybookStatus {
    Pending,
    Running,
}

/// Mathematical view of a [`PlaybookSpec`].
#[verifier::ext_equal]
pub struct PlaybookSpecView {
    pub title: Seq<char>,
    pub description: Seq<char>,
    pub actors: Seq<ActorSpecView>,
}

/// The desired-state document of one application: a title, a description
/// and an ordered sequence of actors.
#[derive(Clone, Debug, PartialEq)]
pub struct PlaybookSpec {
    pub title: String,
    pub description: String,
    pub actors: Vec<ActorSpec>,
}

impl View for PlaybookSpec {
    type V = PlaybookSpecView;

    open spec fn view(&self) -> PlaybookSpecView {
        PlaybookSpecView {
            title: self.title@,
            description: self.description@,
            actors: self.actors.deep_view(),
        }
    }
}

impl PlaybookSpec {
    /// A copy whose view is equal to the original's.
    pub fn duplicate(&self) -> (r: PlaybookSpec)
        ensures
            r@ == self@,
    {
        let mut actors: Vec<ActorSpec> = Vec::new();
        let mut i: usize = 0;
        while i < self.actors.len()
            invariant
                i <= self.actors.len(),
                actors.len() == i,
                forall|j: int| 0 <= j < i ==> actors@[j]@ == self.actors@[j]@,
            decreases self.actors.len() - i,
        {
            actors.push(self.actors[i].duplicate());
            i += 1;
        }
        let r = PlaybookSpec {
            title: self.title.clone(),
            description: self.description.clone(),
            actors,
        };
        proof {
            assert(r@.actors =~= self@.actors);
            assert(r@ =~= self@);
        }
        r
    }
}

/// Mathematical view of a [`Playbook`].
#[verifier::ext_equal]
pub struct PlaybookView {
    pub name: Seq<char>,
    pub namespace: Option<Seq<char>>,
    pub spec: PlaybookSpecView,
    pub status: Option<PlaybookStatus>,
}

/// The playbook custom resource: metadata name and namespace, the
/// desired-state document and the current status.
#[derive(Clone, Debug, PartialEq)]
pub struct Playbook {
    pub name: String,
    pub namespace: Option<String>,
    pub spec: PlaybookSpec,
    pub status: Option<PlaybookStatus>,
}

impl View for Playbook {
    type V = PlaybookView;

    open spec fn view(&self) -> PlaybookView {
        PlaybookView {
            name: self.name@,
            namespace: match self.namespace {
                Some(ns) => Some(ns@),
                None => None,
            },
            spec: self.spec@,
            status: self.status,
        }
    }
}

impl Playbook {
    /// A copy whose view is equal to the original's.
    pub fn duplicate(&self) -> (r: Playbook)
        ensures
            r@ == self@,
    {
        let namespace = match &self.namespace {
            Some(ns) => Some(ns.clone()),
            None => None,
        };
        let r = Playbook {
            name: self.name.clone(),
            namespace,
            spec: self.spec.duplicate(),
            status: self.status,
        };
        proof {
            assert(r@ =~= self@);
        }
        r
    }
}

} // verus!
