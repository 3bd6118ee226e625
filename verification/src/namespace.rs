//! The namespace composer: server-side apply of the one namespace a
//! playbook owns.

use vstd::prelude::*;
use vstd::string::*;

use crate::cluster::Cluster;
use crate::cluster::ClusterView;
use crate::cluster::NamespaceRecord;
use crate::cluster::NamespaceRecordView;
use crate::errors::Error;
use crate::naming::managed_by_key_view;
use crate::naming::managed_by_value_view;
use crate::naming::sync_key_view;
use crate::naming::sync_value_view;
use crate::types::Playbook;
use crate::types::PlaybookView;

verus! {

/// The two labels every managed namespace carries.
pub open spec fn namespace_labels_view() -> Seq<(Seq<char>, Seq<char>)> {
    seq![
        (managed_by_key_view(), managed_by_value_view()),
        (sync_key_view(), sync_value_view()),
    ]
}

/// The phase the applied namespace ends up with: applying never touches
/// the status subresource, so an existing phase is preserved and a fresh
/// namespace has none.
pub open spec fn preserved_phase(c: ClusterView, name: Seq<char>) -> Option<Seq<char>> {
    if c.namespaces.contains_key(name) {
        c.namespaces[name].phase
    } else {
        None
    }
}

/// The namespace record derived from a playbook: owned by the playbook
/// and carrying the managed-by and sync labels.
pub open spec fn namespace_record_view_of(p: PlaybookView, phase: Option<Seq<char>>)
    -> NamespaceRecordView {
    NamespaceRecordView { owner: p.name, labels: namespace_labels_view(), phase }
}

/// The cluster after the playbook's namespace has been applied.
pub open spec fn with_namespace(c: ClusterView, name: Seq<char>, p: PlaybookView)
    -> ClusterView {
    ClusterView {
        namespaces: c.namespaces.insert(
            name,
            namespace_record_view_of(p, preserved_phase(c, name)),
        ),
        ..c
    }
}

fn make_record(playbook: &Playbook, phase: Option<String>) -> (r: NamespaceRecord)
    ensures
        r@ == namespace_record_view_of(
            playbook@,
            (match phase {
                Some(p) => Some(p@),
                None => None,
            }),
        ),
{
    let mut labels: Vec<(String, String)> = Vec::new();
    labels.push((
        String::from_str("app.kubernetes.io/managed-by"),
        String::from_str("Amphitheatre"),
    ));
    labels.push((String::from_str("syncer.amphitheatre.app/sync"), String::from_str("true")));
    let r = NamespaceRecord { owner: playbook.name.clone(), labels, phase };
    proof {
        assert(r@.labels =~= namespace_labels_view());
        assert(r@ =~= namespace_record_view_of(
            playbook@,
            (match phase {
                Some(p) => Some(p@),
                None => None,
            }),
        ));
    }
    r
}

/// Apply the namespace a playbook owns, under the playbook's namespace
/// name, with an owner reference back to the playbook: applying the
/// same playbook twice yields one namespace with identical content.
/// Fails when the playbook carries no namespace name.
pub fn create(c: &mut Cluster, playbook: &Playbook) -> (r: Result<NamespaceRecord, Error>)
    requires
        old(c).inv(),
    ensures
        final(c).inv(),
        match r {
            Ok(rec) => playbook@.namespace matches Some(name) && rec@
                == namespace_record_view_of(playbook@, preserved_phase(old(c)@, name))
                && final(c)@ == with_namespace(old(c)@, name, playbook@),
            Err(e) => playbook@.namespace is None && final(c)@ == old(c)@
                && (e matches Error::MissingObjectKey(k) && k@ == ".metadata.namespace"@),
        },
{
    let name = match &playbook.namespace {
        Some(name) => name,
        None => {
            return Err(Error::MissingObjectKey(".metadata.namespace"));
        },
    };
    let phase: Option<String> = match c.namespaces.get(name) {
        Some(existing) => match &existing.phase {
            Some(p) => Some(p.clone()),
            None => None,
        },
        None => None,
    };
    let stored = make_record(playbook, phase);
    let returned = stored.duplicate();
    c.namespaces.upsert(name.clone(), stored);
    proof {
        assert(final(c)@ =~= with_namespace(old(c)@, playbook@.namespace->0, playbook@));
    }
    Ok(returned)
}

} // verus!
