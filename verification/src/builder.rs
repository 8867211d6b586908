//! The desired-state builder: the pure function from a manager object to
//! the child object it should own.

use vstd::prelude::*;
use vstd::string::StringExecFns;

use crate::policy::{Error, ErrorView};
use crate::resource::{
    Label, LabelView, ObjectMeta, ObjectMetaView, OwnerReference, OwnerReferenceView, Pod,
    PodManager, PodManagerView, PodView,
};

verus! {

/// The API version written into every owner reference built here.
pub open spec fn api_version() -> Seq<char> {
    "bestgopher.com/v1"@
}

/// The resource kind written into every owner reference built here.
pub open spec fn manager_kind() -> Seq<char> {
    "PodManager"@
}

/// The key of the discovery label that maps a child to the name of the
/// manager owning it.
pub open spec fn owned_by_key() -> Seq<char> {
    "owned-by"@
}

/// The key of the static marker label carried by every child this
/// controller creates.
pub open spec fn managed_by_key() -> Seq<char> {
    "managed-by"@
}

/// The value of the static marker label.
pub open spec fn managed_by_value() -> Seq<char> {
    "podmanager"@
}

/// The owner reference a child of `m` carries: it names the manager's
/// kind, name and UID, and marks the manager as the controlling owner.
pub open spec fn owner_reference_for(m: PodManagerView) -> OwnerReferenceView
    recommends
        m.owner_identity_present(),
{
    OwnerReferenceView {
        api_version: api_version(),
        kind: manager_kind(),
        name: m.metadata.name.unwrap(),
        uid: m.metadata.uid.unwrap(),
        controller: true,
        block_owner_deletion: true,
    }
}

/// The discovery labels a child of the manager named `name` carries.
pub open spec fn child_labels(name: Seq<char>) -> Seq<LabelView> {
    seq![
        LabelView { key: owned_by_key(), value: name },
        LabelView { key: managed_by_key(), value: managed_by_value() },
    ]
}

/// The child object a manager should own: name copied from the manager's
/// name, owner reference pointing back at the manager, discovery labels,
/// and the workload template copied verbatim.  A creation request: it has
/// no namespace, UID, resource version or creation timestamp of its own.
pub open spec fn desired_pod(m: PodManagerView) -> PodView
    recommends
        m.owner_identity_present(),
{
    PodView {
        metadata: ObjectMetaView {
            name: m.metadata.name,
            namespace: None,
            uid: None,
            resource_version: None,
            creation_timestamp: None,
            labels: child_labels(m.metadata.name.unwrap()),
            owner_references: seq![owner_reference_for(m)],
        },
        spec: Some(m.spec.template),
    }
}

/// The label selector that discovers the children of the manager named
/// `name`: the discovery-label key, an equals sign, and the name.
pub fn child_selector(name: &str) -> (s: String)
    ensures
        s@ == "owned-by="@ + name@,
{
    let mut s: String = "owned-by=".to_owned();
    s.append(name);
    s
}

/// Builds the child object the given manager should own, with no side
/// effects.
///
/// Fails loudly, aborting the reconciliation attempt, when the manager
/// lacks one of the identity fields (name, UID) required to form a valid
/// owner reference: that is a data error, not a transient fault.
pub fn create_owned_pod(source: &PodManager) -> (res: Result<Pod, Error>)
    ensures
        res is Ok <==> source@.owner_identity_present(),
        res matches Ok(p) ==> p@ == desired_pod(source@),
        res matches Err(e) ==> e@ == ErrorView::MissingIdentity,
{
    let name = match &source.metadata.name {
        Some(n) => n.clone(),
        None => {
            return Err(Error::MissingIdentity);
        },
    };
    let uid = match &source.metadata.uid {
        Some(u) => u.clone(),
        None => {
            return Err(Error::MissingIdentity);
        },
    };
    let oref = OwnerReference {
        api_version: "bestgopher.com/v1".to_owned(),
        kind: "PodManager".to_owned(),
        name: name.clone(),
        uid,
        controller: true,
        block_owner_deletion: true,
    };
    let mut labels: Vec<Label> = Vec::new();
    labels.push(Label { key: "owned-by".to_owned(), value: name.clone() });
    labels.push(Label { key: "managed-by".to_owned(), value: "podmanager".to_owned() });
    let mut owner_references: Vec<OwnerReference> = Vec::new();
    owner_references.push(oref);
    let pod = Pod {
        metadata: ObjectMeta {
            name: Some(name),
            namespace: None,
            uid: None,
            resource_version: None,
            creation_timestamp: None,
            labels,
            owner_references,
        },
        spec: Some(source.spec.template.clone()),
    };
    proof {
        assert(pod@.metadata.labels =~= child_labels(source@.metadata.name.unwrap()));
        assert(pod@.metadata.owner_references =~= seq![owner_reference_for(source@)]);
        assert(pod@ =~= desired_pod(source@));
    }
    Ok(pod)
}

} // verus!
