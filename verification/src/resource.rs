//! The resource model: the manager resource (desired state plus observed
//! status) and the child workload unit it owns.
//!
//! Each executable type carries a mathematical view (`...View`) over
//! sequences of characters, and the contracts of the whole library are
//! stated over those views.

use vstd::prelude::*;

verus! {

/// One `key = value` pair of an object's label map.
#[derive(Debug)]
pub struct Label {
    pub key: String,
    pub value: String,
}

/// The mathematical model of a [`Label`].
#[verifier::ext_equal]
pub struct LabelView {
    pub key: Seq<char>,
    pub value: Seq<char>,
}

impl View for Label {
    type V = LabelView;

    open spec fn view(&self) -> LabelView {
        LabelView { key: self.key@, value: self.value@ }
    }
}

impl DeepView for Label {
    type V = LabelView;

    open spec fn deep_view(&self) -> LabelView {
        self@
    }
}

/// A structural back-link from an owned object to its owner, used by the
/// external garbage collector for cascading deletion and by this
/// controller for recognizing "this child belongs to this manager".
#[derive(Debug)]
pub struct OwnerReference {
    pub api_version: String,
    pub kind: String,
    pub name: String,
    pub uid: String,
    pub controller: bool,
    pub block_owner_deletion: bool,
}

/// The mathematical model of an [`OwnerReference`].
#[verifier::ext_equal]
pub struct OwnerReferenceView {
    pub api_version: Seq<char>,
    pub kind: Seq<char>,
    pub name: Seq<char>,
    pub uid: Seq<char>,
    pub controller: bool,
    pub block_owner_deletion: bool,
}

impl View for OwnerReference {
    type V = OwnerReferenceView;

    open spec fn view(&self) -> OwnerReferenceView {
        OwnerReferenceView {
            api_version: self.api_version@,
            kind: self.kind@,
            name: self.name@,
            uid: self.uid@,
            controller: self.controller,
            block_owner_deletion: self.block_owner_deletion,
        }
    }
}

impl DeepView for OwnerReference {
    type V = OwnerReferenceView;

    open spec fn deep_view(&self) -> OwnerReferenceView {
        self@
    }
}

/// The standard object metadata shared by namespaced objects: identity
/// fields, labels and owner references.
#[derive(Debug)]
pub struct ObjectMeta {
    pub name: Option<String>,
    pub namespace: Option<String>,
    pub uid: Option<String>,
    pub resource_version: Option<String>,
    pub creation_timestamp: Option<String>,
    pub labels: Vec<Label>,
    pub owner_references: Vec<OwnerReference>,
}

/// The mathematical model of an [`ObjectMeta`].
#[verifier::ext_equal]
pub struct ObjectMetaView {
    pub name: Option<Seq<char>>,
    pub namespace: Option<Seq<char>>,
    pub uid: Option<Seq<char>>,
    pub resource_version: Option<Seq<char>>,
    pub creation_timestamp: Option<Seq<char>>,
    pub labels: Seq<LabelView>,
    pub owner_references: Seq<OwnerReferenceView>,
}

impl View for ObjectMeta {
    type V = ObjectMetaView;

    open spec fn view(&self) -> ObjectMetaView {
        ObjectMetaView {
            name: self.name.deep_view(),
            namespace: self.namespace.deep_view(),
            uid: self.uid.deep_view(),
            resource_version: self.resource_version.deep_view(),
            creation_timestamp: self.creation_timestamp.deep_view(),
            labels: self.labels.deep_view(),
            owner_references: self.owner_references.deep_view(),
        }
    }
}

impl DeepView for ObjectMeta {
    type V = ObjectMetaView;

    open spec fn deep_view(&self) -> ObjectMetaView {
        self@
    }
}

impl ObjectMeta {
    /// A metadata value with every field absent or empty.
    pub fn empty() -> (m: ObjectMeta)
        ensures
            m@ == ObjectMetaView::empty(),
    {
        let m = ObjectMeta {
            name: None,
            namespace: None,
            uid: None,
            resource_version: None,
            creation_timestamp: None,
            labels: Vec::new(),
            owner_references: Vec::new(),
        };
        proof {
            assert(m@ =~= ObjectMetaView::empty());
        }
        m
    }
}

impl ObjectMetaView {
    /// The model of metadata with every field absent or empty.
    pub open spec fn empty() -> ObjectMetaView {
        ObjectMetaView {
            name: None,
            namespace: None,
            uid: None,
            resource_version: None,
            creation_timestamp: None,
            labels: Seq::empty(),
            owner_references: Seq::empty(),
        }
    }
}

/// One container of the workload template.
#[derive(Debug)]
pub struct Container {
    pub name: String,
    pub image: String,
    pub command: Vec<String>,
}

/// The mathematical model of a [`Container`].
#[verifier::ext_equal]
pub struct ContainerView {
    pub name: Seq<char>,
    pub image: Seq<char>,
    pub command: Seq<Seq<char>>,
}

impl View for Container {
    type V = ContainerView;

    open spec fn view(&self) -> ContainerView {
        ContainerView {
            name: self.name@,
            image: self.image@,
            command: self.command.deep_view(),
        }
    }
}

impl DeepView for Container {
    type V = ContainerView;

    open spec fn deep_view(&self) -> ContainerView {
        self@
    }
}

/// One named volume of the workload template.
#[derive(Debug)]
pub struct Volume {
    pub name: String,
}

/// The mathematical model of a [`Volume`].
#[verifier::ext_equal]
pub struct VolumeView {
    pub name: Seq<char>,
}

impl View for Volume {
    type V = VolumeView;

    open spec fn view(&self) -> VolumeView {
        VolumeView { name: self.name@ }
    }
}

impl DeepView for Volume {
    type V = VolumeView;

    open spec fn deep_view(&self) -> VolumeView {
        self@
    }
}

/// The workload template a manager declares: the shape of the single
/// child unit to create (containers, volumes, scheduling constraints).
#[derive(Debug)]
pub struct PodTemplate {
    pub containers: Vec<Container>,
    pub volumes: Vec<Volume>,
    pub node_selector: Vec<Label>,
}

/// The mathematical model of a [`PodTemplate`].
#[verifier::ext_equal]
pub struct PodTemplateView {
    pub containers: Seq<ContainerView>,
    pub volumes: Seq<VolumeView>,
    pub node_selector: Seq<LabelView>,
}

impl View for PodTemplate {
    type V = PodTemplateView;

    open spec fn view(&self) -> PodTemplateView {
        PodTemplateView {
            containers: self.containers.deep_view(),
            volumes: self.volumes.deep_view(),
            node_selector: self.node_selector.deep_view(),
        }
    }
}

impl DeepView for PodTemplate {
    type V = PodTemplateView;

    open spec fn deep_view(&self) -> PodTemplateView {
        self@
    }
}

/// The immutable intent of a manager: the template of the child to
/// create.  The controller never mutates it.
#[derive(Debug)]
pub struct Spec {
    pub template: PodTemplate,
}

/// The mathematical model of a [`Spec`].
#[verifier::ext_equal]
pub struct SpecView {
    pub template: PodTemplateView,
}

impl View for Spec {
    type V = SpecView;

    open spec fn view(&self) -> SpecView {
        SpecView { template: self.template@ }
    }
}

impl DeepView for Spec {
    type V = SpecView;

    open spec fn deep_view(&self) -> SpecView {
        self@
    }
}

/// The observed status of a manager, written only by the controller and
/// only through the status sub-resource: the timestamp at which its child
/// was first observed.  Absent until then; once set, never recomputed.
#[derive(Debug)]
pub struct Status {
    pub create_time: Option<String>,
}

/// The mathematical model of a [`Status`].
#[verifier::ext_equal]
pub struct StatusView {
    pub create_time: Option<Seq<char>>,
}

impl View for Status {
    type V = StatusView;

    open spec fn view(&self) -> StatusView {
        StatusView { create_time: self.create_time.deep_view() }
    }
}

impl DeepView for Status {
    type V = StatusView;

    open spec fn deep_view(&self) -> StatusView {
        self@
    }
}

/// The manager resource: the user-facing custom resource whose spec
/// declares the desired child workload.
#[derive(Debug)]
pub struct PodManager {
    pub metadata: ObjectMeta,
    pub spec: Spec,
    pub status: Option<Status>,
}

/// The mathematical model of a [`PodManager`].
#[verifier::ext_equal]
pub struct PodManagerView {
    pub metadata: ObjectMetaView,
    pub spec: SpecView,
    pub status: Option<StatusView>,
}

impl View for PodManager {
    type V = PodManagerView;

    open spec fn view(&self) -> PodManagerView {
        PodManagerView {
            metadata: self.metadata@,
            spec: self.spec@,
            status: self.status.deep_view(),
        }
    }
}

impl DeepView for PodManager {
    type V = PodManagerView;

    open spec fn deep_view(&self) -> PodManagerView {
        self@
    }
}

impl PodManagerView {
    /// Whether the manager carries the identity fields required to form a
    /// valid owner reference.
    pub open spec fn owner_identity_present(self) -> bool {
        self.metadata.name is Some && self.metadata.uid is Some
    }

    /// Whether the manager carries the identity fields required to
    /// address it (and its children) inside its namespace.
    pub open spec fn addressable(self) -> bool {
        self.metadata.name is Some && self.metadata.namespace is Some
    }

    /// Whether the manager's status already records when its child was
    /// first observed.
    pub open spec fn has_create_time(self) -> bool {
        self.status matches Some(s) && s.create_time is Some
    }
}

/// The child resource: the single workload unit created and tracked on
/// behalf of a manager.
#[derive(Debug)]
pub struct Pod {
    pub metadata: ObjectMeta,
    pub spec: Option<PodTemplate>,
}

/// The mathematical model of a [`Pod`].
#[verifier::ext_equal]
pub struct PodView {
    pub metadata: ObjectMetaView,
    pub spec: Option<PodTemplateView>,
}

impl View for Pod {
    type V = PodView;

    open spec fn view(&self) -> PodView {
        PodView {
            metadata: self.metadata@,
            spec: self.spec.deep_view(),
        }
    }
}

impl DeepView for Pod {
    type V = PodView;

    open spec fn deep_view(&self) -> PodView {
        self@
    }
}

fn clone_strings(v: &Vec<String>) -> (r: Vec<String>)
    ensures
        r.deep_view() == v.deep_view(),
{
    let mut r: Vec<String> = Vec::new();
    let mut i: usize = 0;
    while i < v.len()
        invariant
            i <= v.len(),
            r.len() == i,
            forall|j: int| 0 <= j < i ==> r.deep_view()[j] == v.deep_view()[j],
        decreases v.len() - i,
    {
        r.push(v[i].clone());
        i = i + 1;
    }
    proof {
        assert(r.deep_view() =~= v.deep_view());
    }
    r
}

impl Clone for Label {
    /// Cloning keeps the label's model.
    fn clone(&self) -> (r: Self)
        ensures
            r@ == self@,
    {
        Label { key: self.key.clone(), value: self.value.clone() }
    }
}

impl Clone for Container {
    /// Cloning keeps the container's model.
    fn clone(&self) -> (r: Self)
        ensures
            r@ == self@,
    {
        Container {
            name: self.name.clone(),
            image: self.image.clone(),
            command: clone_strings(&self.command),
        }
    }
}

impl Clone for Volume {
    /// Cloning keeps the volume's model.
    fn clone(&self) -> (r: Self)
        ensures
            r@ == self@,
    {
        Volume { name: self.name.clone() }
    }
}

fn clone_containers(v: &Vec<Container>) -> (r: Vec<Container>)
    ensures
        r.deep_view() == v.deep_view(),
{
    let mut r: Vec<Container> = Vec::new();
    let mut i: usize = 0;
    while i < v.len()
        invariant
            i <= v.len(),
            r.len() == i,
            forall|j: int| 0 <= j < i ==> r.deep_view()[j] == v.deep_view()[j],
        decreases v.len() - i,
    {
        r.push(v[i].clone());
        i = i + 1;
    }
    proof {
        assert(r.deep_view() =~= v.deep_view());
    }
    r
}

fn clone_volumes(v: &Vec<Volume>) -> (r: Vec<Volume>)
    ensures
        r.deep_view() == v.deep_view(),
{
    let mut r: Vec<Volume> = Vec::new();
    let mut i: usize = 0;
    while i < v.len()
        invariant
            i <= v.len(),
            r.len() == i,
            forall|j: int| 0 <= j < i ==> r.deep_view()[j] == v.deep_view()[j],
        decreases v.len() - i,
    {
        r.push(v[i].clone());
        i = i + 1;
    }
    proof {
        assert(r.deep_view() =~= v.deep_view());
    }
    r
}

fn clone_labels(v: &Vec<Label>) -> (r: Vec<Label>)
    ensures
        r.deep_view() == v.deep_view(),
{
    let mut r: Vec<Label> = Vec::new();
    let mut i: usize = 0;
    while i < v.len()
        invariant
            i <= v.len(),
            r.len() == i,
            forall|j: int| 0 <= j < i ==> r.deep_view()[j] == v.deep_view()[j],
        decreases v.len() - i,
    {
        r.push(v[i].clone());
        i = i + 1;
    }
    proof {
        assert(r.deep_view() =~= v.deep_view());
    }
    r
}

impl Clone for PodTemplate {
    /// Cloning copies the template verbatim: the clone's model equals
    /// the source's model.
    fn clone(&self) -> (r: Self)
        ensures
            r@ == self@,
    {
        let r = PodTemplate {
            containers: clone_containers(&self.containers),
            volumes: clone_volumes(&self.volumes),
            node_selector: clone_labels(&self.node_selector),
        };
        proof {
            assert(r@ =~= self@);
        }
        r
    }
}

fn clone_opt_string(v: &Option<String>) -> (r: Option<String>)
    ensures
        r.deep_view() == v.deep_view(),
{
    match v {
        Some(s) => Some(s.clone()),
        None => None,
    }
}

impl Clone for OwnerReference {
    /// Cloning keeps the reference's model.
    fn clone(&self) -> (r: Self)
        ensures
            r@ == self@,
    {
        OwnerReference {
            api_version: self.api_version.clone(),
            kind: self.kind.clone(),
            name: self.name.clone(),
            uid: self.uid.clone(),
            controller: self.controller,
            block_owner_deletion: self.block_owner_deletion,
        }
    }
}

fn clone_owner_references(v: &Vec<OwnerReference>) -> (r: Vec<OwnerReference>)
    ensures
        r.deep_view() == v.deep_view(),
{
    let mut r: Vec<OwnerReference> = Vec::new();
    let mut i: usize = 0;
    while i < v.len()
        invariant
            i <= v.len(),
            r.len() == i,
            forall|j: int| 0 <= j < i ==> r.deep_view()[j] == v.deep_view()[j],
        decreases v.len() - i,
    {
        r.push(v[i].clone());
        i = i + 1;
    }
    proof {
        assert(r.deep_view() =~= v.deep_view());
    }
    r
}

impl Clone for ObjectMeta {
    /// Cloning keeps the metadata's model.
    fn clone(&self) -> (r: Self)
        ensures
            r@ == self@,
    {
        let r = ObjectMeta {
            name: clone_opt_string(&self.name),
            namespace: clone_opt_string(&self.namespace),
            uid: clone_opt_string(&self.uid),
            resource_version: clone_opt_string(&self.resource_version),
            creation_timestamp: clone_opt_string(&self.creation_timestamp),
            labels: clone_labels(&self.labels),
            owner_references: clone_owner_references(&self.owner_references),
        };
        proof {
            assert(r@ =~= self@);
        }
        r
    }
}

impl Clone for Status {
    /// Cloning keeps the status's model.
    fn clone(&self) -> (r: Self)
        ensures
            r@ == self@,
    {
        let r = Status { create_time: clone_opt_string(&self.create_time) };
        proof {
            assert(r@ =~= self@);
        }
        r
    }
}

impl Clone for Spec {
    /// Cloning copies the intent verbatim: the clone's model equals
    /// the source's model.
    fn clone(&self) -> (r: Self)
        ensures
            r@ == self@,
    {
        Spec { template: self.template.clone() }
    }
}

impl Clone for PodManager {
    /// Cloning keeps the manager's model.
    fn clone(&self) -> (r: Self)
        ensures
            r@ == self@,
    {
        let status = match &self.status {
            Some(s) => Some(s.clone()),
            None => None,
        };
        let r = PodManager { metadata: self.metadata.clone(), spec: self.spec.clone(), status };
        proof {
            assert(r@ =~= self@);
        }
        r
    }
}

impl Clone for Pod {
    /// Cloning keeps the pod's model.
    fn clone(&self) -> (r: Self)
        ensures
            r@ == self@,
    {
        let spec = match &self.spec {
            Some(t) => Some(t.clone()),
            None => None,
        };
        let r = Pod { metadata: self.metadata.clone(), spec };
        proof {
            assert(r@ =~= self@);
        }
        r
    }
}

} // verus!
