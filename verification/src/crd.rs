//! Models of the watched resources: tunnels, routing objects and classes.
//!
//! Each type carries exactly the fields the control-plane logic reads. The
//! unverified driver converts between these models and the cluster API's
//! own object types at the process boundary.

use crate::strings::{is_true_value, spells_true, str_eq};
use vstd::prelude::*;

verus! {

/// The lifecycle finalizer that blocks garbage collection of a tunnel
/// object until cleanup is complete.
pub open spec fn lifecycle_finalizer() -> Seq<char> {
    "tunnel.cloudflare.ar2ro.io/finalizer"@
}

/// Exec mirror of [`lifecycle_finalizer`].
pub fn finalizer_name() -> (r: &'static str)
    ensures
        r@ == lifecycle_finalizer(),
{
    "tunnel.cloudflare.ar2ro.io/finalizer"
}

/// The annotation whose value flags a tunnel as the default one.
pub open spec fn default_annotation() -> Seq<char> {
    "cloudflare.ar2ro.io/default-tunnel"@
}

/// Exec mirror of [`default_annotation`].
pub fn default_annotation_name() -> (r: &'static str)
    ensures
        r@ == default_annotation(),
{
    "cloudflare.ar2ro.io/default-tunnel"
}

/// Object metadata: identity plus the two lifecycle markers the state
/// machine is driven by.
#[derive(Debug, PartialEq)]
pub struct Meta {
    pub name: String,
    pub namespace: Option<String>,
    pub annotations: Vec<(String, String)>,
    pub finalizers: Option<Vec<String>>,
    /// Set by the API server when deletion of the object was requested.
    pub deletion_timestamp: Option<String>,
}

/// Mathematical model of [`Meta`].
pub struct MetaView {
    pub name: Seq<char>,
    pub namespace: Option<Seq<char>>,
    pub annotations: Seq<(Seq<char>, Seq<char>)>,
    pub finalizers: Option<Seq<Seq<char>>>,
    pub deletion_timestamp: Option<Seq<char>>,
}

impl View for Meta {
    type V = MetaView;

    open spec fn view(&self) -> MetaView {
        MetaView {
            name: self.name@,
            namespace: self.namespace.deep_view(),
            annotations: self.annotations.deep_view(),
            finalizers: self.finalizers.deep_view(),
            deletion_timestamp: self.deletion_timestamp.deep_view(),
        }
    }
}

impl DeepView for Meta {
    type V = MetaView;

    open spec fn deep_view(&self) -> MetaView {
        self.view()
    }
}

impl MetaView {
    /// Whether the given finalizer is on the object.
    pub open spec fn has_finalizer(self, f: Seq<char>) -> bool {
        match self.finalizers {
            Some(fs) => fs.contains(f),
            None => false,
        }
    }
}

/// Desired and observed state of one tunnel: the remote identity once it
/// exists, and what the agent workload should look like.
#[derive(Debug, PartialEq)]
pub struct TunnelCrd {
    /// The remote tunnel id, set exactly once after remote creation.
    pub uuid: Option<u128>,
    pub replicas: i32,
    /// Name of the credentials object to authenticate with.
    pub credentials: String,
    /// Agent image; a known default is used when absent.
    pub image: Option<String>,
    /// Raw tunnel secret, supplied only at first creation.
    pub tunnel_secret: Option<String>,
    pub tags: Option<Vec<(String, String)>>,
}

/// Mathematical model of [`TunnelCrd`].
pub struct TunnelCrdView {
    pub uuid: Option<u128>,
    pub replicas: i32,
    pub credentials: Seq<char>,
    pub image: Option<Seq<char>>,
    pub tunnel_secret: Option<Seq<char>>,
    pub tags: Option<Seq<(Seq<char>, Seq<char>)>>,
}

impl View for TunnelCrd {
    type V = TunnelCrdView;

    open spec fn view(&self) -> TunnelCrdView {
        TunnelCrdView {
            uuid: self.uuid,
            replicas: self.replicas,
            credentials: self.credentials@,
            image: self.image.deep_view(),
            tunnel_secret: self.tunnel_secret.deep_view(),
            tags: self.tags.deep_view(),
        }
    }
}

impl DeepView for TunnelCrd {
    type V = TunnelCrdView;

    open spec fn deep_view(&self) -> TunnelCrdView {
        self.view()
    }
}

/// One tunnel object as observed from the cluster.
#[derive(Debug, PartialEq)]
pub struct Tunnel {
    pub metadata: Meta,
    pub spec: TunnelCrd,
}

/// Mathematical model of [`Tunnel`].
pub struct TunnelView {
    pub metadata: MetaView,
    pub spec: TunnelCrdView,
}

impl View for Tunnel {
    type V = TunnelView;

    open spec fn view(&self) -> TunnelView {
        TunnelView { metadata: self.metadata@, spec: self.spec@ }
    }
}

impl DeepView for Tunnel {
    type V = TunnelView;

    open spec fn deep_view(&self) -> TunnelView {
        self.view()
    }
}

impl TunnelView {
    /// Whether deletion of the object was requested.
    pub open spec fn deletion_requested(self) -> bool {
        self.metadata.deletion_timestamp is Some
    }

    /// Whether the lifecycle finalizer is on the object.
    pub open spec fn has_lifecycle_finalizer(self) -> bool {
        self.metadata.has_finalizer(lifecycle_finalizer())
    }

    /// Whether an annotation flags this tunnel as the default one.
    pub open spec fn is_default_tunnel(self) -> bool {
        exists|j: int| #[trigger] annotation_flags_default(self.metadata.annotations, j)
    }

    /// The store key of the object.
    pub open spec fn key(self) -> (Option<Seq<char>>, Seq<char>) {
        (self.metadata.namespace, self.metadata.name)
    }
}

/// Whether the annotation at position `j` flags the object as the
/// default tunnel.
pub open spec fn annotation_flags_default(annots: Seq<(Seq<char>, Seq<char>)>, j: int) -> bool {
    0 <= j < annots.len() && annots[j].0 == default_annotation() && spells_true(annots[j].1)
}

/// Copies a list of name/value pairs.
fn clone_pairs(v: &Vec<(String, String)>) -> (r: Vec<(String, String)>)
    ensures
        r@ == v@,
{
    let mut r: Vec<(String, String)> = Vec::new();
    let mut i: usize = 0;
    while i < v.len()
        invariant
            i <= v.len(),
            r@ == v@.take(i as int),
        decreases v.len() - i,
    {
        let pair = (v[i].0.clone(), v[i].1.clone());
        r.push(pair);
        assert(r@ =~= v@.take(i + 1 as int));
        i += 1;
    }
    assert(r@ =~= v@);
    r
}

/// Copies a list of names.
fn clone_names(v: &Vec<String>) -> (r: Vec<String>)
    ensures
        r@ == v@,
{
    let mut r: Vec<String> = Vec::new();
    let mut i: usize = 0;
    while i < v.len()
        invariant
            i <= v.len(),
            r@ == v@.take(i as int),
        decreases v.len() - i,
    {
        r.push(v[i].clone());
        assert(r@ =~= v@.take(i + 1 as int));
        i += 1;
    }
    assert(r@ =~= v@);
    r
}

/// Copies an optional string.
pub(crate) fn clone_opt_string(v: &Option<String>) -> (r: Option<String>)
    ensures
        r == v,
{
    match v {
        Some(s) => Some(s.clone()),
        None => None,
    }
}

impl Meta {
    /// An identical copy of the metadata.
    pub fn duplicate(&self) -> (r: Meta)
        ensures
            r@ == self@,
    {
        Meta {
            name: self.name.clone(),
            namespace: clone_opt_string(&self.namespace),
            annotations: clone_pairs(&self.annotations),
            finalizers: match &self.finalizers {
                Some(fs) => Some(clone_names(fs)),
                None => None,
            },
            deletion_timestamp: clone_opt_string(&self.deletion_timestamp),
        }
    }
}

impl TunnelCrd {
    /// An identical copy of the desired state.
    pub fn duplicate(&self) -> (r: TunnelCrd)
        ensures
            r@ == self@,
    {
        TunnelCrd {
            uuid: self.uuid,
            replicas: self.replicas,
            credentials: self.credentials.clone(),
            image: clone_opt_string(&self.image),
            tunnel_secret: clone_opt_string(&self.tunnel_secret),
            tags: match &self.tags {
                Some(t) => Some(clone_pairs(t)),
                None => None,
            },
        }
    }
}

impl Tunnel {
    /// An identical copy of the object.
    pub fn duplicate(&self) -> (r: Tunnel)
        ensures
            r@ == self@,
    {
        Tunnel { metadata: self.metadata.duplicate(), spec: self.spec.duplicate() }
    }

    /// The remote tunnel id recorded on the object, if any.
    pub fn get_uuid(&self) -> (r: Option<u128>)
        ensures
            r == self@.spec.uuid,
    {
        self.spec.uuid
    }

    /// Whether the lifecycle finalizer is on the object.
    pub fn has_lifecycle_finalizer(&self) -> (r: bool)
        ensures
            r == self@.has_lifecycle_finalizer(),
    {
        match &self.metadata.finalizers {
            None => false,
            Some(fs) => {
                let mut i: usize = 0;
                while i < fs.len()
                    invariant
                        i <= fs.len(),
                        self.metadata.finalizers matches Some(v) && v == *fs,
                        forall|j: int| 0 <= j < i ==> fs.deep_view()[j] != lifecycle_finalizer(),
                    decreases fs.len() - i,
                {
                    if str_eq(fs[i].as_str(), finalizer_name()) {
                        assert(fs.deep_view()[i as int] == lifecycle_finalizer());
                        return true;
                    }
                    i += 1;
                }
                assert(!fs.deep_view().contains(lifecycle_finalizer()));
                false
            },
        }
    }

    /// Whether an annotation flags this tunnel as the default one.
    pub fn is_default(&self) -> (r: bool)
        ensures
            r == self@.is_default_tunnel(),
    {
        let annots = &self.metadata.annotations;
        let mut i: usize = 0;
        while i < annots.len()
            invariant
                i <= annots.len(),
                annots == &self.metadata.annotations,
                forall|j: int| 0 <= j < i ==> !annotation_flags_default(annots.deep_view(), j),
            decreases annots.len() - i,
        {
            if str_eq(annots[i].0.as_str(), default_annotation_name()) && is_true_value(
                annots[i].1.as_str(),
            ) {
                assert(annots.deep_view() =~= self@.metadata.annotations);
                assert(annotation_flags_default(self@.metadata.annotations, i as int));
                return true;
            }
            assert(!annotation_flags_default(annots.deep_view(), i as int));
            i += 1;

        }
        assert(forall|j: int| !annotation_flags_default(self@.metadata.annotations, j));
        false
    }

    /// The object after the merge patch that sets the lifecycle finalizer:
    /// the finalizer list is replaced by the one-element list holding it.
    pub fn add_finalizer(&self) -> (r: Tunnel)
        ensures
            r@ == (TunnelView {
                metadata: MetaView {
                    finalizers: Some(seq![lifecycle_finalizer()]),
                    ..self@.metadata
                },
                ..self@
            }),
    {
        let mut fs: Vec<String> = Vec::new();
        fs.push(String::from_str(finalizer_name()));
        let r = Tunnel {
            metadata: Meta { finalizers: Some(fs), ..self.metadata.duplicate() },
            spec: self.spec.duplicate(),
        };
        assert(r@.metadata.finalizers matches Some(f) && f =~= seq![lifecycle_finalizer()]);
        r
    }

    /// The object after the merge patch that clears the finalizer list.
    pub fn remove_finalizer(&self) -> (r: Tunnel)
        ensures
            r@ == (TunnelView {
                metadata: MetaView { finalizers: None, ..self@.metadata },
                ..self@
            }),
    {
        Tunnel {
            metadata: Meta { finalizers: None, ..self.metadata.duplicate() },
            spec: self.spec.duplicate(),
        }
    }

    /// The object after the merge patch that records the remote tunnel id.
    pub fn with_uuid(&self, id: u128) -> (r: Tunnel)
        ensures
            r@ == (TunnelView {
                spec: TunnelCrdView { uuid: Some(id), ..self@.spec },
                ..self@
            }),
    {
        Tunnel {
            metadata: self.metadata.duplicate(),
            spec: TunnelCrd { uuid: Some(id), ..self.spec.duplicate() },
        }
    }
}

/// One routing object as observed from the cluster; its routing rules are
/// carried opaquely by the driver, only the class reference is read here.
#[derive(Debug, PartialEq)]
pub struct Ingress {
    pub name: String,
    pub namespace: Option<String>,
    pub class_name: Option<String>,
}

/// Mathematical model of [`Ingress`].
pub struct IngressView {
    pub name: Seq<char>,
    pub namespace: Option<Seq<char>>,
    pub class_name: Option<Seq<char>>,
}

impl View for Ingress {
    type V = IngressView;

    open spec fn view(&self) -> IngressView {
        IngressView {
            name: self.name@,
            namespace: self.namespace.deep_view(),
            class_name: self.class_name.deep_view(),
        }
    }
}

impl DeepView for Ingress {
    type V = IngressView;

    open spec fn deep_view(&self) -> IngressView {
        self.view()
    }
}

impl Ingress {
    /// The class the object references, if any.
    pub fn ingress_class_name(&self) -> (r: Option<&String>)
        ensures
            r matches Some(n) ==> self@.class_name == Some(n@),
            r is None ==> self@.class_name is None,
    {
        self.class_name.as_ref()
    }
}

/// Whether class parameters point at a cluster-scoped or a namespaced
/// reference.
#[derive(Clone, Copy, Debug, PartialEq, Eq, Structural)]
pub enum Scope {
    Cluster,
    Namespace,
}

/// The parameters of an owned class: which resource they reference.
#[derive(Debug, PartialEq)]
pub struct IngressClassParams {
    pub api_group: Option<String>,
    pub kind: String,
    pub name: String,
    pub namespace: Option<String>,
    pub scope: Option<Scope>,
}

/// Mathematical model of [`IngressClassParams`].
pub struct IngressClassParamsView {
    pub api_group: Option<Seq<char>>,
    pub kind: Seq<char>,
    pub name: Seq<char>,
    pub namespace: Option<Seq<char>>,
    pub scope: Option<Scope>,
}

impl View for IngressClassParams {
    type V = IngressClassParamsView;

    open spec fn view(&self) -> IngressClassParamsView {
        IngressClassParamsView {
            api_group: self.api_group.deep_view(),
            kind: self.kind@,
            name: self.name@,
            namespace: self.namespace.deep_view(),
            scope: self.scope,
        }
    }
}

impl DeepView for IngressClassParams {
    type V = IngressClassParamsView;

    open spec fn deep_view(&self) -> IngressClassParamsView {
        self.view()
    }
}

/// One class object: which controller owns it and which resource its
/// parameters reference.
#[derive(Debug, PartialEq)]
pub struct IngressClass {
    pub name: String,
    pub controller: Option<String>,
    pub parameters: Option<IngressClassParams>,
}

/// Mathematical model of [`IngressClass`].
pub struct IngressClassView {
    pub name: Seq<char>,
    pub controller: Option<Seq<char>>,
    pub parameters: Option<IngressClassParamsView>,
}

impl View for IngressClass {
    type V = IngressClassView;

    open spec fn view(&self) -> IngressClassView {
        IngressClassView {
            name: self.name@,
            controller: self.controller.deep_view(),
            parameters: self.parameters.deep_view(),
        }
    }
}

impl DeepView for IngressClass {
    type V = IngressClassView;

    open spec fn deep_view(&self) -> IngressClassView {
        self.view()
    }
}

impl IngressClassParams {
    /// An identical copy of the parameters.
    pub fn duplicate(&self) -> (r: IngressClassParams)
        ensures
            r@ == self@,
    {
        IngressClassParams {
            api_group: clone_opt_string(&self.api_group),
            kind: self.kind.clone(),
            name: self.name.clone(),
            namespace: clone_opt_string(&self.namespace),
            scope: self.scope,
        }
    }
}

impl IngressClassView {
    /// Whether this class names the given controller as its owner.
    pub open spec fn owned_by(self, controller: Seq<char>) -> bool {
        self.controller == Some(controller)
    }
}

impl IngressClass {
    /// The controller this class names as its owner, if any.
    pub fn controller_name(&self) -> (r: Option<&String>)
        ensures
            r matches Some(n) ==> self@.controller == Some(n@),
            r is None ==> self@.controller is None,
    {
        self.controller.as_ref()
    }

    /// An identical copy of the class.
    pub fn duplicate(&self) -> (r: IngressClass)
        ensures
            r@ == self@,
    {
        IngressClass {
            name: self.name.clone(),
            controller: clone_opt_string(&self.controller),
            parameters: match &self.parameters {
                Some(p) => Some(p.duplicate()),
                None => None,
            },
        }
    }

    /// Whether this class belongs to the given controller; a class that
    /// names no controller belongs to nobody.
    pub fn filter(&self, controller_name: &str) -> (r: bool)
        ensures
            r == self@.owned_by(controller_name@),
    {
        match &self.controller {
            Some(c) => str_eq(c.as_str(), controller_name),
            None => false,
        }
    }
}

} // verus!
