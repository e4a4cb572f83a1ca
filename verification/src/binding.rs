//! The class-based binding resolver: which tunnel owns a routing object.
//!
//! The resolver is pure with respect to its inputs — it only reads the
//! two stores — and is re-run whenever either store or the routing object
//! changes.

use crate::crd::{Ingress, IngressClassView, IngressView, Scope, Tunnel, TunnelView};
use crate::policy::{Action, Error, ErrorView, INGRESS_RETRY_SECONDS};
use crate::store::{
    class_at_name, class_has_name, classes_wf, exactly_one_default, exactly_one_named,
    the_default_tunnel, the_named_tunnel, tunnel_at_key, tunnel_has_key, tunnels_wf,
    IngressClassStore, IngressClassStoreView, TunnelStore, TunnelStoreView,
};
use crate::strings::str_eq;
use vstd::prelude::*;

verus! {

/// Retry interval, in seconds, for a routing object bound to a tunnel
/// whose remote identity does not exist yet.
pub const TUNNEL_PENDING_RETRY_SECONDS: u64 = 120;

/// The identity under which this controller claims classes.
pub open spec fn ingress_controller_id() -> Seq<char> {
    "cloudflare.ar2ro.io/ingress-controller"@
}

/// Exec mirror of [`ingress_controller_id`].
pub fn ingress_controller_name() -> (r: &'static str)
    ensures
        r@ == ingress_controller_id(),
{
    "cloudflare.ar2ro.io/ingress-controller"
}

/// The API group of the tunnel resource this controller manages, also
/// assumed where class parameters name no group.
pub open spec fn tunnel_group() -> Seq<char> {
    "cloudflare.ar2ro.io"@
}

/// Exec mirror of [`tunnel_group`].
pub fn tunnel_group_name() -> (r: &'static str)
    ensures
        r@ == tunnel_group(),
{
    "cloudflare.ar2ro.io"
}

/// The kind of the tunnel resource this controller manages.
pub open spec fn tunnel_kind() -> Seq<char> {
    "Tunnel"@
}

/// Exec mirror of [`tunnel_kind`].
pub fn tunnel_kind_name() -> (r: &'static str)
    ensures
        r@ == tunnel_kind(),
{
    "Tunnel"
}

/// What the resolver decides for one routing object.
#[derive(Debug, PartialEq)]
pub enum Outcome {
    /// The referenced class belongs to another controller; the object is
    /// never acted upon.
    NotOwned,
    /// The class or the referenced tunnel is not in the caches yet;
    /// re-evaluate after the next change.
    AwaitingClass,
    /// The object is owned by this tunnel.
    Bound(Tunnel),
    /// The class parameters reference a resource this controller does not
    /// manage; a terminal condition, not retried.
    InvalidParameters(String),
    /// No class reference and no single default tunnel.
    Unbound,
}

/// Mathematical model of [`Outcome`].
pub enum OutcomeView {
    NotOwned,
    AwaitingClass,
    Bound(TunnelView),
    InvalidParameters(Seq<char>),
    Unbound,
}

impl View for Outcome {
    type V = OutcomeView;

    open spec fn view(&self) -> OutcomeView {
        match self {
            Outcome::NotOwned => OutcomeView::NotOwned,
            Outcome::AwaitingClass => OutcomeView::AwaitingClass,
            Outcome::Bound(t) => OutcomeView::Bound(t@),
            Outcome::InvalidParameters(reason) => OutcomeView::InvalidParameters(reason@),
            Outcome::Unbound => OutcomeView::Unbound,
        }
    }
}

impl DeepView for Outcome {
    type V = OutcomeView;

    open spec fn deep_view(&self) -> OutcomeView {
        self.view()
    }
}

/// Whether class parameters reference the tunnel resource this controller
/// manages: the kind must match, and the group where named; an absent
/// group means the managed group.
pub open spec fn params_reference_tunnel(
    api_group: Option<Seq<char>>,
    kind: Seq<char>,
) -> bool {
    &&& match api_group {
        Some(g) => g == tunnel_group(),
        None => true,
    }
    &&& kind == tunnel_kind()
}

/// The scope class parameters resolve under; the cluster API's default is
/// cluster scope.
pub open spec fn effective_scope(scope: Option<Scope>) -> Scope {
    match scope {
        Some(s) => s,
        None => Scope::Cluster,
    }
}

/// What a routing object without a usable class parameter binds to: the
/// single default-flagged tunnel, or nothing — two flagged tunnels are
/// ambiguity, treated as absence rather than picked from arbitrarily.
pub open spec fn default_outcome(tunnels: Seq<TunnelView>) -> OutcomeView {
    if exactly_one_default(tunnels) {
        OutcomeView::Bound(the_default_tunnel(tunnels))
    } else {
        OutcomeView::Unbound
    }
}

/// The resolver's decision, from the routing object and the two store
/// snapshots.
///
/// A class reference is looked up only in a ready class store: before the
/// initial relist has landed the object waits, so that a not-yet-observed
/// class is never mistaken for a foreign or absent one. Namespace-scoped
/// parameters resolve by namespace and name; cluster-scoped parameters
/// ignore the namespace and resolve by name alone, requiring the name to
/// be unambiguous.
pub open spec fn resolve_model(
    ingress: IngressView,
    classes: IngressClassStoreView,
    tunnels: TunnelStoreView,
    controller: Seq<char>,
) -> OutcomeView {
    match ingress.class_name {
        None => default_outcome(tunnels.items),
        Some(cn) => {
            if !classes.ready {
                OutcomeView::AwaitingClass
            } else if !class_has_name(classes.items, cn) {
                OutcomeView::AwaitingClass
            } else {
                let c = class_at_name(classes.items, cn);
                if !c.owned_by(controller) {
                    OutcomeView::NotOwned
                } else {
                    match c.parameters {
                        None => default_outcome(tunnels.items),
                        Some(p) => {
                            if !params_reference_tunnel(p.api_group, p.kind) {
                                OutcomeView::InvalidParameters(
                                    "parameters don't match the managed tunnel resource"@,
                                )
                            } else {
                                match effective_scope(p.scope) {
                                    Scope::Namespace => match p.namespace {
                                        None => OutcomeView::InvalidParameters(
                                            "namespace-scoped parameters need a namespace"@,
                                        ),
                                        Some(ns) => {
                                            if tunnel_has_key(tunnels.items, (Some(ns), p.name)) {
                                                OutcomeView::Bound(
                                                    tunnel_at_key(tunnels.items, (Some(ns), p.name)),
                                                )
                                            } else {
                                                OutcomeView::AwaitingClass
                                            }
                                        },
                                    },
                                    Scope::Cluster => {
                                        if exactly_one_named(tunnels.items, p.name) {
                                            OutcomeView::Bound(
                                                the_named_tunnel(tunnels.items, p.name),
                                            )
                                        } else {
                                            OutcomeView::AwaitingClass
                                        }
                                    },
                                }
                            }
                        },
                    }
                }
            }
        },
    }
}

/// Resolves the default tunnel for a routing object without a usable
/// class parameter.
fn default_bound(tunnels: &TunnelStore) -> (r: Outcome)
    ensures
        r@ == default_outcome(tunnels@.items),
{
    match tunnels.default_tunnel() {
        Some(t) => Outcome::Bound(t),
        None => Outcome::Unbound,
    }
}

/// Determines which tunnel, if any, owns a routing object.
pub fn resolve(
    ingress: &Ingress,
    classes: &IngressClassStore,
    tunnels: &TunnelStore,
    controller: &str,
) -> (r: Outcome)
    requires
        classes_wf(classes@.items),
        tunnels_wf(tunnels@.items),
    ensures
        r@ == resolve_model(ingress@, classes@, tunnels@, controller@),
{
    let class_name = match ingress.ingress_class_name() {
        None => {
            return default_bound(tunnels);
        },
        Some(cn) => cn,
    };
    if !classes.is_ready() {
        return Outcome::AwaitingClass;
    }
    let class = match classes.get(class_name) {
        None => {
            return Outcome::AwaitingClass;
        },
        Some(c) => c,
    };
    if !class.filter(controller) {
        return Outcome::NotOwned;
    }
    let params = match &class.parameters {
        None => {
            return default_bound(tunnels);
        },
        Some(p) => p,
    };
    let group_ok = match &params.api_group {
        Some(g) => str_eq(g.as_str(), tunnel_group_name()),
        None => true,
    };
    let kind_ok = str_eq(params.kind.as_str(), tunnel_kind_name());
    if !(group_ok && kind_ok) {
        return Outcome::InvalidParameters(
            String::from_str("parameters don't match the managed tunnel resource"),
        );
    }
    let scope = match params.scope {
        Some(s) => s,
        None => Scope::Cluster,
    };
    match scope {
        Scope::Namespace => match &params.namespace {
            None => Outcome::InvalidParameters(
                String::from_str("namespace-scoped parameters need a namespace"),
            ),
            Some(ns) => match tunnels.get(Some(ns), &params.name) {
                Some(t) => Outcome::Bound(t.duplicate()),
                None => Outcome::AwaitingClass,
            },
        },
        Scope::Cluster => match tunnels.get_by_name(&params.name) {
            Some(t) => Outcome::Bound(t.duplicate()),
            None => Outcome::AwaitingClass,
        },
    }
}

/// The model of a routing-object reconcile result.
pub open spec fn action_result_view(r: Result<Action, Error>) -> Result<Action, ErrorView> {
    match r {
        Ok(a) => Ok(a),
        Err(e) => Err(e@),
    }
}

/// What one routing-object reconcile returns for a resolver decision: a
/// foreign or not-yet-observed class waits for the next change, a missing
/// default tunnel and invalid parameters are errors, and a bound object
/// requeues — on a longer timer while its tunnel has no remote identity
/// yet.
pub open spec fn ingress_action(o: OutcomeView) -> Result<Action, ErrorView> {
    match o {
        OutcomeView::NotOwned => Ok(Action::AwaitChange),
        OutcomeView::AwaitingClass => Ok(Action::AwaitChange),
        OutcomeView::Unbound => Err(ErrorView::MissingDefaultTunnel),
        OutcomeView::InvalidParameters(reason) => Err(
            ErrorView::InvalidIngressClassParameters(reason),
        ),
        OutcomeView::Bound(t) => match t.spec.uuid {
            None => Ok(Action::Requeue(TUNNEL_PENDING_RETRY_SECONDS)),
            Some(_) => Ok(Action::Requeue(INGRESS_RETRY_SECONDS)),
        },
    }
}

/// Reconciles one routing object against the two stores.
pub fn ingress_reconcile(
    ingress: &Ingress,
    classes: &IngressClassStore,
    tunnels: &TunnelStore,
    controller: &str,
) -> (r: Result<Action, Error>)
    requires
        classes_wf(classes@.items),
        tunnels_wf(tunnels@.items),
    ensures
        action_result_view(r) == ingress_action(
            resolve_model(ingress@, classes@, tunnels@, controller@),
        ),
{
    match resolve(ingress, classes, tunnels, controller) {
        Outcome::NotOwned => Ok(Action::AwaitChange),
        Outcome::AwaitingClass => Ok(Action::AwaitChange),
        Outcome::Unbound => Err(Error::MissingDefaultTunnel),
        Outcome::InvalidParameters(reason) => Err(Error::InvalidIngressClassParameters(reason)),
        Outcome::Bound(t) => match t.get_uuid() {
            None => Ok(Action::Requeue(TUNNEL_PENDING_RETRY_SECONDS)),
            Some(_) => Ok(Action::Requeue(INGRESS_RETRY_SECONDS)),
        },
    }
}

/// Whether a class owned by the given controller bears the given name.
pub open spec fn owned_class_named(
    classes: Seq<IngressClassView>,
    controller: Seq<char>,
    name: Seq<char>,
    j: int,
) -> bool {
    0 <= j < classes.len() && classes[j].owned_by(controller) && classes[j].name == name
}

/// Whether the routing-object watch keeps this object: only objects whose
/// class reference names a class owned by this controller pass the
/// filter.
pub open spec fn watch_allows(
    ingress: IngressView,
    classes: Seq<IngressClassView>,
    controller: Seq<char>,
) -> bool {
    exists|n: Seq<char>, j: int|
        ingress.class_name == Some(n) && #[trigger] owned_class_named(classes, controller, n, j)
}

/// The routing-object watch filter.
pub fn ingress_watch_allowed(
    ingress: &Ingress,
    classes: &IngressClassStore,
    controller: &str,
) -> (r: bool)
    ensures
        r == watch_allows(ingress@, classes@.items, controller@),
{
    let name = match ingress.ingress_class_name() {
        None => {
            return false;
        },
        Some(n) => n,
    };
    let items = classes.list();
    let mut i: usize = 0;
    while i < items.len()
        invariant
            i <= items.len(),
            items.deep_view() == classes@.items,
            ingress@.class_name == Some(name@),
            forall|j: int| 0 <= j < i ==> !owned_class_named(classes@.items, controller@, name@, j),
        decreases items.len() - i,
    {
        if items[i].filter(controller) && str_eq(items[i].name.as_str(), name.as_str()) {
            assert(owned_class_named(classes@.items, controller@, name@, i as int));
            return true;
        }
        assert(!owned_class_named(classes@.items, controller@, name@, i as int));
        i += 1;
    }
    assert(!watch_allows(ingress@, classes@.items, controller@)) by {
        assert forall|n: Seq<char>, j: int|
            ingress@.class_name == Some(n) implies !owned_class_named(
            classes@.items,
            controller@,
            n,
            j,
        ) by {
            assert(n == name@);
        }
    }
    false
}

/// Class ownership filter: a routing object whose class reference resolves
/// to a class owned by another controller is classified as not owned, and
/// is never bound to any tunnel.
pub proof fn lemma_foreign_class_never_bound(
    ingress: IngressView,
    classes: IngressClassStoreView,
    tunnels: TunnelStoreView,
    controller: Seq<char>,
    n: Seq<char>,
)
    requires
        ingress.class_name == Some(n),
        classes.ready,
        class_has_name(classes.items, n),
        !class_at_name(classes.items, n).owned_by(controller),
    ensures
        resolve_model(ingress, classes, tunnels, controller) == OutcomeView::NotOwned,
{
}

/// Class ownership filter, watch side: a routing object is bound only
/// when it has no class reference at all, or its referenced class is
/// observed and names this controller as its owner.
pub proof fn lemma_bound_only_when_owned(
    ingress: IngressView,
    classes: IngressClassStoreView,
    tunnels: TunnelStoreView,
    controller: Seq<char>,
)
    ensures
        ingress.class_name matches Some(n) ==> ((resolve_model(ingress, classes, tunnels, controller)
            is Bound) ==> (classes.ready && class_has_name(classes.items, n) && class_at_name(
            classes.items,
            n,
        ).owned_by(controller))),
{
}

/// Class ownership filter, watch side: a routing object whose referenced
/// class is nowhere owned by this controller never passes the watch
/// filter, so this engine never reconciles it.
pub proof fn lemma_foreign_class_not_watched(
    ingress: IngressView,
    classes: Seq<IngressClassView>,
    controller: Seq<char>,
    n: Seq<char>,
)
    requires
        ingress.class_name == Some(n),
        forall|j: int|
            0 <= j < classes.len() ==> !((#[trigger] classes[j]).name == n && classes[j].owned_by(
                controller,
            )),
    ensures
        !watch_allows(ingress, classes, controller),
{
    assert forall|m: Seq<char>, j: int|
        ingress.class_name == Some(m) implies !owned_class_named(classes, controller, m, j) by {
        assert(m == n);
    }
}

/// Readiness gating: before the class store has seen its first full
/// relist, an object with a class reference is told to wait — it is never
/// classified as not owned on the strength of an unwarmed cache, and only
/// a ready store can yield that classification.
pub proof fn lemma_readiness_gates_classification(
    ingress: IngressView,
    classes: IngressClassStoreView,
    tunnels: TunnelStoreView,
    controller: Seq<char>,
)
    ensures
        (!classes.ready && ingress.class_name is Some) ==> resolve_model(
            ingress,
            classes,
            tunnels,
            controller,
        ) == OutcomeView::AwaitingClass,
        resolve_model(ingress, classes, tunnels, controller) == OutcomeView::NotOwned
            ==> classes.ready,
{
}

} // verus!
