//! The per-tunnel lifecycle state machine.
//!
//! A reconcile is a run of this machine: from [`Step::Init`] it decides,
//! purely from the object's current revision and the response to the
//! previous effect, which [`Effect`] the driver must perform next. The
//! driver executes the effect against the cluster or the remote tunnel
//! service and feeds the outcome back as an [`Event`]; the run ends in a
//! [`Step::Done`] holding the reconcile's outcome.

use crate::crd::{clone_opt_string, Tunnel, TunnelView};
use crate::credentials::{
    auth_of, Auth, AuthView, CredentialsCrd, CredentialsCrdView,
};
use crate::policy::{Action, Error, ErrorView, RemoteFailure, RECONCILE_TIMER};
use vstd::prelude::*;

verus! {

use vstd::pervasive::unreached;

/// The lifecycle action a tunnel object calls for, derived from its two
/// metadata markers: requested deletion wins, an absent lifecycle
/// finalizer means the object is still being created, and otherwise the
/// object only needs its steady-state pass.
#[derive(Clone, Copy, Debug, PartialEq, Eq, Structural)]
pub enum TunnelAction {
    Delete,
    Create,
    Sync,
}

/// The action derived from an object revision.
pub open spec fn action_of(t: TunnelView) -> TunnelAction {
    if t.deletion_requested() {
        TunnelAction::Delete
    } else if !t.has_lifecycle_finalizer() {
        TunnelAction::Create
    } else {
        TunnelAction::Sync
    }
}

impl From<&Tunnel> for TunnelAction {
    fn from(t: &Tunnel) -> (r: TunnelAction) {
        if t.metadata.deletion_timestamp.is_some() {
            TunnelAction::Delete
        } else if !t.has_lifecycle_finalizer() {
            TunnelAction::Create
        } else {
            TunnelAction::Sync
        }
    }
}

impl vstd::std_specs::convert::FromSpecImpl<&Tunnel> for TunnelAction {
    open spec fn obeys_from_spec() -> bool {
        true
    }

    open spec fn from_spec(t: &Tunnel) -> TunnelAction {
        action_of(t@)
    }
}

/// What the driver must do next on behalf of the machine.
#[derive(Debug, PartialEq)]
pub enum Effect {
    /// Look the named credentials object up in the cluster.
    FetchCredentials { name: String },
    /// Fetch the remote tunnel with the known id.
    RemoteGetTunnel { auth: Auth, id: u128 },
    /// Create a remote tunnel under the object's name, with the optional
    /// caller-supplied secret and remotely managed configuration.
    RemoteCreateTunnel { auth: Auth, name: String, secret: Option<String> },
    /// Merge-patch only the remote id into the cluster object.
    PatchRemoteId { name: String, namespace: String, id: u128 },
    /// Fetch a fresh connection token for the remote tunnel.
    RemoteGetToken { auth: Auth, id: u128 },
    /// Create the owned runtime secret and agent workload.
    CreateOwnedResources {
        name: String,
        namespace: String,
        image: String,
        replicas: i32,
        labels: Vec<(String, String)>,
        secret_key: String,
        token: String,
    },
    /// Merge-patch the lifecycle finalizer onto the object.
    AddFinalizer { name: String, namespace: String },
    /// Delete the remote tunnel, cascading into its dependents.
    RemoteDeleteTunnel { auth: Auth, id: u128 },
    /// Delete the owned workload and secret.
    DeleteOwnedResources { name: String, namespace: String },
    /// Merge-patch the finalizer list away, releasing the object to the
    /// garbage collector.
    RemoveFinalizer { name: String, namespace: String },
}

/// Mathematical model of [`Effect`].
pub enum EffectView {
    FetchCredentials { name: Seq<char> },
    RemoteGetTunnel { auth: AuthView, id: u128 },
    RemoteCreateTunnel { auth: AuthView, name: Seq<char>, secret: Option<Seq<char>> },
    PatchRemoteId { name: Seq<char>, namespace: Seq<char>, id: u128 },
    RemoteGetToken { auth: AuthView, id: u128 },
    CreateOwnedResources {
        name: Seq<char>,
        namespace: Seq<char>,
        image: Seq<char>,
        replicas: i32,
        labels: Seq<(Seq<char>, Seq<char>)>,
        secret_key: Seq<char>,
        token: Seq<char>,
    },
    AddFinalizer { name: Seq<char>, namespace: Seq<char> },
    RemoteDeleteTunnel { auth: AuthView, id: u128 },
    DeleteOwnedResources { name: Seq<char>, namespace: Seq<char> },
    RemoveFinalizer { name: Seq<char>, namespace: Seq<char> },
}

impl View for Effect {
    type V = EffectView;

    open spec fn view(&self) -> EffectView {
        match self {
            Effect::FetchCredentials { name } => EffectView::FetchCredentials { name: name@ },
            Effect::RemoteGetTunnel { auth, id } => EffectView::RemoteGetTunnel {
                auth: auth@,
                id: *id,
            },
            Effect::RemoteCreateTunnel { auth, name, secret } => EffectView::RemoteCreateTunnel {
                auth: auth@,
                name: name@,
                secret: secret.deep_view(),
            },
            Effect::PatchRemoteId { name, namespace, id } => EffectView::PatchRemoteId {
                name: name@,
                namespace: namespace@,
                id: *id,
            },
            Effect::RemoteGetToken { auth, id } => EffectView::RemoteGetToken {
                auth: auth@,
                id: *id,
            },
            Effect::CreateOwnedResources {
                name,
                namespace,
                image,
                replicas,
                labels,
                secret_key,
                token,
            } => EffectView::CreateOwnedResources {
                name: name@,
                namespace: namespace@,
                image: image@,
                replicas: *replicas,
                labels: labels.deep_view(),
                secret_key: secret_key@,
                token: token@,
            },
            Effect::AddFinalizer { name, namespace } => EffectView::AddFinalizer {
                name: name@,
                namespace: namespace@,
            },
            Effect::RemoteDeleteTunnel { auth, id } => EffectView::RemoteDeleteTunnel {
                auth: auth@,
                id: *id,
            },
            Effect::DeleteOwnedResources { name, namespace } => EffectView::DeleteOwnedResources {
                name: name@,
                namespace: namespace@,
            },
            Effect::RemoveFinalizer { name, namespace } => EffectView::RemoveFinalizer {
                name: name@,
                namespace: namespace@,
            },
        }
    }
}

impl DeepView for Effect {
    type V = EffectView;

    open spec fn deep_view(&self) -> EffectView {
        self.view()
    }
}

/// What the driver observed when performing the previous effect.
#[derive(Debug, PartialEq)]
pub enum Event {
    /// The credentials object was found.
    CredsOk(CredentialsCrd),
    /// The credentials object does not exist.
    CredsAbsent,
    /// The remote service returned the tunnel's id, from a create or a
    /// fetch.
    RemoteIdOk(u128),
    /// The remote service confirmed the tunnel's deletion.
    RemoteDeleted,
    /// The remote service returned a connection token.
    TokenOk(String),
    /// The remote service failed the request.
    RemoteFailed(RemoteFailure),
    /// The cluster operation succeeded.
    KubeOk,
    /// The cluster operation failed with this status code.
    KubeErr(u16),
}

/// Mathematical model of [`Event`].
pub enum EventView {
    CredsOk(CredentialsCrdView),
    CredsAbsent,
    RemoteIdOk(u128),
    RemoteDeleted,
    TokenOk(Seq<char>),
    RemoteFailed(RemoteFailure),
    KubeOk,
    KubeErr(u16),
}

impl View for Event {
    type V = EventView;

    open spec fn view(&self) -> EventView {
        match self {
            Event::CredsOk(c) => EventView::CredsOk(c@),
            Event::CredsAbsent => EventView::CredsAbsent,
            Event::RemoteIdOk(id) => EventView::RemoteIdOk(*id),
            Event::RemoteDeleted => EventView::RemoteDeleted,
            Event::TokenOk(t) => EventView::TokenOk(t@),
            Event::RemoteFailed(f) => EventView::RemoteFailed(*f),
            Event::KubeOk => EventView::KubeOk,
            Event::KubeErr(code) => EventView::KubeErr(*code),
        }
    }
}

impl DeepView for Event {
    type V = EventView;

    open spec fn deep_view(&self) -> EventView {
        self.view()
    }
}

/// Where a reconcile run stands.
#[derive(Debug, PartialEq)]
pub enum Step {
    /// Nothing decided yet.
    Init,
    /// Creation: waiting for the credentials lookup.
    CreateCredentials,
    /// Creation: waiting for the remote tunnel to be fetched or created.
    CreateRemote { auth: Auth },
    /// Creation after a fresh remote create: waiting for the id patch.
    CreatePatch,
    /// Creation: waiting for the connection token.
    CreateToken,
    /// Creation: waiting for the owned resources to be created.
    CreateOwned,
    /// Creation: waiting for the finalizer patch.
    CreateFinalizer,
    /// Deletion: waiting for the credentials lookup.
    DeleteCredentials { id: u128 },
    /// Deletion: waiting for the remote delete.
    DeleteRemote,
    /// Deletion: waiting for the owned resources to be deleted.
    DeleteOwned,
    /// Deletion: waiting for the finalizer removal.
    DeleteFinalizer,
    /// The run is over, with this outcome.
    Done(Result<Action, Error>),
}

/// Mathematical model of [`Step`].
pub enum StepView {
    Init,
    CreateCredentials,
    CreateRemote { auth: AuthView },
    CreatePatch,
    CreateToken,
    CreateOwned,
    CreateFinalizer,
    DeleteCredentials { id: u128 },
    DeleteRemote,
    DeleteOwned,
    DeleteFinalizer,
    Done(Result<Action, ErrorView>),
}

impl View for Step {
    type V = StepView;

    open spec fn view(&self) -> StepView {
        match self {
            Step::Init => StepView::Init,
            Step::CreateCredentials => StepView::CreateCredentials,
            Step::CreateRemote { auth } => StepView::CreateRemote { auth: auth@ },
            Step::CreatePatch => StepView::CreatePatch,
            Step::CreateToken => StepView::CreateToken,
            Step::CreateOwned => StepView::CreateOwned,
            Step::CreateFinalizer => StepView::CreateFinalizer,
            Step::DeleteCredentials { id } => StepView::DeleteCredentials { id: *id },
            Step::DeleteRemote => StepView::DeleteRemote,
            Step::DeleteOwned => StepView::DeleteOwned,
            Step::DeleteFinalizer => StepView::DeleteFinalizer,
            Step::Done(res) => StepView::Done(
                match res {
                    Ok(a) => Ok(*a),
                    Err(e) => Err(e@),
                },
            ),
        }
    }
}

impl DeepView for Step {
    type V = StepView;

    open spec fn deep_view(&self) -> StepView {
        self.view()
    }
}

/// A cluster error code on owned-resource creation that is tolerated:
/// the resource already exists, which a repeated creation step treats as
/// a no-op.
pub open spec fn owned_create_tolerated(code: u16) -> bool {
    code == 409
}

/// A cluster error code on owned-resource deletion that is tolerated:
/// the resource is already gone or access to the gone resource is
/// refused.
pub open spec fn owned_delete_tolerated(code: u16) -> bool {
    code == 403 || code == 404
}

/// A remote-delete failure that is swallowed: the remote side reports the
/// tunnel as not found or forbidden, so it is treated as already deleted.
pub open spec fn remote_delete_tolerated(f: RemoteFailure) -> bool {
    f matches RemoteFailure::Status(code) && (code == 404 || code == 403)
}

/// The object's namespace, or the empty name where it has none.
pub open spec fn ns_of(t: TunnelView) -> Seq<char> {
    match t.metadata.namespace {
        Some(ns) => ns,
        None => Seq::empty(),
    }
}

/// The default agent image, used when the object names none.
pub open spec fn default_image() -> Seq<char> {
    "cloudflare/cloudflared:latest"@
}

/// The image the agent workload runs.
pub open spec fn effective_image_model(image: Option<Seq<char>>) -> Seq<char> {
    match image {
        Some(i) => i,
        None => default_image(),
    }
}

/// Exec mirror of [`effective_image_model`].
pub fn effective_image(image: &Option<String>) -> (r: String)
    ensures
        r@ == effective_image_model(image.deep_view()),
{
    match image {
        Some(i) => i.clone(),
        None => String::from_str("cloudflare/cloudflared:latest"),
    }
}

/// The ownership-tracking labels put on owned resources.
pub open spec fn owned_labels_model(name: Seq<char>) -> Seq<(Seq<char>, Seq<char>)> {
    seq![
        ("app.kubernetes.io/name"@, name),
        ("app.kubernetes.io/managed-by"@, "cloudflare-tunnel-operator"@),
    ]
}

/// Exec mirror of [`owned_labels_model`].
pub fn owned_labels(name: &String) -> (r: Vec<(String, String)>)
    ensures
        r.deep_view() == owned_labels_model(name@),
{
    let mut r: Vec<(String, String)> = Vec::new();
    r.push((String::from_str("app.kubernetes.io/name"), name.clone()));
    r.push((
        String::from_str("app.kubernetes.io/managed-by"),
        String::from_str("cloudflare-tunnel-operator"),
    ));
    assert(r.deep_view() =~= owned_labels_model(name@));
    r
}

/// The key under which the owned secret carries the connection token.
pub open spec fn token_secret_key() -> Seq<char> {
    "TUNNEL_TOKEN"@
}

/// Which events answer the effect demanded in a step: the driver replies
/// to a credentials lookup with a credentials event, to a remote call
/// with a remote event, and to a cluster operation with a cluster event.
pub open spec fn step_expects(s: StepView, resp: Option<EventView>) -> bool {
    match s {
        StepView::Init => resp is None,
        StepView::CreateCredentials | StepView::DeleteCredentials { .. } => resp matches Some(e)
            && (e is CredsOk || e is CredsAbsent || e is KubeErr),
        StepView::CreateRemote { .. } => resp matches Some(e) && (e is RemoteIdOk
            || e is RemoteFailed),
        StepView::CreateToken => resp matches Some(e) && (e is TokenOk || e is RemoteFailed),
        StepView::DeleteRemote => resp matches Some(e) && (e is RemoteDeleted || e is RemoteFailed),
        StepView::CreatePatch | StepView::CreateOwned | StepView::CreateFinalizer
            | StepView::DeleteOwned | StepView::DeleteFinalizer => resp matches Some(e) && (
        e is KubeOk || e is KubeErr),
        StepView::Done(_) => false,
    }
}

/// The machine's transition function: from the object's revision, the
/// current step and the response to the previous effect, the next step
/// and the effect to perform, if any.
pub open spec fn next_step(t: TunnelView, s: StepView, resp: Option<EventView>) -> (
    StepView,
    Option<EffectView>,
) {
    match s {
        StepView::Init => {
            if t.metadata.namespace is None {
                (StepView::Done(Err(ErrorView::MissingNamespace)), None)
            } else {
                match action_of(t) {
                    TunnelAction::Delete => match t.spec.uuid {
                        Some(id) => (
                            StepView::DeleteCredentials { id },
                            Some(EffectView::FetchCredentials { name: t.spec.credentials }),
                        ),
                        None => (
                            StepView::DeleteOwned,
                            Some(
                                EffectView::DeleteOwnedResources {
                                    name: t.metadata.name,
                                    namespace: ns_of(t),
                                },
                            ),
                        ),
                    },
                    TunnelAction::Create => (
                        StepView::CreateCredentials,
                        Some(EffectView::FetchCredentials { name: t.spec.credentials }),
                    ),
                    TunnelAction::Sync => (
                        StepView::Done(Ok(Action::Requeue(RECONCILE_TIMER))),
                        None,
                    ),
                }
            }
        },
        StepView::CreateCredentials => match resp {
            Some(EventView::CredsOk(c)) => {
                let auth = auth_of(c);
                match t.spec.uuid {
                    Some(id) => (
                        StepView::CreateRemote { auth },
                        Some(EffectView::RemoteGetTunnel { auth, id }),
                    ),
                    None => (
                        StepView::CreateRemote { auth },
                        Some(
                            EffectView::RemoteCreateTunnel {
                                auth,
                                name: t.metadata.name,
                                secret: t.spec.tunnel_secret,
                            },
                        ),
                    ),
                }
            },
            Some(EventView::CredsAbsent) => (
                StepView::Done(Err(ErrorView::MissingCredentials(t.spec.credentials))),
                None,
            ),
            Some(EventView::KubeErr(_)) => (StepView::Done(Err(ErrorView::KubeError)), None),
            _ => arbitrary(),
        },
        StepView::CreateRemote { auth } => match resp {
            Some(EventView::RemoteIdOk(id)) => match t.spec.uuid {
                None => (
                    StepView::CreatePatch,
                    Some(
                        EffectView::PatchRemoteId {
                            name: t.metadata.name,
                            namespace: ns_of(t),
                            id,
                        },
                    ),
                ),
                Some(_) => (StepView::CreateToken, Some(EffectView::RemoteGetToken { auth, id })),
            },
            Some(EventView::RemoteFailed(f)) => (
                StepView::Done(Err(ErrorView::CloudflareApiFailure(f))),
                None,
            ),
            _ => arbitrary(),
        },
        StepView::CreatePatch => match resp {
            Some(EventView::KubeOk) => (StepView::Done(Ok(Action::Requeue(0))), None),
            Some(EventView::KubeErr(_)) => (StepView::Done(Err(ErrorView::KubeError)), None),
            _ => arbitrary(),
        },
        StepView::CreateToken => match resp {
            Some(EventView::TokenOk(token)) => (
                StepView::CreateOwned,
                Some(
                    EffectView::CreateOwnedResources {
                        name: t.metadata.name,
                        namespace: ns_of(t),
                        image: effective_image_model(t.spec.image),
                        replicas: t.spec.replicas,
                        labels: owned_labels_model(t.metadata.name),
                        secret_key: token_secret_key(),
                        token,
                    },
                ),
            ),
            Some(EventView::RemoteFailed(f)) => (
                StepView::Done(Err(ErrorView::CloudflareApiFailure(f))),
                None,
            ),
            _ => arbitrary(),
        },
        StepView::CreateOwned => match resp {
            Some(EventView::KubeOk) => (
                StepView::CreateFinalizer,
                Some(EffectView::AddFinalizer { name: t.metadata.name, namespace: ns_of(t) }),
            ),
            Some(EventView::KubeErr(code)) => {
                if owned_create_tolerated(code) {
                    (
                        StepView::CreateFinalizer,
                        Some(
                            EffectView::AddFinalizer { name: t.metadata.name, namespace: ns_of(t) },
                        ),
                    )
                } else {
                    (StepView::Done(Err(ErrorView::KubeError)), None)
                }
            },
            _ => arbitrary(),
        },
        StepView::CreateFinalizer => match resp {
            Some(EventView::KubeOk) => (
                StepView::Done(Ok(Action::Requeue(RECONCILE_TIMER))),
                None,
            ),
            Some(EventView::KubeErr(_)) => (StepView::Done(Err(ErrorView::KubeError)), None),
            _ => arbitrary(),
        },
        StepView::DeleteCredentials { id } => match resp {
            Some(EventView::CredsOk(c)) => (
                StepView::DeleteRemote,
                Some(EffectView::RemoteDeleteTunnel { auth: auth_of(c), id }),
            ),
            Some(EventView::CredsAbsent) => (
                StepView::Done(Err(ErrorView::MissingCredentials(t.spec.credentials))),
                None,
            ),
            Some(EventView::KubeErr(_)) => (StepView::Done(Err(ErrorView::KubeError)), None),
            _ => arbitrary(),
        },
        StepView::DeleteRemote => match resp {
            Some(EventView::RemoteDeleted) => (
                StepView::DeleteOwned,
                Some(
                    EffectView::DeleteOwnedResources {
                        name: t.metadata.name,
                        namespace: ns_of(t),
                    },
                ),
            ),
            Some(EventView::RemoteFailed(f)) => {
                if remote_delete_tolerated(f) {
                    (
                        StepView::DeleteOwned,
                        Some(
                            EffectView::DeleteOwnedResources {
                                name: t.metadata.name,
                                namespace: ns_of(t),
                            },
                        ),
                    )
                } else {
                    (StepView::Done(Err(ErrorView::CloudflareApiFailure(f))), None)
                }
            },
            _ => arbitrary(),
        },
        StepView::DeleteOwned => match resp {
            Some(EventView::KubeOk) => (
                StepView::DeleteFinalizer,
                Some(EffectView::RemoveFinalizer { name: t.metadata.name, namespace: ns_of(t) }),
            ),
            Some(EventView::KubeErr(code)) => {
                if owned_delete_tolerated(code) {
                    (
                        StepView::DeleteFinalizer,
                        Some(
                            EffectView::RemoveFinalizer {
                                name: t.metadata.name,
                                namespace: ns_of(t),
                            },
                        ),
                    )
                } else {
                    (StepView::Done(Err(ErrorView::KubeError)), None)
                }
            },
            _ => arbitrary(),
        },
        StepView::DeleteFinalizer => match resp {
            Some(EventView::KubeOk) => (StepView::Done(Ok(Action::AwaitChange)), None),
            Some(EventView::KubeErr(_)) => (StepView::Done(Err(ErrorView::KubeError)), None),
            _ => arbitrary(),
        },
        StepView::Done(_) => arbitrary(),
    }
}

/// The object's namespace; only called on steps past [`Step::Init`],
/// which exist only for namespaced objects.
fn namespace_of(t: &Tunnel) -> (r: &String)
    requires
        t@.metadata.namespace is Some,
    ensures
        t@.metadata.namespace == Some(r@),
        ns_of(t@) == r@,
{
    match &t.metadata.namespace {
        Some(ns) => ns,
        None => unreached(),
    }
}

/// Runs one transition of the machine: performs no side effect itself,
/// only decides the next step and the next effect.
pub fn reconcile_step(t: &Tunnel, s: Step, resp: Option<Event>) -> (r: (Step, Option<Effect>))
    requires
        step_expects(s@, resp.deep_view()),
        s@ is Init || t@.metadata.namespace is Some,
    ensures
        (r.0@, r.1.deep_view()) == next_step(t@, s@, resp.deep_view()),
{
    match s {
        Step::Init => {
            if t.metadata.namespace.is_none() {
                return (Step::Done(Err(Error::MissingNamespace)), None);
            }
            match TunnelAction::from(t) {
                TunnelAction::Delete => match t.get_uuid() {
                    Some(id) => (
                        Step::DeleteCredentials { id },
                        Some(Effect::FetchCredentials { name: t.spec.credentials.clone() }),
                    ),
                    None => (
                        Step::DeleteOwned,
                        Some(
                            Effect::DeleteOwnedResources {
                                name: t.metadata.name.clone(),
                                namespace: namespace_of(t).clone(),
                            },
                        ),
                    ),
                },
                TunnelAction::Create => (
                    Step::CreateCredentials,
                    Some(Effect::FetchCredentials { name: t.spec.credentials.clone() }),
                ),
                TunnelAction::Sync => (Step::Done(Ok(Action::Requeue(RECONCILE_TIMER))), None),
            }
        },
        Step::CreateCredentials => match resp {
            Some(Event::CredsOk(c)) => {
                let auth = Auth::from(c);
                match t.get_uuid() {
                    Some(id) => {
                        let eff = Effect::RemoteGetTunnel { auth: auth.duplicate(), id };
                        (Step::CreateRemote { auth }, Some(eff))
                    },
                    None => {
                        let eff = Effect::RemoteCreateTunnel {
                            auth: auth.duplicate(),
                            name: t.metadata.name.clone(),
                            secret: clone_opt_string(&t.spec.tunnel_secret),
                        };
                        (Step::CreateRemote { auth }, Some(eff))
                    },
                }
            },
            Some(Event::CredsAbsent) => (
                Step::Done(Err(Error::MissingCredentials(t.spec.credentials.clone()))),
                None,
            ),
            Some(Event::KubeErr(_)) => (Step::Done(Err(Error::KubeError)), None),
            _ => unreached(),
        },
        Step::CreateRemote { auth } => match resp {
            Some(Event::RemoteIdOk(id)) => match t.get_uuid() {
                None => (
                    Step::CreatePatch,
                    Some(
                        Effect::PatchRemoteId {
                            name: t.metadata.name.clone(),
                            namespace: namespace_of(t).clone(),
                            id,
                        },
                    ),
                ),
                Some(_) => (Step::CreateToken, Some(Effect::RemoteGetToken { auth, id })),
            },
            Some(Event::RemoteFailed(f)) => (
                Step::Done(Err(Error::CloudflareApiFailure(f))),
                None,
            ),
            _ => unreached(),
        },
        Step::CreatePatch => match resp {
            Some(Event::KubeOk) => (Step::Done(Ok(Action::Requeue(0))), None),
            Some(Event::KubeErr(_)) => (Step::Done(Err(Error::KubeError)), None),
            _ => unreached(),
        },
        Step::CreateToken => match resp {
            Some(Event::TokenOk(token)) => (
                Step::CreateOwned,
                Some(
                    Effect::CreateOwnedResources {
                        name: t.metadata.name.clone(),
                        namespace: namespace_of(t).clone(),
                        image: effective_image(&t.spec.image),
                        replicas: t.spec.replicas,
                        labels: owned_labels(&t.metadata.name),
                        secret_key: String::from_str("TUNNEL_TOKEN"),
                        token,
                    },
                ),
            ),
            Some(Event::RemoteFailed(f)) => (
                Step::Done(Err(Error::CloudflareApiFailure(f))),
                None,
            ),
            _ => unreached(),
        },
        Step::CreateOwned => match resp {
            Some(Event::KubeOk) => (
                Step::CreateFinalizer,
                Some(
                    Effect::AddFinalizer {
                        name: t.metadata.name.clone(),
                        namespace: namespace_of(t).clone(),
                    },
                ),
            ),
            Some(Event::KubeErr(code)) => {
                if code == 409 {
                    (
                        Step::CreateFinalizer,
                        Some(
                            Effect::AddFinalizer {
                                name: t.metadata.name.clone(),
                                namespace: namespace_of(t).clone(),
                            },
                        ),
                    )
                } else {
                    (Step::Done(Err(Error::KubeError)), None)
                }
            },
            _ => unreached(),
        },
        Step::CreateFinalizer => match resp {
            Some(Event::KubeOk) => (Step::Done(Ok(Action::Requeue(RECONCILE_TIMER))), None),
            Some(Event::KubeErr(_)) => (Step::Done(Err(Error::KubeError)), None),
            _ => unreached(),
        },
        Step::DeleteCredentials { id } => match resp {
            Some(Event::CredsOk(c)) => (
                Step::DeleteRemote,
                Some(Effect::RemoteDeleteTunnel { auth: Auth::from(c), id }),
            ),
            Some(Event::CredsAbsent) => (
                Step::Done(Err(Error::MissingCredentials(t.spec.credentials.clone()))),
                None,
            ),
            Some(Event::KubeErr(_)) => (Step::Done(Err(Error::KubeError)), None),
            _ => unreached(),
        },
        Step::DeleteRemote => match resp {
            Some(Event::RemoteDeleted) => (
                Step::DeleteOwned,
                Some(
                    Effect::DeleteOwnedResources {
                        name: t.metadata.name.clone(),
                        namespace: namespace_of(t).clone(),
                    },
                ),
            ),
            Some(Event::RemoteFailed(f)) => {
                let swallowed = match f {
                    RemoteFailure::Status(code) => code == 404 || code == 403,
                    RemoteFailure::Invalid => false,
                };
                if swallowed {
                    (
                        Step::DeleteOwned,
                        Some(
                            Effect::DeleteOwnedResources {
                                name: t.metadata.name.clone(),
                                namespace: namespace_of(t).clone(),
                            },
                        ),
                    )
                } else {
                    (Step::Done(Err(Error::CloudflareApiFailure(f))), None)
                }
            },
            _ => unreached(),
        },
        Step::DeleteOwned => match resp {
            Some(Event::KubeOk) => (
                Step::DeleteFinalizer,
                Some(
                    Effect::RemoveFinalizer {
                        name: t.metadata.name.clone(),
                        namespace: namespace_of(t).clone(),
                    },
                ),
            ),
            Some(Event::KubeErr(code)) => {
                if code == 403 || code == 404 {
                    (
                        Step::DeleteFinalizer,
                        Some(
                            Effect::RemoveFinalizer {
                                name: t.metadata.name.clone(),
                                namespace: namespace_of(t).clone(),
                            },
                        ),
                    )
                } else {
                    (Step::Done(Err(Error::KubeError)), None)
                }
            },
            _ => unreached(),
        },
        Step::DeleteFinalizer => match resp {
            Some(Event::KubeOk) => (Step::Done(Ok(Action::AwaitChange)), None),
            Some(Event::KubeErr(_)) => (Step::Done(Err(Error::KubeError)), None),
            _ => unreached(),
        },
        Step::Done(_) => unreached(),
    }
}

/// Idempotent create, first half: the machine asks the remote service to
/// create a tunnel only on behalf of an object that records no remote id.
/// A retry that observes the patched revision can therefore never create
/// a second remote tunnel for the same object.
pub proof fn lemma_remote_create_only_when_id_absent(
    t: TunnelView,
    s: StepView,
    resp: Option<EventView>,
)
    requires
        step_expects(s, resp),
    ensures
        (next_step(t, s, resp).1 matches Some(e) && e is RemoteCreateTunnel) ==> t.spec.uuid
            is None,
{
}

/// Idempotent create, second half: an object that already records its
/// remote id has the existing remote tunnel fetched, never recreated.
pub proof fn lemma_recovery_fetches_existing(t: TunnelView, c: CredentialsCrdView, id: u128)
    requires
        t.spec.uuid == Some(id),
    ensures
        next_step(t, StepView::CreateCredentials, Some(EventView::CredsOk(c))) == (
            StepView::CreateRemote { auth: auth_of(c) },
            Some(EffectView::RemoteGetTunnel { auth: auth_of(c), id }),
        ),
{
}

/// After a fresh remote create succeeds, the machine patches only the
/// remote id back into the object and stops the run at once with a
/// zero-delay requeue: the next run observes the persisted id before
/// doing anything else, so a crash right after remote creation can
/// neither lose the mapping nor create a duplicate.
pub proof fn lemma_fresh_create_patches_then_stops(t: TunnelView, auth: AuthView, id: u128)
    requires
        t.spec.uuid is None,
    ensures
        ({
            let (s1, e1) = next_step(
                t,
                StepView::CreateRemote { auth },
                Some(EventView::RemoteIdOk(id)),
            );
            &&& s1 == StepView::CreatePatch
            &&& e1 == Some(
                EffectView::PatchRemoteId { name: t.metadata.name, namespace: ns_of(t), id },
            )
            &&& next_step(t, s1, Some(EventView::KubeOk)) == (
                StepView::Done(Ok(Action::Requeue(0))),
                None::<EffectView>,
            )
        }),
{
}

/// Finalizer ordering, creation side: the machine asks for the lifecycle
/// finalizer only right after owned-resource creation succeeded, or
/// found the resources already in place.
pub proof fn lemma_finalizer_follows_owned_creation(
    t: TunnelView,
    s: StepView,
    resp: Option<EventView>,
)
    requires
        step_expects(s, resp),
    ensures
        (next_step(t, s, resp).1 matches Some(e) && e is AddFinalizer) ==> (s is CreateOwned && (
        resp == Some(EventView::KubeOk) || (resp matches Some(EventView::KubeErr(code))
            && owned_create_tolerated(code)))),
{
}

/// Finalizer ordering, deletion side: the finalizer is removed only right
/// after owned-resource deletion succeeded or found them already gone,
/// and owned-resource deletion is itself reached only once the remote
/// tunnel was deleted, was already gone, or never existed.
pub proof fn lemma_finalizer_removed_only_after_cleanup(
    t: TunnelView,
    s: StepView,
    resp: Option<EventView>,
)
    requires
        step_expects(s, resp),
    ensures
        (next_step(t, s, resp).1 matches Some(e) && e is RemoveFinalizer) ==> (s is DeleteOwned && (
        resp == Some(EventView::KubeOk) || (resp matches Some(EventView::KubeErr(code))
            && owned_delete_tolerated(code)))),
        (next_step(t, s, resp).0 is DeleteOwned) ==> ((s is Init && action_of(t)
            == TunnelAction::Delete && t.spec.uuid is None) || (s is DeleteRemote && (resp == Some(
            EventView::RemoteDeleted,
        ) || (resp matches Some(EventView::RemoteFailed(f)) && remote_delete_tolerated(f))))),
{
}

/// The remote id is written at most once: the machine patches it only
/// into an object that records none, so an id once set is never
/// reassigned.
pub proof fn lemma_remote_id_written_once(t: TunnelView, s: StepView, resp: Option<EventView>)
    requires
        step_expects(s, resp),
    ensures
        (next_step(t, s, resp).1 matches Some(e) && e is PatchRemoteId) ==> t.spec.uuid is None,
{
}

/// An object whose deletion was requested never re-acquires remote state:
/// its run starts straight into the teardown path, asking at most for the
/// credentials lookup or the owned-resource deletion.
pub proof fn lemma_deletion_never_reacquires_remote(t: TunnelView)
    requires
        t.deletion_requested(),
        t.metadata.namespace is Some,
    ensures
        ({
            let (s1, e1) = next_step(t, StepView::Init, None);
            &&& (s1 is DeleteCredentials || s1 is DeleteOwned)
            &&& (e1 matches Some(e) ==> (e is FetchCredentials || e is DeleteOwnedResources))
        }),
{
}

/// Delete idempotence: when the remote side reports the tunnel as not
/// found or forbidden, the failure is swallowed, cleanup proceeds, and
/// the run still ends with the finalizer removed and no further timer —
/// the object is never left stuck.
pub proof fn lemma_delete_idempotent_when_remote_gone(t: TunnelView, f: RemoteFailure)
    requires
        remote_delete_tolerated(f),
    ensures
        ({
            let (s1, e1) = next_step(t, StepView::DeleteRemote, Some(EventView::RemoteFailed(f)));
            let (s2, e2) = next_step(t, s1, Some(EventView::KubeOk));
            &&& s1 == StepView::DeleteOwned
            &&& e1 == Some(
                EffectView::DeleteOwnedResources { name: t.metadata.name, namespace: ns_of(t) },
            )
            &&& s2 == StepView::DeleteFinalizer
            &&& e2 == Some(
                EffectView::RemoveFinalizer { name: t.metadata.name, namespace: ns_of(t) },
            )
            &&& next_step(t, s2, Some(EventView::KubeOk)) == (
                StepView::Done(Ok(Action::AwaitChange)),
                None::<EffectView>,
            )
        }),
{
}

/// Whether a reconcile run is over.
pub fn reconcile_done(s: &Step) -> (r: bool)
    ensures
        r == (s@ is Done),
{
    match s {
        Step::Done(_) => true,
        _ => false,
    }
}

} // verus!
