//! Reconcile outcomes, the error taxonomy and the retry policy.

use vstd::prelude::*;

verus! {

/// Steady-state interval, in seconds, between two reconciles of a healthy
/// object.
pub const RECONCILE_TIMER: u64 = 60;

/// Long retry interval, in seconds, used when the referenced credentials
/// object is missing: only operator action can mend that.
pub const MISSING_CREDENTIALS_RETRY_SECONDS: u64 = 120;

/// Short retry interval, in seconds, for every other reconcile failure.
pub const ERROR_RETRY_SECONDS: u64 = 30;

/// Retry interval, in seconds, of the routing-object reconciler.
pub const INGRESS_RETRY_SECONDS: u64 = 60;

/// What the work queue should do with an object after a reconcile.
#[derive(Clone, Copy, Debug, PartialEq, Eq, Structural)]
pub enum Action {
    /// Reconcile again after this many seconds.
    Requeue(u64),
    /// Do not schedule a timer; wait for the next change to the object.
    AwaitChange,
}

/// A failure reported by the remote tunnel service.
#[derive(Clone, Copy, Debug, PartialEq, Eq, Structural)]
pub enum RemoteFailure {
    /// A response with a non-success HTTP status code.
    Status(u16),
    /// A success status whose body could not be understood.
    Invalid,
}

/// All errors possible to occur during reconciliation.
#[derive(Debug, PartialEq)]
pub enum Error {
    /// The cluster API reported an error.
    KubeError,
    /// The remote tunnel API returned an error.
    CloudflareApiFailure(RemoteFailure),
    /// A namespaced resource was reconciled without a namespace.
    MissingNamespace,
    /// The referenced credentials object does not exist.
    MissingCredentials(String),
    /// No single tunnel is flagged as the default.
    MissingDefaultTunnel,
    /// An owned class references a resource kind this controller does not
    /// manage.
    InvalidIngressClassParameters(String),
}

/// Mathematical model of [`Error`].
pub enum ErrorView {
    KubeError,
    CloudflareApiFailure(RemoteFailure),
    MissingNamespace,
    MissingCredentials(Seq<char>),
    MissingDefaultTunnel,
    InvalidIngressClassParameters(Seq<char>),
}

impl View for Error {
    type V = ErrorView;

    open spec fn view(&self) -> ErrorView {
        match self {
            Error::KubeError => ErrorView::KubeError,
            Error::CloudflareApiFailure(f) => ErrorView::CloudflareApiFailure(*f),
            Error::MissingNamespace => ErrorView::MissingNamespace,
            Error::MissingCredentials(name) => ErrorView::MissingCredentials(name@),
            Error::MissingDefaultTunnel => ErrorView::MissingDefaultTunnel,
            Error::InvalidIngressClassParameters(reason) => ErrorView::InvalidIngressClassParameters(
                reason@,
            ),
        }
    }
}

impl DeepView for Error {
    type V = ErrorView;

    open spec fn deep_view(&self) -> ErrorView {
        self.view()
    }
}

/// The retry delay that a failed tunnel reconcile earns: the long interval
/// for missing credentials, the short interval for everything else.
pub open spec fn retry_action(e: ErrorView) -> Action {
    match e {
        ErrorView::MissingCredentials(_) => Action::Requeue(MISSING_CREDENTIALS_RETRY_SECONDS),
        _ => Action::Requeue(ERROR_RETRY_SECONDS),
    }
}

/// Chooses the requeue delay after a failed tunnel reconcile.
pub fn on_err(error: &Error) -> (a: Action)
    ensures
        a == retry_action(error@),
{
    match error {
        Error::MissingCredentials(_) => Action::Requeue(MISSING_CREDENTIALS_RETRY_SECONDS),
        _ => Action::Requeue(ERROR_RETRY_SECONDS),
    }
}

/// Whether an HTTP status code from the remote tunnel service reports
/// success: a successful response carries the result, any other one a
/// remote failure.
pub fn is_success_status(code: u16) -> (r: bool)
    ensures
        r == (200 <= code < 300),
{
    200 <= code && code < 300
}

/// Chooses the requeue delay after a failed routing-object reconcile: a
/// fixed short interval, whatever the error.
pub fn error_policy(_error: &Error) -> (a: Action)
    ensures
        a == Action::Requeue(INGRESS_RETRY_SECONDS),
{
    Action::Requeue(INGRESS_RETRY_SECONDS)
}

} // verus!
