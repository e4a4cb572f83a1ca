//! Credentials resources and the authentication material derived from them.

use crate::policy::{Error, ErrorView};
use vstd::prelude::*;

verus! {

use vstd::string::StringExecFns;

/// How the remote tunnel service is authenticated against: a bearer token,
/// an email/key pair, or a service key.
#[derive(Debug, PartialEq)]
pub enum AuthKind {
    UserAuthToken(String),
    UserAuthKey { email: String, key: String },
    ServiceKey(String),
}

/// Mathematical model of [`AuthKind`].
pub enum AuthKindView {
    UserAuthToken(Seq<char>),
    UserAuthKey { email: Seq<char>, key: Seq<char> },
    ServiceKey(Seq<char>),
}

impl View for AuthKind {
    type V = AuthKindView;

    open spec fn view(&self) -> AuthKindView {
        match self {
            AuthKind::UserAuthToken(token) => AuthKindView::UserAuthToken(token@),
            AuthKind::UserAuthKey { email, key } => AuthKindView::UserAuthKey {
                email: email@,
                key: key@,
            },
            AuthKind::ServiceKey(key) => AuthKindView::ServiceKey(key@),
        }
    }
}

impl DeepView for AuthKind {
    type V = AuthKindView;

    open spec fn deep_view(&self) -> AuthKindView {
        self.view()
    }
}

impl AuthKind {
    /// An identical copy of the authentication material.
    pub fn duplicate(&self) -> (r: AuthKind)
        ensures
            r@ == self@,
    {
        match self {
            AuthKind::UserAuthToken(token) => AuthKind::UserAuthToken(token.clone()),
            AuthKind::UserAuthKey { email, key } => AuthKind::UserAuthKey {
                email: email.clone(),
                key: key.clone(),
            },
            AuthKind::ServiceKey(key) => AuthKind::ServiceKey(key.clone()),
        }
    }
}

/// Desired state of a credentials resource: the remote account it belongs
/// to and the authentication material for that account.
#[derive(Debug, PartialEq)]
pub struct CredentialsCrd {
    pub account_id: String,
    pub auth: AuthKind,
}

/// Mathematical model of [`CredentialsCrd`].
pub struct CredentialsCrdView {
    pub account_id: Seq<char>,
    pub auth: AuthKindView,
}

impl View for CredentialsCrd {
    type V = CredentialsCrdView;

    open spec fn view(&self) -> CredentialsCrdView {
        CredentialsCrdView { account_id: self.account_id@, auth: self.auth@ }
    }
}

impl DeepView for CredentialsCrd {
    type V = CredentialsCrdView;

    open spec fn deep_view(&self) -> CredentialsCrdView {
        self.view()
    }
}

/// The `(account identifier, auth method)` pair handed to the remote API
/// client.
#[derive(Debug, PartialEq)]
pub struct Auth {
    pub account_id: String,
    pub kind: AuthKind,
}

/// Mathematical model of [`Auth`].
pub struct AuthView {
    pub account_id: Seq<char>,
    pub kind: AuthKindView,
}

impl View for Auth {
    type V = AuthView;

    open spec fn view(&self) -> AuthView {
        AuthView { account_id: self.account_id@, kind: self.kind@ }
    }
}

impl DeepView for Auth {
    type V = AuthView;

    open spec fn deep_view(&self) -> AuthView {
        self.view()
    }
}

impl Auth {
    /// An identical copy of the authentication pair.
    pub fn duplicate(&self) -> (r: Auth)
        ensures
            r@ == self@,
    {
        Auth { account_id: self.account_id.clone(), kind: self.kind.duplicate() }
    }
}

/// The authentication pair that a credentials resource resolves to.
pub open spec fn auth_of(c: CredentialsCrdView) -> AuthView {
    AuthView { account_id: c.account_id, kind: c.auth }
}

impl From<CredentialsCrd> for Auth {
    fn from(c: CredentialsCrd) -> (r: Auth) {
        Auth { account_id: c.account_id, kind: c.auth }
    }
}

impl vstd::std_specs::convert::FromSpecImpl<CredentialsCrd> for Auth {
    open spec fn obeys_from_spec() -> bool {
        true
    }

    open spec fn from_spec(c: CredentialsCrd) -> Auth {
        Auth { account_id: c.account_id, kind: c.auth }
    }
}

/// Outcome of looking the named credentials object up: an absent object is
/// the distinguished missing-credentials error, a present one resolves to
/// its authentication pair.
pub open spec fn credentials_outcome(name: Seq<char>, fetched: Option<CredentialsCrdView>) -> Result<
    AuthView,
    ErrorView,
> {
    match fetched {
        Some(c) => Ok(auth_of(c)),
        None => Err(ErrorView::MissingCredentials(name)),
    }
}

/// The model of a resolution result.
pub open spec fn auth_result_view(r: Result<Auth, Error>) -> Result<AuthView, ErrorView> {
    match r {
        Ok(a) => Ok(a@),
        Err(e) => Err(e@),
    }
}

/// Resolves a named credentials object, as the cluster returned it, into
/// the authentication pair used against the remote API.
pub fn get_credentials(name: &String, fetched: Option<CredentialsCrd>) -> (r: Result<Auth, Error>)
    ensures
        auth_result_view(r) == credentials_outcome(name@, fetched.deep_view()),
{
    match fetched {
        Some(c) => Ok(Auth { account_id: c.account_id, kind: c.auth }),
        None => Err(Error::MissingCredentials(name.clone())),
    }
}

/// The HTTP headers that authenticate a request, in order: an email/key
/// pair sends the two auth headers, a service key its own header, and a
/// token a bearer authorization.
pub open spec fn auth_header_model(kind: AuthKindView) -> Seq<(Seq<char>, Seq<char>)> {
    match kind {
        AuthKindView::UserAuthKey { email, key } => seq![
            ("X-Auth-Email"@, email),
            ("X-Auth-Key"@, key),
        ],
        AuthKindView::ServiceKey(key) => seq![("X-Auth-User-Service-Key"@, key)],
        AuthKindView::UserAuthToken(token) => seq![("Authorization"@, "Bearer "@ + token)],
    }
}

/// Renders the authentication material as HTTP header name/value pairs.
pub fn auth_headers(kind: &AuthKind) -> (r: Vec<(String, String)>)
    ensures
        r.deep_view() == auth_header_model(kind@),
{
    let mut headers: Vec<(String, String)> = Vec::new();
    match kind {
        AuthKind::UserAuthKey { email, key } => {
            headers.push((String::from_str("X-Auth-Email"), email.clone()));
            headers.push((String::from_str("X-Auth-Key"), key.clone()));
        },
        AuthKind::ServiceKey(key) => {
            headers.push((String::from_str("X-Auth-User-Service-Key"), key.clone()));
        },
        AuthKind::UserAuthToken(token) => {
            let bearer = String::from_str("Bearer ").concat(token.as_str());
            headers.push((String::from_str("Authorization"), bearer));
        },
    }
    assert(headers.deep_view() =~= auth_header_model(kind@));
    headers
}

} // verus!
