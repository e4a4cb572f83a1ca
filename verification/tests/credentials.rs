use tunnel_operator::credentials::{auth_headers, get_credentials, Auth, AuthKind, CredentialsCrd};
use tunnel_operator::policy::{is_success_status, Action, Error};
use tunnel_operator::strings::{is_true_value, str_eq};
use tunnel_operator::tunnel_ingress::{on_err, reconciler, TunnelIngressCrd};

#[test]
fn found_credentials_resolve_to_the_account_and_auth_pair() {
    let fetched = Some(CredentialsCrd {
        account_id: "acct-1".to_string(),
        auth: AuthKind::ServiceKey("sk".to_string()),
    });
    let r = get_credentials(&"c1".to_string(), fetched);
    assert_eq!(
        r,
        Ok(Auth { account_id: "acct-1".to_string(), kind: AuthKind::ServiceKey("sk".to_string()) })
    );
}

#[test]
fn absent_credentials_are_the_distinguished_error() {
    let r = get_credentials(&"c1".to_string(), None);
    assert_eq!(r, Err(Error::MissingCredentials("c1".to_string())));
}

#[test]
fn conversion_from_the_resource_keeps_account_and_auth() {
    let crd = CredentialsCrd {
        account_id: "acct-2".to_string(),
        auth: AuthKind::UserAuthKey { email: "a@b.c".to_string(), key: "k".to_string() },
    };
    let auth = Auth::from(crd);
    assert_eq!(auth.account_id, "acct-2".to_string());
    assert_eq!(
        auth.kind,
        AuthKind::UserAuthKey { email: "a@b.c".to_string(), key: "k".to_string() }
    );
}

#[test]
fn token_auth_becomes_a_bearer_authorization_header() {
    let headers = auth_headers(&AuthKind::UserAuthToken("abc123".to_string()));
    assert_eq!(
        headers,
        vec![("Authorization".to_string(), "Bearer abc123".to_string())]
    );
}

#[test]
fn email_key_auth_becomes_the_two_auth_headers() {
    let headers = auth_headers(&AuthKind::UserAuthKey {
        email: "user@example.com".to_string(),
        key: "key-1".to_string(),
    });
    assert_eq!(
        headers,
        vec![
            ("X-Auth-Email".to_string(), "user@example.com".to_string()),
            ("X-Auth-Key".to_string(), "key-1".to_string()),
        ]
    );
}

#[test]
fn service_key_auth_becomes_its_own_header() {
    let headers = auth_headers(&AuthKind::ServiceKey("svc-key".to_string()));
    assert_eq!(
        headers,
        vec![("X-Auth-User-Service-Key".to_string(), "svc-key".to_string())]
    );
}

#[test]
fn string_equality_is_character_wise() {
    assert!(str_eq("", ""));
    assert!(str_eq("abc", "abc"));
    assert!(!str_eq("abc", "abd"));
    assert!(!str_eq("abc", "abcd"));
    assert!(str_eq("naïve", "naïve"));
}

#[test]
fn the_true_marker_ignores_letter_case_only() {
    assert!(is_true_value("true"));
    assert!(is_true_value("True"));
    assert!(is_true_value("TRUE"));
    assert!(is_true_value("tRuE"));
    assert!(!is_true_value("false"));
    assert!(!is_true_value("tru"));
    assert!(!is_true_value("truee"));
    assert!(!is_true_value(""));
}

#[test]
fn success_statuses_are_the_two_hundreds() {
    assert!(!is_success_status(199));
    assert!(is_success_status(200));
    assert!(is_success_status(204));
    assert!(is_success_status(299));
    assert!(!is_success_status(300));
    assert!(!is_success_status(404));
}

#[test]
fn tunnel_ingress_passes_requeue_on_the_long_timer() {
    let route = TunnelIngressCrd {
        tunnel: "t1".to_string(),
        hostname: Some("app.example.com".to_string()),
        origin_request: None,
        path: None,
        service: "http://web:8080".to_string(),
    };
    assert_eq!(reconciler(&route), Action::Requeue(3000));
    assert_eq!(on_err(&route, &Error::KubeError), Action::Requeue(3000));
}
