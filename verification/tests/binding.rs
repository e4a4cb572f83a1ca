use tunnel_operator::binding::{
    ingress_controller_name, ingress_reconcile, ingress_watch_allowed, resolve, Outcome,
};
use tunnel_operator::crd::{
    Ingress, IngressClass, IngressClassParams, Meta, Scope, Tunnel, TunnelCrd,
};
use tunnel_operator::policy::{error_policy, Action, Error};
use tunnel_operator::store::{IngressClassStore, TunnelStore};

fn stored_tunnel(name: &str, namespace: &str, uuid: Option<u128>, default: bool) -> Tunnel {
    Tunnel {
        metadata: Meta {
            name: name.to_string(),
            namespace: Some(namespace.to_string()),
            annotations: if default {
                vec![("cloudflare.ar2ro.io/default-tunnel".to_string(), "true".to_string())]
            } else {
                Vec::new()
            },
            finalizers: None,
            deletion_timestamp: None,
        },
        spec: TunnelCrd {
            uuid,
            replicas: 1,
            credentials: "c1".to_string(),
            image: None,
            tunnel_secret: None,
            tags: None,
        },
    }
}

fn ingress_with_class(class: Option<&str>) -> Ingress {
    Ingress {
        name: "web".to_string(),
        namespace: Some("ns1".to_string()),
        class_name: class.map(|s| s.to_string()),
    }
}

fn owned_class(name: &str, params: Option<IngressClassParams>) -> IngressClass {
    IngressClass {
        name: name.to_string(),
        controller: Some("cloudflare.ar2ro.io/ingress-controller".to_string()),
        parameters: params,
    }
}

fn tunnel_params(scope: Option<Scope>, namespace: Option<&str>, name: &str) -> IngressClassParams {
    IngressClassParams {
        api_group: None,
        kind: "Tunnel".to_string(),
        name: name.to_string(),
        namespace: namespace.map(|s| s.to_string()),
        scope,
    }
}

fn ready_tunnels(items: Vec<Tunnel>) -> TunnelStore {
    let mut s = TunnelStore::new();
    s.replace_all(items);
    s
}

fn ready_classes(items: Vec<IngressClass>) -> IngressClassStore {
    let mut s = IngressClassStore::new();
    s.replace_all(items);
    s
}

#[test]
fn classless_ingress_with_no_default_is_unbound() {
    let tunnels = ready_tunnels(vec![stored_tunnel("t1", "ns1", Some(1), false)]);
    let classes = ready_classes(Vec::new());
    let i = ingress_with_class(None);
    let r = resolve(&i, &classes, &tunnels, ingress_controller_name());
    assert_eq!(r, Outcome::Unbound);
}

#[test]
fn classless_ingress_with_two_defaults_is_unbound_too() {
    let tunnels = ready_tunnels(vec![
        stored_tunnel("t1", "ns1", Some(1), true),
        stored_tunnel("t2", "ns1", Some(2), true),
    ]);
    let classes = ready_classes(Vec::new());
    let i = ingress_with_class(None);
    let r = resolve(&i, &classes, &tunnels, ingress_controller_name());
    assert_eq!(r, Outcome::Unbound);
}

#[test]
fn classless_ingress_binds_to_the_single_default() {
    let tunnels = ready_tunnels(vec![
        stored_tunnel("t1", "ns1", Some(1), false),
        stored_tunnel("t2", "ns1", Some(2), true),
    ]);
    let classes = ready_classes(Vec::new());
    let i = ingress_with_class(None);
    match resolve(&i, &classes, &tunnels, ingress_controller_name()) {
        Outcome::Bound(t) => assert_eq!(t.metadata.name, "t2".to_string()),
        other => panic!("unexpected outcome: {:?}", other),
    }
}

#[test]
fn default_flag_annotation_is_case_insensitive() {
    let mut t = stored_tunnel("t1", "ns1", Some(1), false);
    t.metadata.annotations =
        vec![("cloudflare.ar2ro.io/default-tunnel".to_string(), "True".to_string())];
    let tunnels = ready_tunnels(vec![t]);
    let classes = ready_classes(Vec::new());
    let i = ingress_with_class(None);
    assert!(matches!(
        resolve(&i, &classes, &tunnels, ingress_controller_name()),
        Outcome::Bound(_)
    ));
}

#[test]
fn foreign_controller_class_is_not_owned() {
    let tunnels = ready_tunnels(Vec::new());
    let classes = ready_classes(vec![IngressClass {
        name: "other".to_string(),
        controller: Some("example.com/other-controller".to_string()),
        parameters: None,
    }]);
    let i = ingress_with_class(Some("other"));
    let r = resolve(&i, &classes, &tunnels, ingress_controller_name());
    assert_eq!(r, Outcome::NotOwned);
    let a = ingress_reconcile(&i, &classes, &tunnels, ingress_controller_name());
    assert_eq!(a, Ok(Action::AwaitChange));
}

#[test]
fn class_without_controller_is_not_owned() {
    let tunnels = ready_tunnels(Vec::new());
    let classes = ready_classes(vec![IngressClass {
        name: "anon".to_string(),
        controller: None,
        parameters: None,
    }]);
    let i = ingress_with_class(Some("anon"));
    assert_eq!(
        resolve(&i, &classes, &tunnels, ingress_controller_name()),
        Outcome::NotOwned
    );
}

#[test]
fn unready_class_store_defers_classification() {
    let tunnels = ready_tunnels(Vec::new());
    let classes = IngressClassStore::new();
    let i = ingress_with_class(Some("cf"));
    assert_eq!(
        resolve(&i, &classes, &tunnels, ingress_controller_name()),
        Outcome::AwaitingClass
    );
}

#[test]
fn unobserved_class_defers_classification() {
    let tunnels = ready_tunnels(Vec::new());
    let classes = ready_classes(Vec::new());
    let i = ingress_with_class(Some("cf"));
    assert_eq!(
        resolve(&i, &classes, &tunnels, ingress_controller_name()),
        Outcome::AwaitingClass
    );
}

#[test]
fn foreign_kind_in_parameters_is_invalid() {
    let tunnels = ready_tunnels(Vec::new());
    let mut params = tunnel_params(None, None, "t1");
    params.kind = "Gateway".to_string();
    let classes = ready_classes(vec![owned_class("cf", Some(params))]);
    let i = ingress_with_class(Some("cf"));
    match resolve(&i, &classes, &tunnels, ingress_controller_name()) {
        Outcome::InvalidParameters(_) => {}
        other => panic!("unexpected outcome: {:?}", other),
    }
    let a = ingress_reconcile(&i, &classes, &tunnels, ingress_controller_name());
    assert!(matches!(a, Err(Error::InvalidIngressClassParameters(_))));
}

#[test]
fn foreign_group_in_parameters_is_invalid() {
    let tunnels = ready_tunnels(Vec::new());
    let mut params = tunnel_params(None, None, "t1");
    params.api_group = Some("example.com".to_string());
    let classes = ready_classes(vec![owned_class("cf", Some(params))]);
    let i = ingress_with_class(Some("cf"));
    assert!(matches!(
        resolve(&i, &classes, &tunnels, ingress_controller_name()),
        Outcome::InvalidParameters(_)
    ));
}

#[test]
fn namespace_scope_without_namespace_is_invalid() {
    let tunnels = ready_tunnels(Vec::new());
    let params = tunnel_params(Some(Scope::Namespace), None, "t1");
    let classes = ready_classes(vec![owned_class("cf", Some(params))]);
    let i = ingress_with_class(Some("cf"));
    assert!(matches!(
        resolve(&i, &classes, &tunnels, ingress_controller_name()),
        Outcome::InvalidParameters(_)
    ));
}

#[test]
fn namespace_scoped_parameters_bind_by_namespace_and_name() {
    let tunnels = ready_tunnels(vec![
        stored_tunnel("t1", "ns1", Some(9), false),
        stored_tunnel("t1", "ns2", Some(8), false),
    ]);
    let params = tunnel_params(Some(Scope::Namespace), Some("ns2"), "t1");
    let classes = ready_classes(vec![owned_class("cf", Some(params))]);
    let i = ingress_with_class(Some("cf"));
    match resolve(&i, &classes, &tunnels, ingress_controller_name()) {
        Outcome::Bound(t) => {
            assert_eq!(t.metadata.namespace, Some("ns2".to_string()));
            assert_eq!(t.spec.uuid, Some(8));
        }
        other => panic!("unexpected outcome: {:?}", other),
    }
}

#[test]
fn absent_referenced_tunnel_defers() {
    let tunnels = ready_tunnels(Vec::new());
    let params = tunnel_params(Some(Scope::Namespace), Some("ns1"), "t1");
    let classes = ready_classes(vec![owned_class("cf", Some(params))]);
    let i = ingress_with_class(Some("cf"));
    assert_eq!(
        resolve(&i, &classes, &tunnels, ingress_controller_name()),
        Outcome::AwaitingClass
    );
}

#[test]
fn cluster_scoped_parameters_bind_by_unique_name() {
    let tunnels = ready_tunnels(vec![
        stored_tunnel("t1", "ns1", Some(9), false),
        stored_tunnel("t2", "ns2", Some(8), false),
    ]);
    let params = tunnel_params(None, None, "t2");
    let classes = ready_classes(vec![owned_class("cf", Some(params))]);
    let i = ingress_with_class(Some("cf"));
    match resolve(&i, &classes, &tunnels, ingress_controller_name()) {
        Outcome::Bound(t) => assert_eq!(t.spec.uuid, Some(8)),
        other => panic!("unexpected outcome: {:?}", other),
    }
}

#[test]
fn cluster_scoped_parameters_treat_an_ambiguous_name_as_absent() {
    let tunnels = ready_tunnels(vec![
        stored_tunnel("t1", "ns1", Some(9), false),
        stored_tunnel("t1", "ns2", Some(8), false),
    ]);
    let params = tunnel_params(None, None, "t1");
    let classes = ready_classes(vec![owned_class("cf", Some(params))]);
    let i = ingress_with_class(Some("cf"));
    assert_eq!(
        resolve(&i, &classes, &tunnels, ingress_controller_name()),
        Outcome::AwaitingClass
    );
}

#[test]
fn owned_class_without_parameters_uses_the_default_tunnel() {
    let tunnels = ready_tunnels(vec![stored_tunnel("t9", "ns1", Some(3), true)]);
    let classes = ready_classes(vec![owned_class("cf", None)]);
    let i = ingress_with_class(Some("cf"));
    match resolve(&i, &classes, &tunnels, ingress_controller_name()) {
        Outcome::Bound(t) => assert_eq!(t.metadata.name, "t9".to_string()),
        other => panic!("unexpected outcome: {:?}", other),
    }
}

#[test]
fn bound_ingress_requeues_on_the_steady_timer() {
    let tunnels = ready_tunnels(vec![stored_tunnel("t1", "ns1", Some(9), false)]);
    let params = tunnel_params(Some(Scope::Namespace), Some("ns1"), "t1");
    let classes = ready_classes(vec![owned_class("cf", Some(params))]);
    let i = ingress_with_class(Some("cf"));
    let a = ingress_reconcile(&i, &classes, &tunnels, ingress_controller_name());
    assert_eq!(a, Ok(Action::Requeue(60)));
}

#[test]
fn bound_ingress_waits_longer_while_the_tunnel_has_no_remote_id() {
    let tunnels = ready_tunnels(vec![stored_tunnel("t1", "ns1", None, false)]);
    let params = tunnel_params(Some(Scope::Namespace), Some("ns1"), "t1");
    let classes = ready_classes(vec![owned_class("cf", Some(params))]);
    let i = ingress_with_class(Some("cf"));
    let a = ingress_reconcile(&i, &classes, &tunnels, ingress_controller_name());
    assert_eq!(a, Ok(Action::Requeue(120)));
}

#[test]
fn unbound_ingress_reports_the_missing_default_tunnel() {
    let tunnels = ready_tunnels(Vec::new());
    let classes = ready_classes(Vec::new());
    let i = ingress_with_class(None);
    let a = ingress_reconcile(&i, &classes, &tunnels, ingress_controller_name());
    assert_eq!(a, Err(Error::MissingDefaultTunnel));
}

#[test]
fn ingress_error_policy_requeues_on_the_fixed_interval() {
    assert_eq!(error_policy(&Error::MissingDefaultTunnel), Action::Requeue(60));
    assert_eq!(
        error_policy(&Error::InvalidIngressClassParameters("reason".to_string())),
        Action::Requeue(60)
    );
}

#[test]
fn watch_filter_keeps_objects_of_owned_classes_only() {
    let classes = ready_classes(vec![
        owned_class("cf", None),
        IngressClass {
            name: "other".to_string(),
            controller: Some("example.com/other-controller".to_string()),
            parameters: None,
        },
    ]);
    let owned = ingress_with_class(Some("cf"));
    let foreign = ingress_with_class(Some("other"));
    let classless = ingress_with_class(None);
    let absent = ingress_with_class(Some("missing"));
    assert!(ingress_watch_allowed(&owned, &classes, ingress_controller_name()));
    assert!(!ingress_watch_allowed(&foreign, &classes, ingress_controller_name()));
    assert!(!ingress_watch_allowed(&classless, &classes, ingress_controller_name()));
    assert!(!ingress_watch_allowed(&absent, &classes, ingress_controller_name()));
}

#[test]
fn filtered_returns_only_owned_classes() {
    let classes = ready_classes(vec![
        owned_class("a", None),
        IngressClass {
            name: "b".to_string(),
            controller: Some("example.com/other-controller".to_string()),
            parameters: None,
        },
    ]);
    let owned = classes.filtered(ingress_controller_name());
    assert_eq!(owned.len(), 1);
    assert_eq!(owned[0].name, "a".to_string());
}

#[test]
fn class_name_listing_keeps_owned_classes_in_order() {
    let classes = ready_classes(vec![
        owned_class("a", None),
        IngressClass {
            name: "b".to_string(),
            controller: Some("example.com/other-controller".to_string()),
            parameters: None,
        },
        owned_class("c", None),
    ]);
    let names = classes.ingress_class_names(ingress_controller_name());
    assert_eq!(names, vec!["a".to_string(), "c".to_string()]);
}
