use tunnel_operator::crd::{IngressClass, Meta, Tunnel, TunnelCrd};
use tunnel_operator::store::{IngressClassStore, TunnelStore, TunnelStoreExt, WatchEvent};

fn plain_tunnel(name: &str, namespace: &str) -> Tunnel {
    Tunnel {
        metadata: Meta {
            name: name.to_string(),
            namespace: Some(namespace.to_string()),
            annotations: Vec::new(),
            finalizers: None,
            deletion_timestamp: None,
        },
        spec: TunnelCrd {
            uuid: None,
            replicas: 1,
            credentials: "c1".to_string(),
            image: None,
            tunnel_secret: None,
            tags: None,
        },
    }
}

fn flagged_tunnel(name: &str, namespace: &str, value: &str) -> Tunnel {
    let mut t = plain_tunnel(name, namespace);
    t.metadata.annotations =
        vec![("cloudflare.ar2ro.io/default-tunnel".to_string(), value.to_string())];
    t
}

fn plain_class(name: &str) -> IngressClass {
    IngressClass { name: name.to_string(), controller: None, parameters: None }
}

#[test]
fn a_new_store_is_empty_and_not_ready() {
    let s = TunnelStore::new();
    assert!(!s.is_ready());
    assert!(s.list().is_empty());
    assert!(s.get(Some(&"ns".to_string()), &"t".to_string()).is_none());
}

#[test]
fn the_first_relist_marks_the_store_ready() {
    let mut s = TunnelStore::new();
    s.replace_all(vec![plain_tunnel("t1", "ns1")]);
    assert!(s.is_ready());
    assert_eq!(s.list().len(), 1);
}

#[test]
fn upsert_adds_and_replaces_by_key() {
    let mut s = TunnelStore::new();
    s.upsert(plain_tunnel("t1", "ns1"));
    s.upsert(plain_tunnel("t2", "ns1"));
    assert_eq!(s.list().len(), 2);

    let mut updated = plain_tunnel("t1", "ns1");
    updated.spec.uuid = Some(5);
    s.upsert(updated);
    assert_eq!(s.list().len(), 2);
    let got = s.get(Some(&"ns1".to_string()), &"t1".to_string()).unwrap();
    assert_eq!(got.spec.uuid, Some(5));
}

#[test]
fn objects_with_the_same_name_in_other_namespaces_are_distinct() {
    let mut s = TunnelStore::new();
    s.upsert(plain_tunnel("t1", "ns1"));
    s.upsert(plain_tunnel("t1", "ns2"));
    assert_eq!(s.list().len(), 2);
    assert!(s.get(Some(&"ns1".to_string()), &"t1".to_string()).is_some());
    assert!(s.get(Some(&"ns3".to_string()), &"t1".to_string()).is_none());
}

#[test]
fn remove_deletes_only_the_keyed_object() {
    let mut s = TunnelStore::new();
    s.upsert(plain_tunnel("t1", "ns1"));
    s.upsert(plain_tunnel("t2", "ns1"));
    s.remove(Some(&"ns1".to_string()), &"t1".to_string());
    assert_eq!(s.list().len(), 1);
    assert!(s.get(Some(&"ns1".to_string()), &"t1".to_string()).is_none());
    assert!(s.get(Some(&"ns1".to_string()), &"t2".to_string()).is_some());
    // Removing an absent key changes nothing.
    s.remove(Some(&"ns1".to_string()), &"t9".to_string());
    assert_eq!(s.list().len(), 1);
}

#[test]
fn watch_events_drive_the_store() {
    let mut s = TunnelStore::new();
    s.apply_event(WatchEvent::Applied(plain_tunnel("t1", "ns1")));
    assert!(!s.is_ready());
    s.apply_event(WatchEvent::Restarted(vec![plain_tunnel("t2", "ns1")]));
    assert!(s.is_ready());
    assert!(s.get(Some(&"ns1".to_string()), &"t1".to_string()).is_none());
    s.apply_event(WatchEvent::Deleted(plain_tunnel("t2", "ns1")));
    assert!(s.list().is_empty());
}

#[test]
fn default_tunnel_resolves_only_a_unique_flag() {
    let mut s = TunnelStore::new();
    s.replace_all(vec![plain_tunnel("t1", "ns1")]);
    assert!(s.default_tunnel().is_none());

    s.replace_all(vec![plain_tunnel("t1", "ns1"), flagged_tunnel("t2", "ns1", "true")]);
    let d = s.default_tunnel().unwrap();
    assert_eq!(d.metadata.name, "t2".to_string());

    s.replace_all(vec![
        flagged_tunnel("t1", "ns1", "true"),
        flagged_tunnel("t2", "ns1", "true"),
    ]);
    assert!(s.default_tunnel().is_none());
}

#[test]
fn default_flag_value_is_read_case_insensitively() {
    let mut s = TunnelStore::new();
    s.replace_all(vec![flagged_tunnel("t1", "ns1", "TRUE")]);
    assert!(s.default_tunnel().is_some());
    s.replace_all(vec![flagged_tunnel("t1", "ns1", "TrUe")]);
    assert!(s.default_tunnel().is_some());
    s.replace_all(vec![flagged_tunnel("t1", "ns1", "yes")]);
    assert!(s.default_tunnel().is_none());
    s.replace_all(vec![flagged_tunnel("t1", "ns1", "truest")]);
    assert!(s.default_tunnel().is_none());
}

#[test]
fn default_tunnel_through_the_store_extension_trait() {
    fn pick<S: TunnelStoreExt>(s: &S) -> Option<Tunnel> {
        s.default_tunnel()
    }
    let mut s = TunnelStore::new();
    s.replace_all(vec![flagged_tunnel("t1", "ns1", "true")]);
    assert_eq!(pick(&s).unwrap().metadata.name, "t1".to_string());
}

#[test]
fn lookup_by_bare_name_requires_a_unique_bearer() {
    let mut s = TunnelStore::new();
    s.replace_all(vec![plain_tunnel("t1", "ns1"), plain_tunnel("t2", "ns2")]);
    assert!(s.get_by_name(&"t2".to_string()).is_some());
    assert!(s.get_by_name(&"t9".to_string()).is_none());
    s.replace_all(vec![plain_tunnel("t1", "ns1"), plain_tunnel("t1", "ns2")]);
    assert!(s.get_by_name(&"t1".to_string()).is_none());
}

#[test]
fn finalizer_membership_is_checked_not_just_presence_of_a_list() {
    let mut t = plain_tunnel("t1", "ns1");
    assert!(!t.has_lifecycle_finalizer());
    t.metadata.finalizers = Some(vec!["example.com/other".to_string()]);
    assert!(!t.has_lifecycle_finalizer());
    t.metadata.finalizers = Some(vec![
        "example.com/other".to_string(),
        "tunnel.cloudflare.ar2ro.io/finalizer".to_string(),
    ]);
    assert!(t.has_lifecycle_finalizer());
}

#[test]
fn finalizer_patches_replace_the_list() {
    let t = plain_tunnel("t1", "ns1");
    let with = t.add_finalizer();
    assert!(with.has_lifecycle_finalizer());
    assert_eq!(
        with.metadata.finalizers,
        Some(vec!["tunnel.cloudflare.ar2ro.io/finalizer".to_string()])
    );
    let without = with.remove_finalizer();
    assert!(!without.has_lifecycle_finalizer());
    assert_eq!(without.metadata.finalizers, None);
}

#[test]
fn the_remote_id_patch_sets_only_the_id() {
    let t = plain_tunnel("t1", "ns1");
    let patched = t.with_uuid(77);
    assert_eq!(patched.get_uuid(), Some(77));
    assert_eq!(patched.metadata, t.metadata);
    assert_eq!(patched.spec.credentials, t.spec.credentials);
}

#[test]
fn duplicate_copies_the_whole_object() {
    let mut t = plain_tunnel("t1", "ns1");
    t.spec.tags = Some(vec![("env".to_string(), "prod".to_string())]);
    t.spec.tunnel_secret = Some("s3cret".to_string());
    let copy = t.duplicate();
    assert_eq!(copy, t);
}

#[test]
fn class_store_events_replace_by_name() {
    let mut s = IngressClassStore::new();
    assert!(!s.is_ready());
    s.apply_event(WatchEvent::Applied(plain_class("a")));
    s.apply_event(WatchEvent::Applied(plain_class("b")));
    assert_eq!(s.list().len(), 2);
    let mut changed = plain_class("a");
    changed.controller = Some("x".to_string());
    s.apply_event(WatchEvent::Applied(changed));
    assert_eq!(s.list().len(), 2);
    assert_eq!(
        s.get(&"a".to_string()).unwrap().controller,
        Some("x".to_string())
    );
    s.apply_event(WatchEvent::Deleted(plain_class("a")));
    assert!(s.get(&"a".to_string()).is_none());
    s.apply_event(WatchEvent::Restarted(vec![plain_class("z")]));
    assert!(s.is_ready());
    assert!(s.get(&"b".to_string()).is_none());
    assert!(s.get(&"z".to_string()).is_some());
}
