//! Watch-fed caches of tunnel and class objects.
//!
//! Each store is an eventually-consistent mapping from object key to the
//! latest known revision, owned by a single background watch task that
//! applies events to it; readers only take snapshots. The readiness flag
//! models the barrier that completes once the first full relist landed.

use crate::crd::{IngressClass, IngressClassView, Tunnel, TunnelView};
use crate::strings::str_eq;
use vstd::prelude::*;

verus! {

use vstd::pervasive::VecAdditionalExecFns;

/// One event of a watch stream: an added or modified object, a deleted
/// object, or a completed full relist.
pub enum WatchEvent<T> {
    Applied(T),
    Deleted(T),
    Restarted(Vec<T>),
}

/// Whether some stored tunnel has the given key.
pub open spec fn tunnel_has_key(s: Seq<TunnelView>, k: (Option<Seq<char>>, Seq<char>)) -> bool {
    exists|i: int| 0 <= i < s.len() && (#[trigger] s[i]).key() == k
}

/// Whether the stored tunnels have pairwise distinct keys: the store is a
/// mapping, not a bag.
pub open spec fn tunnels_wf(s: Seq<TunnelView>) -> bool {
    forall|i: int, j: int|
        0 <= i < j < s.len() ==> (#[trigger] s[i]).key() != (#[trigger] s[j]).key()
}

/// The stored tunnel with the given key; meaningful under [`tunnels_wf`]
/// when [`tunnel_has_key`] holds.
pub open spec fn tunnel_at_key(s: Seq<TunnelView>, k: (Option<Seq<char>>, Seq<char>)) -> TunnelView {
    s[choose|i: int| 0 <= i < s.len() && (#[trigger] s[i]).key() == k]
}

/// Whether the tunnel at position `i` is flagged as the default.
pub open spec fn flagged_default_at(s: Seq<TunnelView>, i: int) -> bool {
    0 <= i < s.len() && s[i].is_default_tunnel()
}

/// Whether exactly one stored tunnel is flagged as the default.
pub open spec fn exactly_one_default(s: Seq<TunnelView>) -> bool {
    &&& exists|i: int| #[trigger] flagged_default_at(s, i)
    &&& forall|i: int, j: int|
        #[trigger] flagged_default_at(s, i) && #[trigger] flagged_default_at(s, j) ==> i == j
}

/// The flagged tunnel; meaningful under [`exactly_one_default`].
pub open spec fn the_default_tunnel(s: Seq<TunnelView>) -> TunnelView {
    s[choose|i: int| flagged_default_at(s, i)]
}

/// Whether the tunnel at position `i` bears the given name, in whatever
/// namespace.
pub open spec fn named_at(s: Seq<TunnelView>, name: Seq<char>, i: int) -> bool {
    0 <= i < s.len() && s[i].metadata.name == name
}

/// Whether exactly one stored tunnel bears the given name: what a lookup
/// that ignores the namespace resolves to, with ambiguity treated as
/// absence.
pub open spec fn exactly_one_named(s: Seq<TunnelView>, name: Seq<char>) -> bool {
    &&& exists|i: int| #[trigger] named_at(s, name, i)
    &&& forall|i: int, j: int|
        #[trigger] named_at(s, name, i) && #[trigger] named_at(s, name, j) ==> i == j
}

/// The tunnel with the given name; meaningful under [`exactly_one_named`].
pub open spec fn the_named_tunnel(s: Seq<TunnelView>, name: Seq<char>) -> TunnelView {
    s[choose|i: int| named_at(s, name, i)]
}

/// The watch-fed cache of tunnel objects, keyed by namespace and name.
pub struct TunnelStore {
    pub items: Vec<Tunnel>,
    pub ready: bool,
}

/// Mathematical model of [`TunnelStore`].
pub struct TunnelStoreView {
    pub items: Seq<TunnelView>,
    pub ready: bool,
}

impl View for TunnelStore {
    type V = TunnelStoreView;

    open spec fn view(&self) -> TunnelStoreView {
        TunnelStoreView { items: self.items.deep_view(), ready: self.ready }
    }
}

/// Whether a tunnel carries the given key.
fn tunnel_key_matches(t: &Tunnel, namespace: Option<&String>, name: &String) -> (r: bool)
    ensures
        r == (t@.key() == (namespace.deep_view(), name@)),
{
    let ns_eq = match (&t.metadata.namespace, namespace) {
        (Some(a), Some(b)) => str_eq(a.as_str(), b.as_str()),
        (None, None) => true,
        _ => false,
    };
    ns_eq && str_eq(t.metadata.name.as_str(), name.as_str())
}

impl TunnelStore {
    /// A fresh store: empty and not yet ready.
    pub fn new() -> (s: TunnelStore)
        ensures
            s@.items =~= Seq::<TunnelView>::empty(),
            !s@.ready,
            tunnels_wf(s@.items),
    {
        let s = TunnelStore { items: Vec::new(), ready: false };
        assert(s@.items =~= Seq::<TunnelView>::empty());
        s
    }

    /// Whether the initial relist has landed: consumers must not filter
    /// against the store before this reports true.
    pub fn is_ready(&self) -> (r: bool)
        ensures
            r == self@.ready,
    {
        self.ready
    }

    /// A snapshot of every stored object.
    pub fn list(&self) -> (r: &Vec<Tunnel>)
        ensures
            r.deep_view() == self@.items,
    {
        &self.items
    }

    /// Point lookup by key.
    pub fn get(&self, namespace: Option<&String>, name: &String) -> (r: Option<&Tunnel>)
        requires
            tunnels_wf(self@.items),
        ensures
            r matches Some(t) ==> tunnel_has_key(self@.items, (namespace.deep_view(), name@))
                && t@ == tunnel_at_key(self@.items, (namespace.deep_view(), name@)),
            r is None ==> !tunnel_has_key(self@.items, (namespace.deep_view(), name@)),
    {
        let ghost k = (namespace.deep_view(), name@);
        let mut i: usize = 0;
        while i < self.items.len()
            invariant
                i <= self.items.len(),
                tunnels_wf(self@.items),
                k == (namespace.deep_view(), name@),
                forall|j: int| 0 <= j < i ==> (#[trigger] self@.items[j]).key() != k,
            decreases self.items.len() - i,
        {
            if tunnel_key_matches(&self.items[i], namespace, name) {
                assert(self@.items[i as int].key() == k);
                assert(tunnel_has_key(self@.items, k));
                proof {
                    let w = choose|j: int|
                        0 <= j < self@.items.len() && (#[trigger] self@.items[j]).key() == k;
                    if w != i as int {
                        assert(tunnels_wf(self@.items));
                        assert(self@.items[w].key() != self@.items[i as int].key());
                    }
                }
                return Some(&self.items[i]);
            }
            i += 1;
        }
        None
    }

    /// Records an added or modified object: the revision with its key is
    /// replaced, or the object appended if its key is new.
    pub fn upsert(&mut self, t: Tunnel)
        requires
            tunnels_wf(old(self)@.items),
        ensures
            tunnels_wf(final(self)@.items),
            final(self)@.ready == old(self)@.ready,
            tunnel_has_key(old(self)@.items, t@.key()) ==> exists|i: int|
                0 <= i < old(self)@.items.len() && (#[trigger] old(self)@.items[i]).key()
                    == t@.key() && final(self)@.items == old(self)@.items.update(i, t@),
            !tunnel_has_key(old(self)@.items, t@.key()) ==> final(self)@.items == old(
                self,
            )@.items.push(t@),
    {
        let ghost k = t@.key();
        let mut i: usize = 0;
        while i < self.items.len()
            invariant
                i <= self.items.len(),
                *self == *old(self),
                tunnels_wf(old(self)@.items),
                k == t@.key(),
                forall|j: int| 0 <= j < i ==> (#[trigger] self@.items[j]).key() != k,
            decreases self.items.len() - i,
        {
            if tunnel_key_matches(&self.items[i], t.metadata.namespace.as_ref(), &t.metadata.name) {
                assert(self@.items[i as int].key() == k);
                self.items.set(i, t);
                assert(self@.items =~= old(self)@.items.update(i as int, t@));
                assert(forall|a: int, b: int|
                    0 <= a < b < self@.items.len() ==> (#[trigger] self@.items[a]).key() != (
                    #[trigger] self@.items[b]).key());
                return ;
            }
            i += 1;
        }
        self.items.push(t);
        assert(self@.items =~= old(self)@.items.push(t@));
        assert(forall|j: int|
            0 <= j < old(self)@.items.len() ==> (#[trigger] self@.items[j]) == old(
                self,
            )@.items[j]);
        assert(forall|a: int, b: int|
            0 <= a < b < self@.items.len() ==> (#[trigger] self@.items[a]).key() != (
            #[trigger] self@.items[b]).key());
    }

    /// Records a deleted object: the revision with its key, if any, leaves
    /// the store.
    pub fn remove(&mut self, namespace: Option<&String>, name: &String)
        requires
            tunnels_wf(old(self)@.items),
        ensures
            tunnels_wf(final(self)@.items),
            final(self)@.ready == old(self)@.ready,
            tunnel_has_key(old(self)@.items, (namespace.deep_view(), name@)) ==> exists|i: int|
                0 <= i < old(self)@.items.len() && (#[trigger] old(self)@.items[i]).key() == (
                namespace.deep_view(), name@) && final(self)@.items == old(self)@.items.remove(i),
            !tunnel_has_key(old(self)@.items, (namespace.deep_view(), name@)) ==> final(self)@.items
                == old(self)@.items,
    {
        let ghost k = (namespace.deep_view(), name@);
        let mut i: usize = 0;
        while i < self.items.len()
            invariant
                i <= self.items.len(),
                *self == *old(self),
                tunnels_wf(old(self)@.items),
                k == (namespace.deep_view(), name@),
                forall|j: int| 0 <= j < i ==> (#[trigger] self@.items[j]).key() != k,
            decreases self.items.len() - i,
        {
            if tunnel_key_matches(&self.items[i], namespace, name) {
                assert(self@.items[i as int].key() == k);
                self.items.remove(i);
                assert(self@.items =~= old(self)@.items.remove(i as int));
                assert(forall|a: int, b: int|
                    0 <= a < b < self@.items.len() ==> (#[trigger] self@.items[a]).key() != (
                    #[trigger] self@.items[b]).key());
                return ;
            }
            i += 1;
        }
    }

    /// Installs the result of a full relist and marks the store ready.
    pub fn replace_all(&mut self, items: Vec<Tunnel>)
        requires
            tunnels_wf(items.deep_view()),
        ensures
            tunnels_wf(final(self)@.items),
            final(self)@.items == items.deep_view(),
            final(self)@.ready,
    {
        self.items = items;
        self.ready = true;
    }

    /// Applies one watch event to the store.
    pub fn apply_event(&mut self, ev: WatchEvent<Tunnel>)
        requires
            tunnels_wf(old(self)@.items),
            ev matches WatchEvent::Restarted(items) ==> tunnels_wf(items.deep_view()),
        ensures
            tunnels_wf(final(self)@.items),
            ev matches WatchEvent::Applied(t) ==> final(self)@.ready == old(self)@.ready && (
            tunnel_has_key(old(self)@.items, t@.key()) ==> exists|i: int|
                0 <= i < old(self)@.items.len() && (#[trigger] old(self)@.items[i]).key()
                    == t@.key() && final(self)@.items == old(self)@.items.update(i, t@)) && (
            !tunnel_has_key(old(self)@.items, t@.key()) ==> final(self)@.items == old(
                self,
            )@.items.push(t@)),
            ev matches WatchEvent::Deleted(t) ==> final(self)@.ready == old(self)@.ready && (
            tunnel_has_key(old(self)@.items, t@.key()) ==> exists|i: int|
                0 <= i < old(self)@.items.len() && (#[trigger] old(self)@.items[i]).key()
                    == t@.key() && final(self)@.items == old(self)@.items.remove(i)) && (
            !tunnel_has_key(old(self)@.items, t@.key()) ==> final(self)@.items == old(
                self,
            )@.items),
            ev matches WatchEvent::Restarted(items) ==> final(self)@.items == items.deep_view()
                && final(self)@.ready,
    {
        match ev {
            WatchEvent::Applied(t) => self.upsert(t),
            WatchEvent::Deleted(t) => self.remove(t.metadata.namespace.as_ref(), &t.metadata.name),
            WatchEvent::Restarted(items) => self.replace_all(items),
        }
    }

    /// Point lookup by bare name, ignoring the namespace: used for
    /// cluster-scoped class parameters. Resolves only when exactly one
    /// stored tunnel bears the name; ambiguity is treated as absence,
    /// never broken silently.
    pub fn get_by_name(&self, name: &String) -> (r: Option<&Tunnel>)
        ensures
            (r is Some) == exactly_one_named(self@.items, name@),
            r matches Some(t) ==> t@ == the_named_tunnel(self@.items, name@),
    {
        let mut first: Option<usize> = None;
        let mut second: Option<usize> = None;
        let mut i: usize = 0;
        while i < self.items.len()
            invariant
                i <= self.items.len(),
                first is None ==> second is None && forall|j: int|
                    0 <= j < i ==> !named_at(self@.items, name@, j),
                first matches Some(f) ==> (f < i && named_at(self@.items, name@, f as int)),
                second is None ==> (first matches Some(f) ==> forall|j: int|
                    0 <= j < i && j != f ==> !named_at(self@.items, name@, j)),
                second matches Some(s2) ==> (first matches Some(f) && s2 != f && s2 < i
                    && named_at(self@.items, name@, s2 as int)),
            decreases self.items.len() - i,
        {
            if str_eq(self.items[i].metadata.name.as_str(), name.as_str()) {
                assert(named_at(self@.items, name@, i as int));
                match first {
                    None => { first = Some(i) },
                    Some(_) => {
                        if second.is_none() {
                            second = Some(i);
                        }
                    },
                }
            }
            i += 1;
        }
        match (first, second) {
            (Some(f), None) => {
                assert(exactly_one_named(self@.items, name@));
                proof {
                    let w = choose|i: int| named_at(self@.items, name@, i);
                    assert(named_at(self@.items, name@, f as int));
                    assert(w == f as int);
                }
                Some(&self.items[f])
            },
            (Some(f), Some(s2)) => {
                assert(!exactly_one_named(self@.items, name@)) by {
                    assert(named_at(self@.items, name@, f as int));
                    assert(named_at(self@.items, name@, s2 as int));
                }
                None
            },
            (None, _) => {
                assert(!exactly_one_named(self@.items, name@)) by {
                    assert(forall|j: int| !named_at(self@.items, name@, j));
                }
                None
            },
        }
    }

    /// The tunnel flagged as the default, when exactly one is: ambiguity
    /// is treated as absence, never broken silently.
    pub fn default_tunnel(&self) -> (r: Option<Tunnel>)
        ensures
            (r is Some) == exactly_one_default(self@.items),
            r matches Some(t) ==> t@ == the_default_tunnel(self@.items),
    {
        let mut first: Option<usize> = None;
        let mut second: Option<usize> = None;
        let mut i: usize = 0;
        while i < self.items.len()
            invariant
                i <= self.items.len(),
                first is None ==> second is None && forall|j: int|
                    0 <= j < i ==> !flagged_default_at(self@.items, j),
                first matches Some(f) ==> (f < i && flagged_default_at(self@.items, f as int)),
                second is None ==> (first matches Some(f) ==> forall|j: int|
                    0 <= j < i && j != f ==> !flagged_default_at(self@.items, j)),
                second matches Some(s2) ==> (first matches Some(f) && s2 != f && s2 < i
                    && flagged_default_at(self@.items, s2 as int)),
            decreases self.items.len() - i,
        {
            if self.items[i].is_default() {
                assert(flagged_default_at(self@.items, i as int));
                match first {
                    None => { first = Some(i) },
                    Some(_) => {
                        if second.is_none() {
                            second = Some(i);
                        }
                    },
                }
            }
            i += 1;
        }
        match (first, second) {
            (Some(f), None) => {
                assert(exactly_one_default(self@.items));
                proof {
                    let w = choose|i: int| flagged_default_at(self@.items, i);
                    assert(flagged_default_at(self@.items, f as int));
                    assert(w == f as int);
                }
                Some(self.items[f].duplicate())
            },
            (Some(f), Some(s2)) => {
                assert(!exactly_one_default(self@.items)) by {
                    assert(flagged_default_at(self@.items, f as int));
                    assert(flagged_default_at(self@.items, s2 as int));
                }
                None
            },
            (None, _) => {
                assert(!exactly_one_default(self@.items)) by {
                    assert(forall|j: int| !flagged_default_at(self@.items, j));
                }
                None
            },
        }
    }
}

/// The store extension that resolves the default tunnel for routing
/// objects without a class reference.
pub trait TunnelStoreExt {
    /// The tunnel flagged as the default, when exactly one is.
    fn default_tunnel(&self) -> Option<Tunnel>;
}

impl TunnelStoreExt for TunnelStore {
    fn default_tunnel(&self) -> Option<Tunnel> {
        TunnelStore::default_tunnel(self)
    }
}

/// Whether some stored class has the given name.
pub open spec fn class_has_name(s: Seq<IngressClassView>, name: Seq<char>) -> bool {
    exists|i: int| 0 <= i < s.len() && (#[trigger] s[i]).name == name
}

/// Whether the stored classes have pairwise distinct names.
pub open spec fn classes_wf(s: Seq<IngressClassView>) -> bool {
    forall|i: int, j: int| 0 <= i < j < s.len() ==> (#[trigger] s[i]).name != (#[trigger] s[j]).name
}

/// The stored class with the given name; meaningful under [`classes_wf`]
/// when [`class_has_name`] holds.
pub open spec fn class_at_name(s: Seq<IngressClassView>, name: Seq<char>) -> IngressClassView {
    s[choose|i: int| 0 <= i < s.len() && (#[trigger] s[i]).name == name]
}

/// The names of the stored classes owned by the given controller, in
/// store order.
pub open spec fn owned_class_names(s: Seq<IngressClassView>, controller: Seq<char>) -> Seq<
    Seq<char>,
>
    decreases s.len(),
{
    if s.len() == 0 {
        Seq::empty()
    } else {
        owned_class_names(s.drop_last(), controller) + if s.last().owned_by(controller) {
            seq![s.last().name]
        } else {
            Seq::empty()
        }
    }
}

/// The stored classes owned by the given controller, in store order.
pub open spec fn owned_classes(s: Seq<IngressClassView>, controller: Seq<char>) -> Seq<
    IngressClassView,
>
    decreases s.len(),
{
    if s.len() == 0 {
        Seq::empty()
    } else {
        owned_classes(s.drop_last(), controller) + if s.last().owned_by(controller) {
            seq![s.last()]
        } else {
            Seq::empty()
        }
    }
}

/// The watch-fed cache of class objects, keyed by name: classes are
/// cluster-scoped.
pub struct IngressClassStore {
    pub items: Vec<IngressClass>,
    pub ready: bool,
}

/// Mathematical model of [`IngressClassStore`].
pub struct IngressClassStoreView {
    pub items: Seq<IngressClassView>,
    pub ready: bool,
}

impl View for IngressClassStore {
    type V = IngressClassStoreView;

    open spec fn view(&self) -> IngressClassStoreView {
        IngressClassStoreView { items: self.items.deep_view(), ready: self.ready }
    }
}

impl IngressClassStore {
    /// A fresh store: empty and not yet ready.
    pub fn new() -> (s: IngressClassStore)
        ensures
            s@.items =~= Seq::<IngressClassView>::empty(),
            !s@.ready,
            classes_wf(s@.items),
    {
        let s = IngressClassStore { items: Vec::new(), ready: false };
        assert(s@.items =~= Seq::<IngressClassView>::empty());
        s
    }

    /// Whether the initial relist has landed.
    pub fn is_ready(&self) -> (r: bool)
        ensures
            r == self@.ready,
    {
        self.ready
    }

    /// A snapshot of every stored class.
    pub fn list(&self) -> (r: &Vec<IngressClass>)
        ensures
            r.deep_view() == self@.items,
    {
        &self.items
    }

    /// Point lookup by name.
    pub fn get(&self, name: &String) -> (r: Option<&IngressClass>)
        requires
            classes_wf(self@.items),
        ensures
            r matches Some(c) ==> class_has_name(self@.items, name@) && c@ == class_at_name(
                self@.items,
                name@,
            ),
            r is None ==> !class_has_name(self@.items, name@),
    {
        let mut i: usize = 0;
        while i < self.items.len()
            invariant
                i <= self.items.len(),
                classes_wf(self@.items),
                forall|j: int| 0 <= j < i ==> (#[trigger] self@.items[j]).name != name@,
            decreases self.items.len() - i,
        {
            if str_eq(self.items[i].name.as_str(), name.as_str()) {
                assert(self@.items[i as int].name == name@);
                assert(class_has_name(self@.items, name@));
                proof {
                    let w = choose|j: int|
                        0 <= j < self@.items.len() && (#[trigger] self@.items[j]).name == name@;
                    if w != i as int {
                        assert(classes_wf(self@.items));
                        assert(self@.items[w].name != self@.items[i as int].name);
                    }
                }
                return Some(&self.items[i]);
            }
            i += 1;
        }
        None
    }

    /// Records an added or modified class: the revision with its name is
    /// replaced, or the class appended if its name is new.
    pub fn upsert(&mut self, c: IngressClass)
        requires
            classes_wf(old(self)@.items),
        ensures
            classes_wf(final(self)@.items),
            final(self)@.ready == old(self)@.ready,
            class_has_name(old(self)@.items, c@.name) ==> exists|i: int|
                0 <= i < old(self)@.items.len() && (#[trigger] old(self)@.items[i]).name == c@.name
                    && final(self)@.items == old(self)@.items.update(i, c@),
            !class_has_name(old(self)@.items, c@.name) ==> final(self)@.items == old(
                self,
            )@.items.push(c@),
    {
        let ghost n = c@.name;
        let mut i: usize = 0;
        while i < self.items.len()
            invariant
                i <= self.items.len(),
                *self == *old(self),
                classes_wf(old(self)@.items),
                n == c@.name,
                forall|j: int| 0 <= j < i ==> (#[trigger] self@.items[j]).name != n,
            decreases self.items.len() - i,
        {
            if str_eq(self.items[i].name.as_str(), c.name.as_str()) {
                assert(self@.items[i as int].name == n);
                self.items.set(i, c);
                assert(self@.items =~= old(self)@.items.update(i as int, c@));
                assert(forall|a: int, b: int|
                    0 <= a < b < self@.items.len() ==> (#[trigger] self@.items[a]).name != (
                    #[trigger] self@.items[b]).name);
                return ;
            }
            i += 1;
        }
        self.items.push(c);
        assert(self@.items =~= old(self)@.items.push(c@));
        assert(forall|a: int, b: int|
            0 <= a < b < self@.items.len() ==> (#[trigger] self@.items[a]).name != (
            #[trigger] self@.items[b]).name);
    }

    /// Records a deleted class: the revision with its name, if any, leaves
    /// the store.
    pub fn remove(&mut self, name: &String)
        requires
            classes_wf(old(self)@.items),
        ensures
            classes_wf(final(self)@.items),
            final(self)@.ready == old(self)@.ready,
            class_has_name(old(self)@.items, name@) ==> exists|i: int|
                0 <= i < old(self)@.items.len() && (#[trigger] old(self)@.items[i]).name == name@
                    && final(self)@.items == old(self)@.items.remove(i),
            !class_has_name(old(self)@.items, name@) ==> final(self)@.items == old(self)@.items,
    {
        let mut i: usize = 0;
        while i < self.items.len()
            invariant
                i <= self.items.len(),
                *self == *old(self),
                classes_wf(old(self)@.items),
                forall|j: int| 0 <= j < i ==> (#[trigger] self@.items[j]).name != name@,
            decreases self.items.len() - i,
        {
            if str_eq(self.items[i].name.as_str(), name.as_str()) {
                assert(self@.items[i as int].name == name@);
                self.items.remove(i);
                assert(self@.items =~= old(self)@.items.remove(i as int));
                assert(forall|a: int, b: int|
                    0 <= a < b < self@.items.len() ==> (#[trigger] self@.items[a]).name != (
                    #[trigger] self@.items[b]).name);
                return ;
            }
            i += 1;
        }
    }

    /// Applies one watch event to the store.
    pub fn apply_event(&mut self, ev: WatchEvent<IngressClass>)
        requires
            classes_wf(old(self)@.items),
            ev matches WatchEvent::Restarted(items) ==> classes_wf(items.deep_view()),
        ensures
            classes_wf(final(self)@.items),
            ev matches WatchEvent::Restarted(items) ==> final(self)@.items == items.deep_view()
                && final(self)@.ready,
            !(ev is Restarted) ==> final(self)@.ready == old(self)@.ready,
    {
        match ev {
            WatchEvent::Applied(c) => self.upsert(c),
            WatchEvent::Deleted(c) => self.remove(&c.name),
            WatchEvent::Restarted(items) => self.replace_all(items),
        }
    }

    /// Installs the result of a full relist and marks the store ready.
    pub fn replace_all(&mut self, items: Vec<IngressClass>)
        requires
            classes_wf(items.deep_view()),
        ensures
            classes_wf(final(self)@.items),
            final(self)@.items == items.deep_view(),
            final(self)@.ready,
    {
        self.items = items;
        self.ready = true;
    }

    /// A snapshot of the classes this controller owns.
    pub fn filtered(&self, controller: &str) -> (r: Vec<IngressClass>)
        ensures
            r.deep_view() == owned_classes(self@.items, controller@),
    {
        let mut r: Vec<IngressClass> = Vec::new();
        let mut i: usize = 0;
        while i < self.items.len()
            invariant
                i <= self.items.len(),
                r.deep_view() == owned_classes(self@.items.take(i as int), controller@),
            decreases self.items.len() - i,
        {
            let ghost prefix = self@.items.take(i as int);
            if self.items[i].filter(controller) {
                r.push(self.items[i].duplicate());
            }
            proof {
                let longer = self@.items.take(i + 1 as int);
                assert(longer.drop_last() =~= prefix);
                assert(longer.last() == self@.items[i as int]);
            }
            assert(r.deep_view() =~= owned_classes(self@.items.take(i + 1 as int), controller@));
            i += 1;
        }
        assert(self@.items.take(self.items.len() as int) =~= self@.items);
        r
    }

    /// The names of the classes this controller owns, used to filter the
    /// routing-object watch stream.
    pub fn ingress_class_names(&self, controller: &str) -> (r: Vec<String>)
        ensures
            r.deep_view() == owned_class_names(self@.items, controller@),
    {
        let mut r: Vec<String> = Vec::new();
        let mut i: usize = 0;
        while i < self.items.len()
            invariant
                i <= self.items.len(),
                r.deep_view() == owned_class_names(self@.items.take(i as int), controller@),
            decreases self.items.len() - i,
        {
            let ghost prefix = self@.items.take(i as int);
            if self.items[i].filter(controller) {
                r.push(self.items[i].name.clone());
            }
            proof {
                let longer = self@.items.take(i + 1 as int);
                assert(longer.drop_last() =~= prefix);
                assert(longer.last() == self@.items[i as int]);
            }
            assert(r.deep_view() =~= owned_class_names(self@.items.take(i + 1 as int), controller@));
            i += 1;
        }
        assert(self@.items.take(self.items.len() as int) =~= self@.items);
        r
    }
}

} // verus!
