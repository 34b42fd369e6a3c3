//! The per-component handler: identity, routing table, link graph, component
//! registry, secrets cache, configuration snapshot and pub/sub link pool,
//! with the link-selection and resolution algorithms.
//!
//! The surrounding host shares this state between instances behind
//! independent locks; the operations here are the single-table reads and
//! writes performed under those locks.  Resolution reads the routing table
//! and the link graph independently and is linearizable, not atomic, with
//! respect to concurrent configuration changes.

use vstd::prelude::*;
use vstd::string::StringExecFns;
use crate::errors::ResolveError;
use crate::errors::InvocationErrorKind;
use crate::errors::TransportFailure;
use crate::errors::classify_invocation_error;
use crate::iface::CallTargetInterface;
use crate::iface::canonical_of;
use crate::secrets::SecretValue;
use crate::strmap::StrMap;
use crate::strmap::StrSet;

verus! {

/// Every inner interface map of a link graph is well-formed.
pub open spec fn graph_values_wf(g: StrMap<StrMap<String>>) -> bool {
    forall|i: int| 0 <= i < g.entry_seq().len() ==> (#[trigger] g.entry_seq()[i]).1.wf()
}

/// The aggregate a running component instance calls through.
pub struct Handler {
    /// Destination ids of the components hosted in this process; membership
    /// is authoritative for locality.
    pub components: StrSet,
    /// Snapshot of the shared configuration bundle.
    pub config_data: StrMap<String>,
    /// Secrets cache, reveal-gated; populated once at component startup.
    pub secrets: StrMap<SecretValue>,
    /// The lattice this handler uses for remote calls.
    pub lattice: String,
    /// The component this handler is associated with.
    pub component_id: String,
    /// The current link targets: canonical instance -> link name.  Entries
    /// selecting `default` are removed rather than stored.
    pub targets: StrMap<String>,
    /// The shared link graph: link name -> (canonical instance ->
    /// destination id).  Populated by the external linking subsystem; this
    /// core only reads it.
    pub instance_links: StrMap<StrMap<String>>,
    /// Link names that hold a live pub/sub connection.
    pub messaging_links: StrSet,
    /// Hard deadline for a remote call, in milliseconds.
    pub invocation_timeout_ms: u64,
}

/// All shared state and identity agree; only the target table may differ.
pub open spec fn same_shared_state(pre: Handler, post: Handler) -> bool {
    &&& post.components@ == pre.components@
    &&& post.config_data@ == pre.config_data@
    &&& post.secrets@ == pre.secrets@
    &&& post.instance_links@ == pre.instance_links@
    &&& post.messaging_links@ == pre.messaging_links@
    &&& post.lattice == pre.lattice
    &&& post.component_id == pre.component_id
    &&& post.invocation_timeout_ms == pre.invocation_timeout_ms
}

impl Handler {
    /// All tables well-formed.
    pub open spec fn wf(&self) -> bool {
        &&& self.components.wf()
        &&& self.config_data.wf()
        &&& self.secrets.wf()
        &&& self.targets.wf()
        &&& self.instance_links.wf()
        &&& graph_values_wf(self.instance_links)
        &&& self.messaging_links.wf()
    }

    /// A fresh handler with empty tables.
    pub fn new(component_id: String, lattice: String, invocation_timeout_ms: u64) -> (r: Self)
        ensures
            r.wf(),
            r.components@ == Set::<Seq<char>>::empty(),
            r.config_data@ == Map::<Seq<char>, Seq<char>>::empty(),
            r.secrets@ == Map::<Seq<char>, crate::secrets::SecretContent>::empty(),
            r.targets@ == Map::<Seq<char>, Seq<char>>::empty(),
            r.instance_links@ == Map::<Seq<char>, Map<Seq<char>, Seq<char>>>::empty(),
            r.messaging_links@ == Set::<Seq<char>>::empty(),
            r.component_id == component_id,
            r.lattice == lattice,
            r.invocation_timeout_ms == invocation_timeout_ms,
    {
        Handler {
            components: StrSet::new(),
            config_data: StrMap::new(),
            secrets: StrMap::new(),
            lattice,
            component_id,
            targets: StrMap::new(),
            instance_links: StrMap::new(),
            messaging_links: StrSet::new(),
            invocation_timeout_ms,
        }
    }

    /// The handler a fresh component instance starts with: every piece of
    /// shared state is carried over, and only the target table starts empty —
    /// link selections do not propagate across component instantiations.
    pub fn copy_for_new(&self) -> (r: Self)
        requires
            self.wf(),
        ensures
            r.wf(),
            r.targets@ == Map::<Seq<char>, Seq<char>>::empty(),
            same_shared_state(*self, r),
    {
        let links2 = self.instance_links.clone();
        proof {
            assert forall|i: int|
                0 <= i < links2.entry_seq().len() implies (#[trigger] links2.entry_seq()[i]).1.wf()
                by {
                assert(self.instance_links.entry_seq()[i].1.wf());
            }
        }
        Handler {
            components: self.components.clone(),
            config_data: self.config_data.clone(),
            secrets: self.secrets.clone(),
            lattice: self.lattice.clone(),
            component_id: self.component_id.clone(),
            targets: StrMap::new(),
            instance_links: links2,
            messaging_links: self.messaging_links.clone(),
            invocation_timeout_ms: self.invocation_timeout_ms,
        }
    }
}

/// One selection step on the target table: selecting `default` removes the
/// override for the interface, any other link name overwrites it.
pub open spec fn select_step(
    m: Map<Seq<char>, Seq<char>>,
    link: Seq<char>,
    iface: CallTargetInterface,
) -> Map<Seq<char>, Seq<char>> {
    let key = canonical_of(iface.namespace@, iface.package@, iface.interface@);
    if link == "default"@ {
        m.remove(key)
    } else {
        m.insert(key, link)
    }
}

/// The target table after selecting `link` for every interface in order.
pub open spec fn targets_after_select(
    m: Map<Seq<char>, Seq<char>>,
    link: Seq<char>,
    ifaces: Seq<CallTargetInterface>,
) -> Map<Seq<char>, Seq<char>>
    decreases ifaces.len(),
{
    if ifaces.len() == 0 {
        m
    } else {
        select_step(targets_after_select(m, link, ifaces.drop_last()), link, ifaces.last())
    }
}

/// The link name active for an interface: the table's entry, or `default`.
pub open spec fn active_link_spec(targets: Map<Seq<char>, Seq<char>>, instance: Seq<char>) -> Seq<
    char,
> {
    if targets.contains_key(instance) {
        targets[instance]
    } else {
        "default"@
    }
}

/// The active link exists in the graph and maps the interface.
pub open spec fn resolvable(
    targets: Map<Seq<char>, Seq<char>>,
    links: Map<Seq<char>, Map<Seq<char>, Seq<char>>>,
    instance: Seq<char>,
) -> bool {
    &&& links.contains_key(active_link_spec(targets, instance))
    &&& links[active_link_spec(targets, instance)].contains_key(instance)
}

/// The destination id resolution produces.
pub open spec fn resolved_destination(
    targets: Map<Seq<char>, Seq<char>>,
    links: Map<Seq<char>, Map<Seq<char>, Seq<char>>>,
    instance: Seq<char>,
) -> Seq<char> {
    links[active_link_spec(targets, instance)][instance]
}

/// The graph has a destination for `iface` under `link`.
pub open spec fn link_covers(
    links: Map<Seq<char>, Map<Seq<char>, Seq<char>>>,
    link: Seq<char>,
    iface: CallTargetInterface,
) -> bool {
    &&& links.contains_key(link)
    &&& links[link].contains_key(canonical_of(iface.namespace@, iface.package@, iface.interface@))
}

/// Validation message of the checked selection, naming the first offending
/// interface.
pub open spec fn not_linked_message(instance: Seq<char>, link: Seq<char>) -> Seq<char> {
    "interface `"@ + instance + "` does not have an existing link with name `"@ + link + "`"@
}

impl Handler {
    /// Unconditionally select `link_name` for every given interface:
    /// selecting `default` removes the override, any other name inserts or
    /// overwrites it.  Only the target table changes.
    pub fn set_link_name(&mut self, link_name: String, interfaces: &Vec<CallTargetInterface>)
        requires
            old(self).wf(),
        ensures
            final(self).wf(),
            final(self).targets@ == targets_after_select(
                old(self).targets@,
                link_name@,
                interfaces@,
            ),
            same_shared_state(*old(self), *final(self)),
    {
        let dflt = String::from_str("default");
        let is_default = link_name == dflt;
        let n = interfaces.len();
        let mut i: usize = 0;
        while i < n
            invariant
                n == interfaces@.len(),
                0 <= i <= n,
                is_default == (link_name@ == "default"@),
                self.targets.wf(),
                self.targets@ == targets_after_select(
                    old(self).targets@,
                    link_name@,
                    interfaces@.subrange(0, i as int),
                ),
                self.components == old(self).components,
                self.config_data == old(self).config_data,
                self.secrets == old(self).secrets,
                self.lattice == old(self).lattice,
                self.component_id == old(self).component_id,
                self.instance_links == old(self).instance_links,
                self.messaging_links == old(self).messaging_links,
                self.invocation_timeout_ms == old(self).invocation_timeout_ms,
                old(self).wf(),
            decreases n - i,
        {
            let key = interfaces[i].as_instance();
            if is_default {
                self.targets.remove(&key);
            } else {
                self.targets.insert(key, link_name.clone());
            }
            proof {
                let pre = interfaces@.subrange(0, i as int);
                let cur = interfaces@.subrange(0, i + 1);
                assert(cur.drop_last() =~= pre);
                assert(cur.last() == interfaces@[i as int]);
            }
            i += 1;
        }
        proof {
            assert(interfaces@.subrange(0, n as int) =~= interfaces@);
        }
    }

    /// Validated selection: first check that the graph has an entry under
    /// `link_name` for every given interface.  If any interface lacks one,
    /// the whole batch is rejected with a message naming the first offending
    /// interface and the target table is left untouched; otherwise this is
    /// the unconditional selection.
    pub fn set_link_name_checked(
        &mut self,
        link_name: String,
        interfaces: &Vec<CallTargetInterface>,
    ) -> (r: Result<(), String>)
        requires
            old(self).wf(),
        ensures
            final(self).wf(),
            same_shared_state(*old(self), *final(self)),
            r is Err <==> exists|i: int|
                0 <= i < interfaces@.len() && !link_covers(
                    old(self).instance_links@,
                    link_name@,
                    #[trigger] interfaces@[i],
                ),
            r matches Err(m) ==> final(self).targets@ == old(self).targets@ && exists|i: int|
                0 <= i < interfaces@.len() && !link_covers(
                    old(self).instance_links@,
                    link_name@,
                    #[trigger] interfaces@[i],
                ) && (forall|j: int|
                    0 <= j < i ==> link_covers(
                        old(self).instance_links@,
                        link_name@,
                        #[trigger] interfaces@[j],
                    )) && m@ == not_linked_message(
                    canonical_of(
                        interfaces@[i].namespace@,
                        interfaces@[i].package@,
                        interfaces@[i].interface@,
                    ),
                    link_name@,
                ),
            r is Ok ==> final(self).targets@ == targets_after_select(
                old(self).targets@,
                link_name@,
                interfaces@,
            ),
    {
        let n = interfaces.len();
        let mut i: usize = 0;
        while i < n
            invariant
                n == interfaces@.len(),
                0 <= i <= n,
                *self == *old(self),
                old(self).wf(),
                forall|j: int|
                    0 <= j < i ==> link_covers(
                        old(self).instance_links@,
                        link_name@,
                        #[trigger] interfaces@[j],
                    ),
            decreases n - i,
        {
            let key = interfaces[i].as_instance();
            let covered = match self.instance_links.get(&link_name) {
                Some(g) => {
                    proof {
                        let gi = choose|gi: int|
                            0 <= gi < self.instance_links.entry_seq().len() && (
                            #[trigger] self.instance_links.entry_seq()[gi]).0@ == link_name@ && *g
                                == self.instance_links.entry_seq()[gi].1;
                        assert(self.instance_links.entry_seq()[gi].1.wf());
                    }
                    g.contains_key(&key)
                },
                None => false,
            };
            if !covered {
                let mut m = String::from_str("interface `");
                m.append(key.as_str());
                m.append("` does not have an existing link with name `");
                m.append(link_name.as_str());
                m.append("`");
                return Err(m);
            }
            i += 1;
        }
        self.set_link_name(link_name, interfaces);
        Ok(())
    }

    /// The link name active for an interface on this instance.
    pub fn active_link(&self, instance: &String) -> (r: String)
        requires
            self.wf(),
        ensures
            r@ == active_link_spec(self.targets@, instance@),
    {
        match self.targets.get(instance) {
            Some(l) => l.clone(),
            None => String::from_str("default"),
        }
    }

    /// What a resolution error of this handler reports for a call on
    /// `target_instance` (canonical), made from the call site `instance` /
    /// `func`: which of the two lookups failed, and the names the error
    /// carries.
    pub open spec fn resolve_error_matches(
        &self,
        target_instance: Seq<char>,
        instance: Seq<char>,
        func: Seq<char>,
        e: ResolveError,
    ) -> bool {
        let active = active_link_spec(self.targets@, target_instance);
        match e {
            ResolveError::LinkNotFound { link_name, target_instance: ti } => {
                &&& !self.instance_links@.contains_key(active)
                &&& link_name@ == active
                &&& ti@ == target_instance
            },
            ResolveError::TargetNotFound { link_name, instance: inst, func: f, component_id } => {
                &&& self.instance_links@.contains_key(active)
                &&& !self.instance_links@[active].contains_key(target_instance)
                &&& link_name@ == active
                &&& inst@ == instance
                &&& f@ == func
                &&& component_id@ == self.component_id@
            },
        }
    }

    /// Resolve the canonical interface `target_instance` to a destination id:
    /// the active link name is looked up in the link graph, and that link's
    /// interface map is looked up for the interface.  Failure names the link,
    /// the interface, and this component, to guide configuration fixes; it
    /// never aborts the host.  `instance` and `func` name the call site for
    /// the error.
    pub fn resolve_destination(
        &self,
        target_instance: &String,
        instance: &String,
        func: &String,
    ) -> (r: Result<String, ResolveError>)
        requires
            self.wf(),
        ensures
            r is Ok <==> resolvable(self.targets@, self.instance_links@, target_instance@),
            r matches Ok(d) ==> d@ == resolved_destination(
                self.targets@,
                self.instance_links@,
                target_instance@,
            ),
            r matches Err(e) ==> self.resolve_error_matches(target_instance@, instance@, func@, e),
    {
        let link_name = self.active_link(target_instance);
        let found = match self.instance_links.get(&link_name) {
            Some(g) => {
                proof {
                    let gi = choose|gi: int|
                        0 <= gi < self.instance_links.entry_seq().len() && (
                        #[trigger] self.instance_links.entry_seq()[gi]).0@ == link_name@ && *g
                            == self.instance_links.entry_seq()[gi].1;
                    assert(self.instance_links.entry_seq()[gi].1.wf());
                }
                match g.get(target_instance) {
                    Some(d) => Some(d.clone()),
                    None => None,
                }
            },
            None => {
                return Err(
                    ResolveError::LinkNotFound {
                        link_name,
                        target_instance: target_instance.clone(),
                    },
                );
            },
        };
        match found {
            Some(d) => Ok(d),
            None => Err(
                ResolveError::TargetNotFound {
                    link_name,
                    instance: instance.clone(),
                    func: func.clone(),
                    component_id: self.component_id.clone(),
                },
            ),
        }
    }

    /// Read one key of the configuration snapshot.
    pub fn config_get(&self, key: &String) -> (r: Option<String>)
        requires
            self.wf(),
        ensures
            r is Some <==> self.config_data@.contains_key(key@),
            r matches Some(v) ==> v@ == self.config_data@[key@],
    {
        match self.config_data.get(key) {
            Some(v) => Some(v.clone()),
            None => None,
        }
    }

    /// Read the full configuration snapshot as key/value pairs.
    pub fn config_get_all(&self) -> (r: Vec<(String, String)>)
        requires
            self.wf(),
        ensures
            r@.len() == self.config_data@.len(),
            forall|i: int|
                0 <= i < r@.len() ==> self.config_data@.contains_key((#[trigger] r@[i]).0@)
                    && self.config_data@[r@[i].0@] == r@[i].1@,
            forall|i: int, j: int|
                0 <= i < j < r@.len() ==> (#[trigger] r@[i]).0@ != (#[trigger] r@[j]).0@,
    {
        self.config_data.to_pairs()
    }

    /// Classify a transport-level failure for the host's invocation-error
    /// reporting.
    pub fn invocation_error_kind(&self, err: &TransportFailure) -> (k: InvocationErrorKind)
        ensures
            k is NotFound <==> err is NotConnected,
            k is Trap <==> err is Other,
    {
        classify_invocation_error(err)
    }
}

impl Handler {
    /// Record a link in the shared graph (the external linking subsystem's
    /// write, used to assemble a handler's state).
    pub fn insert_link(&mut self, link_name: String, instance: String, destination: String)
        requires
            old(self).wf(),
        ensures
            final(self).wf(),
            final(self).instance_links@ == old(self).instance_links@.insert(
                link_name@,
                if old(self).instance_links@.contains_key(link_name@) {
                    old(self).instance_links@[link_name@].insert(instance@, destination@)
                } else {
                    Map::<Seq<char>, Seq<char>>::empty().insert(instance@, destination@)
                },
            ),
            final(self).targets@ == old(self).targets@,
            final(self).components@ == old(self).components@,
            final(self).config_data@ == old(self).config_data@,
            final(self).secrets@ == old(self).secrets@,
            final(self).messaging_links@ == old(self).messaging_links@,
            final(self).lattice == old(self).lattice,
            final(self).component_id == old(self).component_id,
            final(self).invocation_timeout_ms == old(self).invocation_timeout_ms,
    {
        let inner: Option<StrMap<String>> = match self.instance_links.get(&link_name) {
            Some(g) => {
                proof {
                    let gi = choose|gi: int|
                        0 <= gi < self.instance_links.entry_seq().len() && (
                        #[trigger] self.instance_links.entry_seq()[gi]).0@ == link_name@ && *g
                            == self.instance_links.entry_seq()[gi].1;
                    assert(self.instance_links.entry_seq()[gi].1.wf());
                }
                Some(g.clone())
            },
            None => None,
        };
        let mut g2: StrMap<String> = match inner {
            Some(g) => g,
            None => StrMap::new(),
        };
        g2.insert(instance, destination);
        let ghost pre_links = self.instance_links;
        self.instance_links.insert(link_name, g2);
        proof {
            assert forall|i: int|
                0 <= i < self.instance_links.entry_seq().len() implies (
            #[trigger] self.instance_links.entry_seq()[i]).1.wf() by {
                if self.instance_links.entry_seq()[i].1 == g2 {
                } else {
                }
            }
        }
    }

    /// Record a locally hosted component in the registry.
    pub fn insert_component(&mut self, id: String)
        requires
            old(self).wf(),
        ensures
            final(self).wf(),
            final(self).components@ == old(self).components@.insert(id@),
            final(self).targets@ == old(self).targets@,
            final(self).instance_links@ == old(self).instance_links@,
            final(self).config_data@ == old(self).config_data@,
            final(self).secrets@ == old(self).secrets@,
            final(self).messaging_links@ == old(self).messaging_links@,
            final(self).lattice == old(self).lattice,
            final(self).component_id == old(self).component_id,
            final(self).invocation_timeout_ms == old(self).invocation_timeout_ms,
    {
        self.components.insert(id);
    }

    /// Record a live pub/sub connection for a link name.
    pub fn insert_messaging_link(&mut self, link_name: String)
        requires
            old(self).wf(),
        ensures
            final(self).wf(),
            final(self).messaging_links@ == old(self).messaging_links@.insert(link_name@),
            final(self).targets@ == old(self).targets@,
            final(self).instance_links@ == old(self).instance_links@,
            final(self).config_data@ == old(self).config_data@,
            final(self).secrets@ == old(self).secrets@,
            final(self).components@ == old(self).components@,
            final(self).lattice == old(self).lattice,
            final(self).component_id == old(self).component_id,
            final(self).invocation_timeout_ms == old(self).invocation_timeout_ms,
    {
        self.messaging_links.insert(link_name);
    }

    /// Store one configuration key.
    pub fn insert_config(&mut self, key: String, value: String)
        requires
            old(self).wf(),
        ensures
            final(self).wf(),
            final(self).config_data@ == old(self).config_data@.insert(key@, value@),
            final(self).targets@ == old(self).targets@,
            final(self).instance_links@ == old(self).instance_links@,
            final(self).components@ == old(self).components@,
            final(self).secrets@ == old(self).secrets@,
            final(self).messaging_links@ == old(self).messaging_links@,
            final(self).lattice == old(self).lattice,
            final(self).component_id == old(self).component_id,
            final(self).invocation_timeout_ms == old(self).invocation_timeout_ms,
    {
        self.config_data.insert(key, value);
    }

    /// Store one secret at component startup.
    pub fn insert_secret(&mut self, name: String, value: SecretValue)
        requires
            old(self).wf(),
        ensures
            final(self).wf(),
            final(self).secrets@ == old(self).secrets@.insert(name@, value@),
            final(self).targets@ == old(self).targets@,
            final(self).instance_links@ == old(self).instance_links@,
            final(self).components@ == old(self).components@,
            final(self).config_data@ == old(self).config_data@,
            final(self).messaging_links@ == old(self).messaging_links@,
            final(self).lattice == old(self).lattice,
            final(self).component_id == old(self).component_id,
            final(self).invocation_timeout_ms == old(self).invocation_timeout_ms,
    {
        self.secrets.insert(name, value);
    }
}

/// Selecting a link name `link` other than `default` for an interface and
/// then resolving that interface finds exactly what the link graph maps for
/// `(link, interface)`: the selection makes `link` active, resolution
/// succeeds exactly when the graph has a destination under it, and the
/// destination is the graph's entry.
pub proof fn lemma_select_then_resolve(
    targets: Map<Seq<char>, Seq<char>>,
    links: Map<Seq<char>, Map<Seq<char>, Seq<char>>>,
    link: Seq<char>,
    iface: CallTargetInterface,
)
    requires
        link != "default"@,
    ensures
        ({
            let key = canonical_of(iface.namespace@, iface.package@, iface.interface@);
            let t2 = targets_after_select(targets, link, seq![iface]);
            &&& active_link_spec(t2, key) == link
            &&& (resolvable(t2, links, key) <==> links.contains_key(link)
                && links[link].contains_key(key))
            &&& (resolvable(t2, links, key) ==> resolved_destination(t2, links, key)
                == links[link][key])
        }),
{
    let s = seq![iface];
    assert(s.drop_last() =~= Seq::<CallTargetInterface>::empty());
    assert(targets_after_select(targets, link, s.drop_last()) == targets);
    assert(targets_after_select(targets, link, s) == select_step(targets, link, iface));
}

/// Selecting `default` for an interface removes any override: resolution of
/// that interface falls back to whatever the `default` link resolves to.
pub proof fn lemma_select_default_falls_back(
    targets: Map<Seq<char>, Seq<char>>,
    links: Map<Seq<char>, Map<Seq<char>, Seq<char>>>,
    iface: CallTargetInterface,
)
    ensures
        ({
            let key = canonical_of(iface.namespace@, iface.package@, iface.interface@);
            let t2 = targets_after_select(targets, "default"@, seq![iface]);
            &&& !t2.contains_key(key)
            &&& active_link_spec(t2, key) == "default"@
            &&& (resolvable(t2, links, key) <==> links.contains_key("default"@)
                && links["default"@].contains_key(key))
            &&& (resolvable(t2, links, key) ==> resolved_destination(t2, links, key)
                == links["default"@][key])
        }),
{
    let s = seq![iface];
    assert(s.drop_last() =~= Seq::<CallTargetInterface>::empty());
    assert(targets_after_select(targets, "default"@, s.drop_last()) == targets);
    assert(targets_after_select(targets, "default"@, s) == select_step(
        targets,
        "default"@,
        iface,
    ));
}

} // verus!
