//! Connection registry: which local endpoint serves which connection id.
//!
//! Identifiers are unique among the registered connections and never zero.
//! The registry remembers the order of registration, so that draining it
//! hands the endpoints out in a definite order.

use std::collections::HashMap;
use vstd::prelude::*;

use crate::error::Error;
use crate::frame::{ConnId, RESERVED_CONN_ID};

verus! {

broadcast use vstd::std_specs::hash::group_hash_axioms;

/// Mathematical value of a [`ConnRegistry`].
pub ghost struct RegistryView<E> {
    /// The endpoint registered under each identifier.
    pub entries: Map<ConnId, E>,
    /// The registered identifiers, oldest first.
    pub order: Seq<ConnId>,
}

impl<E> RegistryView<E> {
    /// The registry with no connection.
    pub open spec fn empty() -> Self {
        RegistryView { entries: Map::empty(), order: Seq::empty() }
    }

    /// Every registered identifier is listed once, and zero is not among them.
    pub open spec fn valid(self) -> bool {
        &&& self.order.no_duplicates()
        &&& forall|id: ConnId| self.order.contains(id) <==> self.entries.contains_key(id)
        &&& !self.entries.contains_key(RESERVED_CONN_ID)
    }

    /// Whether a connection is registered under `id`.
    pub open spec fn contains(self, id: ConnId) -> bool {
        self.entries.contains_key(id)
    }

    /// Whether `id` may be registered now: it is not reserved and not taken.
    pub open spec fn accepts(self, id: ConnId) -> bool {
        id != RESERVED_CONN_ID && !self.contains(id)
    }

    /// The registry after `endpoint` was registered under `id`.
    pub open spec fn add(self, id: ConnId, endpoint: E) -> Self {
        RegistryView { entries: self.entries.insert(id, endpoint), order: self.order.push(id) }
    }

    /// The registered endpoints, oldest first.
    pub open spec fn endpoints(self) -> Seq<E> {
        Seq::new(self.order.len(), |i: int| self.entries[self.order[i]])
    }

    /// Number of registered connections.
    pub open spec fn len(self) -> nat {
        self.order.len()
    }
}

/// Registering keeps a valid registry valid.
pub proof fn lemma_add_keeps_valid<E>(r: RegistryView<E>, id: ConnId, endpoint: E)
    requires
        r.valid(),
        r.accepts(id),
    ensures
        r.add(id, endpoint).valid(),
        r.add(id, endpoint).endpoints() == r.endpoints().push(endpoint),
{
    let n = r.add(id, endpoint);
    assert forall|k: ConnId| n.order.contains(k) <==> n.entries.contains_key(k) by {
        if n.order.contains(k) {
            let i = choose|i: int| 0 <= i < n.order.len() && n.order[i] == k;
            if i < r.order.len() {
                assert(r.order[i] == k);
                assert(r.order.contains(k));
            }
        }
        if n.entries.contains_key(k) {
            if k == id {
                assert(n.order[r.order.len() as int] == k);
            } else {
                assert(r.order.contains(k));
                let i = choose|i: int| 0 <= i < r.order.len() && r.order[i] == k;
                assert(n.order[i] == k);
            }
        }
    }
    assert forall|i: int, j: int|
        0 <= i < n.order.len() && 0 <= j < n.order.len() && i != j implies n.order[i]
        != n.order[j] by {
        if i == r.order.len() {
            assert(r.order[j] == n.order[j]);
            assert(r.order.contains(n.order[j]));
        } else if j == r.order.len() {
            assert(r.order[i] == n.order[i]);
            assert(r.order.contains(n.order[i]));
        }
    }
    assert forall|i: int| 0 <= i < r.order.len() implies n.entries[n.order[i]]
        == r.entries[r.order[i]] by {
        assert(r.order.contains(r.order[i]));
    }
    assert(n.endpoints() =~= r.endpoints().push(endpoint));
}

/// Maps connection ids to local endpoints of type `E`.
pub struct ConnRegistry<E> {
    conns: HashMap<ConnId, E>,
    order: Vec<ConnId>,
}

impl<E> View for ConnRegistry<E> {
    type V = RegistryView<E>;

    closed spec fn view(&self) -> RegistryView<E> {
        RegistryView { entries: self.conns@, order: self.order@ }
    }
}

impl<E> ConnRegistry<E> {
    #[verifier::type_invariant]
    spec fn well_formed(self) -> bool {
        self@.valid()
    }

    /// An empty registry.
    pub fn new() -> (r: Self)
        ensures
            r@ == RegistryView::<E>::empty(),
            r@.valid(),
    {
        ConnRegistry { conns: HashMap::new(), order: Vec::new() }
    }

    /// Registers `endpoint` under `id`.
    ///
    /// Fails with `InvalidArgument`, leaving the registry as it was, exactly
    /// when `id` is zero or already registered.
    pub fn add(&mut self, id: ConnId, endpoint: E) -> (r: Result<(), Error>)
        ensures
            old(self)@.valid(),
            final(self)@.valid(),
            old(self)@.accepts(id) ==> r is Ok && final(self)@ == old(self)@.add(id, endpoint),
            !old(self)@.accepts(id) ==> r is Err && r->Err_0 is InvalidArgument && final(self)@
                == old(self)@,
    {
        proof {
            use_type_invariant(&*self);
        }
        if id == RESERVED_CONN_ID {
            return Err(Error::InvalidArgument("conn id is reserved".to_string()));
        }
        if self.conns.contains_key(&id) {
            return Err(Error::InvalidArgument("conn id already exists".to_string()));
        }
        let ghost before = self@;
        let mut taken: ConnRegistry<E> = ConnRegistry::new();
        core::mem::swap(self, &mut taken);
        let ConnRegistry { mut conns, mut order } = taken;
        conns.insert(id, endpoint);
        order.push(id);
        proof {
            lemma_add_keeps_valid(before, id, endpoint);
        }
        *self = ConnRegistry { conns, order };
        Ok(())
    }

    /// The endpoint registered under `id`, if there is one.
    pub fn get(&self, id: ConnId) -> (r: Option<&E>)
        ensures
            self@.valid(),
            r is Some <==> self@.contains(id),
            r matches Some(e) ==> *e == self@.entries[id],
    {
        proof {
            use_type_invariant(self);
        }
        self.conns.get(&id)
    }

    /// Whether a connection is registered under `id`.
    pub fn contains(&self, id: ConnId) -> (r: bool)
        ensures
            r == self@.contains(id),
    {
        self.conns.contains_key(&id)
    }

    /// Number of registered connections.
    pub fn len(&self) -> (n: usize)
        ensures
            n == self@.len(),
    {
        self.order.len()
    }

    /// Empties the registry and returns the endpoints it held, oldest first.
    pub fn remove_all(&mut self) -> (removed: Vec<E>)
        ensures
            old(self)@.valid(),
            removed@ == old(self)@.endpoints(),
            final(self)@ == RegistryView::<E>::empty(),
    {
        proof {
            use_type_invariant(&*self);
        }
        let ghost before = self@;
        let mut taken: ConnRegistry<E> = ConnRegistry::new();
        core::mem::swap(self, &mut taken);
        let ConnRegistry { mut conns, order } = taken;
        let mut removed: Vec<E> = Vec::new();
        let mut i: usize = 0;
        assert forall|j: int| 0 <= j < order@.len() implies conns@.contains_key(
            #[trigger] order@[j],
        ) by {
            assert(before.order.contains(order@[j]));
        }
        while i < order.len()
            invariant
                i <= order@.len(),
                order@ == before.order,
                before.valid(),
                removed@ == before.endpoints().subrange(0, i as int),
                forall|j: int|
                    i <= j < order@.len() ==> conns@.contains_key(#[trigger] order@[j])
                        && conns@[order@[j]] == before.entries[order@[j]],
            decreases order@.len() - i,
        {
            let id: ConnId = order[i];
            let endpoint = conns.remove(&id);
            match endpoint {
                Some(e) => {
                    removed.push(e);
                },
                None => {},
            }
            i += 1;
            assert(before.endpoints().subrange(0, i as int) =~= before.endpoints().subrange(
                0,
                i - 1,
            ).push(before.endpoints()[i - 1]));
        }
        assert(before.endpoints().subrange(0, order@.len() as int) =~= before.endpoints());
        removed
    }
}

} // verus!
