//! The runtime registry: a named table of sandbox factories. `create_proxy`
//! mints the next proxy id, instantiates a sandbox through the factory, and
//! drives the `Init` handshake before handing the session out. Ids are
//! strictly increasing and never reused within a process; an unknown name
//! yields `Invalid` and instantiates nothing.

use crate::session::PluginSession;
use crate::{PluginError, PluginFactory, PluginId};
use vstd::prelude::*;

verus! {

/// A named table of sandbox factories of one flavor.
pub struct PluginRegistry<F: PluginFactory> {
    factories: Vec<(String, F)>,
    next_id: PluginId,
    minted: Ghost<Seq<PluginId>>,
}

impl<F: PluginFactory> PluginRegistry<F> {
    /// Every minted id lies below the next one, and neighbours in minting
    /// order strictly increase.
    pub closed spec fn wf(&self) -> bool {
        &&& forall|i: int| 0 <= i < self.minted@.len() ==> #[trigger] self.minted@[i]
            < self.next_id
        &&& forall|i: int| 0 <= i && i + 1 < self.minted@.len() ==> #[trigger] self.minted@[i]
            < self.minted@[i + 1]
    }

    /// The ids handed out so far, in minting order.
    pub closed spec fn ids(&self) -> Seq<PluginId> {
        self.minted@
    }

    /// The id the next successful `create_proxy` returns.
    pub closed spec fn next_id_spec(&self) -> PluginId {
        self.next_id
    }

    /// The registered names, in registration order.
    pub closed spec fn names(&self) -> Seq<Seq<char>> {
        self.factories@.map_values(|p: (String, F)| p.0@)
    }

    /// Whether some factory is registered under this name.
    pub open spec fn spec_has_factory(&self, name: Seq<char>) -> bool {
        self.names().contains(name)
    }

    /// The id the next successful `create_proxy` returns; lets the
    /// embedding check the minting headroom before asking for a proxy.
    pub fn next_id(&self) -> (r: PluginId)
        ensures
            r == self.next_id_spec(),
    {
        self.next_id
    }

    /// An empty registry; the first proxy gets id 0.
    pub fn new() -> (r: Self)
        ensures
            r.wf(),
            r.ids() == Seq::<PluginId>::empty(),
            r.next_id_spec() == 0,
            r.names() == Seq::<Seq<char>>::empty(),
    {
        let r = PluginRegistry { factories: Vec::new(), next_id: 0, minted: Ghost(Seq::empty()) };
        proof {
            assert(r.names() =~= Seq::<Seq<char>>::empty());
        }
        r
    }

    /// Registers a factory under a name. The factory map is writable only
    /// during setup; lookups prefer the earliest registration of a name.
    pub fn register(&mut self, name: String, factory: F)
        ensures
            old(self).wf() ==> final(self).wf(),
            final(self).ids() == old(self).ids(),
            final(self).next_id_spec() == old(self).next_id_spec(),
            final(self).names() == old(self).names().push(name@),
    {
        let ghost nv = name@;
        self.factories.push((name, factory));
        proof {
            assert(self.names() =~= old(self).names().push(nv));
        }
    }

    /// Mints the next id, instantiates a sandbox via the named factory, and
    /// performs the `Init` handshake. An unknown name yields `Invalid` with
    /// nothing instantiated and no id consumed; a failed instantiation or a
    /// non-`Init` reply yields `Invalid` and the sandbox is dropped, but its
    /// id stays consumed and is never reused.
    pub fn create_proxy(&mut self, name: &String) -> (r: Result<
        PluginSession<F::Proxy>,
        PluginError,
    >)
        requires
            old(self).wf(),
            old(self).next_id_spec() < usize::MAX,
        ensures
            final(self).wf(),
            final(self).names() == old(self).names(),
            final(self).next_id_spec() >= old(self).next_id_spec(),
            !old(self).spec_has_factory(name@) ==> (r matches Err(e) && e == PluginError::Invalid
                && *final(self) == *old(self)),
            r matches Ok(s) ==> {
                &&& s.id_spec() == old(self).next_id_spec()
                &&& s.is_initialized()
                &&& !s.is_poisoned()
                &&& s.guest_calls() == 1
                &&& s.sent_payloads() == Seq::<Seq<u8>>::empty()
                &&& final(self).next_id_spec() == old(self).next_id_spec() + 1
                &&& final(self).ids() == old(self).ids().push(old(self).next_id_spec())
            },
            r is Err ==> final(self).ids() == old(self).ids(),
    {
        let mut found: Option<usize> = None;
        let mut k: usize = 0;
        while k < self.factories.len()
            invariant
                k <= self.factories@.len(),
                found matches Some(i) ==> 0 <= i < self.factories@.len() && self.factories@[
                    i as int
                ].0@ == name@,
                found is None ==> forall|i: int|
                    0 <= i < k ==> #[trigger] self.factories@[i].0@ != name@,
            decreases self.factories@.len() - k,
        {
            if found.is_none() && self.factories[k].0 == *name {
                found = Some(k);
            }
            k = k + 1;
        }
        match found {
            None => {
                proof {
                    assert forall|i: int| 0 <= i < self.names().len() implies self.names()[i]
                        != name@ by {
                        assert(self.names()[i] == self.factories@[i].0@);
                    }
                    assert(!self.spec_has_factory(name@));
                }
                Err(PluginError::Invalid)
            },
            Some(i) => {
                proof {
                    assert(self.names()[i as int] == name@);
                    assert(self.names().contains(name@));
                }
                let id = self.next_id;
                self.next_id = self.next_id + 1;
                proof {
                    assert(self.names() =~= old(self).names());
                    assert forall|j: int| 0 <= j < self.minted@.len() implies #[trigger] self.minted@[j]
                        < self.next_id by {
                        assert(old(self).minted@[j] < old(self).next_id);
                    }
                }
                match self.factories[i].1.create(id) {
                    Ok(proxy) => {
                        let mut session = PluginSession::new(proxy, id);
                        match session.init() {
                            Ok(()) => {
                                proof {
                                    let ghost before = self.minted@;
                                    self.minted@ = self.minted@.push(id);
                                    assert forall|j: int|
                                        0 <= j < self.minted@.len() implies #[trigger] self.minted@[j]
                                        < self.next_id by {
                                        if j < before.len() {
                                            assert(before[j] < old(self).next_id);
                                        }
                                    }
                                    assert forall|j: int|
                                        0 <= j && j + 1 < self.minted@.len() implies #[trigger] self.minted@[j]
                                        < self.minted@[j + 1] by {
                                        if j + 1 == before.len() as int {
                                            assert(before[j] < old(self).next_id);
                                        }
                                    }
                                }
                                Ok(session)
                            },
                            Err(_) => Err(PluginError::Invalid),
                        }
                    },
                    Err(_) => Err(PluginError::Invalid),
                }
            },
        }
    }
}

proof fn lemma_adjacent_implies_pairwise(s: Seq<PluginId>, i: int, j: int)
    requires
        forall|k: int| 0 <= k && k + 1 < s.len() ==> #[trigger] s[k] < s[k + 1],
        0 <= i < j < s.len(),
    ensures
        s[i] < s[j],
    decreases j - i,
{
    if j == i + 1 {
    } else {
        lemma_adjacent_implies_pairwise(s, i, j - 1);
        assert(s[j - 1] < s[j]);
    }
}

/// Proxy id uniqueness: across any sequence of `create_proxy` calls on one
/// registry, the ids handed out are strictly increasing, hence pairwise
/// distinct.
pub proof fn lemma_proxy_ids_strictly_increasing<F: PluginFactory>(r: &PluginRegistry<F>)
    requires
        r.wf(),
    ensures
        forall|i: int, j: int| 0 <= i < j < r.ids().len() ==> #[trigger] r.ids()[i]
            < #[trigger] r.ids()[j],
{
    assert forall|i: int, j: int| 0 <= i < j < r.ids().len() implies #[trigger] r.ids()[i]
        < #[trigger] r.ids()[j] by {
        assert forall|k: int| 0 <= k && k + 1 < r.ids().len() implies #[trigger] r.ids()[k]
            < r.ids()[k + 1] by {}
        lemma_adjacent_implies_pairwise(r.ids(), i, j);
    }
}

} // verus!
