use vstd::prelude::*;

use std::sync::Arc;

use crate::config::ServerId;
use crate::server::{ActiveServer, ActiveServerView};

verus! {

/// The key sequence of an entry list.
pub open spec fn entry_ids(s: Seq<(ServerId, Arc<ActiveServer>)>) -> Seq<ServerId> {
    s.map_values(|p: (ServerId, Arc<ActiveServer>)| p.0)
}

/// No deployment identity appears twice.
pub open spec fn unique_ids(s: Seq<(ServerId, Arc<ActiveServer>)>) -> bool {
    forall|i: int, j: int| 0 <= i < j < s.len() ==> s[i].0 != s[j].0
}

/// Every entry is keyed by its session's own identity.
pub open spec fn keyed_by_id(s: Seq<(ServerId, Arc<ActiveServer>)>) -> bool {
    forall|i: int| 0 <= i < s.len() ==> (#[trigger] s[i]).1.id == s[i].0
}

/// The finite map that an entry list denotes; a later binding for the same
/// key would win, but the store keeps keys unique.
pub open spec fn map_of(s: Seq<(ServerId, Arc<ActiveServer>)>) -> Map<ServerId, ActiveServerView>
    decreases s.len(),
{
    if s.len() == 0 {
        Map::empty()
    } else {
        map_of(s.drop_last()).insert(s.last().0, s.last().1@)
    }
}

proof fn lemma_map_of_contains(s: Seq<(ServerId, Arc<ActiveServer>)>, k: ServerId)
    ensures
        map_of(s).contains_key(k) <==> exists|i: int| 0 <= i < s.len() && (#[trigger] s[i]).0 == k,
    decreases s.len(),
{
    if s.len() > 0 {
        lemma_map_of_contains(s.drop_last(), k);
        if s.last().0 == k {
            assert(s[s.len() - 1].0 == k);
        } else {
            if map_of(s).contains_key(k) {
                let i = choose|i: int| 0 <= i < s.drop_last().len() && (#[trigger] s.drop_last()[i]).0 == k;
                assert(s[i].0 == k);
            }
            if exists|i: int| 0 <= i < s.len() && (#[trigger] s[i]).0 == k {
                let i = choose|i: int| 0 <= i < s.len() && (#[trigger] s[i]).0 == k;
                assert(s.drop_last()[i].0 == k);
            }
        }
    }
}

proof fn lemma_map_of_get(s: Seq<(ServerId, Arc<ActiveServer>)>, i: int)
    requires
        unique_ids(s),
        0 <= i < s.len(),
    ensures
        map_of(s).contains_key(s[i].0),
        map_of(s)[s[i].0] == s[i].1@,
    decreases s.len(),
{
    if i == s.len() - 1 {
    } else {
        assert(unique_ids(s.drop_last()));
        assert(s.drop_last()[i] == s[i]);
        lemma_map_of_get(s.drop_last(), i);
        assert(s.last().0 != s[i].0);
    }
}

proof fn lemma_map_of_remove(s: Seq<(ServerId, Arc<ActiveServer>)>, i: int)
    requires
        unique_ids(s),
        0 <= i < s.len(),
    ensures
        map_of(s.remove(i)) == map_of(s).remove(s[i].0),
    decreases s.len(),
{
    let k = s[i].0;
    if i == s.len() - 1 {
        assert(s.remove(i) =~= s.drop_last());
        lemma_map_of_contains(s.drop_last(), k);
        assert(forall|j: int|
            0 <= j < s.drop_last().len() ==> (#[trigger] s.drop_last()[j]).0 != k);
        assert(map_of(s.drop_last()) =~= map_of(s.drop_last()).insert(k, s.last().1@).remove(k));
    } else {
        assert(unique_ids(s.drop_last()));
        assert(s.drop_last()[i] == s[i]);
        lemma_map_of_remove(s.drop_last(), i);
        assert(s.remove(i).len() == s.len() - 1);
        assert(s.remove(i).drop_last() =~= s.drop_last().remove(i));
        assert(s.remove(i).last() == s.last());
        assert(s.last().0 != k);
        assert(map_of(s.drop_last()).remove(k).insert(s.last().0, s.last().1@) =~= map_of(
            s.drop_last(),
        ).insert(s.last().0, s.last().1@).remove(k));
    }
}

proof fn lemma_map_of_push(s: Seq<(ServerId, Arc<ActiveServer>)>, p: (ServerId, Arc<ActiveServer>))
    ensures
        map_of(s.push(p)) == map_of(s).insert(p.0, p.1@),
{
    assert(s.push(p).drop_last() =~= s);
    assert(s.push(p).last() == p);
}

/// The concurrent in-memory registry of live sessions, keyed by deployment
/// identity. Each identity appears at most once; loading an already-loaded
/// identity replaces the prior session. Resolution work happens before an
/// entry is installed, so the store itself only ever performs the final
/// replacement, lookup or removal.
pub struct ServerStore {
    servers: Vec<(ServerId, Arc<ActiveServer>)>,
}

impl View for ServerStore {
    type V = Map<ServerId, ActiveServerView>;

    closed spec fn view(&self) -> Map<ServerId, ActiveServerView> {
        map_of(self.servers@)
    }
}

impl ServerStore {
    /// Identities currently loaded, oldest installation first.
    pub closed spec fn ids(&self) -> Seq<ServerId> {
        entry_ids(self.servers@)
    }

    /// The store's invariant: entries are keyed by their session's identity,
    /// and no identity appears twice.
    pub closed spec fn wf(&self) -> bool {
        unique_ids(self.servers@) && keyed_by_id(self.servers@)
    }

    /// An identity is loaded exactly when it is among `ids()`.
    pub proof fn lemma_ids_are_keys(&self)
        ensures
            forall|k: ServerId| self@.contains_key(k) <==> self.ids().contains(k),
    {
        assert forall|k: ServerId| self@.contains_key(k) <==> self.ids().contains(k) by {
            lemma_map_of_contains(self.servers@, k);
            if exists|i: int| 0 <= i < self.servers@.len() && (#[trigger] self.servers@[i]).0 == k {
                let i = choose|i: int|
                    0 <= i < self.servers@.len() && (#[trigger] self.servers@[i]).0 == k;
                assert(self.ids()[i] == k);
            }
            if self.ids().contains(k) {
                let i = choose|i: int| 0 <= i < self.ids().len() && self.ids()[i] == k;
                assert(self.servers@[i].0 == k);
            }
        }
    }

    /// An empty registry.
    pub fn new() -> (r: ServerStore)
        ensures
            r@ == Map::<ServerId, ActiveServerView>::empty(),
            r.wf(),
            r.ids() == Seq::<ServerId>::empty(),
    {
        let r = ServerStore { servers: Vec::new() };
        proof {
            assert(r.ids() =~= Seq::<ServerId>::empty());
        }
        r
    }

    /// The index of the entry for `id`, if one is loaded.
    fn find_index(&self, id: ServerId) -> (r: Option<usize>)
        ensures
            r matches Some(i) ==> i < self.servers@.len() && self.servers@[i as int].0 == id,
            r is None ==> forall|j: int|
                0 <= j < self.servers@.len() ==> (#[trigger] self.servers@[j]).0 != id,
    {
        let n = self.servers.len();
        let mut i: usize = 0;
        while i < n
            invariant
                i <= n,
                n == self.servers@.len(),
                forall|j: int| 0 <= j < i ==> (#[trigger] self.servers@[j]).0 != id,
            decreases n - i,
        {
            if self.servers[i].0 == id {
                return Some(i);
            }
            i = i + 1;
        }
        None
    }

    /// Shared handle to the session loaded under `id`, if any. Readers only
    /// ever observe "absent" or a fully assembled session.
    pub fn get_server(&self, id: ServerId) -> (r: Option<Arc<ActiveServer>>)
        requires
            self.wf(),
        ensures
            r matches Some(s) ==> self@.contains_key(id) && s@ == self@[id] && s.id == id,
            r is None ==> !self@.contains_key(id),
    {
        match self.find_index(id) {
            Some(i) => {
                proof {
                    lemma_map_of_get(self.servers@, i as int);
                }
                Some(self.servers[i].1.clone())
            },
            None => {
                proof {
                    lemma_map_of_contains(self.servers@, id);
                }
                None
            },
        }
    }

    /// Whether a session is loaded under `id`.
    pub fn is_active(&self, id: ServerId) -> (r: bool)
        requires
            self.wf(),
        ensures
            r == self@.contains_key(id),
    {
        proof {
            lemma_map_of_contains(self.servers@, id);
        }
        self.find_index(id).is_some()
    }

    /// Remove and release the session loaded under `id`; does nothing when
    /// none is.
    pub fn remove_server(&mut self, id: ServerId)
        requires
            old(self).wf(),
        ensures
            final(self)@ == old(self)@.remove(id),
            final(self).wf(),
            !final(self).ids().contains(id),
    {
        match self.find_index(id) {
            Some(i) => {
                proof {
                    lemma_map_of_remove(self.servers@, i as int);
                    self.servers@.remove_ensures(i as int);
                }
                let _ = self.servers.remove(i);
                proof {
                    assert forall|j: int| 0 <= j < self.servers@.len() implies (
                    #[trigger] self.servers@[j]).0 != id by {
                        let s = old(self).servers@;
                        if j < i as int {
                            assert(s[j].0 != s[i as int].0);
                        } else {
                            assert(s[j + 1].0 != s[i as int].0);
                        }
                    }
                    if self.ids().contains(id) {
                        let j = choose|j: int| 0 <= j < self.ids().len() && self.ids()[j] == id;
                        assert(self.servers@[j].0 == id);
                    }
                }
            },
            None => {
                proof {
                    lemma_map_of_contains(self.servers@, id);
                    assert(self@ =~= self@.remove(id));
                    if self.ids().contains(id) {
                        let j = choose|j: int|
                            0 <= j < self.ids().len() && self.ids()[j] == id;
                        assert(self.servers@[j].0 == id);
                    }
                }
            },
        }
    }

    /// Install a fully assembled session under its own identity, replacing
    /// any prior session for that identity, and hand back a shared handle to
    /// it. The store is updated by this single entry swap and nothing else.
    pub fn install_server(&mut self, server: Arc<ActiveServer>) -> (r: Arc<ActiveServer>)
        requires
            old(self).wf(),
        ensures
            final(self)@ == old(self)@.insert(server.id, server@),
            final(self).wf(),
            r == server,
    {
        let id = server.id;
        let out = server.clone();
        self.remove_server(id);
        proof {
            lemma_map_of_push(self.servers@, (id, server));
            assert(old(self)@.remove(id).insert(id, server@) =~= old(self)@.insert(id, server@));
            let s = self.servers@;
            assert forall|j: int| 0 <= j < s.len() implies (#[trigger] s[j]).0 != id by {
                assert(self.ids()[j] == s[j].0);
            }
        }
        self.servers.push((id, server));
        out
    }

    /// Snapshot of the currently loaded sessions, oldest installation first.
    pub fn get_servers(&self) -> (r: Vec<Arc<ActiveServer>>)
        requires
            self.wf(),
        ensures
            r@.len() == self.ids().len(),
            forall|i: int|
                0 <= i < r@.len() ==> (#[trigger] r@[i]).id == self.ids()[i]
                    && self@.contains_key(r@[i].id) && r@[i]@ == self@[r@[i].id],
            forall|i: int, j: int| 0 <= i < j < r@.len() ==> r@[i].id != r@[j].id,
            forall|k: ServerId| self@.contains_key(k) ==> self.ids().contains(k),
    {
        let n = self.servers.len();
        let mut r: Vec<Arc<ActiveServer>> = Vec::new();
        let mut i: usize = 0;
        while i < n
            invariant
                i <= n,
                n == self.servers@.len(),
                self.wf(),
                r@.len() == i,
                forall|j: int| 0 <= j < i ==> (#[trigger] r@[j]) == self.servers@[j].1,
            decreases n - i,
        {
            r.push(self.servers[i].1.clone());
            i = i + 1;
        }
        proof {
            assert forall|j: int| 0 <= j < r@.len() implies (#[trigger] r@[j]).id == self.ids()[j]
                && self@.contains_key(r@[j].id) && r@[j]@ == self@[r@[j].id] by {
                lemma_map_of_get(self.servers@, j);
            }
            self.lemma_ids_are_keys();
        }
        r
    }

    /// The identities of the currently loaded sessions, oldest installation
    /// first.
    pub fn active_ids(&self) -> (r: Vec<ServerId>)
        requires
            self.wf(),
        ensures
            r@ == self.ids(),
            forall|i: int, j: int| 0 <= i < j < r@.len() ==> r@[i] != r@[j],
            forall|k: ServerId| self@.contains_key(k) ==> self.ids().contains(k),
    {
        let n = self.servers.len();
        let mut r: Vec<ServerId> = Vec::new();
        let mut i: usize = 0;
        while i < n
            invariant
                i <= n,
                n == self.servers@.len(),
                r@.len() == i,
                forall|j: int| 0 <= j < i ==> (#[trigger] r@[j]) == self.servers@[j].0,
            decreases n - i,
        {
            r.push(self.servers[i].0);
            i = i + 1;
        }
        proof {
            assert(r@ =~= self.ids());
            self.lemma_ids_are_keys();
        }
        r
    }
}

impl Default for ServerStore {
    /// An empty registry.
    fn default() -> (r: ServerStore)
        ensures
            r@ == Map::<ServerId, ActiveServerView>::empty(),
            r.wf(),
    {
        ServerStore::new()
    }
}

/// Installs for distinct identities commute: whichever of the two installs
/// runs second, each identity retrieves its own session afterwards.
pub proof fn lemma_independent_installs(
    m: Map<ServerId, ActiveServerView>,
    a: ServerId,
    b: ServerId,
    x: ActiveServerView,
    y: ActiveServerView,
)
    requires
        a != b,
    ensures
        m.insert(a, x).insert(b, y)[a] == x,
        m.insert(a, x).insert(b, y)[b] == y,
        m.insert(b, y).insert(a, x)[a] == x,
        m.insert(b, y).insert(a, x)[b] == y,
{
}

} // verus!
