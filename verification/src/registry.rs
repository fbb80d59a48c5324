//! The machine registry: an in-memory mapping from machine identifier to
//! machine record.
//!
//! The registry is modelled as a mathematical map from identifier to record
//! view.  `register` inserts under an identifier that is proved fresh, so an
//! identifier is never reused or reassigned; `lookup` and `list` only read.
//! Exclusive access under concurrency is the caller's affair: the surrounding
//! application holds the registry behind a lock and calls these operations
//! one at a time.

use vstd::prelude::*;
use vstd::set_lib::lemma_len_subset;
use crate::mac::MacAddr;
use crate::machine::{Machine, MachineView, opt_str_view};
use crate::sys;

verus! {

/// The record views of a sequence of machines.
pub open spec fn machine_views(s: Seq<Machine>) -> Seq<MachineView> {
    Seq::new(s.len(), |i: int| s[i]@)
}

/// Pairwise-distinct identifiers.
pub open spec fn distinct_ids(s: Seq<MachineView>) -> bool {
    forall|i: int, j: int| 0 <= i < j < s.len() ==> s[i].id != s[j].id
}

/// The mapping from identifier to record that a sequence of records denotes;
/// a later record under the same identifier shadows an earlier one.
pub open spec fn map_of(s: Seq<MachineView>) -> Map<u128, MachineView>
    decreases s.len(),
{
    if s.len() == 0 {
        Map::empty()
    } else {
        map_of(s.drop_last()).insert(s.last().id, s.last())
    }
}

/// An identifier is in the denoted map exactly when some record carries it.
pub proof fn lemma_map_of_contains(s: Seq<MachineView>, k: u128)
    ensures
        map_of(s).contains_key(k) <==> exists|i: int| 0 <= i < s.len() && s[i].id == k,
    decreases s.len(),
{
    if s.len() > 0 {
        lemma_map_of_contains(s.drop_last(), k);
        if map_of(s).contains_key(k) {
            if k == s.last().id {
                assert(s[s.len() - 1].id == k);
            } else {
                let i = choose|i: int| 0 <= i < s.drop_last().len() && s.drop_last()[i].id == k;
                assert(s[i].id == k);
            }
        }
        if exists|i: int| 0 <= i < s.len() && s[i].id == k {
            let i = choose|i: int| 0 <= i < s.len() && s[i].id == k;
            if i < s.len() - 1 {
                assert(s.drop_last()[i].id == k);
            }
        }
    }
}

/// The denoted map is finite, and under pairwise-distinct identifiers it has
/// one entry per record.
pub proof fn lemma_map_of_len(s: Seq<MachineView>)
    ensures
        map_of(s).dom().finite(),
        distinct_ids(s) ==> map_of(s).len() == s.len(),
    decreases s.len(),
{
    broadcast use vstd::set::group_set_axioms;

    if s.len() > 0 {
        lemma_map_of_len(s.drop_last());
        if distinct_ids(s) {
            assert(distinct_ids(s.drop_last())) by {
                assert(forall|i: int, j: int|
                    0 <= i < j < s.drop_last().len() ==> s.drop_last()[i] == s[i]
                        && s.drop_last()[j] == s[j]);
            }
            lemma_map_of_contains(s.drop_last(), s.last().id);
            assert(!map_of(s.drop_last()).contains_key(s.last().id)) by {
                if exists|i: int|
                    0 <= i < s.drop_last().len() && s.drop_last()[i].id == s.last().id {
                    let i = choose|i: int|
                        0 <= i < s.drop_last().len() && s.drop_last()[i].id == s.last().id;
                    assert(s[i].id == s[s.len() - 1].id);
                }
            }
        }
    }
}

/// Under pairwise-distinct identifiers, the denoted map sends each record's
/// identifier to that record.
pub proof fn lemma_map_of_get(s: Seq<MachineView>, i: int)
    requires
        distinct_ids(s),
        0 <= i < s.len(),
    ensures
        map_of(s).contains_key(s[i].id),
        map_of(s)[s[i].id] == s[i],
    decreases s.len(),
{
    if i < s.len() - 1 {
        assert(distinct_ids(s.drop_last())) by {
            assert(forall|x: int, y: int|
                0 <= x < y < s.drop_last().len() ==> s.drop_last()[x] == s[x] && s.drop_last()[y]
                    == s[y]);
        }
        assert(s.drop_last()[i] == s[i]);
        lemma_map_of_get(s.drop_last(), i);
        assert(s[i].id != s.last().id);
    }
}

/// The identifiers below `n`.
pub open spec fn ids_below(n: nat) -> Set<u128> {
    Set::new(|k: u128| (k as nat) < n)
}

/// There are exactly `n` identifiers below `n`.
pub proof fn lemma_ids_below_len(n: nat)
    requires
        n <= u128::MAX as nat + 1,
    ensures
        ids_below(n).finite(),
        ids_below(n).len() == n,
    decreases n,
{
    broadcast use vstd::set::group_set_axioms;

    if n == 0 {
        assert(ids_below(0) =~= Set::empty());
    } else {
        lemma_ids_below_len((n - 1) as nat);
        assert(ids_below(n) =~= ids_below((n - 1) as nat).insert((n - 1) as u128));
        assert(!ids_below((n - 1) as nat).contains((n - 1) as u128));
    }
}

/// The machine registry: the shared store of known machines, created once at
/// startup; entries are never deleted, and an identifier is never reassigned.
pub struct MachineRegistry {
    machines: Vec<Machine>,
}

impl View for MachineRegistry {
    type V = Map<u128, MachineView>;

    closed spec fn view(&self) -> Map<u128, MachineView> {
        map_of(machine_views(self.machines@))
    }
}

impl MachineRegistry {
    /// Every stored record carries a distinct identifier.
    pub closed spec fn wf(&self) -> bool {
        distinct_ids(machine_views(self.machines@))
    }

    /// An empty registry.
    pub fn new() -> (r: MachineRegistry)
        ensures
            r.wf(),
            r@ == Map::<u128, MachineView>::empty(),
            r@.dom().finite(),
    {
        let r = MachineRegistry { machines: Vec::new() };
        proof {
            lemma_map_of_len(machine_views(r.machines@));
        }
        r
    }

    /// The registry's map has finitely many entries.
    pub proof fn lemma_dom_finite(&self)
        ensures
            self@.dom().finite(),
    {
        lemma_map_of_len(machine_views(self.machines@));
    }

    /// Whether some machine is registered under `id`.
    pub fn contains_id(&self, id: u128) -> (b: bool)
        ensures
            b == self@.contains_key(id),
    {
        let n = self.machines.len();
        for i in 0..n
            invariant
                n == self.machines.len(),
                forall|j: int| 0 <= j < i ==> machine_views(self.machines@)[j].id != id,
        {
            if self.machines[i].id == id {
                proof {
                    assert(machine_views(self.machines@)[i as int].id == id);
                    lemma_map_of_contains(machine_views(self.machines@), id);
                }
                return true;
            }
        }
        proof {
            lemma_map_of_contains(machine_views(self.machines@), id);
        }
        false
    }

    /// An identifier under which nothing is registered.  The first candidate
    /// is a freshly drawn random identifier; if (against all odds) that
    /// identifier is taken, the registry holds at most `usize::MAX` entries
    /// while there are `u128::MAX + 1` identifiers, so a scan of the first
    /// `len + 1` identifiers finds a free one.
    fn fresh_id(&self) -> (id: u128)
        requires
            self.wf(),
        ensures
            !self@.contains_key(id),
    {
        let candidate = sys::random_u128();
        if !self.contains_id(candidate) {
            return candidate;
        }
        let n = self.machines.len();
        for i in 0..n
            invariant
                n == self.machines.len(),
                forall|k: u128| (k as int) < i ==> self@.contains_key(k),
        {
            let c = i as u128;
            if !self.contains_id(c) {
                return c;
            }
            proof {
                assert forall|k: u128| (k as int) < i + 1 implies self@.contains_key(k) by {
                    if (k as int) >= i {
                        assert(k == c);
                    }
                }
            }
        }
        let c = n as u128;
        if !self.contains_id(c) {
            return c;
        }
        proof {
            lemma_map_of_len(machine_views(self.machines@));
            let dom = self@.dom();
            assert forall|k: u128| (k as nat) < n + 1 implies dom.contains(k) by {
                if (k as int) >= n {
                    assert(k == c);
                }
            }
            assert(ids_below(n as nat + 1).subset_of(dom));
            lemma_ids_below_len(n as nat + 1);
            lemma_len_subset(ids_below(n as nat + 1), dom);
            assert(false);
        }
        0
    }

    /// Registers a machine: constructs a record under a fresh identifier,
    /// stamped with the current time, inserts it, and returns the identifier.
    /// Always succeeds; no duplicate detection by name or address is done, so
    /// registering the same physical machine twice makes two records.
    pub fn register(&mut self, name: String, mac_address: MacAddr, ip_address: Option<String>)
        -> (id: u128)
        requires
            old(self).wf(),
        ensures
            final(self).wf(),
            !old(self)@.contains_key(id),
            final(self)@.contains_key(id),
            final(self)@ == old(self)@.insert(id, final(self)@[id]),
            final(self)@[id].id == id,
            final(self)@[id].name == name@,
            final(self)@[id].mac_address == mac_address@,
            final(self)@[id].ip_address == opt_str_view(ip_address),
            final(self)@.dom().finite(),
    {
        let id = self.fresh_id();
        let machine = Machine {
            id,
            name,
            mac_address,
            ip_address,
            registered_at: sys::unix_time_secs(),
        };
        let ghost old_views = machine_views(self.machines@);
        let ghost mv = machine@;
        self.machines.push(machine);
        proof {
            let views = machine_views(self.machines@);
            assert(views =~= old_views.push(mv));
            assert(views.drop_last() =~= old_views);
            lemma_map_of_contains(old_views, id);
            assert(distinct_ids(views)) by {
                assert(forall|i: int| 0 <= i < old_views.len() ==> views[i] == old_views[i]);
                assert forall|i: int, j: int| 0 <= i < j < views.len() implies views[i].id
                    != views[j].id by {
                    if j == views.len() - 1 {
                        assert(old_views[i].id == views[i].id);
                    }
                }
            }
            lemma_map_of_len(machine_views(self.machines@));
            assert(self@ == map_of(old_views).insert(id, mv));
            assert(self@[id] == mv);
        }
        id
    }

    /// Looks up the machine registered under `id`: a copy of the stored
    /// record, or `None` exactly when no entry matches.  Read-only.
    pub fn lookup(&self, id: u128) -> (r: Option<Machine>)
        requires
            self.wf(),
        ensures
            match r {
                Some(m) => self@.contains_key(id) && m@ == self@[id],
                None => !self@.contains_key(id),
            },
    {
        let n = self.machines.len();
        for i in 0..n
            invariant
                self.wf(),
                n == self.machines.len(),
                forall|j: int| 0 <= j < i ==> machine_views(self.machines@)[j].id != id,
        {
            if self.machines[i].id == id {
                proof {
                    assert(machine_views(self.machines@)[i as int].id == id);
                    lemma_map_of_get(machine_views(self.machines@), i as int);
                }
                return Some(self.machines[i].duplicate());
            }
        }
        proof {
            lemma_map_of_contains(machine_views(self.machines@), id);
        }
        None
    }

    /// A snapshot of all entries as `(identifier, name)` pairs, one per
    /// registered machine, in no promised order.  Read-only.
    pub fn list(&self) -> (r: Vec<(u128, String)>)
        requires
            self.wf(),
        ensures
            r@.len() == self@.len(),
            forall|i: int|
                0 <= i < r@.len() ==> self@.contains_key(#[trigger] r@[i].0) && self@[r@[i].0].name
                    == r@[i].1@,
            forall|i: int, j: int| 0 <= i < j < r@.len() ==> r@[i].0 != r@[j].0,
    {
        proof {
            lemma_map_of_len(machine_views(self.machines@));
        }
        let mut r: Vec<(u128, String)> = Vec::new();
        let n = self.machines.len();
        for i in 0..n
            invariant
                self.wf(),
                n == self.machines.len(),
                r@.len() == i,
                forall|j: int|
                    0 <= j < i ==> #[trigger] r@[j].0 == machine_views(self.machines@)[j].id
                        && self@.contains_key(r@[j].0) && self@[r@[j].0].name == r@[j].1@,
        {
            proof {
                lemma_map_of_get(machine_views(self.machines@), i as int);
            }
            r.push((self.machines[i].id, self.machines[i].name.clone()));
        }
        proof {
            assert forall|i: int, j: int| 0 <= i < j < r@.len() implies r@[i].0 != r@[j].0 by {
                assert(machine_views(self.machines@)[i].id != machine_views(self.machines@)[j].id);
            }
        }
        r
    }
}

/// A machine registered under a fresh identifier is found by a later lookup
/// of that identifier, unchanged, and no other entry is disturbed.
pub proof fn lemma_register_then_lookup(
    m0: Map<u128, MachineView>,
    id: u128,
    rec: MachineView,
)
    requires
        !m0.contains_key(id),
    ensures
        m0.insert(id, rec).contains_key(id),
        m0.insert(id, rec)[id] == rec,
        forall|k: u128|
            #[trigger] m0.contains_key(k) ==> m0.insert(id, rec).contains_key(k) && m0.insert(
                id,
                rec,
            )[k] == m0[k],
{
}

/// Each registration under a fresh identifier grows the registry by exactly
/// one entry: no registration is lost and none is overwritten.
pub proof fn lemma_register_count(m0: Map<u128, MachineView>, id: u128, rec: MachineView)
    requires
        m0.dom().finite(),
        !m0.contains_key(id),
    ensures
        m0.insert(id, rec).len() == m0.len() + 1,
        m0.insert(id, rec).dom().finite(),
{
    broadcast use vstd::set::group_set_axioms;

    assert(m0.insert(id, rec).dom() =~= m0.dom().insert(id));
}

} // verus!
