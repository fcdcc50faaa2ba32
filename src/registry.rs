use vstd::prelude::*;
use crate::tile::{TileData, TileId};

verus! {

/// Tiles keyed by local id, each id registered once, in the order they were
/// registered.
#[derive(Debug, PartialEq, Eq)]
pub struct TileRegistry {
    entries: Vec<(TileId, TileData)>,
}

/// The map that a list of entries describes: a later entry of an id replaces
/// an earlier one.
pub open spec fn registry_map(s: Seq<(TileId, TileData)>) -> Map<TileId, TileData>
    decreases s.len(),
{
    if s.len() == 0 {
        Map::empty()
    } else {
        registry_map(s.drop_last()).insert(s.last().0, s.last().1)
    }
}

/// No id is registered twice.
pub open spec fn unique_ids(s: Seq<(TileId, TileData)>) -> bool {
    forall|i: int, j: int| 0 <= i < j < s.len() ==> s[i].0 != s[j].0
}

/// Each entry is what the map holds for its id, and the map holds no other ids.
pub proof fn lemma_registry_entries(s: Seq<(TileId, TileData)>)
    requires
        unique_ids(s),
    ensures
        forall|i: int| 0 <= i < s.len() ==> #[trigger] registry_map(s).contains_key(s[i].0)
            && registry_map(s)[s[i].0] == s[i].1,
        forall|k: TileId| #[trigger] registry_map(s).contains_key(k) ==> exists|i: int|
            0 <= i < s.len() && s[i].0 == k,
        registry_map(s).dom().finite(),
        registry_map(s).len() == s.len(),
    decreases s.len(),
{
    if s.len() > 0 {
        let p = s.drop_last();
        lemma_registry_entries(p);
        assert forall|i: int| 0 <= i < s.len() implies #[trigger] registry_map(s).contains_key(s[i].0)
            && registry_map(s)[s[i].0] == s[i].1 by {
            if i < s.len() - 1 {
                assert(p[i] == s[i]);
            }
        }
        assert forall|k: TileId| #[trigger] registry_map(s).contains_key(k) implies exists|i: int|
            0 <= i < s.len() && s[i].0 == k by {
            if k != s.last().0 {
                let i = choose|i: int| 0 <= i < p.len() && p[i].0 == k;
                assert(s[i] == p[i]);
            }
        }
        if registry_map(p).contains_key(s.last().0) {
            let i = choose|i: int| 0 <= i < p.len() && p[i].0 == s.last().0;
            assert(s[i] == p[i]);
        }
    }
}

/// Whether `id` is registered.
fn registry_contains(reg: &Vec<(TileId, TileData)>, id: TileId) -> (r: bool)
    requires
        unique_ids(reg@),
    ensures
        r == registry_map(reg@).contains_key(id),
{
    proof {
        lemma_registry_entries(reg@);
    }
    let mut i: usize = 0;
    while i < reg.len()
        invariant
            unique_ids(reg@),
            i <= reg@.len(),
            forall|j: int| 0 <= j < i ==> reg@[j].0 != id,
        decreases reg@.len() - i,
    {
        if reg[i].0 == id {
            proof {
                lemma_registry_entries(reg@);
                assert(registry_map(reg@).contains_key(reg@[i as int].0));
            }
            return true;
        }
        i = i + 1;
    }
    false
}

/// The position of `id` in the registry, if it is registered.
fn registry_position(reg: &Vec<(TileId, TileData)>, id: TileId) -> (r: Option<usize>)
    requires
        unique_ids(reg@),
    ensures
        match r {
            Some(i) => i < reg@.len() && reg@[i as int].0 == id,
            None => !registry_map(reg@).contains_key(id),
        },
{
    proof {
        lemma_registry_entries(reg@);
    }
    let mut i: usize = 0;
    while i < reg.len()
        invariant
            unique_ids(reg@),
            i <= reg@.len(),
            forall|j: int| 0 <= j < i ==> reg@[j].0 != id,
        decreases reg@.len() - i,
    {
        if reg[i].0 == id {
            return Some(i);
        }
        i = i + 1;
    }
    None
}

impl View for TileRegistry {
    type V = Map<TileId, TileData>;

    closed spec fn view(&self) -> Map<TileId, TileData> {
        registry_map(self.entries@)
    }
}

impl TileRegistry {
    #[verifier::type_invariant]
    spec fn inv(&self) -> bool {
        unique_ids(self.entries@)
    }

    /// An empty registry.
    pub fn new() -> (r: TileRegistry)
        ensures
            r@ == Map::<TileId, TileData>::empty(),
    {
        TileRegistry { entries: Vec::new() }
    }

    /// What is registered under `id`.
    pub fn get(&self, id: TileId) -> (r: Option<&TileData>)
        ensures
            r is Some == self@.contains_key(id),
            r matches Some(d) ==> *d == self@[id],
    {
        proof {
            use_type_invariant(self);
            lemma_registry_entries(self.entries@);
        }
        match registry_position(&self.entries, id) {
            Some(i) => {
                assert(registry_map(self.entries@).contains_key(self.entries@[i as int].0));
                Some(&self.entries[i].1)
            },
            None => None,
        }
    }

    /// This registry with `data` registered under `id`, unless `id` is
    /// registered already.
    pub fn insert_if_absent(self, id: TileId, data: TileData) -> (r: TileRegistry)
        ensures
            r@ == if self@.contains_key(id) {
                self@
            } else {
                self@.insert(id, data)
            },
    {
        proof {
            use_type_invariant(&self);
        }
        let mut entries = self.entries;
        if !registry_contains(&entries, id) {
            proof {
                lemma_registry_entries(entries@);
            }
            let ghost before = entries@;
            entries.push((id, data));
            assert(entries@.drop_last() == before);
        }
        TileRegistry { entries }
    }

    /// This registry with a blank tile under every id below `n` that is not
    /// registered yet.
    pub fn fill_blank_below(self, n: u32) -> (r: TileRegistry)
        ensures
            forall|k: TileId| #[trigger] r@.contains_key(k) <==> (self@.contains_key(k) || k < n),
            forall|k: TileId| #[trigger] self@.contains_key(k) ==> r@[k] == self@[k],
            forall|k: TileId|
                #[trigger] r@.contains_key(k) && !self@.contains_key(k) ==> r@[k].is_blank(),
    {
        proof {
            use_type_invariant(&self);
            lemma_registry_entries(self.entries@);
        }
        let ghost before = self@;
        let mut entries = self.entries;
        let ghost declared = entries@;
        let mut present: Vec<bool> = Vec::new();
        let mut k: u32 = 0;
        while k < n
            invariant
                k <= n,
                present@.len() == k,
                forall|j: int| 0 <= j < k ==> !present@[j],
            decreases n - k,
        {
            present.push(false);
            k = k + 1;
        }
        let mut i: usize = 0;
        while i < entries.len()
            invariant
                entries@ == declared,
                unique_ids(declared),
                before == registry_map(declared),
                i <= declared.len(),
                present@.len() == n,
                forall|j: int| 0 <= j < n && #[trigger] present@[j] ==> before.contains_key(j as TileId),
                forall|e: int| 0 <= e < i && declared[e].0 < n ==> present@[declared[e].0 as int],
            decreases declared.len() - i,
        {
            let id = entries[i].0;
            if id < n {
                proof {
                    lemma_registry_entries(declared);
                    assert(registry_map(declared).contains_key(declared[i as int].0));
                }
                present.set(id as usize, true);
            }
            i = i + 1;
        }
        proof {
            lemma_registry_entries(declared);
            assert forall|j: int| 0 <= j < n && before.contains_key(j as TileId) implies #[trigger] present@[j] by {
                let e = choose|e: int| 0 <= e < declared.len() && declared[e].0 == j as TileId;
                assert(declared[e].0 < n);
            }
        }
        let mut id: u32 = 0;
        while id < n
            invariant
                id <= n,
                unique_ids(entries@),
                present@.len() == n,
                forall|j: int| 0 <= j < n ==> (#[trigger] present@[j] <==> before.contains_key(j as TileId)),
                forall|k: TileId| #[trigger] registry_map(entries@).contains_key(k) <==> (
                    before.contains_key(k) || k < id),
                forall|k: TileId| #[trigger] before.contains_key(k) ==> registry_map(entries@)[k] == before[k],
                forall|k: TileId| #[trigger] registry_map(entries@).contains_key(k) && !before.contains_key(k)
                    ==> registry_map(entries@)[k].is_blank(),
            decreases n - id,
        {
            if !present[id as usize] {
                proof {
                    lemma_registry_entries(entries@);
                    assert(!before.contains_key(id));
                    assert forall|e: int| 0 <= e < entries@.len() implies entries@[e].0 != id by {
                        assert(registry_map(entries@).contains_key(entries@[e].0));
                    }
                }
                let ghost prev = entries@;
                entries.push((id, TileData::default()));
                assert(entries@.drop_last() == prev);
            }
            id = id + 1;
        }
        TileRegistry { entries }
    }

    /// Every registered id once, with what it maps to.
    pub fn entries(&self) -> (r: Vec<(TileId, &TileData)>)
        ensures
            r@.len() == self@.len(),
            forall|i: int| 0 <= i < r@.len() ==> {
                &&& self@.contains_key(#[trigger] r@[i].0)
                &&& *r@[i].1 == self@[r@[i].0]
            },
            forall|i: int, j: int| 0 <= i < j < r@.len() ==> r@[i].0 != r@[j].0,
            forall|k: TileId| #[trigger] self@.contains_key(k) ==> exists|i: int|
                0 <= i < r@.len() && r@[i].0 == k,
    {
        proof {
            use_type_invariant(self);
            lemma_registry_entries(self.entries@);
        }
        let mut r: Vec<(TileId, &TileData)> = Vec::new();
        let mut i: usize = 0;
        while i < self.entries.len()
            invariant
                i <= self.entries@.len(),
                r@.len() == i,
                forall|j: int| 0 <= j < i ==> {
                    &&& #[trigger] r@[j].0 == self.entries@[j].0
                    &&& *r@[j].1 == self.entries@[j].1
                },
            decreases self.entries@.len() - i,
        {
            r.push((self.entries[i].0, &self.entries[i].1));
            i = i + 1;
        }
        assert forall|k: TileId| #[trigger] self@.contains_key(k) implies exists|i: int|
            0 <= i < r@.len() && r@[i].0 == k by {
            let j = choose|j: int| 0 <= j < self.entries@.len() && self.entries@[j].0 == k;
            assert(r@[j].0 == k);
        }
        r
    }
}

} // verus!
