use vstd::prelude::*;
use std::collections::{BTreeMap, BTreeSet};

verus! {

broadcast use vstd::std_specs::btree::group_btree_axioms;

/// A map from names to ids, kept as a list with no name twice.
pub struct NameTable {
    entries: Vec<(String, u64)>,
}

impl NameTable {
    /// No two entries share a name.
    pub closed spec fn well_formed(&self) -> bool {
        forall|i: int, j: int|
            0 <= i < j < self.entries@.len() ==> self.entries@[i].0@ != self.entries@[j].0@
    }

    /// The map from names to ids.
    pub closed spec fn view(&self) -> Map<Seq<char>, u64> {
        Map::new(
            |n: Seq<char>| exists|i: int| 0 <= i < self.entries@.len() && self.entries@[i].0@ == n,
            |n: Seq<char>|
                self.entries@[choose|i: int| 0 <= i < self.entries@.len() && self.entries@[i].0@ == n].1,
        )
    }

    proof fn lemma_view_at(&self, i: int)
        requires
            self.well_formed(),
            0 <= i < self.entries@.len(),
        ensures
            self.view().contains_key(self.entries@[i].0@),
            self.view()[self.entries@[i].0@] == self.entries@[i].1,
    {
        let n = self.entries@[i].0@;
        let k = choose|k: int| 0 <= k < self.entries@.len() && self.entries@[k].0@ == n;
        assert(k == i);
    }

    /// An empty table.
    pub fn new() -> (t: NameTable)
        ensures
            t.well_formed(),
            t.view() == Map::<Seq<char>, u64>::empty(),
    {
        let t = NameTable { entries: Vec::new() };
        assert(t.view() =~= Map::<Seq<char>, u64>::empty());
        t
    }

    fn find(&self, name: &String) -> (r: Option<usize>)
        requires
            self.well_formed(),
        ensures
            r is None ==> !self.view().contains_key(name@),
            r matches Some(i) ==> i < self.entries@.len() && self.entries@[i as int].0@ == name@,
    {
        let mut i: usize = 0;
        while i < self.entries.len()
            invariant
                0 <= i <= self.entries@.len(),
                forall|k: int| 0 <= k < i ==> self.entries@[k].0@ != name@,
            decreases self.entries@.len() - i,
        {
            if self.entries[i].0 == *name {
                return Some(i);
            }
            i = i + 1;
        }
        None
    }

    /// The id that `name` maps to, if any.
    pub fn get(&self, name: &String) -> (r: Option<u64>)
        requires
            self.well_formed(),
        ensures
            r == (if self.view().contains_key(name@) {
                Some(self.view()[name@])
            } else {
                None::<u64>
            }),
    {
        match self.find(name) {
            Some(i) => {
                proof {
                    self.lemma_view_at(i as int);
                }
                Some(self.entries[i].1)
            },
            None => None,
        }
    }

    /// Maps `name` to `id`, in place of what it mapped to before.
    pub fn insert(&mut self, name: String, id: u64)
        requires
            old(self).well_formed(),
        ensures
            final(self).well_formed(),
            final(self).view() == old(self).view().insert(name@, id),
    {
        let ghost old_view = self.view();
        match self.find(&name) {
            Some(i) => {
                let ghost n = name@;
                self.entries.set(i, (name, id));
                proof {
                    assert forall|n2: Seq<char>| #[trigger] self.view().contains_key(n2) <==> old_view.insert(n, id).contains_key(n2) by {
                        if old_view.contains_key(n2) {
                            let k = choose|k: int| 0 <= k < old(self).entries@.len() && old(self).entries@[k].0@ == n2;
                            assert(self.entries@[k].0@ == n2);
                        }
                        if self.view().contains_key(n2) {
                            let k = choose|k: int| 0 <= k < self.entries@.len() && self.entries@[k].0@ == n2;
                            if k != i {
                                assert(old(self).entries@[k].0@ == n2);
                            }
                        }
                        if n2 == n {
                            assert(self.entries@[i as int].0@ == n2);
                        }
                    }
                    assert forall|n2: Seq<char>| #[trigger] self.view().contains_key(n2) implies self.view()[n2] == old_view.insert(n, id)[n2] by {
                        let k = choose|k: int| 0 <= k < self.entries@.len() && self.entries@[k].0@ == n2;
                        self.lemma_view_at(k);
                        if k != i {
                            old(self).lemma_view_at(k);
                        }
                    }
                    assert(self.view() =~= old_view.insert(n, id));
                }
            },
            None => {
                let ghost n = name@;
                self.entries.push((name, id));
                proof {
                    let last = self.entries@.len() - 1;
                    assert forall|n2: Seq<char>| #[trigger] self.view().contains_key(n2) <==> old_view.insert(n, id).contains_key(n2) by {
                        if old_view.contains_key(n2) {
                            let k = choose|k: int| 0 <= k < old(self).entries@.len() && old(self).entries@[k].0@ == n2;
                            assert(self.entries@[k].0@ == n2);
                        }
                        if self.view().contains_key(n2) {
                            let k = choose|k: int| 0 <= k < self.entries@.len() && self.entries@[k].0@ == n2;
                            if k != last {
                                assert(old(self).entries@[k].0@ == n2);
                            }
                        }
                        if n2 == n {
                            assert(self.entries@[last].0@ == n2);
                        }
                    }
                    assert forall|n2: Seq<char>| #[trigger] self.view().contains_key(n2) implies self.view()[n2] == old_view.insert(n, id)[n2] by {
                        let k = choose|k: int| 0 <= k < self.entries@.len() && self.entries@[k].0@ == n2;
                        self.lemma_view_at(k);
                        if k != last {
                            old(self).lemma_view_at(k);
                        }
                    }
                    assert(self.view() =~= old_view.insert(n, id));
                }
            },
        }
    }
}

/// The key under which a color is cached: its four bytes, the first one
/// most significant.
pub open spec fn spec_color_key(color: [u8; 4]) -> u32 {
    ((color[0] as int) * 0x100_0000 + (color[1] as int) * 0x1_0000 + (color[2] as int) * 0x100 + (color[3] as int)) as u32
}

/// The key under which a color is cached.
pub fn color_key(color: [u8; 4]) -> (k: u32)
    ensures
        k == spec_color_key(color),
{
    let a = color[0] as u32;
    let b = color[1] as u32;
    let c = color[2] as u32;
    let d = color[3] as u32;
    assert(a * 0x100_0000 + b * 0x1_0000 + c * 0x100 + d <= u32::MAX) by (nonlinear_arith)
        requires
            a < 256,
            b < 256,
            c < 256,
            d < 256,
    ;
    a * 0x100_0000 + b * 0x1_0000 + c * 0x100 + d
}

/// Different colors have different keys.
pub proof fn law_color_keys_distinct(a: [u8; 4], b: [u8; 4])
    requires
        spec_color_key(a) == spec_color_key(b),
    ensures
        a@ == b@,
{
    let x0 = a[0] as int;
    let x1 = a[1] as int;
    let x2 = a[2] as int;
    let x3 = a[3] as int;
    let y0 = b[0] as int;
    let y1 = b[1] as int;
    let y2 = b[2] as int;
    let y3 = b[3] as int;
    assert(x0 == y0 && x1 == y1 && x2 == y2 && x3 == y3) by (nonlinear_arith)
        requires
            0 <= x0 < 256,
            0 <= x1 < 256,
            0 <= x2 < 256,
            0 <= x3 < 256,
            0 <= y0 < 256,
            0 <= y1 < 256,
            0 <= y2 < 256,
            0 <= y3 < 256,
            x0 * 0x100_0000 + x1 * 0x1_0000 + x2 * 0x100 + x3 == y0 * 0x100_0000 + y1 * 0x1_0000 + y2
                * 0x100 + y3,
    ;
    assert(a@ =~= b@);
}

/// The bookkeeping of an asset manager (of textures, scenes or skyboxes):
/// the ids of the assets it handed out, and the names and colors they were
/// made for. Whether an asset is still alive is known to the caller alone,
/// who holds weak references to them.
pub struct AssetRegistry {
    pub ids: BTreeSet<u64>,
    pub names: NameTable,
    pub colors: BTreeMap<u32, u64>,
}

impl AssetRegistry {
    pub open spec fn well_formed(&self) -> bool {
        self.names.well_formed()
    }

    /// A registry with no assets.
    pub fn new() -> (r: AssetRegistry)
        ensures
            r.well_formed(),
            r.ids@ == Set::<u64>::empty(),
            r.names.view() == Map::<Seq<char>, u64>::empty(),
            r.colors@ == Map::<u32, u64>::empty(),
    {
        AssetRegistry { ids: BTreeSet::new(), names: NameTable::new(), colors: BTreeMap::new() }
    }

    /// The id of the asset made for `name`, if it is still registered.
    pub fn cached_by_name(&self, name: &String) -> (r: Option<u64>)
        requires
            self.well_formed(),
        ensures
            r == (if self.names.view().contains_key(name@) && self.ids@.contains(
                self.names.view()[name@],
            ) {
                Some(self.names.view()[name@])
            } else {
                None::<u64>
            }),
    {
        match self.names.get(name) {
            Some(id) => {
                if self.ids.contains(&id) {
                    Some(id)
                } else {
                    None
                }
            },
            None => None,
        }
    }

    /// The id of the asset made for `color`, if it is still registered.
    pub fn cached_by_color(&self, color: [u8; 4]) -> (r: Option<u64>)
        ensures
            r == (if self.colors@.contains_key(spec_color_key(color)) && self.ids@.contains(
                self.colors@[spec_color_key(color)],
            ) {
                Some(self.colors@[spec_color_key(color)])
            } else {
                None::<u64>
            }),
    {
        let key = color_key(color);
        match self.colors.get(&key) {
            Some(id) => {
                let id = *id;
                if self.ids.contains(&id) {
                    Some(id)
                } else {
                    None
                }
            },
            None => None,
        }
    }

    /// Whether the asset `id` is registered.
    pub fn is_registered(&self, id: u64) -> (b: bool)
        ensures
            b == self.ids@.contains(id),
    {
        self.ids.contains(&id)
    }

    /// Registers the asset `id`.
    pub fn register(&mut self, id: u64)
        ensures
            final(self).ids@ == old(self).ids@.insert(id),
            final(self).names == old(self).names,
            final(self).colors == old(self).colors,
    {
        self.ids.insert(id);
    }

    /// Registers the asset `id`, made for `name`.
    pub fn register_named(&mut self, name: String, id: u64)
        requires
            old(self).well_formed(),
        ensures
            final(self).well_formed(),
            final(self).ids@ == old(self).ids@.insert(id),
            final(self).names.view() == old(self).names.view().insert(name@, id),
            final(self).colors == old(self).colors,
    {
        self.names.insert(name, id);
        self.ids.insert(id);
    }

    /// Registers the asset `id`, made for `color`.
    pub fn register_colored(&mut self, color: [u8; 4], id: u64)
        ensures
            final(self).ids@ == old(self).ids@.insert(id),
            final(self).names == old(self).names,
            final(self).colors@ == old(self).colors@.insert(spec_color_key(color), id),
    {
        let key = color_key(color);
        self.colors.insert(key, id);
        self.ids.insert(id);
    }

    /// Forgets the asset `id`; the names and colors it was made for stay,
    /// and no longer lead to it.
    pub fn remove(&mut self, id: u64)
        ensures
            final(self).ids@ == old(self).ids@.remove(id),
            final(self).names == old(self).names,
            final(self).colors == old(self).colors,
    {
        self.ids.remove(&id);
    }
}

/// What is registered under a name is found again under that name.
pub proof fn law_named_asset_found(r: AssetRegistry, name: Seq<char>, id: u64, r2: AssetRegistry)
    requires
        r2.ids@ == r.ids@.insert(id),
        r2.names.view() == r.names.view().insert(name, id),
    ensures
        r2.names.view().contains_key(name) && r2.ids@.contains(r2.names.view()[name]) && r2.names.view()[name] == id,
{
}

/// What is registered under a color is found again under that color.
pub proof fn law_colored_asset_found(r: AssetRegistry, color: [u8; 4], id: u64, r2: AssetRegistry)
    requires
        r2.ids@ == r.ids@.insert(id),
        r2.colors@ == r.colors@.insert(spec_color_key(color), id),
    ensures
        r2.colors@.contains_key(spec_color_key(color)) && r2.ids@.contains(r2.colors@[spec_color_key(color)])
            && r2.colors@[spec_color_key(color)] == id,
{
}

} // verus!
