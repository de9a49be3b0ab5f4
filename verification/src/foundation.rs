use vstd::prelude::*;

verus! {

/// Collects the entries of a Foundation dictionary before it is built:
/// keys and values in parallel, in the order they were added.
pub struct NSDictionaryBuilder<K, V> {
    pub keys: Vec<K>,
    pub values: Vec<V>,
}

impl<K, V> NSDictionaryBuilder<K, V> {
    /// Whether keys and values pair up.
    pub open spec fn well_formed(&self) -> bool {
        self.keys@.len() == self.values@.len()
    }

    /// A builder with no entries.
    pub fn new() -> (b: Self)
        ensures
            b.keys@ == Seq::<K>::empty(),
            b.values@ == Seq::<V>::empty(),
            b.well_formed(),
    {
        NSDictionaryBuilder { keys: Vec::new(), values: Vec::new() }
    }

    /// Adds the entry `key` to `value`.
    pub fn add(self, key: K, value: V) -> (b: Self)
        ensures
            b.keys@ == self.keys@.push(key),
            b.values@ == self.values@.push(value),
            self.well_formed() ==> b.well_formed(),
    {
        let mut b = self;
        b.keys.push(key);
        b.values.push(value);
        b
    }
}

impl<V> NSDictionaryBuilder<String, V> {
    /// Adds the entry named `key` to `value`.
    pub fn add_with_str(self, key: &str, value: V) -> (b: Self)
        ensures
            b.keys@.len() == self.keys@.len() + 1,
            b.keys@.take(self.keys@.len() as int) == self.keys@,
            b.keys@.last()@ == key@,
            b.values@ == self.values@.push(value),
            self.well_formed() ==> b.well_formed(),
    {
        let k = key.to_owned();
        self.add(k, value)
    }
}


/// Whether the builder holds exactly `entries`, in order: its keys are the
/// entries' keys and its values their values.
pub open spec fn holds_entries<K, V>(b: NSDictionaryBuilder<K, V>, entries: Seq<(K, V)>) -> bool {
    &&& b.keys@ == entries.map_values(|e: (K, V)| e.0)
    &&& b.values@ == entries.map_values(|e: (K, V)| e.1)
}

/// Keys and values stay paired, in the order they were added, over any run
/// of `add` that starts from `new`: a new builder holds no entries, and
/// adding `(key, value)` to a builder that holds `entries` gives one that
/// holds `entries` followed by that pair. A builder that holds `entries`
/// has as many keys and values as entries, and its `i`-th key and value
/// are the `i`-th entry.
pub proof fn law_entries_stay_paired<K, V>(
    b: NSDictionaryBuilder<K, V>,
    entries: Seq<(K, V)>,
    next: NSDictionaryBuilder<K, V>,
    key: K,
    value: V,
)
    ensures
        b.keys@ == Seq::<K>::empty() && b.values@ == Seq::<V>::empty() ==> holds_entries(b, Seq::<(K, V)>::empty()),
        holds_entries(b, entries) && next.keys@ == b.keys@.push(key) && next.values@ == b.values@.push(value)
            ==> holds_entries(next, entries.push((key, value))),
        holds_entries(b, entries) ==> b.well_formed() && b.keys@.len() == entries.len() && forall|i: int|
            0 <= i < entries.len() ==> (b.keys@[i], b.values@[i]) == #[trigger] entries[i],
{
    assert(Seq::<(K, V)>::empty().map_values(|e: (K, V)| e.0) =~= Seq::<K>::empty());
    assert(Seq::<(K, V)>::empty().map_values(|e: (K, V)| e.1) =~= Seq::<V>::empty());
    assert(entries.push((key, value)).map_values(|e: (K, V)| e.0) =~= entries.map_values(|e: (K, V)| e.0).push(key));
    assert(entries.push((key, value)).map_values(|e: (K, V)| e.1) =~= entries.map_values(|e: (K, V)| e.1).push(value));
}


/// Over any run of `add` from `new`, keys and values stay paired in the
/// order they were added: `builders` are the builder after `new` and after
/// each `add`, the `i`-th `add` taking the pair `entries[i]` (each
/// builder's keys and values are those of the one before with that pair
/// pushed, as `add` ensures). The last builder holds exactly `entries`:
/// as many keys and values as entries, the `i`-th key and value being the
/// `i`-th entry.
pub proof fn law_run_of_adds_stays_paired<K, V>(builders: Seq<NSDictionaryBuilder<K, V>>, entries: Seq<(K, V)>)
    requires
        builders.len() == entries.len() + 1,
        builders[0].keys@ == Seq::<K>::empty(),
        builders[0].values@ == Seq::<V>::empty(),
        forall|i: int| 0 <= i < entries.len() ==> (#[trigger] builders[i + 1]).keys@ == builders[i].keys@.push(
            entries[i].0,
        ) && builders[i + 1].values@ == builders[i].values@.push(entries[i].1),
    ensures
        holds_entries(builders.last(), entries),
        builders.last().well_formed(),
        builders.last().keys@.len() == entries.len(),
        forall|i: int| 0 <= i < entries.len() ==> (builders.last().keys@[i], builders.last().values@[i]) == #[trigger] entries[i],
    decreases entries.len(),
{
    if entries.len() == 0 {
        assert(entries.map_values(|e: (K, V)| e.0) =~= Seq::<K>::empty());
        assert(entries.map_values(|e: (K, V)| e.1) =~= Seq::<V>::empty());
    } else {
        let n = entries.len() - 1;
        let bs = builders.drop_last();
        let es = entries.drop_last();
        assert forall|i: int| 0 <= i < es.len() implies (#[trigger] bs[i + 1]).keys@ == bs[i].keys@.push(es[i].0)
            && bs[i + 1].values@ == bs[i].values@.push(es[i].1) by {
            assert(bs[i + 1] == builders[i + 1]);
        }
        law_run_of_adds_stays_paired(bs, es);
        assert(builders[n + 1] == builders.last());
        assert(es.push(entries[n]) =~= entries);
        law_entries_stay_paired(bs.last(), es, builders.last(), entries[n].0, entries[n].1);
    }
}

} // verus!
