use vstd::prelude::*;
use vstd::laws_cmp::{
    obeys_cmp, obeys_cmp_ord, obeys_cmp_partial_ord, obeys_partial_cmp_spec_properties,
};
use vstd::laws_eq::{obeys_eq, obeys_eq_spec_properties};
use vstd::std_specs::cmp::OrdSpec;

verus! {

broadcast use vstd::laws_cmp::group_laws_cmp, vstd::laws_eq::group_laws_eq,
    vstd::std_specs::btree::group_btree_axioms;

/// References to integers compare as the integers do.
proof fn lemma_ref_u64_ordered()
    ensures
        obeys_cmp::<&u64>(),
{
    assert(obeys_cmp::<u64>());
    reveal(obeys_eq_spec_properties);
    reveal(obeys_partial_cmp_spec_properties);
    reveal(obeys_cmp_partial_ord);
    reveal(obeys_cmp_ord);
    assert(obeys_eq::<&u64>());
}

/// Keys that a B-tree yields in increasing order are strictly increasing
/// integers.
pub proof fn lemma_increasing_keys(s: Seq<&u64>)
    requires
        vstd::std_specs::btree::increasing_seq(s),
    ensures
        forall|i: int, j: int| 0 <= i < j < s.len() ==> *s[i] < *s[j],
{
    lemma_ref_u64_ordered();
    vstd::std_specs::btree::axiom_increasing_seq_meaning::<&u64>(s);
    assert forall|i: int, j: int| 0 <= i < j < s.len() implies *s[i] < *s[j] by {
        let a: &u64 = s[i];
        let b: &u64 = s[j];
        assert(OrdSpec::cmp_spec(&a, &b) is Less);
    }
}

} // verus!
