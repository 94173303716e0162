use vstd::prelude::*;
use vstd::seq_lib::group_seq_properties;
use vstd::set::group_set_axioms;

verus! {

/// The candidate listing with every later repetition of an id removed:
/// each id keeps only its first occurrence, in listing order.
pub open spec fn dedup_spec(s: Seq<u32>) -> Seq<u32>
    decreases s.len(),
{
    if s.len() == 0 {
        Seq::empty()
    } else {
        let prefix = dedup_spec(s.drop_last());
        if prefix.contains(s.last()) {
            prefix
        } else {
            prefix.push(s.last())
        }
    }
}

/// Whether the id is already among the planned ones.
fn contains_id(v: &Vec<u32>, id: u32) -> (r: bool)
    ensures
        r == v@.contains(id),
{
    let mut i: usize = 0;
    while i < v.len()
        invariant
            i <= v@.len(),
            forall|k: int| 0 <= k < i ==> v@[k] != id,
        decreases v@.len() - i,
    {
        if v[i] == id {
            assert(v@.contains(id)) by {
                assert(v@[i as int] == id);
            }
            return true;
        }
        i = i + 1;
    }
    false
}

/// Deduplicate the candidate listing into the dispatch plan: exactly one
/// fetch is launched per distinct id, in the order of first occurrence.
/// Ids already seen are skipped without side effect.
pub fn plan_dispatch(candidates: &Vec<u32>) -> (plan: Vec<u32>)
    ensures
        plan@ == dedup_spec(candidates@),
{
    let mut plan: Vec<u32> = Vec::new();
    let mut i: usize = 0;
    while i < candidates.len()
        invariant
            i <= candidates@.len(),
            plan@ == dedup_spec(candidates@.take(i as int)),
        decreases candidates@.len() - i,
    {
        let id = candidates[i];
        let seen = contains_id(&plan, id);
        if !seen {
            plan.push(id);
        }
        i = i + 1;
        proof {
            let taken = candidates@.take(i as int);
            assert(taken.drop_last() =~= candidates@.take(i - 1));
            assert(taken.last() == candidates@[i - 1]);
        }
    }
    proof {
        assert(candidates@.take(candidates@.len() as int) =~= candidates@);
    }
    plan
}

/// Law: dispatch deduplication. The plan repeats no id, covers exactly
/// the ids of the listing, and its length is the number of distinct ids
/// in the listing — not the listing's length.
pub proof fn lemma_dispatch_count(s: Seq<u32>)
    ensures
        dedup_spec(s).no_duplicates(),
        dedup_spec(s).to_set() == s.to_set(),
        dedup_spec(s).len() == s.to_set().len(),
    decreases s.len(),
{
    broadcast use group_set_axioms;
    broadcast use group_seq_properties;

    if s.len() == 0 {
        assert(dedup_spec(s).to_set() =~= s.to_set());
        dedup_spec(s).unique_seq_to_set();
    } else {
        let rest = s.drop_last();
        lemma_dispatch_count(rest);
        let prefix = dedup_spec(rest);
        assert(s.to_set() =~= rest.to_set().insert(s.last()));
        if prefix.contains(s.last()) {
            assert(prefix.to_set().contains(s.last()));
            assert(dedup_spec(s).to_set() =~= s.to_set());
        } else {
            let whole = prefix.push(s.last());
            assert forall|i: int, j: int|
                0 <= i < whole.len() && 0 <= j < whole.len() && i != j implies whole[i]
                != whole[j] by {
                if i < prefix.len() && j < prefix.len() {
                    assert(prefix.no_duplicates());
                } else if i < prefix.len() && j == prefix.len() {
                    assert(!prefix.contains(whole[j]));
                } else if j < prefix.len() && i == prefix.len() {
                    assert(!prefix.contains(whole[i]));
                }
            }
            assert(whole.no_duplicates());
            assert(whole.to_set() =~= prefix.to_set().insert(s.last()));
            assert(dedup_spec(s).to_set() =~= s.to_set());
        }
        dedup_spec(s).unique_seq_to_set();
    }
}

} // verus!
