//! Lists of tab identities, and what is known of their prefixes.

use std::collections::HashSet;
use vstd::prelude::*;

verus! {

broadcast use vstd::std_specs::hash::group_hash_axioms;

/// Whether `id` stands among the first `upto` entries of `ids`.
pub open spec fn occurs_before(ids: Seq<i64>, upto: int, id: i64) -> bool {
    exists|m: int| 0 <= m < upto && ids[m] == id
}

/// The identities among the first `upto` entries of `ids`.
pub open spec fn prefix_set(ids: Seq<i64>, upto: int) -> Set<i64> {
    Set::new(|id: i64| occurs_before(ids, upto, id))
}

/// The empty prefix holds nothing, and one more entry adds its identity.
pub proof fn lemma_prefix_grows(ids: Seq<i64>, i: int)
    requires
        0 <= i < ids.len(),
    ensures
        prefix_set(ids, 0) == Set::<i64>::empty(),
        prefix_set(ids, i + 1) == prefix_set(ids, i).insert(ids[i]),
{
    assert forall|id: i64| prefix_set(ids, i + 1).contains(id) == prefix_set(ids, i).insert(
        ids[i],
    ).contains(id) by {
        if prefix_set(ids, i + 1).contains(id) {
            let m = choose|m: int| 0 <= m < i + 1 && ids[m] == id;
            if m < i {
                assert(occurs_before(ids, i, id));
            }
        }
        if prefix_set(ids, i).contains(id) {
            let m = choose|m: int| 0 <= m < i && ids[m] == id;
            assert(0 <= m < i + 1 && ids[m] == id);
        }
        if id == ids[i] {
            assert(0 <= i < i + 1 && ids[i] == id);
        }
    }
    assert(prefix_set(ids, i + 1) =~= prefix_set(ids, i).insert(ids[i]));
    assert(prefix_set(ids, 0) =~= Set::<i64>::empty());
}

/// In a list that repeats nothing, an entry is not among those before it.
pub proof fn lemma_prefix_step(ids: Seq<i64>, i: int)
    requires
        0 <= i < ids.len(),
        ids.no_duplicates(),
    ensures
        prefix_set(ids, 0) == Set::<i64>::empty(),
        prefix_set(ids, i + 1) == prefix_set(ids, i).insert(ids[i]),
        !prefix_set(ids, i).contains(ids[i]),
{
    lemma_prefix_grows(ids, i);
    if prefix_set(ids, i).contains(ids[i]) {
        let m = choose|m: int| 0 <= m < i && ids[m] == ids[i];
        assert(ids[m] == ids[i] && m != i);
    }
}

/// The prefix of full length holds every identity of the list.
pub proof fn lemma_prefix_whole(ids: Seq<i64>)
    ensures
        prefix_set(ids, ids.len() as int) == ids.to_set(),
{
    assert forall|id: i64| prefix_set(ids, ids.len() as int).contains(id) == ids.to_set().contains(
        id,
    ) by {
        if ids.to_set().contains(id) {
            let m = choose|m: int| 0 <= m < ids.len() && ids[m] == id;
            assert(occurs_before(ids, ids.len() as int, id));
        }
        if prefix_set(ids, ids.len() as int).contains(id) {
            let m = choose|m: int| 0 <= m < ids.len() && ids[m] == id;
            assert(ids.contains(ids[m]));
        }
    }
    assert(prefix_set(ids, ids.len() as int) =~= ids.to_set());
}

/// A new identity at the end of a list that repeats nothing: the list still
/// repeats nothing, and holds that identity besides the others.
pub proof fn lemma_push_new(ids: Seq<i64>, id: i64)
    requires
        ids.no_duplicates(),
        !ids.to_set().contains(id),
    ensures
        ids.push(id).no_duplicates(),
        ids.push(id).to_set() == ids.to_set().insert(id),
{
    let longer = ids.push(id);
    assert forall|a: int, b: int| 0 <= a < longer.len() && 0 <= b < longer.len() && a != b implies longer[a]
        != longer[b] by {
        if a == ids.len() {
            assert(ids.to_set().contains(ids[b]));
        } else if b == ids.len() {
            assert(ids.to_set().contains(ids[a]));
        }
    }
    assert forall|x: i64| longer.to_set().contains(x) == ids.to_set().insert(id).contains(x) by {
        if longer.to_set().contains(x) {
            let j = choose|j: int| 0 <= j < longer.len() && longer[j] == x;
            if j < ids.len() {
                assert(ids.contains(ids[j]));
            }
        }
        if ids.to_set().contains(x) {
            let j = choose|j: int| 0 <= j < ids.len() && ids[j] == x;
            assert(longer[j] == x);
        }
        if x == id {
            assert(longer[ids.len() as int] == x);
        }
    }
    assert(longer.to_set() =~= ids.to_set().insert(id));
}

/// The identities of a list, as a table for quick lookup.
pub fn id_table(ids: &[i64]) -> (r: HashSet<i64>)
    ensures
        r@ == ids@.to_set(),
{
    let mut table: HashSet<i64> = HashSet::new();
    assert(table@ =~= prefix_set(ids@, 0));
    for i in 0..ids.len()
        invariant
            table@ == prefix_set(ids@, i as int),
    {
        proof {
            lemma_prefix_grows(ids@, i as int);
        }
        table.insert(ids[i]);
    }
    proof {
        lemma_prefix_whole(ids@);
    }
    table
}

} // verus!
