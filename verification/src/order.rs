//! IDs in ascending order.

use std::collections::HashMap;
use vstd::prelude::*;

verus! {

/// The IDs smaller than `below`, in ascending order.
pub open spec fn ascending_below(ids: Set<u32>, below: nat) -> Seq<u32>
    decreases below,
{
    if below == 0 {
        Seq::empty()
    } else {
        let rest = ascending_below(ids, (below - 1) as nat);
        if ids.contains((below - 1) as u32) {
            rest.push((below - 1) as u32)
        } else {
            rest
        }
    }
}

/// The IDs in ascending order.
pub open spec fn ascending(ids: Set<u32>) -> Seq<u32> {
    ascending_below(ids, 0x1_0000_0000)
}

/// The list holds the IDs that it should, each once, smaller ones first.
pub proof fn lemma_ascending_below(ids: Set<u32>, below: nat)
    requires
        below <= 0x1_0000_0000,
    ensures
        forall|id: u32| #[trigger]
            ascending_below(ids, below).contains(id) <==> ids.contains(id) && id < below,
        forall|i: int, j: int|
            0 <= i < j < ascending_below(ids, below).len() ==> (#[trigger] ascending_below(
                ids,
                below,
            )[i]) < (#[trigger] ascending_below(ids, below)[j]),
    decreases below,
{
    if below > 0 {
        let last = (below - 1) as u32;
        let rest = ascending_below(ids, (below - 1) as nat);
        let all = ascending_below(ids, below);
        lemma_ascending_below(ids, (below - 1) as nat);
        assert forall|id: u32| #[trigger] all.contains(id) <==> ids.contains(id) && id < below by {
            assert(rest.contains(id) <==> ids.contains(id) && id < below - 1);
            if ids.contains(last) {
                assert(all[rest.len() as int] == last);
                if rest.contains(id) {
                    let k = choose|k: int| 0 <= k < rest.len() && rest[k] == id;
                    assert(all[k] == id);
                }
                if all.contains(id) && id != last {
                    let k = choose|k: int| 0 <= k < all.len() && all[k] == id;
                    assert(rest[k] == id);
                }
            }
        }
        assert forall|i: int, j: int| 0 <= i < j < all.len() implies (#[trigger] all[i]) < (
        #[trigger] all[j]) by {
            if ids.contains(last) {
                assert(all[i] == rest[i]);
                if j < rest.len() {
                    assert(all[j] == rest[j]);
                } else {
                    assert(rest.contains(rest[i]));
                }
            }
        }
    }
}

/// The ascending list holds exactly the IDs, each once.
pub proof fn lemma_ascending(ids: Set<u32>)
    ensures
        ascending(ids).no_duplicates(),
        ascending(ids).to_set() == ids,
        forall|i: int, j: int|
            0 <= i < j < ascending(ids).len() ==> (#[trigger] ascending(ids)[i]) < (
            #[trigger] ascending(ids)[j]),
{
    lemma_ascending_below(ids, 0x1_0000_0000);
    let all = ascending(ids);
    assert forall|i: int, j: int| 0 <= i < all.len() && 0 <= j < all.len() && i != j implies all[i]
        != all[j] by {
        if i < j {
            assert(all[i] < all[j]);
        } else {
            assert(all[j] < all[i]);
        }
    }
    assert forall|id: u32| all.to_set().contains(id) <==> ids.contains(id) by {
        assert(all.contains(id) <==> ids.contains(id) && id < 0x1_0000_0000);
    }
    assert(all.to_set() =~= ids);
}

proof fn lemma_gap(ids: Set<u32>, from: nat, to: nat)
    requires
        from <= to <= 0x1_0000_0000,
        forall|id: u32| from <= id < to ==> !ids.contains(id),
    ensures
        ascending_below(ids, from) == ascending_below(ids, to),
    decreases to - from,
{
    if from < to {
        lemma_gap(ids, from, (to - 1) as nat);
        assert(!ids.contains((to - 1) as u32));
    }
}

/// The smallest of the IDs that is not below `from`.
fn smallest_from(ids: &Vec<u32>, from: u64) -> (found: Option<u32>)
    ensures
        match found {
            Some(id) => ids@.contains(id) && id >= from && forall|k: int|
                0 <= k < ids@.len() && ids@[k] >= from ==> id <= #[trigger] ids@[k],
            None => forall|k: int| 0 <= k < ids@.len() ==> (#[trigger] ids@[k]) < from,
        },
{
    let mut found: Option<u32> = None;
    let mut i: usize = 0;
    while i < ids.len()
        invariant
            i <= ids@.len(),
            match found {
                Some(id) => ids@.contains(id) && id >= from && forall|k: int|
                    0 <= k < i && ids@[k] >= from ==> id <= #[trigger] ids@[k],
                None => forall|k: int| 0 <= k < i ==> (#[trigger] ids@[k]) < from,
            },
        decreases ids@.len() - i,
    {
        let id: u32 = ids[i];
        if id as u64 >= from {
            let better: bool = match found {
                Some(smallest) => id < smallest,
                None => true,
            };
            if better {
                assert(ids@[i as int] == id);
                found = Some(id);
            }
        }
        i += 1;
    }
    found
}

/// The keys of a table in ascending order.
pub fn ascending_keys<V>(table: &HashMap<u32, V>) -> (ids: Vec<u32>)
    ensures
        ids@ == ascending(table@.dom()),
{
    let mut keys: Vec<u32> = Vec::new();
    for id in it: table.keys()
        invariant
            it.seq().unref().to_set() == table@.dom(),
            keys@ == it.seq().unref().take(it.index() as int),
            it.index() == it.seq().len() ==> keys@ == it.seq().unref(),
    {
        keys.push(*id);
        assert(keys@ =~= it.seq().unref().take(it.index() + 1));
    }
    let ghost dom = table@.dom();
    assert(keys@.to_set() == dom);
    let mut ids: Vec<u32> = Vec::new();
    let mut from: u64 = 0;
    while from < 0x1_0000_0000
        invariant
            keys@.to_set() == dom,
            from <= 0x1_0000_0000,
            ids@ == ascending_below(dom, from as nat),
        decreases 0x1_0000_0000 - from,
    {
        match smallest_from(&keys, from) {
            Some(id) => {
                proof {
                    assert forall|other: u32| from <= other < id implies !dom.contains(other) by {
                        if dom.contains(other) {
                            assert(keys@.to_set().contains(other));
                            let k = choose|k: int| 0 <= k < keys@.len() && keys@[k] == other;
                            assert(id <= keys@[k]);
                        }
                    }
                    lemma_gap(dom, from as nat, id as nat);
                    assert(keys@.to_set().contains(id));
                    assert(dom.contains(id));
                    assert(((id + 1) - 1) as u32 == id);
                }
                ids.push(id);
                from = id as u64 + 1;
            },
            None => {
                proof {
                    assert forall|other: u32|
                        from <= other < 0x1_0000_0000 implies !dom.contains(other) by {
                        if dom.contains(other) {
                            assert(keys@.to_set().contains(other));
                            let k = choose|k: int| 0 <= k < keys@.len() && keys@[k] == other;
                            assert(keys@[k] < from);
                        }
                    }
                    lemma_gap(dom, from as nat, 0x1_0000_0000);
                }
                from = 0x1_0000_0000;
            },
        }
    }
    ids
}

} // verus!
