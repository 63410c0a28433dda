//! The descriptor set layouts of a pipeline: the sets its stages declare, joined into one, and
//! the layout of every set up to the highest one.
use vstd::prelude::*;

use crate::descriptor::{
    plan_descriptor_set_layout, set_stage_flags, spec_binding_supported, spec_is_layout_plan,
    DescriptorSetLayoutPlan, SHADER_STAGE_ALL,
};
use crate::pipeline::DescriptorInfo;
use crate::reflection::{spec_keys_increasing, spec_sets_sorted};

verus! {

/// Whether some entry has key `k`.
pub open spec fn spec_has_key<V>(s: Seq<(u32, V)>, k: u32) -> bool {
    exists|i: int| 0 <= i < s.len() && (#[trigger] s[i]).0 == k
}

/// Where an entry with key `k` is.
pub open spec fn spec_key_index<V>(s: Seq<(u32, V)>, k: u32) -> int {
    choose|i: int| 0 <= i < s.len() && (#[trigger] s[i]).0 == k
}

/// The entries as a map from key to value.
pub open spec fn spec_entries<V>(s: Seq<(u32, V)>) -> Map<u32, V> {
    Map::new(|k: u32| spec_has_key(s, k), |k: u32| s[spec_key_index(s, k)].1)
}

/// Descriptor sets as a map from set index to the map from binding index to binding.
pub open spec fn spec_set_layouts(sets: Seq<(u32, Vec<(u32, DescriptorInfo)>)>) -> Map<
    u32,
    Map<u32, DescriptorInfo>,
> {
    spec_entries(sets).map_values(|b: Vec<(u32, DescriptorInfo)>| spec_entries(b@))
}

/// The sets of `a` joined with those of `c`: every set of either, and in a set of both, every
/// binding of either, the one of `a` where both have it.
pub open spec fn spec_merged_layouts(
    a: Map<u32, Map<u32, DescriptorInfo>>,
    c: Map<u32, Map<u32, DescriptorInfo>>,
) -> Map<u32, Map<u32, DescriptorInfo>> {
    Map::new(
        |k: u32| a.dom().contains(k) || c.dom().contains(k),
        |k: u32|
            if a.dom().contains(k) {
                if c.dom().contains(k) {
                    c[k].union_prefer_right(a[k])
                } else {
                    a[k]
                }
            } else {
                c[k]
            },
    )
}

/// Whether a binding that two sets of layouts both have is the same in name and type.
pub open spec fn spec_layouts_agree(a: Map<u32, Map<u32, DescriptorInfo>>, c: Map<u32, Map<u32, DescriptorInfo>>) -> bool {
    forall|k: u32, b: u32|
        a.dom().contains(k) && c.dom().contains(k) && a[k].dom().contains(b) && c[k].dom().contains(b) ==> (
        #[trigger] a[k][b]).name@ == (#[trigger] c[k][b]).name@ && a[k][b].ty == c[k][b].ty
}

/// The sets of all the stages joined, stage after stage.
pub open spec fn spec_flattened(stages: Seq<Map<u32, Map<u32, DescriptorInfo>>>) -> Map<
    u32,
    Map<u32, DescriptorInfo>,
>
    decreases stages.len(),
{
    if stages.len() == 0 {
        Map::empty()
    } else {
        spec_merged_layouts(spec_flattened(stages.drop_last()), stages.last())
    }
}

proof fn lemma_key_index<V>(s: Seq<(u32, V)>, i: int)
    requires
        spec_keys_increasing(s),
        0 <= i < s.len(),
    ensures
        spec_has_key(s, s[i].0),
        spec_key_index(s, s[i].0) == i,
{
    assert(s[i].0 == s[i].0);
    let j = spec_key_index(s, s[i].0);
    if j < i {
        assert(s[j].0 < s[i].0);
    } else if i < j {
        assert(s[i].0 < s[j].0);
    }
}

proof fn lemma_insert_entries<V>(s: Seq<(u32, V)>, p: int, k: u32, v: V)
    requires
        spec_keys_increasing(s),
        0 <= p <= s.len(),
        forall|j: int| 0 <= j < p ==> s[j].0 < k,
        forall|j: int| p <= j < s.len() ==> s[j].0 > k,
    ensures
        spec_keys_increasing(s.insert(p, (k, v))),
        spec_entries(s.insert(p, (k, v))) == spec_entries(s).insert(k, v),
{
    let t = s.insert(p, (k, v));
    assert forall|i: int, j: int| 0 <= i < j < t.len() implies t[i].0 < t[j].0 by {
        if j < p {
            assert(t[i] == s[i] && t[j] == s[j]);
        } else if j == p {
            assert(t[i] == s[i]);
        } else if i < p {
            assert(t[i] == s[i] && t[j] == s[j - 1]);
        } else if i == p {
            assert(t[j] == s[j - 1]);
        } else {
            assert(t[i] == s[i - 1] && t[j] == s[j - 1]);
        }
    }
    let m = spec_entries(s).insert(k, v);
    assert forall|x: u32| #[trigger] spec_entries(t).dom().contains(x) <==> m.dom().contains(x) by {
        if spec_has_key(s, x) {
            let i = spec_key_index(s, x);
            if i < p {
                assert(t[i] == s[i]);
            } else {
                assert(t[i + 1] == s[i]);
            }
        }
        if spec_has_key(t, x) {
            let i = spec_key_index(t, x);
            if i < p {
                assert(t[i] == s[i]);
            } else if i > p {
                assert(t[i] == s[i - 1]);
            }
        }
        assert(t[p] == (k, v));
    }
    assert forall|x: u32| #[trigger] spec_entries(t).dom().contains(x) implies spec_entries(t)[x] == m[x] by {
        assert(t[p] == (k, v));
        if x == k {
            lemma_key_index(t, p);
        } else {
            let i = spec_key_index(s, x);
            lemma_key_index(s, i);
            if i < p {
                assert(t[i] == s[i]);
                lemma_key_index(t, i);
            } else {
                assert(t[i + 1] == s[i]);
                lemma_key_index(t, i + 1);
            }
        }
    }
    assert(spec_entries(t) =~= m);
}

proof fn lemma_update_entries<V>(s: Seq<(u32, V)>, i: int, v: V)
    requires
        spec_keys_increasing(s),
        0 <= i < s.len(),
    ensures
        spec_keys_increasing(s.update(i, (s[i].0, v))),
        spec_entries(s.update(i, (s[i].0, v))) == spec_entries(s).insert(s[i].0, v),
{
    let k = s[i].0;
    let t = s.update(i, (k, v));
    assert forall|a: int, b: int| 0 <= a < b < t.len() implies t[a].0 < t[b].0 by {
        assert(t[a].0 == s[a].0 && t[b].0 == s[b].0);
    }
    let m = spec_entries(s).insert(k, v);
    assert forall|x: u32| #[trigger] spec_entries(t).dom().contains(x) <==> m.dom().contains(x) by {
        if spec_has_key(s, x) {
            let j = spec_key_index(s, x);
            assert(t[j].0 == s[j].0);
        }
        if spec_has_key(t, x) {
            let j = spec_key_index(t, x);
            assert(t[j].0 == s[j].0);
        }
        assert(t[i].0 == k);
    }
    assert forall|x: u32| #[trigger] spec_entries(t).dom().contains(x) implies spec_entries(t)[x] == m[x] by {
        if x == k {
            lemma_key_index(t, i);
        } else {
            let j = spec_key_index(s, x);
            lemma_key_index(s, j);
            assert(t[j] == s[j]);
            lemma_key_index(t, j);
        }
    }
    assert(spec_entries(t) =~= m);
}

/// Where key `k` is in entries of increasing keys: its index, or the index it would be inserted
/// at.
fn find_key<V>(s: &Vec<(u32, V)>, k: u32) -> (r: Result<usize, usize>)
    requires
        spec_keys_increasing(s@),
    ensures
        match r {
            Ok(i) => i < s@.len() && s@[i as int].0 == k,
            Err(p) => {
                &&& p <= s@.len()
                &&& !spec_has_key(s@, k)
                &&& forall|j: int| 0 <= j < p ==> s@[j].0 < k
                &&& forall|j: int| p <= j < s@.len() ==> s@[j].0 > k
            },
        },
{
    let mut i: usize = 0;
    while i < s.len()
        invariant
            i <= s@.len(),
            spec_keys_increasing(s@),
            forall|j: int| 0 <= j < i ==> s@[j].0 < k,
        decreases s@.len() - i,
    {
        let key = s[i].0;
        if key == k {
            return Ok(i);
        }
        if key > k {
            proof {
                assert forall|j: int| i <= j < s@.len() implies s@[j].0 > k by {
                    if j > i {
                        assert(s@[i as int].0 < s@[j].0);
                    }
                }
                assert(!spec_has_key(s@, k)) by {
                    if spec_has_key(s@, k) {
                        let j = spec_key_index(s@, k);
                        assert(s@[j].0 == k);
                    }
                }
            }
            return Err(i);
        }
        i = i + 1;
    }
    proof {
        assert(!spec_has_key(s@, k)) by {
            if spec_has_key(s@, k) {
                let j = spec_key_index(s@, k);
                assert(s@[j].0 == k);
            }
        }
    }
    Err(i)
}

/// Adds the bindings of `consumed` that `add_to` does not have; a binding both have stays as
/// `add_to` has it.
fn merge_bindings(add_to: &mut Vec<(u32, DescriptorInfo)>, consumed: Vec<(u32, DescriptorInfo)>)
    requires
        spec_keys_increasing(old(add_to)@),
        spec_keys_increasing(consumed@),
    ensures
        spec_keys_increasing(final(add_to)@),
        spec_entries(final(add_to)@) == spec_entries(consumed@).union_prefer_right(spec_entries(old(add_to)@)),
{
    let ghost a = add_to@;
    let ghost c = consumed@;
    let mut rest = consumed;
    let n = rest.len();
    let mut i: usize = 0;
    proof {
        assert(rest@ =~= c.skip(0));
        assert(spec_entries(c.take(0)) =~= Map::<u32, DescriptorInfo>::empty());
        assert(spec_entries(a) =~= Map::<u32, DescriptorInfo>::empty().union_prefer_right(spec_entries(a)));
    }
    while i < n
        invariant
            n == c.len(),
            i <= n,
            rest@ == c.skip(i as int),
            spec_keys_increasing(c),
            spec_keys_increasing(a),
            spec_keys_increasing(add_to@),
            spec_entries(add_to@) == spec_entries(c.take(i as int)).union_prefer_right(spec_entries(a)),
        decreases n - i,
    {
        let (k, v) = rest.remove(0);
        proof {
            assert(c.skip(i as int)[0] == c[i as int]);
            assert(c.skip(i as int).remove(0) =~= c.skip(i + 1));
            assert(c.take(i + 1) =~= c.take(i as int).insert(i as int, c[i as int]));
            assert forall|j: int| 0 <= j < i implies c.take(i as int)[j].0 < k by {
                assert(c.take(i as int)[j] == c[j]);
            }
            lemma_insert_entries(c.take(i as int), i as int, k, v);
        }
        let ghost before = add_to@;
        match find_key(add_to, k) {
            Ok(_) => {
                proof {
                    let prev = spec_entries(c.take(i as int));
                    assert(!prev.dom().contains(k)) by {
                        if spec_has_key(c.take(i as int), k) {
                            let j = spec_key_index(c.take(i as int), k);
                            assert(c.take(i as int)[j] == c[j]);
                        }
                    }
                    assert(spec_entries(before).dom().contains(k));
                    assert(spec_entries(a).dom().contains(k));
                    assert(spec_entries(c.take(i + 1)).union_prefer_right(spec_entries(a)) =~= prev.union_prefer_right(
                        spec_entries(a),
                    ));
                }
            },
            Err(p) => {
                add_to.insert(p, (k, v));
                proof {
                    lemma_insert_entries(before, p as int, k, v);
                    let prev = spec_entries(c.take(i as int));
                    assert(!spec_entries(before).dom().contains(k));
                    assert(!spec_entries(a).dom().contains(k));
                    assert(spec_entries(c.take(i + 1)).union_prefer_right(spec_entries(a)) =~= prev.union_prefer_right(
                        spec_entries(a),
                    ).insert(k, v));
                }
            },
        }
        i = i + 1;
    }
    proof {
        assert(c.take(n as int) =~= c);
    }
}

/// Joins the descriptor sets of `consumed` into `add_to`: a set only `consumed` has is added,
/// and in a set both have, every binding `add_to` lacks is added. A binding both have must be
/// the same in name and type.
pub fn add_descriptor_set_layouts(
    consumed: Vec<(u32, Vec<(u32, DescriptorInfo)>)>,
    add_to: &mut Vec<(u32, Vec<(u32, DescriptorInfo)>)>,
)
    requires
        spec_sets_sorted(old(add_to)@),
        spec_sets_sorted(consumed@),
        spec_layouts_agree(spec_set_layouts(old(add_to)@), spec_set_layouts(consumed@)),
    ensures
        spec_sets_sorted(final(add_to)@),
        spec_set_layouts(final(add_to)@) == spec_merged_layouts(
            spec_set_layouts(old(add_to)@),
            spec_set_layouts(consumed@),
        ),
{
    let ghost a = add_to@;
    let ghost c = consumed@;
    let mut rest = consumed;
    let n = rest.len();
    let mut i: usize = 0;
    proof {
        assert(rest@ =~= c.skip(0));
        assert(spec_set_layouts(c.take(0)) =~= Map::<u32, Map<u32, DescriptorInfo>>::empty());
        assert(spec_set_layouts(a) =~= spec_merged_layouts(spec_set_layouts(a), Map::empty()));
    }
    while i < n
        invariant
            n == c.len(),
            i <= n,
            rest@ == c.skip(i as int),
            spec_sets_sorted(c),
            spec_sets_sorted(a),
            spec_sets_sorted(add_to@),
            spec_set_layouts(add_to@) == spec_merged_layouts(spec_set_layouts(a), spec_set_layouts(c.take(i as int))),
        decreases n - i,
    {
        let (k, b) = rest.remove(0);
        let ghost prev = spec_set_layouts(c.take(i as int));
        proof {
            assert(c.skip(i as int)[0] == c[i as int]);
            assert(c.skip(i as int).remove(0) =~= c.skip(i + 1));
            assert(c.take(i + 1) =~= c.take(i as int).insert(i as int, c[i as int]));
            assert forall|j: int| 0 <= j < i implies c.take(i as int)[j].0 < k by {
                assert(c.take(i as int)[j] == c[j]);
            }
            lemma_insert_entries(c.take(i as int), i as int, k, b);
            assert(spec_set_layouts(c.take(i + 1)) =~= prev.insert(k, spec_entries(b@)));
            assert(!prev.dom().contains(k)) by {
                if spec_has_key(c.take(i as int), k) {
                    let j = spec_key_index(c.take(i as int), k);
                    assert(c.take(i as int)[j] == c[j]);
                }
            }
            assert(spec_keys_increasing(b@)) by {
                assert(c[i as int].1 == b);
            }
        }
        let ghost before = add_to@;
        match find_key(add_to, k) {
            Ok(idx) => {
                let (key, mut existing) = add_to.remove(idx);
                proof {
                    assert(before[idx as int] == (key, existing));
                    assert(spec_keys_increasing(existing@));
                }
                let ghost old_existing = existing@;
                merge_bindings(&mut existing, b);
                add_to.insert(idx, (key, existing));
                proof {
                    assert(add_to@ =~= before.update(idx as int, (key, existing)));
                    lemma_update_entries(before, idx as int, existing);
                    lemma_key_index(before, idx as int);
                    assert(spec_entries(before)[k] == before[idx as int].1);
                    assert(spec_set_layouts(add_to@) =~= spec_set_layouts(before).insert(k, spec_entries(existing@)));
                    assert(spec_set_layouts(before)[k] == spec_entries(old_existing));
                    assert(before[idx as int].0 == k);
                    assert(spec_entries(before).dom().contains(k));
                    assert(spec_set_layouts(before).dom().contains(k));
                    assert(spec_set_layouts(a).dom().contains(k));
                    assert forall|j: int| 0 <= j < add_to@.len() implies spec_keys_increasing(
                        #[trigger] add_to@[j].1@,
                    ) by {
                        if j != idx {
                            assert(add_to@[j] == before[j]);
                        }
                    }
                    assert(spec_set_layouts(add_to@) =~= spec_merged_layouts(
                        spec_set_layouts(a),
                        spec_set_layouts(c.take(i + 1)),
                    ));
                }
            },
            Err(p) => {
                add_to.insert(p, (k, b));
                proof {
                    lemma_insert_entries(before, p as int, k, b);
                    assert(spec_set_layouts(add_to@) =~= spec_set_layouts(before).insert(k, spec_entries(b@)));
                    assert(!spec_entries(before).dom().contains(k));
                    assert(!spec_set_layouts(before).dom().contains(k));
                    assert(!spec_set_layouts(a).dom().contains(k));
                    assert forall|j: int| 0 <= j < add_to@.len() implies spec_keys_increasing(
                        #[trigger] add_to@[j].1@,
                    ) by {
                        if j < p {
                            assert(add_to@[j] == before[j]);
                        } else if j > p {
                            assert(add_to@[j] == before[j - 1]);
                        }
                    }
                    assert(spec_set_layouts(add_to@) =~= spec_merged_layouts(
                        spec_set_layouts(a),
                        spec_set_layouts(c.take(i + 1)),
                    ));
                }
            },
        }
        i = i + 1;
    }
    proof {
        assert(c.take(n as int) =~= c);
    }
}

proof fn lemma_flattened_origin(stages: Seq<Map<u32, Map<u32, DescriptorInfo>>>, k: u32, b: u32)
    requires
        spec_flattened(stages).dom().contains(k),
        spec_flattened(stages)[k].dom().contains(b),
    ensures
        exists|j: int|
            0 <= j < stages.len() && stages[j].dom().contains(k) && stages[j][k].dom().contains(b)
                && #[trigger] stages[j][k][b] == spec_flattened(stages)[k][b],
    decreases stages.len(),
{
    let prev = spec_flattened(stages.drop_last());
    let last_index = stages.len() - 1;
    assert(stages.last() == stages[last_index]);
    if prev.dom().contains(k) && prev[k].dom().contains(b) {
        lemma_flattened_origin(stages.drop_last(), k, b);
        let j = choose|j: int|
            0 <= j < stages.drop_last().len() && stages.drop_last()[j].dom().contains(k)
                && stages.drop_last()[j][k].dom().contains(b) && #[trigger] stages.drop_last()[j][k][b] == prev[k][b];
        assert(stages.drop_last()[j] == stages[j]);
        assert(stages[j][k][b] == spec_flattened(stages)[k][b]);
    } else {
        assert(stages[last_index][k][b] == spec_flattened(stages)[k][b]);
    }
}

/// Joins the descriptor sets of every stage of a pipeline, stage after stage: a binding several
/// stages declare is taken from the first of them, and must be the same in name and type in
/// every stage that declares it.
pub fn flatten_all_stages_descriptor_set_layouts(stages: Vec<Vec<(u32, Vec<(u32, DescriptorInfo)>)>>) -> (flat: Vec<
    (u32, Vec<(u32, DescriptorInfo)>),
>)
    requires
        forall|i: int| 0 <= i < stages@.len() ==> spec_sets_sorted(#[trigger] stages@[i]@),
        forall|i: int, j: int|
            0 <= i < j < stages@.len() ==> spec_layouts_agree(
                spec_set_layouts(#[trigger] stages@[i]@),
                spec_set_layouts(#[trigger] stages@[j]@),
            ),
    ensures
        spec_sets_sorted(flat@),
        spec_set_layouts(flat@) == spec_flattened(
            stages@.map_values(|s: Vec<(u32, Vec<(u32, DescriptorInfo)>)>| spec_set_layouts(s@)),
        ),
{
    let ghost all = stages@;
    let ghost views = stages@.map_values(|s: Vec<(u32, Vec<(u32, DescriptorInfo)>)>| spec_set_layouts(s@));
    let mut rest = stages;
    let n = rest.len();
    let mut flat: Vec<(u32, Vec<(u32, DescriptorInfo)>)> = Vec::new();
    let mut i: usize = 0;
    proof {
        assert(rest@ =~= all.skip(0));
        assert(views.take(0) =~= Seq::<Map<u32, Map<u32, DescriptorInfo>>>::empty());
        assert(spec_set_layouts(flat@) =~= Map::<u32, Map<u32, DescriptorInfo>>::empty());
    }
    while i < n
        invariant
            n == all.len(),
            views.len() == n,
            forall|j: int| 0 <= j < n ==> #[trigger] views[j] == spec_set_layouts(all[j]@),
            i <= n,
            rest@ == all.skip(i as int),
            forall|j: int| 0 <= j < n ==> spec_sets_sorted(#[trigger] all[j]@),
            forall|a: int, b: int|
                0 <= a < b < n ==> spec_layouts_agree(
                    spec_set_layouts(#[trigger] all[a]@),
                    spec_set_layouts(#[trigger] all[b]@),
                ),
            spec_sets_sorted(flat@),
            spec_set_layouts(flat@) == spec_flattened(views.take(i as int)),
        decreases n - i,
    {
        let stage = rest.remove(0);
        proof {
            assert(all.skip(i as int)[0] == all[i as int]);
            assert(all.skip(i as int).remove(0) =~= all.skip(i + 1));
            assert(views.take(i + 1).drop_last() =~= views.take(i as int));
            assert(views.take(i + 1).last() == views[i as int]);
            let fl = spec_flattened(views.take(i as int));
            let cur = spec_set_layouts(stage@);
            assert forall|k: u32, b: u32|
                fl.dom().contains(k) && cur.dom().contains(k) && fl[k].dom().contains(b) && cur[k].dom().contains(b)
                    implies (#[trigger] fl[k][b]).name@ == (#[trigger] cur[k][b]).name@ && fl[k][b].ty == cur[k][b].ty by {
                lemma_flattened_origin(views.take(i as int), k, b);
                let j = choose|j: int|
                    0 <= j < views.take(i as int).len() && views.take(i as int)[j].dom().contains(k)
                        && views.take(i as int)[j][k].dom().contains(b) && #[trigger] views.take(i as int)[j][k][b]
                        == fl[k][b];
                assert(views.take(i as int)[j] == views[j]);
                assert(spec_layouts_agree(spec_set_layouts(all[j]@), spec_set_layouts(all[i as int]@)));
            }
        }
        add_descriptor_set_layouts(stage, &mut flat);
        i = i + 1;
    }
    proof {
        assert(views.take(n as int) =~= views);
    }
    flat
}

/// How many descriptor sets a pipeline has: up to its highest set.
pub open spec fn spec_set_count(sets: Seq<(u32, Vec<(u32, DescriptorInfo)>)>) -> int {
    if sets.len() == 0 {
        0
    } else {
        sets.last().0 + 1
    }
}

/// The bindings of set `set_index`: none when the pipeline does not declare the set.
pub open spec fn spec_set_bindings(sets: Seq<(u32, Vec<(u32, DescriptorInfo)>)>, set_index: u32) -> Seq<
    (u32, DescriptorInfo),
> {
    if spec_has_key(sets, set_index) {
        sets[spec_key_index(sets, set_index)].1@
    } else {
        Seq::empty()
    }
}

/// The shader stages set `set_index` is visible to: every stage for the engine's global sets 1
/// and 2, the pipeline's stages otherwise.
pub open spec fn spec_set_stage_flags(set_index: u32, stage_flag: u32) -> u32 {
    if set_index == 1 || set_index == 2 {
        SHADER_STAGE_ALL
    } else {
        stage_flag
    }
}

/// The layout of every descriptor set of a pipeline, from set 0 to its highest set: the layout
/// of the bindings it declares in that set, or an empty one.
pub fn plan_set_layouts_with_unified_stage(
    sets: &Vec<(u32, Vec<(u32, DescriptorInfo)>)>,
    stage_flag: u32,
    max_bindless: u32,
) -> (plans: Vec<DescriptorSetLayoutPlan>)
    requires
        spec_sets_sorted(sets@),
        forall|i: int, j: int|
            0 <= i < sets@.len() && 0 <= j < sets@[i].1@.len() ==> spec_binding_supported(
                #[trigger] sets@[i].1@[j].1,
            ),
        sets@.len() > 0 ==> sets@.last().0 < u32::MAX,
    ensures
        plans@.len() == spec_set_count(sets@),
        forall|i: int|
            0 <= i < plans@.len() ==> spec_is_layout_plan(
                #[trigger] plans@[i],
                spec_set_bindings(sets@, i as u32),
                spec_set_stage_flags(i as u32, stage_flag),
                max_bindless,
            ),
{
    let count: u32 = if sets.len() == 0 {
        0
    } else {
        sets[sets.len() - 1].0 + 1
    };
    let mut plans: Vec<DescriptorSetLayoutPlan> = Vec::new();
    let mut cursor: usize = 0;
    let mut set_index: u32 = 0;
    while set_index < count
        invariant
            count == spec_set_count(sets@),
            set_index <= count,
            cursor <= sets@.len(),
            spec_sets_sorted(sets@),
            forall|i: int, j: int|
                0 <= i < sets@.len() && 0 <= j < sets@[i].1@.len() ==> spec_binding_supported(
                    #[trigger] sets@[i].1@[j].1,
                ),
            forall|j: int| 0 <= j < cursor ==> sets@[j].0 < set_index,
            cursor < sets@.len() ==> sets@[cursor as int].0 >= set_index,
            cursor == sets@.len() ==> set_index == count,
            plans@.len() == set_index,
            forall|i: int|
                0 <= i < set_index ==> spec_is_layout_plan(
                    #[trigger] plans@[i],
                    spec_set_bindings(sets@, i as u32),
                    spec_set_stage_flags(i as u32, stage_flag),
                    max_bindless,
                ),
        decreases count - set_index,
    {
        let flags = set_stage_flags(set_index, stage_flag);
        if cursor < sets.len() && sets[cursor].0 == set_index {
            proof {
                lemma_key_index(sets@, cursor as int);
                assert(spec_set_bindings(sets@, set_index) == sets@[cursor as int].1@);
                assert forall|j: int| 0 <= j < sets@[cursor as int].1@.len() implies spec_binding_supported(
                    #[trigger] sets@[cursor as int].1@[j].1,
                ) by {
                    assert(spec_binding_supported(sets@[cursor as int].1@[j].1));
                }
            }
            let plan = plan_descriptor_set_layout(&sets[cursor].1, flags, max_bindless);
            plans.push(plan);
            cursor = cursor + 1;
            proof {
                if cursor < sets@.len() {
                    assert(sets@[cursor - 1].0 < sets@[cursor as int].0);
                }
            }
        } else {
            proof {
                assert(!spec_has_key(sets@, set_index)) by {
                    if spec_has_key(sets@, set_index) {
                        let j = spec_key_index(sets@, set_index);
                        if j >= cursor && j > cursor {
                            assert(sets@[cursor as int].0 < sets@[j].0);
                        }
                    }
                }
                assert(spec_set_bindings(sets@, set_index) =~= Seq::<(u32, DescriptorInfo)>::empty());
            }
            let empty: Vec<(u32, DescriptorInfo)> = Vec::new();
            let plan = plan_descriptor_set_layout(&empty, flags, max_bindless);
            plans.push(plan);
            proof {
                assert(empty@ =~= Seq::<(u32, DescriptorInfo)>::empty());
            }
        }
        proof {
            assert(plans@.last() == plans@[set_index as int]);
            assert forall|j: int| 0 <= j < cursor implies sets@[j].0 < set_index + 1 by {
            }
            if cursor < sets@.len() && sets@[cursor as int].0 < set_index + 1 {
                assert(sets@[cursor as int].0 == set_index);
            }
        }
        set_index = set_index + 1;
    }
    plans
}

/// The set layout that replaces set 1: the last one given.
pub open spec fn spec_last_overwrite(overwrites: Seq<Option<Vec<(u32, DescriptorInfo)>>>) -> Option<
    Vec<(u32, DescriptorInfo)>,
>
    decreases overwrites.len(),
{
    if overwrites.len() == 0 {
        None
    } else if overwrites.last() is Some {
        overwrites.last()
    } else {
        spec_last_overwrite(overwrites.drop_last())
    }
}

/// Replaces the bindings of set 1, when the pipeline declares it, with the custom layout the
/// pipeline description gives; of several, the last one stays.
pub fn apply_set_layout_overwrites(
    sets: &mut Vec<(u32, Vec<(u32, DescriptorInfo)>)>,
    overwrites: Vec<Option<Vec<(u32, DescriptorInfo)>>>,
)
    requires
        spec_sets_sorted(old(sets)@),
        forall|i: int| 0 <= i < overwrites@.len() ==> (#[trigger] overwrites@[i] matches Some(o) ==> spec_keys_increasing(o@)),
    ensures
        spec_sets_sorted(final(sets)@),
        spec_set_layouts(final(sets)@) == (match spec_last_overwrite(overwrites@) {
            Some(o) => if spec_set_layouts(old(sets)@).dom().contains(1) {
                spec_set_layouts(old(sets)@).insert(1, spec_entries(o@))
            } else {
                spec_set_layouts(old(sets)@)
            },
            None => spec_set_layouts(old(sets)@),
        }),
{
    let ghost all = overwrites@;
    let ghost last = spec_last_overwrite(overwrites@);
    let mut rest = overwrites;
    let mut chosen: Option<Vec<(u32, DescriptorInfo)>> = None;
    while rest.len() > 0 && chosen.is_none()
        invariant
            all.len() >= rest@.len(),
            rest@ == all.take(rest@.len() as int),
            chosen is Some ==> chosen == last,
            chosen is None ==> last == spec_last_overwrite(rest@),
            forall|i: int| 0 <= i < all.len() ==> (#[trigger] all[i] matches Some(o) ==> spec_keys_increasing(o@)),
            chosen matches Some(o) ==> spec_keys_increasing(o@),
        decreases rest@.len(),
    {
        let ghost before = rest@;
        let candidate = rest.pop().unwrap();
        proof {
            assert(before.last() == candidate);
            assert(rest@ =~= before.drop_last());
            assert(rest@ =~= all.take(rest@.len() as int));
            assert(candidate == all[rest@.len() as int]);
        }
        chosen = candidate;
    }
    proof {
        if chosen is None && rest@.len() == 0 {
            assert(last == spec_last_overwrite(Seq::<Option<Vec<(u32, DescriptorInfo)>>>::empty()));
        }
        assert(chosen == last);
    }
    match chosen {
        Some(o) => {
            let ghost before = sets@;
            match find_key(sets, 1) {
                Ok(idx) => {
                    proof {
                        assert(o@ == last->0@);
                    }
                    sets.set(idx, (1, o));
                    proof {
                        lemma_update_entries(before, idx as int, o);
                        assert(sets@ == before.update(idx as int, (before[idx as int].0, o)));
                        assert(spec_set_layouts(sets@) =~= spec_set_layouts(before).insert(1, spec_entries(o@)));
                        assert(before[idx as int].0 == 1);
                        assert(spec_entries(before).dom().contains(1));
                        assert forall|j: int| 0 <= j < sets@.len() implies spec_keys_increasing(
                            #[trigger] sets@[j].1@,
                        ) by {
                            if j != idx {
                                assert(sets@[j] == before[j]);
                            }
                        }
                    }
                },
                Err(_) => {
                    proof {
                        assert(!spec_entries(before).dom().contains(1));
                    }
                },
            }
        },
        None => {},
    }
}

} // verus!
