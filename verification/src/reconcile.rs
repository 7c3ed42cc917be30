//! The reconciliation engine: diffs the desired bar definitions of a newly
//! loaded configuration against the currently-open windows, producing a plan
//! of create / destroy / update actions. Matching is by bar identity, so an
//! unchanged bar is left alone rather than destroyed and recreated.

use vstd::prelude::*;
use crate::model::{BarDef, BarKey, def_eq, unique_keys};

verus! {

/// One instruction to the window toolkit: open a window for a new bar,
/// close the window of a bar no longer desired, or restyle an existing
/// window in place with a changed definition.
#[derive(Clone, Debug)]
pub enum WindowAction {
    Create { def: BarDef },
    Destroy { key: BarKey },
    Update { def: BarDef },
}

/// The bar identity an action is addressed to.
pub open spec fn action_key(a: WindowAction) -> BarKey {
    match a {
        WindowAction::Create { def } => def.key,
        WindowAction::Destroy { key } => key,
        WindowAction::Update { def } => def.key,
    }
}

/// The open-window table as a map from bar identity to the definition the
/// window was built from.
pub open spec fn bar_map(bars: Seq<BarDef>) -> Map<BarKey, BarDef>
    decreases bars.len(),
{
    if bars.len() == 0 {
        Map::empty()
    } else {
        bar_map(bars.drop_last()).insert(bars.last().key, bars.last())
    }
}

/// The open-window table after one action is carried out.
pub open spec fn apply_action(m: Map<BarKey, BarDef>, a: WindowAction) -> Map<BarKey, BarDef> {
    match a {
        WindowAction::Create { def } => m.insert(def.key, def),
        WindowAction::Destroy { key } => m.remove(key),
        WindowAction::Update { def } => m.insert(def.key, def),
    }
}

/// The open-window table after a whole plan is carried out in order.
pub open spec fn apply_plan(m: Map<BarKey, BarDef>, plan: Seq<WindowAction>) -> Map<
    BarKey,
    BarDef,
>
    decreases plan.len(),
{
    if plan.len() == 0 {
        m
    } else {
        apply_action(apply_plan(m, plan.drop_last()), plan.last())
    }
}

/// Whether some action of the plan is addressed to the given bar identity.
pub open spec fn plan_touches(plan: Seq<WindowAction>, k: BarKey) -> bool {
    exists|i: int| 0 <= i < plan.len() && action_key(#[trigger] plan[i]) == k
}

/// Whether two open-window tables show the same windows: the same bar
/// identities, each carrying definitions equal field by field.
pub open spec fn maps_match(a: Map<BarKey, BarDef>, b: Map<BarKey, BarDef>) -> bool {
    &&& a.dom() =~= b.dom()
    &&& forall|k: BarKey| #[trigger] b.contains_key(k) ==> def_eq(a[k], b[k])
}

/// Whether a bar identity occurs among the first `n` desired bars.
pub open spec fn key_in_prefix(bars: Seq<BarDef>, n: int, k: BarKey) -> bool {
    exists|j: int| 0 <= j < n && (#[trigger] bars[j]).key == k
}

/// Extending a plan by one action applies that action to the table the
/// shorter plan produces.
pub proof fn lemma_apply_plan_push(m: Map<BarKey, BarDef>, plan: Seq<WindowAction>, a: WindowAction)
    ensures
        apply_plan(m, plan.push(a)) == apply_action(apply_plan(m, plan), a),
{
    assert(plan.push(a).drop_last() =~= plan);
    assert(plan.push(a).last() == a);
}

/// An extended plan touches a bar exactly when the shorter plan touches it
/// or the new action is addressed to it.
pub proof fn lemma_plan_touches_push(plan: Seq<WindowAction>, a: WindowAction, k: BarKey)
    ensures
        plan_touches(plan.push(a), k) <==> (plan_touches(plan, k) || action_key(a) == k),
{
    if plan_touches(plan.push(a), k) {
        let n = choose|n: int|
            0 <= n < plan.push(a).len() && action_key(#[trigger] plan.push(a)[n]) == k;
        if n < plan.len() {
            assert(plan.push(a)[n] == plan[n]);
            assert(action_key(plan[n]) == k);
        } else {
            assert(plan.push(a)[n] == a);
        }
    }
    if plan_touches(plan, k) {
        let n = choose|n: int| 0 <= n < plan.len() && action_key(#[trigger] plan[n]) == k;
        assert(action_key(plan.push(a)[n]) == k);
    }
    if action_key(a) == k {
        assert(action_key(plan.push(a)[plan.len() as int]) == k);
    }
}

/// Under distinct keys, the open-window table holds exactly the bars of the
/// sequence, each under its own key.
pub proof fn lemma_bar_map_index(bars: Seq<BarDef>, i: int)
    requires
        unique_keys(bars),
        0 <= i < bars.len(),
    ensures
        bar_map(bars).contains_key(bars[i].key),
        bar_map(bars)[bars[i].key] == bars[i],
    decreases bars.len(),
{
    if i < bars.len() - 1 {
        assert(unique_keys(bars.drop_last()));
        lemma_bar_map_index(bars.drop_last(), i);
        assert(bars[i].key != bars.last().key);
    }
}

/// A key is in the open-window table exactly when some bar of the sequence
/// carries it.
pub proof fn lemma_bar_map_domain(bars: Seq<BarDef>, k: BarKey)
    ensures
        bar_map(bars).contains_key(k) <==> exists|i: int|
            0 <= i < bars.len() && (#[trigger] bars[i]).key == k,
    decreases bars.len(),
{
    if bars.len() > 0 {
        lemma_bar_map_domain(bars.drop_last(), k);
        if bars.last().key == k {
            assert((#[trigger] bars[bars.len() - 1]).key == k);
        } else if bar_map(bars.drop_last()).contains_key(k) {
            let i = choose|i: int|
                0 <= i < bars.drop_last().len() && (#[trigger] bars.drop_last()[i]).key == k;
            assert((#[trigger] bars[i]).key == k);
        } else if exists|i: int| 0 <= i < bars.len() && (#[trigger] bars[i]).key == k {
            let i = choose|i: int| 0 <= i < bars.len() && (#[trigger] bars[i]).key == k;
            assert(bars.drop_last()[i].key == k);
        }
    }
}

/// Finds the position of the bar with the given identity, if any.
pub fn find_by_key(bars: &Vec<BarDef>, key: BarKey) -> (result: Option<usize>)
    ensures
        match result {
            Some(i) => i < bars@.len() && bars@[i as int].key == key,
            None => forall|i: int| 0 <= i < bars@.len() ==> (#[trigger] bars@[i]).key != key,
        },
{
    let mut i: usize = 0;
    while i < bars.len()
        invariant
            i <= bars@.len(),
            forall|j: int| 0 <= j < i ==> (#[trigger] bars@[j]).key != key,
        decreases bars@.len() - i,
    {
        if bars[i].key == key {
            return Some(i);
        }
        i += 1;
    }
    None
}

/// The correctness of a reconciliation plan for a given pair of open-window
/// table and desired configuration:
/// carrying the plan out leaves exactly one window per desired bar, built
/// from that bar's definition; no window of a still-desired bar is
/// destroyed; and a bar whose definition is unchanged is not touched at all.
pub open spec fn good_plan(
    existing: Seq<BarDef>,
    desired: Seq<BarDef>,
    plan: Seq<WindowAction>,
) -> bool {
    &&& maps_match(apply_plan(bar_map(existing), plan), bar_map(desired))
    &&& forall|i: int|
        0 <= i < plan.len() ==> ((#[trigger] plan[i]) is Destroy ==> !bar_map(
            desired,
        ).contains_key(action_key(plan[i])))
    &&& forall|k: BarKey|
        bar_map(existing).contains_key(k) && bar_map(desired).contains_key(k) && def_eq(
            bar_map(existing)[k],
            bar_map(desired)[k],
        ) ==> !(#[trigger] plan_touches(plan, k))
}

/// Law: carrying a correct plan out leaves every bar of the new
/// configuration with exactly one open window — the table is keyed by bar
/// identity, and each desired identity is present, bound to its desired
/// definition — while every window whose bar is absent from the new
/// configuration is closed.
pub proof fn lemma_plan_outcome(existing: Seq<BarDef>, desired: Seq<BarDef>, plan: Seq<WindowAction>)
    requires
        unique_keys(desired),
        good_plan(existing, desired, plan),
    ensures
        forall|i: int|
            0 <= i < desired.len() ==> apply_plan(bar_map(existing), plan).contains_key(
                (#[trigger] desired[i]).key,
            ) && def_eq(apply_plan(bar_map(existing), plan)[desired[i].key], desired[i]),
        forall|k: BarKey|
            #[trigger] apply_plan(bar_map(existing), plan).contains_key(k) ==> bar_map(
                desired,
            ).contains_key(k),
{
    assert forall|i: int| 0 <= i < desired.len() implies apply_plan(
        bar_map(existing),
        plan,
    ).contains_key((#[trigger] desired[i]).key) && def_eq(
        apply_plan(bar_map(existing), plan)[desired[i].key],
        desired[i],
    ) by {
        lemma_bar_map_index(desired, i);
    }
}

/// Diffs the desired bars against the open windows and returns the plan of
/// window actions that reconciles them.
pub fn reconcile(desired: &Vec<BarDef>, existing: &Vec<BarDef>) -> (plan: Vec<WindowAction>)
    requires
        unique_keys(desired@),
        unique_keys(existing@),
    ensures
        good_plan(existing@, desired@, plan@),
{
    let ghost em = bar_map(existing@);
    let ghost dm = bar_map(desired@);
    let mut plan: Vec<WindowAction> = Vec::new();

    proof {
        assert forall|j: int| 0 <= j < existing@.len() implies em.contains_key(
            (#[trigger] existing@[j]).key,
        ) by {
            lemma_bar_map_index(existing@, j);
        }
    }

    // Destroy every open window whose bar is no longer desired.
    let mut i: usize = 0;
    while i < existing.len()
        invariant
            unique_keys(desired@),
            unique_keys(existing@),
            em == bar_map(existing@),
            dm == bar_map(desired@),
            i <= existing@.len(),
            forall|k: BarKey|
                #[trigger] apply_plan(em, plan@).contains_key(k) ==> em.contains_key(k)
                    && apply_plan(em, plan@)[k] == em[k],
            forall|k: BarKey|
                em.contains_key(k) && dm.contains_key(k) ==> #[trigger] apply_plan(
                    em,
                    plan@,
                ).contains_key(k),
            forall|j: int|
                0 <= j < i && !dm.contains_key((#[trigger] existing@[j]).key) ==> !apply_plan(
                    em,
                    plan@,
                ).contains_key(existing@[j].key),
            forall|j: int|
                i <= j < existing@.len() ==> apply_plan(em, plan@).contains_key(
                    (#[trigger] existing@[j]).key,
                ),
            forall|n: int|
                0 <= n < plan@.len() ==> (#[trigger] plan@[n]) is Destroy && !dm.contains_key(
                    action_key(plan@[n]),
                ),
        decreases existing@.len() - i,
    {
        let key = existing[i].key;
        proof {
            lemma_bar_map_index(existing@, i as int);
        }
        match find_by_key(desired, key) {
            Some(_) => {
                proof {
                    lemma_bar_map_domain(desired@, key);
                }
            },
            None => {
                proof {
                    lemma_bar_map_domain(desired@, key);
                    lemma_apply_plan_push(em, plan@, WindowAction::Destroy { key });
                }
                plan.push(WindowAction::Destroy { key });
            },
        }
        i += 1;
    }

    proof {
        // Every key of the table comes from some open window, so after the
        // pass the table holds exactly the still-desired windows.
        assert forall|k: BarKey| apply_plan(em, plan@).contains_key(k) implies em.contains_key(k)
            && dm.contains_key(k) by {
            lemma_bar_map_domain(existing@, k);
        }
        // So far the plan destroys only windows of no-longer-desired bars.
        assert forall|k: BarKey|
            em.contains_key(k) && dm.contains_key(k) && def_eq(em[k], dm[k]) implies !(
        #[trigger] plan_touches(plan@, k)) by {
            if plan_touches(plan@, k) {
                let n = choose|n: int|
                    0 <= n < plan@.len() && action_key(#[trigger] plan@[n]) == k;
            }
        }
    }

    // Create a window for each newly desired bar; update in place a window
    // whose bar definition changed; leave unchanged bars alone.
    let mut i: usize = 0;
    while i < desired.len()
        invariant
            unique_keys(desired@),
            unique_keys(existing@),
            em == bar_map(existing@),
            dm == bar_map(desired@),
            i <= desired@.len(),
            forall|k: BarKey|
                #[trigger] apply_plan(em, plan@).contains_key(k) <==> ((em.contains_key(k)
                    && dm.contains_key(k)) || key_in_prefix(desired@, i as int, k)),
            forall|j: int|
                0 <= j < i ==> def_eq(
                    apply_plan(em, plan@)[(#[trigger] desired@[j]).key],
                    desired@[j],
                ),
            forall|k: BarKey|
                #[trigger] apply_plan(em, plan@).contains_key(k) && !key_in_prefix(
                    desired@,
                    i as int,
                    k,
                ) ==> em.contains_key(k) && apply_plan(em, plan@)[k] == em[k],
            forall|n: int|
                0 <= n < plan@.len() ==> ((#[trigger] plan@[n]) is Destroy ==> !dm.contains_key(
                    action_key(plan@[n]),
                )),
            forall|k: BarKey|
                em.contains_key(k) && dm.contains_key(k) && def_eq(em[k], dm[k]) ==> !(
                #[trigger] plan_touches(plan@, k)),
        decreases desired@.len() - i,
    {
        let ghost prev = plan@;
        let key = desired[i].key;
        proof {
            lemma_bar_map_index(desired@, i as int);
            assert forall|k: BarKey| key_in_prefix(desired@, i + 1 as int, k) implies (
            key_in_prefix(desired@, i as int, k) || k == key) by {
                let j = choose|j: int| 0 <= j < i + 1 && (#[trigger] desired@[j]).key == k;
                if j < i {
                    assert(key_in_prefix(desired@, i as int, k));
                }
            }
            assert(key_in_prefix(desired@, i + 1 as int, key)) by {
                assert((#[trigger] desired@[i as int]).key == key);
            }
            assert(!key_in_prefix(desired@, i as int, key)) by {
                if key_in_prefix(desired@, i as int, key) {
                    let j = choose|j: int| 0 <= j < i && (#[trigger] desired@[j]).key == key;
                    assert(desired@[j].key != desired@[i as int].key);
                }
            }
        }
        match find_by_key(existing, key) {
            Some(w) => {
                proof {
                    lemma_bar_map_index(existing@, w as int);
                }
                if existing[w].same_def(&desired[i]) {
                    // The bar is unchanged: its window is left untouched.
                    proof {
                        assert(apply_plan(em, plan@).contains_key(key));
                        assert(apply_plan(em, plan@)[key] == em[key]);
                        assert(def_eq(apply_plan(em, plan@)[key], desired@[i as int]));
                        assert forall|j: int| 0 <= j < i + 1 implies def_eq(
                            apply_plan(em, plan@)[(#[trigger] desired@[j]).key],
                            desired@[j],
                        ) by {}
                    }
                } else {
                    let def = desired[i].clone();
                    let ghost a = WindowAction::Update { def };
                    proof {
                        lemma_apply_plan_push(em, prev, a);
                    }
                    plan.push(WindowAction::Update { def });
                    proof {
                        assert(plan@ == prev.push(a));
                        assert(!def_eq(em[key], dm[key]));
                        assert forall|k: BarKey|
                            em.contains_key(k) && dm.contains_key(k) && def_eq(
                                em[k],
                                dm[k],
                            ) implies !(#[trigger] plan_touches(plan@, k)) by {
                            lemma_plan_touches_push(prev, a, k);
                        }
                        assert forall|n: int|
                            0 <= n < plan@.len() implies ((#[trigger] plan@[n]) is Destroy
                            ==> !dm.contains_key(action_key(plan@[n]))) by {
                            if n < prev.len() {
                                assert(prev.push(a)[n] == prev[n]);
                            } else {
                                assert(prev.push(a)[n] == a);
                            }
                        }
                        assert forall|j: int| 0 <= j < i + 1 implies def_eq(
                            apply_plan(em, plan@)[(#[trigger] desired@[j]).key],
                            desired@[j],
                        ) by {
                            if j < i {
                                assert(desired@[j].key != key);
                            }
                        }
                    }
                }
            },
            None => {
                let def = desired[i].clone();
                let ghost a = WindowAction::Create { def };
                proof {
                    lemma_bar_map_domain(existing@, key);
                    lemma_apply_plan_push(em, prev, a);
                }
                plan.push(WindowAction::Create { def });
                proof {
                    assert(plan@ == prev.push(a));
                    assert(!em.contains_key(key));
                    assert forall|k: BarKey|
                        em.contains_key(k) && dm.contains_key(k) && def_eq(em[k], dm[k]) implies !(
                    #[trigger] plan_touches(plan@, k)) by {
                        lemma_plan_touches_push(prev, a, k);
                    }
                    assert forall|n: int|
                        0 <= n < plan@.len() implies ((#[trigger] plan@[n]) is Destroy
                        ==> !dm.contains_key(action_key(plan@[n]))) by {
                        if n < prev.len() {
                            assert(prev.push(a)[n] == prev[n]);
                        } else {
                            assert(prev.push(a)[n] == a);
                        }
                    }
                    assert forall|j: int| 0 <= j < i + 1 implies def_eq(
                        apply_plan(em, plan@)[(#[trigger] desired@[j]).key],
                        desired@[j],
                    ) by {
                        if j < i {
                            assert(desired@[j].key != key);
                        }
                    }
                }
            },
        }
        i += 1;
    }

    proof {
        let m = apply_plan(em, plan@);
        assert forall|k: BarKey| m.contains_key(k) implies dm.contains_key(k) by {
            if key_in_prefix(desired@, desired@.len() as int, k) {
                let j = choose|j: int|
                    0 <= j < desired@.len() && (#[trigger] desired@[j]).key == k;
                lemma_bar_map_index(desired@, j);
            }
        }
        assert forall|k: BarKey| dm.contains_key(k) implies m.contains_key(k) by {
            lemma_bar_map_domain(desired@, k);
        }
        assert(m.dom() =~= dm.dom());
        assert forall|k: BarKey| dm.contains_key(k) implies def_eq(m[k], dm[k]) by {
            lemma_bar_map_domain(desired@, k);
            let j = choose|j: int| 0 <= j < desired@.len() && (#[trigger] desired@[j]).key == k;
            lemma_bar_map_index(desired@, j);
        }
    }
    plan
}

} // verus!
