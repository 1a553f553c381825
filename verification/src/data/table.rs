//! Scans of a table: the rows in the order in which they were added.

use vstd::prelude::*;

use crate::data::models::views;

verus! {

/// The place of the first row that `pred` holds of.
pub open spec fn first_index<V>(rows: Seq<V>, pred: spec_fn(V) -> bool) -> Option<int>
    decreases rows.len(),
{
    if rows.len() == 0 {
        None
    } else if pred(rows[0]) {
        Some(0)
    } else {
        match first_index(rows.drop_first(), pred) {
            Some(i) => Some(i + 1),
            None => None,
        }
    }
}

/// The first row that `pred` holds of.
pub open spec fn first_where<V>(rows: Seq<V>, pred: spec_fn(V) -> bool) -> Option<V> {
    match first_index(rows, pred) {
        Some(i) => Some(rows[i]),
        None => None,
    }
}

/// Whether `pred` holds of some row.
pub open spec fn any_where<V>(rows: Seq<V>, pred: spec_fn(V) -> bool) -> bool {
    exists|i: int| 0 <= i < rows.len() && pred(#[trigger] rows[i])
}

/// The rows with `change` applied to each.
pub open spec fn each_changed<V>(rows: Seq<V>, change: spec_fn(V) -> V) -> Seq<V> {
    Seq::new(rows.len(), |i: int| change(rows[i]))
}

/// `first_index` finds the first row that `pred` holds of, or nothing where
/// it holds of none.
pub proof fn lemma_first_index<V>(rows: Seq<V>, pred: spec_fn(V) -> bool)
    ensures
        match first_index(rows, pred) {
            Some(i) => 0 <= i < rows.len() && pred(rows[i]) && forall|j: int|
                0 <= j < i ==> !pred(#[trigger] rows[j]),
            None => forall|j: int| 0 <= j < rows.len() ==> !pred(#[trigger] rows[j]),
        },
        first_index(rows, pred) is Some <==> any_where(rows, pred),
    decreases rows.len(),
{
    if rows.len() == 0 {
    } else if pred(rows[0]) {
    } else {
        let rest = rows.drop_first();
        lemma_first_index(rest, pred);
        match first_index(rest, pred) {
            Some(i) => {
                assert forall|j: int| 0 <= j < i + 1 implies !pred(#[trigger] rows[j]) by {
                    if j > 0 {
                        assert(rows[j] == rest[j - 1]);
                    }
                }
                assert(rows[i + 1] == rest[i]);
            },
            None => {
                assert forall|j: int| 0 <= j < rows.len() implies !pred(#[trigger] rows[j]) by {
                    if j > 0 {
                        assert(rows[j] == rest[j - 1]);
                    }
                }
            },
        }
        if any_where(rows, pred) {
            let k = choose|k: int| 0 <= k < rows.len() && pred(#[trigger] rows[k]);
            assert(rows[k] == rest[k - 1]);
        }
    }
}

/// The first place at which `pred` holds is the one before which it holds
/// nowhere.
pub proof fn lemma_first_index_is<V>(rows: Seq<V>, pred: spec_fn(V) -> bool, i: int)
    requires
        0 <= i < rows.len(),
        pred(rows[i]),
        forall|j: int| 0 <= j < i ==> !pred(#[trigger] rows[j]),
    ensures
        first_index(rows, pred) == Some(i),
{
    lemma_first_index(rows, pred);
}

/// Where `pred` holds of no row, `first_index` finds nothing.
pub proof fn lemma_first_index_none<V>(rows: Seq<V>, pred: spec_fn(V) -> bool)
    requires
        forall|j: int| 0 <= j < rows.len() ==> !pred(#[trigger] rows[j]),
    ensures
        first_index(rows, pred) is None,
        !any_where(rows, pred),
{
    lemma_first_index(rows, pred);
}

/// The rows of a list in reverse order.
pub(crate) fn reversed<T>(rows: Vec<T>) -> (rev: Vec<T>)
    ensures
        rev@ == rows@.reverse(),
{
    let mut rows = rows;
    let ghost all = rows@;
    let mut rev: Vec<T> = Vec::new();
    while rows.len() > 0
        invariant
            rows@.len() + rev@.len() == all.len(),
            rows@ == all.take(rows@.len() as int),
            forall|i: int| 0 <= i < rev@.len() ==> rev@[i] == all[all.len() - 1 - i],
        decreases rows@.len(),
    {
        let ghost before = rows@;
        let row = rows.pop().unwrap();
        assert(rows@ =~= all.take(rows@.len() as int));
        rev.push(row);
    }
    assert(rev@ =~= all.reverse());
    rev
}

/// The place of the first row that `found` holds of.
pub(crate) fn find_first<T: View>(
    rows: &Vec<T>,
    found: impl Fn(&T) -> bool,
    Ghost(pred): Ghost<spec_fn(T::V) -> bool>,
) -> (place: Option<usize>)
    requires
        forall|r: &T| call_requires(found, (r,)),
        forall|r: &T, b: bool| call_ensures(found, (r,), b) ==> b == pred(r@),
    ensures
        match place {
            Some(i) => first_index(views(rows@), pred) == Some(i as int) && i < rows@.len(),
            None => first_index(views(rows@), pred) is None,
        },
{
    let mut i: usize = 0;
    while i < rows.len()
        invariant
            i <= rows@.len(),
            forall|r: &T| call_requires(found, (r,)),
            forall|r: &T, b: bool| call_ensures(found, (r,), b) ==> b == pred(r@),
            forall|j: int| 0 <= j < i ==> !pred(#[trigger] views(rows@)[j]),
        decreases rows@.len() - i,
    {
        if found(&rows[i]) {
            proof {
                lemma_first_index_is(views(rows@), pred, i as int);
            }
            return Some(i);
        }
        i += 1;
    }
    proof {
        lemma_first_index_none(views(rows@), pred);
    }
    None
}

/// The rows that `keep` holds of, in their order.
pub(crate) fn retain<T: View>(
    rows: Vec<T>,
    keep: impl Fn(&T) -> bool,
    Ghost(pred): Ghost<spec_fn(T::V) -> bool>,
) -> (kept: Vec<T>)
    requires
        forall|r: &T| call_requires(keep, (r,)),
        forall|r: &T, b: bool| call_ensures(keep, (r,), b) ==> b == pred(r@),
    ensures
        views(kept@) == views(rows@).filter(pred),
{
    let ghost all = views(rows@);
    let mut rev = reversed(rows);
    let mut kept: Vec<T> = Vec::new();
    let ghost n = all.len();
    assert(all.take(0).filter(pred) =~= Seq::<T::V>::empty()) by {
        broadcast use vstd::seq_lib::group_filter_ensures;

    }
    while rev.len() > 0
        invariant
            rev@.len() <= n,
            n == all.len(),
            forall|r: &T| call_requires(keep, (r,)),
            forall|r: &T, b: bool| call_ensures(keep, (r,), b) ==> b == pred(r@),
            forall|i: int| 0 <= i < rev@.len() ==> rev@[i]@ == all[n - 1 - i],
            views(kept@) == all.take(n - rev@.len()).filter(pred),
        decreases rev@.len(),
    {
        let ghost k = n - rev@.len();
        let row = rev.pop().unwrap();
        assert(row@ == all[k]);
        proof {
            assert(all.take(k + 1) =~= all.take(k).push(all[k]));
            Seq::lemma_filter_push(all.take(k), all[k], pred);
        }
        if keep(&row) {
            let ghost before = kept@;
            kept.push(row);
            assert(views(kept@) =~= views(before).push(row@));
        }
    }
    assert(all.take(n as int) =~= all);
    kept
}

/// The rows with `change` applied to each.
pub(crate) fn change_each<T: View>(
    rows: Vec<T>,
    change: impl Fn(T) -> T,
    Ghost(changed): Ghost<spec_fn(T::V) -> T::V>,
) -> (out: Vec<T>)
    requires
        forall|r: T| call_requires(change, (r,)),
        forall|r: T, c: T| call_ensures(change, (r,), c) ==> c@ == changed(r@),
    ensures
        views(out@) == each_changed(views(rows@), changed),
{
    let ghost all = views(rows@);
    let mut rev = reversed(rows);
    let mut out: Vec<T> = Vec::new();
    let ghost n = all.len();
    while rev.len() > 0
        invariant
            rev@.len() + out@.len() == n,
            n == all.len(),
            forall|r: T| call_requires(change, (r,)),
            forall|r: T, c: T| call_ensures(change, (r,), c) ==> c@ == changed(r@),
            forall|i: int| 0 <= i < rev@.len() ==> rev@[i]@ == all[n - 1 - i],
            forall|i: int| 0 <= i < out@.len() ==> out@[i]@ == changed(all[i]),
        decreases rev@.len(),
    {
        let row = rev.pop().unwrap();
        let new_row = change(row);
        out.push(new_row);
    }
    assert(views(out@) =~= each_changed(all, changed));
    out
}

/// What `pick` takes from the rows, in their order: for each row one value
/// or none.
pub open spec fn picked<V, W>(rows: Seq<V>, pick: spec_fn(V) -> Option<W>) -> Seq<W>
    decreases rows.len(),
{
    if rows.len() == 0 {
        Seq::empty()
    } else {
        let before = picked(rows.drop_last(), pick);
        match pick(rows.last()) {
            Some(w) => before.push(w),
            None => before,
        }
    }
}

/// A value is picked from the rows just when `pick` takes it from one of them.
pub proof fn lemma_picked_contains<V, W>(rows: Seq<V>, pick: spec_fn(V) -> Option<W>, w: W)
    ensures
        picked(rows, pick).contains(w) <==> exists|i: int|
            0 <= i < rows.len() && pick(#[trigger] rows[i]) == Some(w),
    decreases rows.len(),
{
    if rows.len() == 0 {
    } else {
        let init = rows.drop_last();
        lemma_picked_contains(init, pick, w);
        let before = picked(init, pick);
        if picked(rows, pick).contains(w) {
            if before.contains(w) {
                let i = choose|i: int| 0 <= i < init.len() && pick(#[trigger] init[i]) == Some(w);
                assert(rows[i] == init[i]);
            } else {
                match pick(rows.last()) {
                    Some(x) => {
                        let j = choose|j: int|
                            0 <= j < before.push(x).len() && before.push(x)[j] == w;
                        if j < before.len() {
                            assert(before[j] == w);
                        }
                        assert(x == w);
                        assert(rows[rows.len() - 1] == rows.last());
                    },
                    None => {},
                }
            }
        }
        if exists|i: int| 0 <= i < rows.len() && pick(#[trigger] rows[i]) == Some(w) {
            let i = choose|i: int| 0 <= i < rows.len() && pick(#[trigger] rows[i]) == Some(w);
            if i < init.len() {
                assert(init[i] == rows[i]);
                assert(before.contains(w));
                match pick(rows.last()) {
                    Some(x) => {
                        let j = choose|j: int| 0 <= j < before.len() && before[j] == w;
                        assert(before.push(x)[j] == w);
                    },
                    None => {},
                }
            } else {
                assert(rows[i] == rows.last());
                assert(before.push(w)[before.len() as int] == w);
            }
        }
    }
}

/// What `pick` takes from the rows, in their order.
pub(crate) fn select<T: View, U: View>(
    rows: &Vec<T>,
    pick: impl Fn(&T) -> Option<U>,
    Ghost(chosen): Ghost<spec_fn(T::V) -> Option<U::V>>,
) -> (out: Vec<U>)
    requires
        forall|r: &T| call_requires(pick, (r,)),
        forall|r: &T, u: Option<U>|
            call_ensures(pick, (r,), u) ==> match (u, chosen(r@)) {
                (Some(a), Some(b)) => a@ == b,
                (None, None) => true,
                _ => false,
            },
    ensures
        views(out@) == picked(views(rows@), chosen),
{
    let ghost all = views(rows@);
    let mut out: Vec<U> = Vec::new();
    let mut i: usize = 0;
    while i < rows.len()
        invariant
            i <= rows@.len(),
            all == views(rows@),
            forall|r: &T| call_requires(pick, (r,)),
            forall|r: &T, u: Option<U>|
                call_ensures(pick, (r,), u) ==> match (u, chosen(r@)) {
                    (Some(a), Some(b)) => a@ == b,
                    (None, None) => true,
                    _ => false,
                },
            views(out@) == picked(all.take(i as int), chosen),
        decreases rows@.len() - i,
    {
        proof {
            assert(all.take(i + 1).drop_last() =~= all.take(i as int));
            assert(all.take(i + 1).last() == all[i as int]);
        }
        let ghost before = out@;
        match pick(&rows[i]) {
            Some(u) => {
                out.push(u);
                assert(views(out@) =~= views(before).push(u@));
            },
            None => {},
        }
        i += 1;
    }
    assert(all.take(i as int) =~= all);
    out
}

/// Whether no two rows have the same key.
pub open spec fn unique_by<V, K>(rows: Seq<V>, key: spec_fn(V) -> K) -> bool {
    forall|i: int, j: int|
        0 <= i < j < rows.len() ==> key(#[trigger] rows[i]) != key(#[trigger] rows[j])
}

/// Rows with unique keys keep them when some of the rows are taken away.
pub proof fn lemma_unique_filter<V, K>(
    rows: Seq<V>,
    key: spec_fn(V) -> K,
    pred: spec_fn(V) -> bool,
)
    requires
        unique_by(rows, key),
    ensures
        unique_by(rows.filter(pred), key),
    decreases rows.len(),
{
    reveal(Seq::filter);
    if rows.len() > 0 {
        let init = rows.drop_last();
        let last = rows.last();
        assert forall|i: int, j: int| 0 <= i < j < init.len() implies key(#[trigger] init[i])
            != key(#[trigger] init[j]) by {
            assert(init[i] == rows[i] && init[j] == rows[j]);
        }
        lemma_unique_filter(init, key, pred);
        let sub = init.filter(pred);
        if pred(last) {
            assert(rows.filter(pred) =~= sub.push(last));
            assert forall|i: int| 0 <= i < sub.len() implies key(#[trigger] sub[i]) != key(
                last,
            ) by {
                assert(sub.contains(sub[i]));
                init.lemma_filter_contains_rev(pred, sub[i]);
                let k = choose|k: int| 0 <= k < init.len() && init[k] == sub[i];
                assert(rows[k] == sub[i]);
                assert(rows[rows.len() - 1] == last);
            }
            lemma_unique_push(sub, key, last);
        } else {
            assert(rows.filter(pred) =~= sub);
        }
    }
}

/// Rows with unique keys keep them when a row with a new key is added.
pub proof fn lemma_unique_push<V, K>(rows: Seq<V>, key: spec_fn(V) -> K, row: V)
    requires
        unique_by(rows, key),
        forall|i: int| 0 <= i < rows.len() ==> key(#[trigger] rows[i]) != key(row),
    ensures
        unique_by(rows.push(row), key),
{
    let all = rows.push(row);
    assert forall|i: int, j: int| 0 <= i < j < all.len() implies key(#[trigger] all[i]) != key(
        #[trigger] all[j],
    ) by {
        assert(all[i] == rows[i]);
        if j < rows.len() {
            assert(all[j] == rows[j]);
        }
    }
}

/// Rows with unique keys keep them when rows change but not their keys.
pub proof fn lemma_unique_same_keys<V, K>(rows: Seq<V>, changed: Seq<V>, key: spec_fn(V) -> K)
    requires
        unique_by(rows, key),
        changed.len() == rows.len(),
        forall|i: int| 0 <= i < rows.len() ==> key(#[trigger] changed[i]) == key(rows[i]),
    ensures
        unique_by(changed, key),
{
    assert forall|i: int, j: int| 0 <= i < j < changed.len() implies key(#[trigger] changed[i])
        != key(#[trigger] changed[j]) by {
        assert(key(rows[i]) != key(rows[j]));
    }
}

/// Taking away the rows that `pred` does not hold of changes nothing where
/// it holds of every row.
pub proof fn lemma_filter_all<V>(rows: Seq<V>, pred: spec_fn(V) -> bool)
    requires
        forall|i: int| 0 <= i < rows.len() ==> pred(#[trigger] rows[i]),
    ensures
        rows.filter(pred) == rows,
    decreases rows.len(),
{
    reveal(Seq::filter);
    if rows.len() > 0 {
        let init = rows.drop_last();
        assert forall|i: int| 0 <= i < init.len() implies pred(#[trigger] init[i]) by {
            assert(init[i] == rows[i]);
        }
        lemma_filter_all(init, pred);
        assert(pred(rows[rows.len() - 1]));
        assert(init.push(rows.last()) =~= rows);
    }
}

/// Taking rows away a second time changes nothing where the second test
/// holds of every row that passes the first.
pub proof fn lemma_filter_again<V>(
    rows: Seq<V>,
    first: spec_fn(V) -> bool,
    second: spec_fn(V) -> bool,
)
    requires
        forall|v: V| #[trigger] first(v) ==> second(v),
    ensures
        rows.filter(first).filter(second) == rows.filter(first),
{
    let kept = rows.filter(first);
    assert forall|i: int| 0 <= i < kept.len() implies second(#[trigger] kept[i]) by {
        rows.lemma_filter_pred(first, i);
    }
    lemma_filter_all(kept, second);
}

} // verus!
