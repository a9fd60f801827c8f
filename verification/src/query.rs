//! The query engine: which records a filter keeps, the one supported sort
//! key with its two directions, and the cut to a requested count.

use vstd::prelude::*;

verus! {

/// The direction of a sort.
#[derive(Clone, Copy, Debug, PartialEq, Eq, Structural)]
pub enum SortOrder {
    Asc,
    Desc,
}

/// Position `a` comes before position `b` when sorting `keys` in the given
/// direction. Equal keys keep the order they came in, whatever the direction.
pub open spec fn precedes(keys: Seq<u64>, order: SortOrder, a: int, b: int) -> bool {
    match order {
        SortOrder::Asc => keys[a] < keys[b] || (keys[a] == keys[b] && a < b),
        SortOrder::Desc => keys[a] > keys[b] || (keys[a] == keys[b] && a < b),
    }
}

/// Position `a` stands somewhere in `p`.
pub open spec fn lists(p: Seq<int>, a: int) -> bool {
    exists|i: int| 0 <= i < p.len() && #[trigger] p[i] == a
}

/// `p` lists every position of `keys` once, each before all that it precedes.
pub open spec fn is_sort_order(keys: Seq<u64>, order: SortOrder, p: Seq<int>) -> bool {
    &&& p.len() == keys.len()
    &&& forall|i: int| 0 <= i < p.len() ==> 0 <= (#[trigger] p[i]) < keys.len()
    &&& forall|a: int| 0 <= a < keys.len() ==> #[trigger] lists(p, a)
    &&& forall|i: int, j: int|
        0 <= i < j < p.len() ==> precedes(keys, order, #[trigger] p[i], #[trigger] p[j])
}

/// The positions of `keys` in sorted order.
pub open spec fn sort_positions(keys: Seq<u64>, order: SortOrder) -> Seq<int> {
    choose|p: Seq<int>| is_sort_order(keys, order, p)
}

/// The items of `v` taken in the order that `p` lists their positions.
pub open spec fn arranged<T>(v: Seq<T>, p: Seq<int>) -> Seq<T> {
    Seq::new(p.len(), |i: int| v[p[i]])
}

/// The items of `v` sorted by `keys`, the key of `v[i]` being `keys[i]`.
pub open spec fn sorted_by<T>(v: Seq<T>, keys: Seq<u64>, order: SortOrder) -> Seq<T> {
    arranged(v, sort_positions(keys, order))
}

/// The first `n` items of `v`, or all of them where there are fewer.
pub open spec fn limited<T>(v: Seq<T>, n: int) -> Seq<T> {
    if n < v.len() {
        v.take(n)
    } else {
        v
    }
}

/// The items of `records` whose flag in `matches` is set, in their order. An
/// item without a flag is left out.
pub open spec fn selected<T>(records: Seq<T>, matches: Seq<bool>) -> Seq<T>
    decreases records.len(),
{
    if records.len() == 0 {
        Seq::empty()
    } else {
        let rest = selected(records.drop_last(), matches);
        let i = records.len() - 1;
        if i < matches.len() && matches[i] {
            rest.push(records[i])
        } else {
            rest
        }
    }
}

/// What a query gives: of `records`, whose sort keys are `keys` in the same
/// order, those that `matches` flags, or all of them where there is no
/// filter; then sorted, where an order is asked for; then cut to `limit`,
/// where one is given.
pub open spec fn query_result<T>(
    records: Seq<T>,
    keys: Seq<u64>,
    matches: Option<Seq<bool>>,
    order: Option<SortOrder>,
    limit: Option<u64>,
) -> Seq<T> {
    let kept = match matches {
        Some(m) => selected(records, m),
        None => records,
    };
    let kept_keys = match matches {
        Some(m) => selected(keys, m),
        None => keys,
    };
    let sorted = match order {
        Some(o) => sorted_by(kept, kept_keys, o),
        None => kept,
    };
    match limit {
        Some(n) => limited(sorted, n as int),
        None => sorted,
    }
}

proof fn sort_orders_agree_up_to(
    keys: Seq<u64>,
    order: SortOrder,
    p: Seq<int>,
    q: Seq<int>,
    k: int,
)
    requires
        is_sort_order(keys, order, p),
        is_sort_order(keys, order, q),
        0 <= k <= keys.len(),
    ensures
        forall|i: int| 0 <= i < k ==> p[i] == q[i],
    decreases k,
{
    if k > 0 {
        sort_orders_agree_up_to(keys, order, p, q, k - 1);
        let i = k - 1;
        let a = p[i];
        let b = q[i];
        if a != b {
            assert(lists(q, a) && lists(p, b));
            let m = choose|m: int| 0 <= m < q.len() && #[trigger] q[m] == a;
            let n = choose|n: int| 0 <= n < p.len() && #[trigger] p[n] == b;
            if m < i {
                assert(p[m] == q[m]);
                assert(precedes(keys, order, p[m], p[i]));
            }
            if n < i {
                assert(p[n] == q[n]);
                assert(precedes(keys, order, q[n], q[i]));
            }
            assert(precedes(keys, order, q[i], q[m]));
            assert(precedes(keys, order, p[i], p[n]));
        }
    }
}

proof fn insertion_point(keys: Seq<u64>, order: SortOrder, q: Seq<int>, i: int, j: int) -> (r: int)
    requires
        0 <= j <= q.len(),
        forall|k: int| j <= k < q.len() ==> precedes(keys, order, i, #[trigger] q[k]),
    ensures
        0 <= r <= j,
        forall|k: int| r <= k < q.len() ==> precedes(keys, order, i, #[trigger] q[k]),
        r == 0 || !precedes(keys, order, i, q[r - 1]),
    decreases j,
{
    if j > 0 && precedes(keys, order, i, q[j - 1]) {
        insertion_point(keys, order, q, i, j - 1)
    } else {
        j
    }
}

/// Every sequence of keys has a sorted order in either direction.
pub proof fn sort_order_exists(keys: Seq<u64>, order: SortOrder)
    ensures
        is_sort_order(keys, order, sort_positions(keys, order)),
    decreases keys.len(),
{
    if keys.len() == 0 {
        assert(is_sort_order(keys, order, Seq::<int>::empty()));
    } else {
        let shorter = keys.drop_last();
        sort_order_exists(shorter, order);
        let q = sort_positions(shorter, order);
        let i = keys.len() - 1;
        let j = insertion_point(keys, order, q, i, q.len() as int);
        let p = q.insert(j, i);
        assert forall|k: int, l: int| 0 <= k < l < p.len() implies precedes(
            keys,
            order,
            #[trigger] p[k],
            #[trigger] p[l],
        ) by {
            if l < j {
                assert(precedes(shorter, order, q[k], q[l]));
            } else if l == j {
                assert(k == j - 1 || precedes(shorter, order, q[k], q[j - 1]));
            } else if k < j {
                assert(precedes(shorter, order, q[k], q[l - 1]));
            } else if k == j {
                assert(p[l] == q[l - 1]);
            } else {
                assert(precedes(shorter, order, q[k - 1], q[l - 1]));
            }
        }
        assert forall|a: int| 0 <= a < keys.len() implies #[trigger] lists(p, a) by {
            if a == i {
                assert(p[j] == a);
            } else {
                assert(lists(q, a));
                let k = choose|k: int| 0 <= k < q.len() && #[trigger] q[k] == a;
                if k < j {
                    assert(p[k] == a);
                } else {
                    assert(p[k + 1] == a);
                }
            }
        }
        assert forall|k: int| 0 <= k < p.len() implies 0 <= (#[trigger] p[k]) < keys.len() by {
            if k < j {
                assert(p[k] == q[k]);
            } else if k > j {
                assert(p[k] == q[k - 1]);
            }
        }
        assert(is_sort_order(keys, order, p));
    }
}

/// There is one sorted order: equal keys never leave the order open.
pub proof fn sort_order_is_unique(keys: Seq<u64>, order: SortOrder, p: Seq<int>, q: Seq<int>)
    requires
        is_sort_order(keys, order, p),
        is_sort_order(keys, order, q),
    ensures
        p == q,
{
    sort_orders_agree_up_to(keys, order, p, q, keys.len() as int);
}

/// Sorting by keys that are all distinct in one direction gives the reverse
/// of sorting in the other.
pub proof fn descending_reverses_ascending<T>(v: Seq<T>, keys: Seq<u64>)
    requires
        v.len() == keys.len(),
        forall|i: int, j: int| 0 <= i < j < keys.len() ==> keys[i] != keys[j],
    ensures
        sorted_by(v, keys, SortOrder::Desc) == sorted_by(v, keys, SortOrder::Asc).reverse(),
        sorted_by(v, keys, SortOrder::Asc) == sorted_by(v, keys, SortOrder::Desc).reverse(),
{
    sort_order_exists(keys, SortOrder::Asc);
    let p = sort_positions(keys, SortOrder::Asc);
    let r = p.reverse();
    let n = p.len() as int;
    assert forall|a: int| 0 <= a < keys.len() implies #[trigger] lists(r, a) by {
        assert(lists(p, a));
        let i = choose|i: int| 0 <= i < p.len() && #[trigger] p[i] == a;
        assert(r[n - 1 - i] == a);
    }
    assert forall|i: int, j: int| 0 <= i < j < r.len() implies precedes(
        keys,
        SortOrder::Desc,
        #[trigger] r[i],
        #[trigger] r[j],
    ) by {
        let x = n - 1 - j;
        let y = n - 1 - i;
        assert(precedes(keys, SortOrder::Asc, p[x], p[y]));
        if p[x] < p[y] {
            assert(keys[p[x]] != keys[p[y]]);
        } else if p[y] < p[x] {
            assert(keys[p[y]] != keys[p[x]]);
        }
    }
    assert(is_sort_order(keys, SortOrder::Desc, r));
    sort_order_is_unique(keys, SortOrder::Desc, r, sort_positions(keys, SortOrder::Desc));
    let asc = sorted_by(v, keys, SortOrder::Asc);
    let desc = sorted_by(v, keys, SortOrder::Desc);
    assert(desc =~= asc.reverse());
    assert(asc =~= desc.reverse());
}

/// Cutting to `n` keeps the smaller of `n` and the count, from the front and
/// in the order given; cutting to none keeps nothing.
pub proof fn limit_keeps_a_prefix<T>(v: Seq<T>, n: nat)
    ensures
        limited(v, n as int).len() == if n <= v.len() { n } else { v.len() },
        forall|i: int| 0 <= i < limited(v, n as int).len() ==> limited(v, n as int)[i] == v[i],
        limited(v, 0) == Seq::<T>::empty(),
{
}

/// Whether the item at position `a` goes before the one at `b`.
fn goes_before(keys: &Vec<u64>, order: SortOrder, a: usize, b: usize) -> (r: bool)
    requires
        a < keys.len(),
        b < keys.len(),
    ensures
        r == precedes(keys@, order, a as int, b as int),
{
    match order {
        SortOrder::Asc => keys[a] < keys[b] || (keys[a] == keys[b] && a < b),
        SortOrder::Desc => keys[a] > keys[b] || (keys[a] == keys[b] && a < b),
    }
}

/// The positions held by `p`, as the integers they stand for.
pub open spec fn positions(p: Seq<usize>) -> Seq<int> {
    p.map_values(|i: usize| i as int)
}

/// The positions of `keys` in sorted order, equal keys in the order they
/// came in.
pub fn sort_order(keys: &Vec<u64>, order: SortOrder) -> (p: Vec<usize>)
    ensures
        positions(p@) == sort_positions(keys@, order),
        is_sort_order(keys@, order, positions(p@)),
{
    let mut p: Vec<usize> = Vec::new();
    let mut i: usize = 0;
    while i < keys.len()
        invariant
            i <= keys.len(),
            p.len() == i,
            forall|k: int| 0 <= k < p.len() ==> (#[trigger] p[k]) < i,
            forall|a: int| 0 <= a < i ==> #[trigger] lists(positions(p@), a),
            forall|k: int, l: int|
                0 <= k < l < p.len() ==> precedes(
                    keys@,
                    order,
                    #[trigger] p[k] as int,
                    #[trigger] p[l] as int,
                ),
        decreases keys.len() - i,
    {
        let mut j: usize = p.len();
        while j > 0 && goes_before(keys, order, i, p[j - 1])
            invariant
                j <= p.len(),
                p.len() == i,
                i < keys.len(),
                forall|k: int| 0 <= k < p.len() ==> (#[trigger] p[k]) < i,
                forall|k: int|
                    j <= k < p.len() ==> precedes(keys@, order, i as int, #[trigger] p[k] as int),
            decreases j,
        {
            j -= 1;
        }
        let ghost before = p@;
        p.insert(j, i);
        proof {
            let after = p@;
            assert forall|k: int, l: int| 0 <= k < l < after.len() implies precedes(
                keys@,
                order,
                #[trigger] after[k] as int,
                #[trigger] after[l] as int,
            ) by {
                if l < j {
                    assert(after[k] == before[k] && after[l] == before[l]);
                } else if l == j {
                    assert(after[k] == before[k]);
                    assert(precedes(keys@, order, before[k] as int, before[j - 1] as int) || k == j
                        - 1);
                } else if k < j {
                    assert(after[k] == before[k] && after[l] == before[l - 1]);
                } else if k == j {
                    assert(after[l] == before[l - 1]);
                } else {
                    assert(after[k] == before[k - 1] && after[l] == before[l - 1]);
                }
            }
            assert forall|a: int| 0 <= a < i + 1 implies #[trigger] lists(positions(after), a) by {
                if a == i {
                    assert(positions(after)[j as int] == a);
                } else {
                    assert(lists(positions(before), a));
                    let k = choose|k: int|
                        0 <= k < positions(before).len() && #[trigger] positions(before)[k] == a;
                    if k < j {
                        assert(positions(after)[k] == a);
                    } else {
                        assert(positions(after)[k + 1] == a);
                    }
                }
            }
            assert forall|k: int| 0 <= k < after.len() implies (#[trigger] after[k]) < i + 1 by {
                if k < j {
                    assert(after[k] == before[k]);
                } else if k > j {
                    assert(after[k] == before[k - 1]);
                }
            }
        }
        i += 1;
    }
    proof {
        let ps = positions(p@);
        assert forall|k: int, l: int| 0 <= k < l < ps.len() implies precedes(
            keys@,
            order,
            #[trigger] ps[k],
            #[trigger] ps[l],
        ) by {
            assert(precedes(keys@, order, p[k] as int, p[l] as int));
        }
        assert forall|k: int| 0 <= k < ps.len() implies 0 <= (#[trigger] ps[k]) < keys.len() by {
            assert(p[k] < i);
        }
        sort_order_exists(keys@, order);
        sort_order_is_unique(keys@, order, ps, sort_positions(keys@, order));
    }
    p
}

/// The items of `v` in the order that `p` lists their positions.
pub fn arrange<T: Copy>(v: &Vec<T>, p: &Vec<usize>) -> (r: Vec<T>)
    requires
        forall|i: int| 0 <= i < p.len() ==> (#[trigger] p[i]) < v.len(),
    ensures
        r@ == arranged(v@, positions(p@)),
{
    let mut r: Vec<T> = Vec::new();
    let mut i: usize = 0;
    while i < p.len()
        invariant
            i <= p.len(),
            r.len() == i,
            forall|k: int| 0 <= k < p.len() ==> (#[trigger] p[k]) < v.len(),
            forall|k: int| 0 <= k < i ==> r[k] == v[p[k] as int],
        decreases p.len() - i,
    {
        r.push(v[p[i]]);
        i += 1;
    }
    r
}

/// Sorts `v` by `keys`, the key of `v[i]` being `keys[i]`. Items with equal
/// keys stay in the order they came in.
pub fn sort_by_keys<T: Copy>(v: &Vec<T>, keys: &Vec<u64>, order: SortOrder) -> (r: Vec<T>)
    requires
        keys.len() == v.len(),
    ensures
        r@ == sorted_by(v@, keys@, order),
{
    let p = sort_order(keys, order);
    proof {
        assert forall|i: int| 0 <= i < p.len() implies (#[trigger] p[i]) < v.len() by {
            assert(0 <= positions(p@)[i] < keys.len());
        }
    }
    arrange(v, &p)
}

/// Keeps the first `n` items of `v`.
pub fn limit<T>(v: Vec<T>, n: usize) -> (r: Vec<T>)
    ensures
        r@ == limited(v@, n as int),
{
    let mut r = v;
    if n < r.len() {
        r.truncate(n);
    }
    r
}

/// The items whose flag is set, in their order.
pub fn select<T: Copy>(records: &Vec<T>, matches: &Vec<bool>) -> (r: Vec<T>)
    ensures
        r@ == selected(records@, matches@),
{
    let mut r: Vec<T> = Vec::new();
    let mut i: usize = 0;
    while i < records.len()
        invariant
            i <= records.len(),
            r@ == selected(records@.take(i as int), matches@),
        decreases records.len() - i,
    {
        proof {
            assert(records@.take(i + 1).drop_last() =~= records@.take(i as int));
        }
        if i < matches.len() && matches[i] {
            r.push(records[i]);
        }
        i += 1;
    }
    proof {
        assert(records@.take(i as int) =~= records@);
    }
    r
}

/// What is kept of a list is part of it, in its order: each kept item
/// stands at a flagged position of the list, and later ones at later
/// positions.
pub proof fn selection_keeps_order<T>(records: Seq<T>, matches: Seq<bool>) -> (at: Seq<int>)
    ensures
        at.len() == selected(records, matches).len(),
        forall|k: int|
            0 <= k < at.len() ==> 0 <= #[trigger] at[k] < records.len() && at[k] < matches.len()
                && matches[at[k]] && selected(records, matches)[k] == records[at[k]],
        forall|k: int, l: int| 0 <= k < l < at.len() ==> #[trigger] at[k] < #[trigger] at[l],
        forall|i: int|
            0 <= i < records.len() && i < matches.len() && matches[i] ==> #[trigger] lists(at, i),
    decreases records.len(),
{
    if records.len() == 0 {
        Seq::empty()
    } else {
        let rest = selection_keeps_order(records.drop_last(), matches);
        let i = records.len() - 1;
        if i < matches.len() && matches[i] {
            let at = rest.push(i);
            assert forall|j: int|
                0 <= j < records.len() && j < matches.len() && matches[j] implies #[trigger] lists(
                at,
                j,
            ) by {
                if j == i {
                    assert(at[at.len() - 1] == j);
                } else {
                    assert(lists(rest, j));
                    let k = choose|k: int| 0 <= k < rest.len() && #[trigger] rest[k] == j;
                    assert(at[k] == j);
                }
            }
            at
        } else {
            rest
        }
    }
}

/// Selecting commutes with reading each item through `f`.
pub proof fn selected_commutes<T, U>(records: Seq<T>, matches: Seq<bool>, f: spec_fn(T) -> U)
    ensures
        selected(records.map_values(f), matches) == selected(records, matches).map_values(f),
    decreases records.len(),
{
    if records.len() > 0 {
        selected_commutes(records.drop_last(), matches, f);
        assert(records.map_values(f).drop_last() =~= records.drop_last().map_values(f));
    }
}

/// The items of a list, each by reference.
pub fn refs_of<'a, T>(records: &'a Vec<T>) -> (r: Vec<&'a T>)
    ensures
        r@ == records@.map_values(|t: T| &t),
{
    let mut r: Vec<&'a T> = Vec::new();
    let mut i: usize = 0;
    while i < records.len()
        invariant
            i <= records.len(),
            r.len() == i,
            forall|k: int| 0 <= k < i ==> r[k] == &records[k],
        decreases records.len() - i,
    {
        r.push(&records[i]);
        i += 1;
    }
    r
}

/// As many items are kept of two lists of one length under the same flags.
pub proof fn selected_len<T, U>(a: Seq<T>, b: Seq<U>, matches: Seq<bool>)
    requires
        a.len() == b.len(),
    ensures
        selected(a, matches).len() == selected(b, matches).len(),
        selected(a, matches).len() <= a.len(),
    decreases a.len(),
{
    if a.len() > 0 {
        selected_len(a.drop_last(), b.drop_last(), matches);
    }
}

/// A query commutes with reading each record through `f`.
pub proof fn query_result_commutes<T, U>(
    records: Seq<T>,
    keys: Seq<u64>,
    matches: Option<Seq<bool>>,
    order: Option<SortOrder>,
    limit: Option<u64>,
    f: spec_fn(T) -> U,
)
    requires
        keys.len() == records.len(),
    ensures
        query_result(records.map_values(f), keys, matches, order, limit) == query_result(
            records,
            keys,
            matches,
            order,
            limit,
        ).map_values(f),
{
    match matches {
        Some(m) => {
            selected_commutes(records, m, f);
            selected_len(records, keys, m);
        },
        None => {},
    }
    match order {
        Some(o) => {
            let kept_keys = match matches {
                Some(m) => selected(keys, m),
                None => keys,
            };
            sort_order_exists(kept_keys, o);
        },
        None => {},
    }
}

/// Answers a query: keeps of `records` those that `matches` flags, sorts
/// them by `keys` where an order is asked for, and cuts them to `limit`.
pub fn query<T: Copy>(
    records: &Vec<T>,
    keys: &Vec<u64>,
    matches: Option<&Vec<bool>>,
    order: Option<SortOrder>,
    limit: Option<u64>,
) -> (r: Vec<T>)
    requires
        keys.len() == records.len(),
    ensures
        r@ == query_result(
            records@,
            keys@,
            match matches {
                Some(m) => Some(m@),
                None => None,
            },
            order,
            limit,
        ),
{
    let (kept, kept_keys) = match matches {
        Some(m) => {
            proof {
                selected_len(records@, keys@, m@);
            }
            (select(records, m), select(keys, m))
        },
        None => (select_all(records), select_all(keys)),
    };
    let sorted = match order {
        Some(o) => sort_by_keys(&kept, &kept_keys, o),
        None => kept,
    };
    match limit {
        Some(n) => {
            if n < sorted.len() as u64 {
                self::limit(sorted, n as usize)
            } else {
                sorted
            }
        },
        None => sorted,
    }
}

/// A copy of a list.
pub fn select_all<T: Copy>(records: &Vec<T>) -> (r: Vec<T>)
    ensures
        r@ == records@,
{
    let mut r: Vec<T> = Vec::new();
    let mut i: usize = 0;
    while i < records.len()
        invariant
            i <= records.len(),
            r@ == records@.take(i as int),
        decreases records.len() - i,
    {
        r.push(records[i]);
        i += 1;
    }
    r
}

} // verus!
