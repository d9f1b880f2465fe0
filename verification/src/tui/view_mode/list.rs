// A view of a list through filters and sorters: the items every filter keeps, ordered by
// the sorters (the sorter added last decides first; ties keep the earlier order).
use vstd::prelude::*;

verus! {

/// The outcome of comparing two items.
#[derive(Clone, Copy, Debug, PartialEq, Eq, Structural)]
pub enum Order {
    Less,
    Equal,
    Greater,
}

/// A test that an item must pass to be shown.
pub trait ListFilter<T> {
    /// Whether the filter keeps the item.
    spec fn keeps(&self, item: T) -> bool;

    fn filter(&self, item: &T) -> (r: bool)
        ensures
            r == self.keeps(*item),
    ;
}

/// The order that two `le` answers give: both ways means a tie.
pub open spec fn order_of(le_ab: bool, le_ba: bool) -> Order {
    if le_ab && le_ba {
        Order::Equal
    } else if le_ab {
        Order::Less
    } else {
        Order::Greater
    }
}

/// A total preorder on items, by which a list can be sorted.
pub trait ListSorter<T> {
    /// Whether `a` may come before `b`.
    spec fn le(&self, a: T, b: T) -> bool;

    /// `le` is total and transitive.
    proof fn le_is_total_preorder(&self)
        ensures
            forall|a: T, b: T| #[trigger] self.le(a, b) || self.le(b, a),
            forall|a: T, b: T, c: T| #[trigger] self.le(a, b) && #[trigger] self.le(b, c) ==> self.le(a, c),
    ;

    fn compare(&self, a: &T, b: &T) -> (r: Order)
        ensures
            r == order_of(self.le(*a, *b), self.le(*b, *a)),
    ;
}

/// Filters and sorters through which a list of `T` is shown.
pub struct ListViewMode<T, F: ListFilter<T>, S: ListSorter<T>> {
    pub filters: Vec<F>,
    pub sorters: Vec<S>,
    pub items: core::marker::PhantomData<T>,
}

/// Whether every filter keeps the item.
pub open spec fn kept_by_all<T, F: ListFilter<T>>(filters: Seq<F>, x: T) -> bool {
    forall|k: int| 0 <= k < filters.len() ==> (#[trigger] filters[k]).keeps(x)
}

/// Whether item `x` at position `i` is shown before item `y` at position `j`: the last
/// sorter decides, ties go to the sorter before it, and full ties to the earlier position.
pub open spec fn ranks_before<T, S: ListSorter<T>>(sorters: Seq<S>, x: T, y: T, i: int, j: int) -> bool
    decreases sorters.len(),
{
    if sorters.len() == 0 {
        i < j
    } else {
        let s = sorters.last();
        if s.le(x, y) && !s.le(y, x) {
            true
        } else if !s.le(x, y) {
            false
        } else {
            ranks_before(sorters.drop_last(), x, y, i, j)
        }
    }
}

/// `order` lists, once each and in shown order, the positions of the items that every
/// filter keeps.
pub open spec fn is_view_order<T, F: ListFilter<T>, S: ListSorter<T>>(
    filters: Seq<F>,
    sorters: Seq<S>,
    items: Seq<T>,
    order: Seq<int>,
) -> bool {
    &&& forall|p: int| 0 <= p < order.len() ==> 0 <= #[trigger] order[p] < items.len()
    &&& forall|p: int| 0 <= p < order.len() ==> kept_by_all(filters, items[#[trigger] order[p]])
    &&& forall|i: int| 0 <= i < items.len() && kept_by_all(filters, #[trigger] items[i]) ==> order.contains(i)
    &&& forall|p: int, q: int| 0 <= p < q < order.len() ==> ranks_before(sorters, items[#[trigger] order[p]], items[#[trigger] order[q]], order[p], order[q])
}

/// Every sorter orders items by a total preorder.
pub open spec fn sorters_are_preorders<T, S: ListSorter<T>>(sorters: Seq<S>) -> bool {
    forall|m: int| #![trigger sorters[m]] 0 <= m < sorters.len() ==> {
        &&& forall|a: T, b: T| #[trigger] sorters[m].le(a, b) || sorters[m].le(b, a)
        &&& forall|a: T, b: T, c: T| #[trigger] sorters[m].le(a, b) && #[trigger] sorters[m].le(b, c) ==> sorters[m].le(a, c)
    }
}

proof fn lemma_unfiltered_prefix<T, F: ListFilter<T>, S: ListSorter<T>>(items: Seq<T>, order: Seq<int>, p: int)
    requires
        is_view_order(Seq::<F>::empty(), Seq::<S>::empty(), items, order),
        0 <= p < order.len(),
    ensures
        forall|q: int| 0 <= q <= p ==> #[trigger] order[q] == q,
    decreases p,
{
    if p > 0 {
        lemma_unfiltered_prefix::<T, F, S>(items, order, p - 1);
    }
    assert(ranks_before(Seq::<S>::empty(), items[order[0]], items[order[0]], 0, 0) == (0int < 0int));
    assert(kept_by_all(Seq::<F>::empty(), items[p]));
    if order[p] != p {
        assert(0 <= order[p] < items.len());
        // p itself is shown somewhere; every place before p holds its own index.
        if p < items.len() {
            assert(kept_by_all(Seq::<F>::empty(), items[p]));
            assert(order.contains(p));
            let w = choose|w: int| 0 <= w < order.len() && order[w] == p;
            if w < p {
                assert(order[w] == w);
            } else if w > p {
                assert(ranks_before(Seq::<S>::empty(), items[order[p]], items[order[w]], order[p], order[w]));
                if p > 0 {
                    assert(ranks_before(Seq::<S>::empty(), items[order[p - 1]], items[order[p]], order[p - 1], order[p]));
                    assert(order[p - 1] == p - 1);
                }
                assert(order[p] < order[w]);
                assert(order[p] >= p);
            }
        } else {
            if p > 0 {
                assert(ranks_before(Seq::<S>::empty(), items[order[p - 1]], items[order[p]], order[p - 1], order[p]));
            }
        }
    }
}

/// Without filters or sorters a view shows every item once, in the list's own order.
pub proof fn unfiltered_view_keeps_order<T, F: ListFilter<T>, S: ListSorter<T>>(items: Seq<T>, order: Seq<int>)
    requires
        is_view_order(Seq::<F>::empty(), Seq::<S>::empty(), items, order),
    ensures
        order == Seq::new(items.len(), |i: int| i),
{
    if order.len() > 0 {
        lemma_unfiltered_prefix::<T, F, S>(items, order, order.len() - 1);
    }
    if order.len() < items.len() {
        let i = order.len() as int;
        assert(kept_by_all(Seq::<F>::empty(), items[i]));
        assert(order.contains(i));
        let w = choose|w: int| 0 <= w < order.len() && order[w] == i;
        assert(order[w] == w);
    }
    if order.len() > items.len() {
        let p = items.len() as int;
        assert(order[p] == p);
    }
    assert(order =~= Seq::new(items.len(), |i: int| i));
}

proof fn lemma_ranks_total_trans<T, S: ListSorter<T>>(sorters: Seq<S>, x: T, y: T, z: T, i: int, j: int, k: int)
    requires
        sorters_are_preorders(sorters),
    ensures
        i != j ==> (ranks_before(sorters, x, y, i, j) || ranks_before(sorters, y, x, j, i)),
        !(ranks_before(sorters, x, y, i, j) && ranks_before(sorters, y, x, j, i)),
        ranks_before(sorters, x, y, i, j) && ranks_before(sorters, y, z, j, k) ==> ranks_before(sorters, x, z, i, k),
    decreases sorters.len(),
{
    if sorters.len() > 0 {
        let p = sorters.drop_last();
        assert forall|m: int| #![trigger p[m]] 0 <= m < p.len() implies {
            &&& forall|a: T, b: T| #[trigger] p[m].le(a, b) || p[m].le(b, a)
            &&& forall|a: T, b: T, c: T| #[trigger] p[m].le(a, b) && #[trigger] p[m].le(b, c) ==> p[m].le(a, c)
        } by {
            assert(p[m] == sorters[m]);
        }
        lemma_ranks_total_trans(p, x, y, z, i, j, k);
        let s = sorters.last();
        assert(s == sorters[sorters.len() - 1]);
        assert(s.le(x, y) || s.le(y, x));
        assert(s.le(y, z) || s.le(z, y));
        assert(s.le(x, z) || s.le(z, x));
        if s.le(x, y) && s.le(y, z) { assert(s.le(x, z)); }
        if s.le(y, x) && s.le(z, y) { assert(s.le(z, x)); }
        if s.le(x, y) && s.le(z, x) { assert(s.le(z, y)); }
        if s.le(y, z) && s.le(x, y) { assert(s.le(x, z)); }
        if s.le(z, x) && s.le(y, z) { assert(s.le(y, x)); }
        if s.le(y, x) && s.le(x, z) { assert(s.le(y, z)); }
    }
}

proof fn lemma_sorters_are_preorders<T, S: ListSorter<T>>(sorters: Seq<S>)
    ensures
        sorters_are_preorders(sorters),
{
    assert forall|m: int| #![trigger sorters[m]] 0 <= m < sorters.len() implies {
        &&& forall|a: T, b: T| #[trigger] sorters[m].le(a, b) || sorters[m].le(b, a)
        &&& forall|a: T, b: T, c: T| #[trigger] sorters[m].le(a, b) && #[trigger] sorters[m].le(b, c) ==> sorters[m].le(a, c)
    } by {
        sorters[m].le_is_total_preorder();
    }
}

/// In a view order, an item that the sorters rank before another is shown before it.
proof fn lemma_same_relative_order<T, F: ListFilter<T>, S: ListSorter<T>>(
    f1: Seq<F>,
    sorters: Seq<S>,
    items: Seq<T>,
    before: Seq<int>,
    p2: int,
    q2: int,
)
    requires
        sorters_are_preorders(sorters),
        is_view_order(f1, sorters, items, before),
        0 <= p2 < before.len(),
        0 <= q2 < before.len(),
        ranks_before(sorters, items[before[p2]], items[before[q2]], before[p2], before[q2]),
    ensures
        p2 < q2,
{
    let i = before[p2];
    let j = before[q2];
    lemma_ranks_total_trans(sorters, items[i], items[j], items[i], i, j, i);
    lemma_ranks_total_trans(sorters, items[i], items[i], items[i], i, i, i);
    if q2 < p2 {
        assert(ranks_before(sorters, items[before[q2]], items[before[p2]], before[q2], before[p2]));
    }
}

/// Adding a filter only takes items out of a view: an item shows with the added filter
/// exactly when it showed before and the filter keeps it, and the items still shown keep
/// their order from before.
pub proof fn added_filter_only_removes<T, F: ListFilter<T>, S: ListSorter<T>>(
    filters: Seq<F>,
    sorters: Seq<S>,
    filter: F,
    items: Seq<T>,
    before: Seq<int>,
    after: Seq<int>,
)
    requires
        is_view_order(filters, sorters, items, before),
        is_view_order(filters.push(filter), sorters, items, after),
    ensures
        forall|i: int| after.contains(i) <==> (before.contains(i) && filter.keeps(items[i])),
        forall|p: int, q: int, p2: int, q2: int|
            0 <= p < q < after.len() && 0 <= p2 < before.len() && 0 <= q2 < before.len()
                && #[trigger] before[p2] == #[trigger] after[p] && #[trigger] before[q2] == #[trigger] after[q]
                ==> p2 < q2,
{
    lemma_sorters_are_preorders(sorters);
    let fs = filters.push(filter);
    assert forall|i: int| after.contains(i) <==> (before.contains(i) && filter.keeps(items[i])) by {
        if after.contains(i) {
            let p = choose|p: int| 0 <= p < after.len() && after[p] == i;
            assert(kept_by_all(fs, items[after[p]]));
            assert(0 <= i < items.len());
            assert forall|k: int| 0 <= k < filters.len() implies (#[trigger] filters[k]).keeps(items[i]) by {
                assert(fs[k] == filters[k]);
            }
            assert(fs[filters.len() as int] == filter);
            assert(kept_by_all(filters, items[i]));
        }
        if before.contains(i) && filter.keeps(items[i]) {
            let p = choose|p: int| 0 <= p < before.len() && before[p] == i;
            assert(kept_by_all(filters, items[before[p]]));
            assert(0 <= i < items.len());
            assert forall|k: int| 0 <= k < fs.len() implies (#[trigger] fs[k]).keeps(items[i]) by {
                if k < filters.len() {
                    assert(fs[k] == filters[k]);
                }
            }
        }
    }
    assert forall|p: int, q: int, p2: int, q2: int|
        0 <= p < q < after.len() && 0 <= p2 < before.len() && 0 <= q2 < before.len()
            && #[trigger] before[p2] == #[trigger] after[p] && #[trigger] before[q2] == #[trigger] after[q]
        implies p2 < q2 by {
        assert(ranks_before(sorters, items[after[p]], items[after[q]], after[p], after[q]));
        lemma_same_relative_order::<T, F, S>(filters, sorters, items, before, p2, q2);
    }
}

/// Adding a sorter re-sorts a view stably: the same items show, each pair of them in the
/// added sorter's order, and items that it ties keep their order from before.
pub proof fn added_sorter_resorts_stably<T, F: ListFilter<T>, S: ListSorter<T>>(
    filters: Seq<F>,
    sorters: Seq<S>,
    sorter: S,
    items: Seq<T>,
    before: Seq<int>,
    after: Seq<int>,
)
    requires
        is_view_order(filters, sorters, items, before),
        is_view_order(filters, sorters.push(sorter), items, after),
    ensures
        forall|i: int| after.contains(i) <==> before.contains(i),
        forall|p: int, q: int|
            0 <= p < q < after.len() ==> sorter.le(items[#[trigger] after[p]], items[#[trigger] after[q]]),
        forall|p: int, q: int, p2: int, q2: int|
            0 <= p < q < after.len() && 0 <= p2 < before.len() && 0 <= q2 < before.len()
                && #[trigger] before[p2] == #[trigger] after[p] && #[trigger] before[q2] == #[trigger] after[q]
                && sorter.le(items[after[q]], items[after[p]])
                ==> p2 < q2,
{
    lemma_sorters_are_preorders(sorters);
    let ss = sorters.push(sorter);
    assert(ss.last() == sorter);
    assert(ss.drop_last() =~= sorters);
    assert forall|i: int| after.contains(i) <==> before.contains(i) by {
        if after.contains(i) {
            let p = choose|p: int| 0 <= p < after.len() && after[p] == i;
            assert(kept_by_all(filters, items[after[p]]));
        }
        if before.contains(i) {
            let p = choose|p: int| 0 <= p < before.len() && before[p] == i;
            assert(kept_by_all(filters, items[before[p]]));
        }
    }
    assert forall|p: int, q: int| 0 <= p < q < after.len() implies sorter.le(
        items[#[trigger] after[p]],
        items[#[trigger] after[q]],
    ) by {
        assert(ranks_before(ss, items[after[p]], items[after[q]], after[p], after[q]));
    }
    assert forall|p: int, q: int, p2: int, q2: int|
        0 <= p < q < after.len() && 0 <= p2 < before.len() && 0 <= q2 < before.len()
            && #[trigger] before[p2] == #[trigger] after[p] && #[trigger] before[q2] == #[trigger] after[q]
            && sorter.le(items[after[q]], items[after[p]])
        implies p2 < q2 by {
        assert(ranks_before(ss, items[after[p]], items[after[q]], after[p], after[q]));
        assert(ranks_before(sorters, items[after[p]], items[after[q]], after[p], after[q]));
        lemma_same_relative_order::<T, F, S>(filters, sorters, items, before, p2, q2);
    }
}

impl<T, F: ListFilter<T>, S: ListSorter<T>> ListViewMode<T, F, S> {
    pub fn new() -> (r: Self)
        ensures
            r.filters@.len() == 0,
            r.sorters@.len() == 0,
    {
        Self { filters: Vec::new(), sorters: Vec::new(), items: core::marker::PhantomData }
    }

    pub fn add_filter(&mut self, filter: F)
        ensures
            final(self).filters@.drop_last() == old(self).filters@,
            final(self).filters@.len() == old(self).filters@.len() + 1,
            final(self).filters@.last() == filter,
            final(self).sorters@ == old(self).sorters@,
    {
        self.filters.push(filter);
        assert(self.filters@.drop_last() =~= old(self).filters@);
    }

    pub fn add_sorter(&mut self, sorter: S)
        ensures
            final(self).sorters@.drop_last() == old(self).sorters@,
            final(self).sorters@.len() == old(self).sorters@.len() + 1,
            final(self).sorters@.last() == sorter,
            final(self).filters@ == old(self).filters@,
    {
        self.sorters.push(sorter);
        assert(self.sorters@.drop_last() =~= old(self).sorters@);
    }

    fn keeps_item(&self, item: &T) -> (r: bool)
        ensures
            r == kept_by_all(self.filters@, *item),
    {
        let mut k: usize = 0;
        while k < self.filters.len()
            invariant
                k <= self.filters@.len(),
                forall|m: int| 0 <= m < k ==> (#[trigger] self.filters@[m]).keeps(*item),
            decreases self.filters@.len() - k,
        {
            if !self.filters[k].filter(item) {
                return false;
            }
            k = k + 1;
        }
        true
    }

    fn item_ranks_before(&self, items: &[T], i: usize, j: usize) -> (r: bool)
        requires
            i < items@.len(),
            j < items@.len(),
        ensures
            r == ranks_before(self.sorters@, items@[i as int], items@[j as int], i as int, j as int),
    {
        let mut m = self.sorters.len();
        assert(self.sorters@.subrange(0, m as int) =~= self.sorters@);
        while m > 0
            invariant
                m <= self.sorters@.len(),
                i < items@.len(),
                j < items@.len(),
                ranks_before(self.sorters@, items@[i as int], items@[j as int], i as int, j as int)
                    == ranks_before(self.sorters@.subrange(0, m as int), items@[i as int], items@[j as int], i as int, j as int),
            decreases m,
        {
            let s = &self.sorters[m - 1];
            let ghost sub = self.sorters@.subrange(0, m as int);
            assert(sub.drop_last() =~= self.sorters@.subrange(0, m - 1));
            assert(sub.last() == self.sorters@[m - 1]);
            match s.compare(&items[i], &items[j]) {
                Order::Less => {
                    return true;
                },
                Order::Greater => {
                    return false;
                },
                Order::Equal => {},
            }
            m = m - 1;
        }
        i < j
    }

    /// The items that every filter keeps, in the order the sorters give.
    pub fn apply<'a>(&self, items: &'a [T]) -> (r: Vec<&'a T>)
        ensures
            exists|order: Seq<int>| {
                &&& is_view_order(self.filters@, self.sorters@, items@, order)
                &&& order.len() == r@.len()
                &&& forall|p: int| 0 <= p < order.len() ==> r@[p] == items@[#[trigger] order[p]]
            },
    {
        proof {
            lemma_sorters_are_preorders(self.sorters@);
        }
        // Positions of the kept items, in list order.
        let mut kept: Vec<usize> = Vec::new();
        let mut i: usize = 0;
        while i < items.len()
            invariant
                i <= items@.len(),
                forall|p: int| 0 <= p < kept@.len() ==> #[trigger] kept@[p] < i,
                forall|p: int| 0 <= p < kept@.len() ==> kept_by_all(self.filters@, items@[#[trigger] kept@[p] as int]),
                forall|x: int| 0 <= x < i && kept_by_all(self.filters@, #[trigger] items@[x]) ==> kept@.contains(x as usize),
                forall|p: int, q: int| 0 <= p < q < kept@.len() ==> #[trigger] kept@[p] < #[trigger] kept@[q],
            decreases items@.len() - i,
        {
            let ghost old_kept = kept@;
            if self.keeps_item(&items[i]) {
                kept.push(i);
                proof {
                    assert forall|x: int| 0 <= x < i + 1 && kept_by_all(self.filters@, #[trigger] items@[x]) implies kept@.contains(x as usize) by {
                        if x == i {
                            assert(kept@[kept@.len() - 1] == i);
                        } else {
                            assert(old_kept.contains(x as usize));
                            let w = choose|w: int| 0 <= w < old_kept.len() && old_kept[w] == x as usize;
                            assert(kept@[w] == old_kept[w]);
                        }
                    }
                }
            }
            i = i + 1;
        }
        // Insertion sort of the kept positions by rank.
        let mut sorted: Vec<usize> = Vec::new();
        let mut n: usize = 0;
        while n < kept.len()
            invariant
                n <= kept@.len(),
                sorted@.len() == n,
                sorters_are_preorders(self.sorters@),
                forall|p: int| 0 <= p < kept@.len() ==> #[trigger] kept@[p] < items@.len(),
                forall|p: int, q: int| 0 <= p < q < kept@.len() ==> #[trigger] kept@[p] < #[trigger] kept@[q],
                forall|p: int| 0 <= p < n ==> exists|w: int| 0 <= w < n && #[trigger] sorted@[p] == kept@[w],
                forall|w: int| 0 <= w < n ==> sorted@.contains(#[trigger] kept@[w]),
                forall|p: int, q: int| 0 <= p < q < sorted@.len() ==> ranks_before(self.sorters@, items@[#[trigger] sorted@[p] as int], items@[#[trigger] sorted@[q] as int], sorted@[p] as int, sorted@[q] as int),
            decreases kept@.len() - n,
        {
            let x = kept[n];
            let mut pos: usize = 0;
            proof {
                assert forall|p: int| 0 <= p < sorted@.len() implies #[trigger] sorted@[p] < items@.len() by {
                    let w = choose|w: int| 0 <= w < n && #[trigger] sorted@[p] == kept@[w];
                }
            }
            while pos < sorted.len() && self.item_ranks_before(items, sorted[pos], x)
                invariant
                    pos <= sorted@.len(),
                    x < items@.len(),
                    sorters_are_preorders(self.sorters@),
                    forall|p: int| 0 <= p < sorted@.len() ==> #[trigger] sorted@[p] < items@.len(),
                    forall|p: int| 0 <= p < pos ==> ranks_before(self.sorters@, items@[#[trigger] sorted@[p] as int], items@[x as int], sorted@[p] as int, x as int),
                decreases sorted@.len() - pos,
            {
                pos = pos + 1;
            }
            let ghost before = sorted@;
            proof {
                // x differs from every position already placed.
                assert forall|p: int| 0 <= p < before.len() implies #[trigger] before[p] != x by {
                    let w = choose|w: int| 0 <= w < n && #[trigger] sorted@[p] == kept@[w];
                    assert(kept@[w] < kept@[n as int]);
                }
            }
            sorted.insert(pos, x);
            proof {
                let after = sorted@;
                assert(after =~= before.subrange(0, pos as int).push(x) + before.subrange(pos as int, before.len() as int));
                assert forall|p: int| 0 <= p < after.len() implies #[trigger] after[p] < items@.len() by {
                    if p < pos { assert(after[p] == before[p]); } else if p > pos { assert(after[p] == before[p - 1]); }
                }
                assert forall|p: int, q: int| 0 <= p < q < after.len() implies ranks_before(self.sorters@, items@[#[trigger] after[p] as int], items@[#[trigger] after[q] as int], after[p] as int, after[q] as int) by {
                    if q < pos {
                        assert(after[p] == before[p] && after[q] == before[q]);
                    } else if q == pos {
                        assert(after[p] == before[p]);
                    } else if p < pos {
                        assert(after[p] == before[p] && after[q] == before[q - 1]);
                    } else if p == pos {
                        let y = before[pos as int];
                        let z = before[q - 1];
                        assert(after[q] == z);
                        lemma_ranks_total_trans(self.sorters@, items@[x as int], items@[y as int], items@[z as int], x as int, y as int, z as int);
                        assert(y != x);
                        assert(!ranks_before(self.sorters@, items@[y as int], items@[x as int], y as int, x as int));
                        assert(ranks_before(self.sorters@, items@[x as int], items@[y as int], x as int, y as int));
                        if q - 1 > pos {
                            assert(ranks_before(self.sorters@, items@[y as int], items@[z as int], y as int, z as int));
                        }
                    } else {
                        assert(after[p] == before[p - 1] && after[q] == before[q - 1]);
                    }
                }
                assert forall|p: int| 0 <= p < n + 1 implies exists|w: int| 0 <= w < n + 1 && #[trigger] after[p] == kept@[w] by {
                    if p < pos {
                        assert(after[p] == before[p]);
                        let w = choose|w: int| 0 <= w < n && before[p] == kept@[w];
                        assert(after[p] == kept@[w]);
                    } else if p == pos {
                        assert(after[p] == kept@[n as int]);
                    } else {
                        assert(after[p] == before[p - 1]);
                        let w = choose|w: int| 0 <= w < n && before[p - 1] == kept@[w];
                        assert(after[p] == kept@[w]);
                    }
                }
                assert forall|w: int| 0 <= w < n + 1 implies after.contains(#[trigger] kept@[w]) by {
                    if w == n {
                        assert(after[pos as int] == kept@[w]);
                    } else {
                        assert(before.contains(kept@[w]));
                        let p = choose|p: int| 0 <= p < before.len() && before[p] == kept@[w];
                        if p < pos { assert(after[p] == before[p]); } else { assert(after[p + 1] == before[p]); }
                    }
                }
            }
            n = n + 1;
        }
        let mut r: Vec<&'a T> = Vec::new();
        let mut k: usize = 0;
        while k < sorted.len()
            invariant
                k <= sorted@.len(),
                r@.len() == k,
                forall|p: int| 0 <= p < sorted@.len() ==> #[trigger] sorted@[p] < items@.len(),
                forall|p: int| 0 <= p < k ==> r@[p] == items@[#[trigger] sorted@[p] as int],
            decreases sorted@.len() - k,
        {
            r.push(&items[sorted[k]]);
            k = k + 1;
        }
        proof {
            let order = sorted@.map_values(|v: usize| v as int);
            assert forall|i: int| 0 <= i < items@.len() && kept_by_all(self.filters@, #[trigger] items@[i]) implies order.contains(i) by {
                assert(kept@.contains(i as usize));
                let w = choose|w: int| 0 <= w < kept@.len() && kept@[w] == i as usize;
                assert(sorted@.contains(kept@[w]));
                let p = choose|p: int| 0 <= p < sorted@.len() && sorted@[p] == kept@[w];
                assert(order[p] == i);
            }
            assert forall|p: int| 0 <= p < order.len() implies kept_by_all(self.filters@, items@[#[trigger] order[p]]) by {
                let w = choose|w: int| 0 <= w < n && #[trigger] sorted@[p] == kept@[w];
            }
            assert(is_view_order(self.filters@, self.sorters@, items@, order));
        }
        r
    }
}

} // verus!
