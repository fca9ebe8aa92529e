//! The projection: the records that pass the filter, in the order of the sort
//! criterion, records with equal keys staying in the order in which they came.

use crate::criteria::{FilterCriteria, SortCriteria};
use crate::machine::Machine;
use vstd::prelude::*;

verus! {

/// The records of `c` that `f` admits, in their order in `c`.
pub open spec fn filtered(c: Seq<Machine>, f: FilterCriteria) -> Seq<Machine> {
    c.filter(|m: Machine| f.admits(m))
}

/// The order `o` of positions of `c` with position `i` put in: `i` goes behind the
/// last position of `o` whose record may stand before that of `i`.
pub open spec fn placed(c: Seq<Machine>, k: SortCriteria, o: Seq<int>, i: int) -> Seq<int>
    decreases o.len(),
{
    if o.len() == 0 {
        seq![i]
    } else if k.precedes(c[o.last()], c[i]) {
        o.push(i)
    } else {
        placed(c, k, o.drop_last(), i).push(o.last())
    }
}

/// The positions of the first `n` records of `c`, in listing order under `k`.
pub open spec fn stable_order(c: Seq<Machine>, k: SortCriteria, n: nat) -> Seq<int>
    decreases n,
{
    if n == 0 {
        Seq::empty()
    } else {
        placed(c, k, stable_order(c, k, (n - 1) as nat), n - 1)
    }
}

/// The records of `c` in listing order under `k`.
pub open spec fn sorted(c: Seq<Machine>, k: SortCriteria) -> Seq<Machine> {
    stable_order(c, k, c.len()).map_values(|i: int| c[i])
}

/// What the listing shows of the collection `c` under filter `f` and sort `k`.
pub open spec fn projection(c: Seq<Machine>, f: FilterCriteria, k: SortCriteria) -> Seq<Machine> {
    sorted(filtered(c, f), k)
}

/// Filtering a collection extended by one record.
proof fn lemma_filtered_push(c: Seq<Machine>, f: FilterCriteria, m: Machine)
    ensures
        filtered(c.push(m), f) == if f.admits(m) {
            filtered(c, f).push(m)
        } else {
            filtered(c, f)
        },
{
    reveal(Seq::filter);
    assert(c.push(m).drop_last() =~= c);
}

/// Where `placed` puts a position: after position `p` of the order when every
/// later record must follow the new one and the record before `p` may precede it.
proof fn lemma_placed_at(c: Seq<Machine>, k: SortCriteria, o: Seq<int>, i: int, p: int)
    requires
        0 <= p <= o.len(),
        forall|j: int| p <= j < o.len() ==> !k.precedes(c[#[trigger] o[j]], c[i]),
        p > 0 ==> k.precedes(c[o[p - 1]], c[i]),
    ensures
        placed(c, k, o, i) == o.insert(p, i),
    decreases o.len(),
{
    if o.len() == 0 {
        assert(o.insert(p, i) =~= seq![i]);
    } else if p == o.len() {
        assert(o.insert(p, i) =~= o.push(i));
    } else {
        assert(!k.precedes(c[o[o.len() - 1]], c[i]));
        lemma_placed_at(c, k, o.drop_last(), i, p);
        assert(o.drop_last().insert(p, i).push(o.last()) =~= o.insert(p, i));
    }
}

/// Whether the order `o` of positions of `c` never lets a key decrease and keeps
/// records with equal keys in the order of their positions.
pub open spec fn keeps_order(c: Seq<Machine>, k: SortCriteria, o: Seq<int>) -> bool {
    forall|i: int, j: int|
        #![trigger o[i], o[j]]
        0 <= i < j < o.len() ==> k.precedes(c[o[i]], c[o[j]]) && (k.precedes(c[o[j]], c[o[i]])
            ==> o[i] < o[j])
}

/// Whether `o` lists each of the positions `0..n` of `c`, in an order that
/// `keeps_order`.
pub open spec fn is_stable_listing(c: Seq<Machine>, k: SortCriteria, n: int, o: Seq<int>) -> bool {
    &&& o.len() == n
    &&& forall|i: int| 0 <= i < o.len() ==> 0 <= #[trigger] o[i] < n
    &&& forall|p: int| 0 <= p < n ==> o.contains(p)
    &&& keeps_order(c, k, o)
}

/// Putting a new, larger position into an order keeps the order, adds that
/// position and loses none.
proof fn lemma_placed_keeps_order(c: Seq<Machine>, k: SortCriteria, o: Seq<int>, i: int)
    requires
        keeps_order(c, k, o),
        forall|j: int| 0 <= j < o.len() ==> #[trigger] o[j] < i,
    ensures
        keeps_order(c, k, placed(c, k, o, i)),
        placed(c, k, o, i).len() == o.len() + 1,
        placed(c, k, o, i).contains(i),
        forall|j: int| 0 <= j < o.len() ==> placed(c, k, o, i).contains(#[trigger] o[j]),
        forall|j: int|
            0 <= j < placed(c, k, o, i).len() ==> #[trigger] placed(c, k, o, i)[j] == i
                || o.contains(placed(c, k, o, i)[j]),
    decreases o.len(),
{
    let r = placed(c, k, o, i);
    if o.len() == 0 {
        assert(r[0] == i);
    } else if k.precedes(c[o.last()], c[i]) {
        assert(r == o.push(i));
        assert(r[o.len() as int] == i);
        assert forall|j: int| 0 <= j < o.len() implies r.contains(#[trigger] o[j]) by {
            assert(r[j] == o[j]);
        }
        assert forall|j: int| 0 <= j < r.len() implies #[trigger] r[j] == i || o.contains(
            r[j],
        ) by {
            if j < o.len() {
                assert(o[j] == r[j]);
            }
        }
        assert forall|a: int, b: int|
            #![trigger r[a], r[b]]
            0 <= a < b < r.len() implies k.precedes(c[r[a]], c[r[b]]) && (k.precedes(
            c[r[b]],
            c[r[a]],
        ) ==> r[a] < r[b]) by {
            if b < o.len() {
                assert(r[a] == o[a] && r[b] == o[b]);
            } else {
                assert(r[a] == o[a]);
                let last = o.len() - 1;
                if a < last {
                    assert(k.precedes(c[o[a]], c[o[last]]));
                    k.lemma_precedes_transitive(c[o[a]], c[o.last()], c[i]);
                }
            }
        }
    } else {
        let head = o.drop_last();
        let inner = placed(c, k, head, i);
        assert forall|a: int, b: int|
            #![trigger head[a], head[b]]
            0 <= a < b < head.len() implies k.precedes(c[head[a]], c[head[b]]) && (k.precedes(
            c[head[b]],
            c[head[a]],
        ) ==> head[a] < head[b]) by {
            assert(head[a] == o[a] && head[b] == o[b]);
        }
        assert forall|j: int| 0 <= j < head.len() implies #[trigger] head[j] < i by {
            assert(head[j] == o[j]);
        }
        lemma_placed_keeps_order(c, k, head, i);
        assert(r == inner.push(o.last()));
        let w = choose|w: int| 0 <= w < inner.len() && inner[w] == i;
        assert(r[w] == i);
        assert forall|j: int| 0 <= j < o.len() implies r.contains(#[trigger] o[j]) by {
            if j < head.len() {
                assert(head[j] == o[j]);
                let v = choose|v: int| 0 <= v < inner.len() && inner[v] == head[j];
                assert(r[v] == o[j]);
            } else {
                assert(r[inner.len() as int] == o[j]);
            }
        }
        assert forall|j: int| 0 <= j < r.len() implies #[trigger] r[j] == i || o.contains(
            r[j],
        ) by {
            if j < inner.len() {
                assert(r[j] == inner[j]);
                if inner[j] != i {
                    let v = choose|v: int| 0 <= v < head.len() && head[v] == inner[j];
                    assert(o[v] == r[j]);
                }
            } else {
                assert(o[o.len() - 1] == r[j]);
            }
        }
        assert forall|a: int, b: int|
            #![trigger r[a], r[b]]
            0 <= a < b < r.len() implies k.precedes(c[r[a]], c[r[b]]) && (k.precedes(
            c[r[b]],
            c[r[a]],
        ) ==> r[a] < r[b]) by {
            if b < inner.len() {
                assert(r[a] == inner[a] && r[b] == inner[b]);
            } else {
                assert(r[a] == inner[a]);
                assert(r[b] == o.last());
                if inner[a] == i {
                    k.lemma_precedes_total(c[i], c[o.last()]);
                } else {
                    let v = choose|v: int| 0 <= v < head.len() && head[v] == inner[a];
                    let last = o.len() - 1;
                    assert(o[v] == inner[a]);
                    assert(k.precedes(c[o[v]], c[o[last]]));
                }
            }
        }
    }
}

/// The listing order is a stable listing: it holds every position once, keys
/// never decrease along it, and records with equal keys keep their order.
pub proof fn lemma_stable_order_is_listing(c: Seq<Machine>, k: SortCriteria, n: nat)
    ensures
        is_stable_listing(c, k, n as int, stable_order(c, k, n)),
    decreases n,
{
    if n > 0 {
        let prev = stable_order(c, k, (n - 1) as nat);
        lemma_stable_order_is_listing(c, k, (n - 1) as nat);
        lemma_placed_keeps_order(c, k, prev, n - 1);
        let o = stable_order(c, k, n);
        assert forall|i: int| 0 <= i < o.len() implies 0 <= #[trigger] o[i] < n by {
            if o[i] != n - 1 {
                let v = choose|v: int| 0 <= v < prev.len() && prev[v] == o[i];
            }
        }
        assert forall|p: int| 0 <= p < n implies o.contains(p) by {
            if p < n - 1 {
                assert(prev.contains(p));
                let v = choose|v: int| 0 <= v < prev.len() && prev[v] == p;
                assert(o.contains(prev[v]));
            }
        }
    }
}

/// There is only one stable listing: an order that lists the positions `0..n`
/// with keys that never decrease and equal keys in the order of their positions
/// is the listing order.
pub proof fn lemma_stable_listing_unique(c: Seq<Machine>, k: SortCriteria, n: nat, o: Seq<int>)
    requires
        is_stable_listing(c, k, n as int, o),
    ensures
        o == stable_order(c, k, n),
    decreases n,
{
    if n == 0 {
        assert(o =~= Seq::<int>::empty());
    } else {
        assert forall|i: int, j: int| 0 <= i < j < o.len() implies o[i] != o[j] by {
            if o[i] == o[j] {
                k.lemma_precedes_reflexive(c[o[i]]);
                assert(k.precedes(c[o[i]], c[o[j]]) && (k.precedes(c[o[j]], c[o[i]]) ==> o[i]
                    < o[j]));
            }
        }
        assert(o.contains(n - 1));
        let p = choose|p: int| 0 <= p < o.len() && o[p] == n - 1;
        let rest = o.remove(p);
        assert forall|i: int| 0 <= i < rest.len() implies 0 <= #[trigger] rest[i] < n - 1 by {
            if i < p {
                assert(rest[i] == o[i]);
            } else {
                assert(rest[i] == o[i + 1]);
            }
        }
        assert forall|q: int| 0 <= q < n - 1 implies rest.contains(q) by {
            assert(o.contains(q));
            let t = choose|t: int| 0 <= t < o.len() && o[t] == q;
            if t < p {
                assert(rest[t] == q);
            } else {
                assert(rest[t - 1] == q);
            }
        }
        assert forall|i: int, j: int|
            #![trigger rest[i], rest[j]]
            0 <= i < j < rest.len() implies k.precedes(c[rest[i]], c[rest[j]]) && (k.precedes(
            c[rest[j]],
            c[rest[i]],
        ) ==> rest[i] < rest[j]) by {
            let a = if i < p {
                i
            } else {
                i + 1
            };
            let b = if j < p {
                j
            } else {
                j + 1
            };
            assert(rest[i] == o[a] && rest[j] == o[b]);
            assert(k.precedes(c[o[a]], c[o[b]]) && (k.precedes(c[o[b]], c[o[a]]) ==> o[a] < o[b]));
        }
        lemma_stable_listing_unique(c, k, (n - 1) as nat, rest);
        assert forall|j: int| p <= j < rest.len() implies !k.precedes(
            c[#[trigger] rest[j]],
            c[n - 1],
        ) by {
            assert(rest[j] == o[j + 1]);
            assert(k.precedes(c[o[p]], c[o[j + 1]]) && (k.precedes(c[o[j + 1]], c[o[p]]) ==> o[p]
                < o[j + 1]));
        }
        if p > 0 {
            assert(rest[p - 1] == o[p - 1]);
            assert(k.precedes(c[o[p - 1]], c[o[p]]) && (k.precedes(c[o[p]], c[o[p - 1]]) ==> o[p
                - 1] < o[p]));
        }
        lemma_placed_at(c, k, rest, n - 1, p);
        assert(rest.insert(p, n - 1) =~= o);
    }
}

/// Keys never decrease along the sorted records.
pub proof fn lemma_sorted_ordered(c: Seq<Machine>, k: SortCriteria, i: int, j: int)
    requires
        0 <= i <= j < c.len(),
    ensures
        sorted(c, k).len() == c.len(),
        k.precedes(sorted(c, k)[i], sorted(c, k)[j]),
{
    lemma_stable_order_is_listing(c, k, c.len());
    let o = stable_order(c, k, c.len());
    if i < j {
        assert(k.precedes(c[o[i]], c[o[j]]));
    } else {
        k.lemma_precedes_reflexive(c[o[i]]);
    }
}

/// Records that are already in order are listed as they stand.
proof fn lemma_stable_order_of_ordered(c: Seq<Machine>, k: SortCriteria, n: nat)
    requires
        n <= c.len(),
        forall|i: int| 0 <= i && i + 1 < c.len() ==> k.precedes(#[trigger] c[i], c[i + 1]),
    ensures
        stable_order(c, k, n) == Seq::new(n, |i: int| i),
    decreases n,
{
    if n > 0 {
        lemma_stable_order_of_ordered(c, k, (n - 1) as nat);
        let prev = Seq::new((n - 1) as nat, |i: int| i);
        if n > 1 {
            assert(prev.last() == n - 2);
            assert(k.precedes(c[n - 2], c[n - 2 + 1]));
            assert(placed(c, k, prev, n - 1) == prev.push(n - 1));
        }
        assert(placed(c, k, prev, n - 1) =~= Seq::new(n, |i: int| i));
    }
}

/// Sorting what is sorted changes nothing.
pub proof fn lemma_sorted_idempotent(c: Seq<Machine>, k: SortCriteria)
    ensures
        sorted(sorted(c, k), k) == sorted(c, k),
{
    let s = sorted(c, k);
    lemma_stable_order_is_listing(c, k, c.len());
    assert forall|i: int| 0 <= i && i + 1 < s.len() implies k.precedes(#[trigger] s[i], s[i + 1]) by {
        lemma_sorted_ordered(c, k, i, i + 1);
    }
    lemma_stable_order_of_ordered(s, k, s.len());
    assert(sorted(s, k) =~= s);
}

/// A filter removes nothing from records that it admits one and all.
proof fn lemma_filtered_of_admitted(c: Seq<Machine>, f: FilterCriteria)
    requires
        forall|i: int| 0 <= i < c.len() ==> f.admits(#[trigger] c[i]),
    ensures
        filtered(c, f) == c,
    decreases c.len(),
{
    reveal(Seq::filter);
    if c.len() > 0 {
        let head = c.drop_last();
        assert forall|i: int| 0 <= i < head.len() implies f.admits(#[trigger] head[i]) by {
            assert(head[i] == c[i]);
        }
        lemma_filtered_of_admitted(head, f);
        assert(f.admits(c[c.len() - 1]));
        assert(head.push(c.last()) =~= c);
    }
}

/// Projecting a projection again, as a collection of its own and under the same
/// criteria, gives it back unchanged.
pub proof fn lemma_projection_idempotent(c: Seq<Machine>, f: FilterCriteria, k: SortCriteria)
    ensures
        projection(projection(c, f, k), f, k) == projection(c, f, k),
{
    let fc = filtered(c, f);
    let p = projection(c, f, k);
    let o = stable_order(fc, k, fc.len());
    lemma_stable_order_is_listing(fc, k, fc.len());
    assert forall|i: int| 0 <= i < p.len() implies f.admits(#[trigger] p[i]) by {
        assert(p[i] == fc[o[i]]);
        c.lemma_filter_pred(|m: Machine| f.admits(m), o[i]);
    }
    lemma_filtered_of_admitted(p, f);
    lemma_sorted_idempotent(fc, k);
}

/// The positions in `c`, in increasing order, of those of its first `n` records
/// that `f` admits.
pub open spec fn kept_positions(c: Seq<Machine>, f: FilterCriteria, n: nat) -> Seq<int>
    decreases n,
{
    if n == 0 {
        Seq::empty()
    } else if f.admits(c[n - 1]) {
        kept_positions(c, f, (n - 1) as nat).push(n - 1)
    } else {
        kept_positions(c, f, (n - 1) as nat)
    }
}

/// For each record of the projection, in listing order, its position in `c`.
pub open spec fn projection_sources(c: Seq<Machine>, f: FilterCriteria, k: SortCriteria) -> Seq<int> {
    let fc = filtered(c, f);
    stable_order(fc, k, fc.len()).map_values(|t: int| kept_positions(c, f, c.len())[t])
}

/// The kept positions are those of the filtered records: they rise strictly, each
/// is the position of an admitted record, and no admitted record is left out.
pub proof fn lemma_kept_positions(c: Seq<Machine>, f: FilterCriteria, n: nat)
    requires
        n <= c.len(),
    ensures
        filtered(c.subrange(0, n as int), f) == kept_positions(c, f, n).map_values(|i: int| c[i]),
        forall|t: int|
            0 <= t < kept_positions(c, f, n).len() ==> 0 <= #[trigger] kept_positions(c, f, n)[t]
                < n && f.admits(c[kept_positions(c, f, n)[t]]),
        forall|s: int, t: int|
            #![trigger kept_positions(c, f, n)[s], kept_positions(c, f, n)[t]]
            0 <= s < t < kept_positions(c, f, n).len() ==> kept_positions(c, f, n)[s]
                < kept_positions(c, f, n)[t],
        forall|p: int| 0 <= p < n && f.admits(#[trigger] c[p]) ==> kept_positions(c, f, n).contains(p),
    decreases n,
{
    reveal(Seq::filter);
    let kp = kept_positions(c, f, n);
    if n == 0 {
        assert(c.subrange(0, 0) =~= Seq::<Machine>::empty());
        assert(filtered(c.subrange(0, 0), f) =~= kp.map_values(|i: int| c[i]));
    } else {
        let prev = kept_positions(c, f, (n - 1) as nat);
        lemma_kept_positions(c, f, (n - 1) as nat);
        lemma_filtered_push(c.subrange(0, n - 1), f, c[n - 1]);
        assert(c.subrange(0, n - 1).push(c[n - 1]) =~= c.subrange(0, n as int));
        assert(filtered(c.subrange(0, n as int), f) =~= kp.map_values(|i: int| c[i]));
        assert forall|p: int| 0 <= p < n && f.admits(#[trigger] c[p]) implies kp.contains(p) by {
            if p < n - 1 {
                let v = choose|v: int| 0 <= v < prev.len() && prev[v] == p;
                assert(kp[v] == p);
            } else {
                assert(kp[kp.len() - 1] == p);
            }
        }
    }
}

/// The projection holds exactly the admitted records of the collection, each
/// once, with keys that never decrease; and two records with the same key stand
/// in the projection in the order in which they stand in the collection.
pub proof fn lemma_projection_stable(c: Seq<Machine>, f: FilterCriteria, k: SortCriteria)
    ensures
        projection_sources(c, f, k).len() == projection(c, f, k).len(),
        forall|i: int|
            0 <= i < projection(c, f, k).len() ==> {
                &&& 0 <= #[trigger] projection_sources(c, f, k)[i] < c.len()
                &&& projection(c, f, k)[i] == c[projection_sources(c, f, k)[i]]
                &&& f.admits(projection(c, f, k)[i])
            },
        forall|p: int|
            0 <= p < c.len() && f.admits(#[trigger] c[p]) ==> projection_sources(c, f, k).contains(p),
        forall|i: int, j: int|
            #![trigger projection_sources(c, f, k)[i], projection_sources(c, f, k)[j]]
            0 <= i < j < projection(c, f, k).len() ==> {
                &&& projection_sources(c, f, k)[i] != projection_sources(c, f, k)[j]
                &&& k.precedes(projection(c, f, k)[i], projection(c, f, k)[j])
                &&& k.ties(projection(c, f, k)[i], projection(c, f, k)[j]) ==> projection_sources(
                    c,
                    f,
                    k,
                )[i] < projection_sources(c, f, k)[j]
            },
{
    let fc = filtered(c, f);
    let kp = kept_positions(c, f, c.len());
    let o = stable_order(fc, k, fc.len());
    let src = projection_sources(c, f, k);
    let p = projection(c, f, k);
    lemma_kept_positions(c, f, c.len());
    assert(c.subrange(0, c.len() as int) =~= c);
    lemma_stable_order_is_listing(fc, k, fc.len());
    assert(fc.len() == kp.len());
    assert forall|i: int| 0 <= i < p.len() implies {
        &&& 0 <= #[trigger] src[i] < c.len()
        &&& p[i] == c[src[i]]
        &&& f.admits(p[i])
    } by {
        assert(0 <= o[i] < fc.len());
        assert(src[i] == kp[o[i]]);
        assert(fc[o[i]] == c[kp[o[i]]]);
    }
    assert forall|q: int| 0 <= q < c.len() && f.admits(#[trigger] c[q]) implies src.contains(q) by {
        let t = choose|t: int| 0 <= t < kp.len() && kp[t] == q;
        assert(o.contains(t));
        let v = choose|v: int| 0 <= v < o.len() && o[v] == t;
        assert(src[v] == q);
    }
    assert forall|i: int, j: int|
        #![trigger src[i], src[j]]
        0 <= i < j < p.len() implies {
        &&& src[i] != src[j]
        &&& k.precedes(p[i], p[j])
        &&& k.ties(p[i], p[j]) ==> src[i] < src[j]
    } by {
        assert(0 <= o[i] < fc.len() && 0 <= o[j] < fc.len());
        assert(k.precedes(fc[o[i]], fc[o[j]]));
        assert(src[i] == kp[o[i]] && src[j] == kp[o[j]]);
        if o[i] == o[j] {
            k.lemma_precedes_reflexive(fc[o[i]]);
        }
        if o[i] < o[j] {
            assert(kp[o[i]] < kp[o[j]]);
        } else {
            assert(kp[o[j]] < kp[o[i]]);
        }
    }
}

/// The records of `list` that the filter admits, in their order in `list`.
pub fn filter_machines(list: &Vec<Machine>, f: FilterCriteria) -> (r: Vec<Machine>)
    ensures
        r@ == filtered(list@, f),
{
    let mut out: Vec<Machine> = Vec::new();
    let mut i: usize = 0;
    proof {
        reveal(Seq::filter);
        assert(list@.subrange(0, 0) =~= Seq::<Machine>::empty());
    }
    while i < list.len()
        invariant
            i <= list.len(),
            out@ == filtered(list@.subrange(0, i as int), f),
        decreases list.len() - i,
    {
        proof {
            lemma_filtered_push(list@.subrange(0, i as int), f, list@[i as int]);
            assert(list@.subrange(0, i as int).push(list@[i as int]) =~= list@.subrange(
                0,
                i as int + 1,
            ));
        }
        if f.keeps(&list[i]) {
            out.push(list[i].clone());
        }
        i = i + 1;
    }
    assert(list@.subrange(0, list.len() as int) =~= list@);
    out
}

/// The records of `machines` in listing order under `k`: a stable sort.
pub fn sort_machines(machines: Vec<Machine>, k: SortCriteria) -> (r: Vec<Machine>)
    ensures
        r@ == sorted(machines@, k),
{
    let n: usize = machines.len();
    let mut order: Vec<usize> = Vec::new();
    let mut i: usize = 0;
    while i < n
        invariant
            n == machines.len(),
            i <= n,
            order.len() == i,
            forall|j: int| 0 <= j < order.len() ==> 0 <= #[trigger] order@[j] < i,
            order@.map_values(|x: usize| x as int) == stable_order(machines@, k, i as nat),
        decreases n - i,
    {
        let ghost o = order@.map_values(|x: usize| x as int);
        let mut p: usize = order.len();
        while p > 0 && !k.before_or_tied(&machines[order[p - 1]], &machines[i])
            invariant
                n == machines.len(),
                i < n,
                p <= order.len(),
                o == order@.map_values(|x: usize| x as int),
                forall|j: int| 0 <= j < order.len() ==> 0 <= #[trigger] order@[j] < i,
                forall|j: int| p <= j < o.len() ==> !k.precedes(machines@[#[trigger] o[j]], machines@[i as int]),
            decreases p,
        {
            p = p - 1;
        }
        proof {
            lemma_placed_at(machines@, k, o, i as int, p as int);
        }
        order.insert(p, i);
        assert(order@.map_values(|x: usize| x as int) =~= o.insert(p as int, i as int));
        i = i + 1;
    }
    let mut out: Vec<Machine> = Vec::new();
    let mut j: usize = 0;
    while j < n
        invariant
            n == machines.len(),
            order.len() == n,
            j <= n,
            forall|t: int| 0 <= t < order.len() ==> 0 <= #[trigger] order@[t] < n,
            order@.map_values(|x: usize| x as int) == stable_order(machines@, k, n as nat),
            out.len() == j,
            forall|t: int| 0 <= t < j ==> out@[t] == machines@[order@[t] as int],
        decreases n - j,
    {
        out.push(machines[order[j]].clone());
        j = j + 1;
    }
    assert(out@ =~= sorted(machines@, k)) by {
        let o = order@.map_values(|x: usize| x as int);
        assert(forall|t: int| 0 <= t < n ==> o[t] == order@[t] as int);
    }
    out
}

/// The projection of a collection: filter, then stable sort.
pub fn project(collection: &Vec<Machine>, f: FilterCriteria, k: SortCriteria) -> (r: Vec<Machine>)
    ensures
        r@ == projection(collection@, f, k),
{
    sort_machines(filter_machines(collection, f), k)
}

} // verus!
