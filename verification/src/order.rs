//! Deterministic ordering: the stable sort the encoders use to list
//! repeated elements by their ordinal fields, and the stable ordering of
//! fetched collection pages. Sorted output is proved unique, which is
//! what makes rendered output independent of storage order.

use vstd::prelude::*;
use vstd::relations::sorted_by;
use vstd::relations::total_ordering;
use vstd::seq_lib::group_to_multiset_ensures;

use crate::model::Contribution;
use crate::model::Subject;
use crate::model::SubjectType;
use crate::model::Work;

verus! {

/// Sort key for one element of a repeated list: a primary and secondary
/// key, and the element's storage position as the final tiebreaker,
/// which makes the order total and the sort stable.
#[derive(Clone, Copy, Debug, PartialEq, Eq, Structural)]
pub struct SortKey {
    pub primary: u64,
    pub secondary: u128,
    pub position: usize,
}

/// Lexicographic order on (primary, secondary, position).
pub open spec fn key_le(a: SortKey, b: SortKey) -> bool {
    if a.primary != b.primary {
        a.primary < b.primary
    } else if a.secondary != b.secondary {
        a.secondary < b.secondary
    } else {
        a.position <= b.position
    }
}

/// The key order as a relation value, shared by every spec that sorts.
pub open spec fn key_leq_fn() -> spec_fn(SortKey, SortKey) -> bool {
    |a: SortKey, b: SortKey| key_le(a, b)
}

pub proof fn lemma_key_le_total()
    ensures
        total_ordering(key_leq_fn()),
{
    let r = key_leq_fn();
    assert forall|x: SortKey| #[trigger] r(x, x) by {
        assert(key_le(x, x));
    }
    assert forall|x: SortKey, y: SortKey| #[trigger] r(x, y) && #[trigger] r(y, x) implies x
        == y by {
        assert(key_le(x, y) && key_le(y, x));
    }
    assert forall|x: SortKey, y: SortKey, z: SortKey|
        #[trigger] r(x, y) && #[trigger] r(y, z) implies r(x, z) by {
        assert(key_le(x, y) && key_le(y, z));
        assert(key_le(x, z));
    }
    assert forall|x: SortKey, y: SortKey| #[trigger] r(x, y) || #[trigger] r(y, x) by {
        assert(key_le(x, y) || key_le(y, x));
    }
}

/// The canonical ascending ordering of a key sequence.
pub open spec fn spec_key_sort(s: Seq<SortKey>) -> Seq<SortKey> {
    s.sort_by(key_leq_fn())
}

/// A sorted sequence is determined by its multiset: two sorted
/// sequences over the same elements are the same sequence.
pub proof fn lemma_sorted_unique(s1: Seq<SortKey>, s2: Seq<SortKey>)
    requires
        sorted_by(s1, key_leq_fn()),
        sorted_by(s2, key_leq_fn()),
        s1.to_multiset() == s2.to_multiset(),
    ensures
        s1 == s2,
    decreases s1.len(),
{
    broadcast use group_to_multiset_ensures;

    let r = key_leq_fn();
    if s1.len() == 0 {
        assert(s1.to_multiset().len() == s1.len());
        assert(s2.to_multiset().len() == s2.len());
        assert(s2.len() == 0);
        assert(s1 =~= s2);
    } else {
        assert(s1.to_multiset().len() == s1.len());
        assert(s2.to_multiset().len() == s2.len());
        assert(s2.len() == s1.len());
        let a = s1[0];
        let b = s2[0];
        assert(s1.contains(a));
        assert(s2.to_multiset().count(a) > 0);
        assert(s2.contains(a));
        let ia = choose|i: int| 0 <= i < s2.len() && s2[i] == a;
        if ia > 0 {
            assert(r(s2[0], s2[ia]));
        }
        assert(key_le(b, a));
        assert(s2.contains(b));
        assert(s1.to_multiset().count(b) > 0);
        assert(s1.contains(b));
        let ib = choose|i: int| 0 <= i < s1.len() && s1[i] == b;
        if ib > 0 {
            assert(r(s1[0], s1[ib]));
        }
        assert(key_le(a, b));
        assert(a == b);
        let t1 = s1.drop_first();
        let t2 = s2.drop_first();
        assert(t1 =~= s1.remove(0));
        assert(t2 =~= s2.remove(0));
        assert(t1.to_multiset() =~= s1.to_multiset().remove(a));
        assert(t2.to_multiset() =~= s2.to_multiset().remove(a));
        assert forall|i: int, j: int| 0 <= i < j < t1.len() implies #[trigger] r(t1[i], t1[j]) by {
            assert(r(s1[i + 1], s1[j + 1]));
        }
        assert forall|i: int, j: int| 0 <= i < j < t2.len() implies #[trigger] r(t2[i], t2[j]) by {
            assert(r(s2[i + 1], s2[j + 1]));
        }
        lemma_sorted_unique(t1, t2);
        assert forall|i: int| 0 <= i < s1.len() implies s1[i] == s2[i] by {
            if i == 0 {
                assert(s1[0] == a && s2[0] == b);
            } else {
                assert(s1[i] == t1[i - 1]);
                assert(s2[i] == t2[i - 1]);
                assert(t1[i - 1] == t2[i - 1]);
            }
        }
        assert(s1 =~= s2);
    }
}

fn key_le_exec(a: &SortKey, b: &SortKey) -> (r: bool)
    ensures
        r == key_le(*a, *b),
{
    if a.primary != b.primary {
        a.primary < b.primary
    } else if a.secondary != b.secondary {
        a.secondary < b.secondary
    } else {
        a.position <= b.position
    }
}

/// Sorts a key sequence into its unique ascending order.
pub fn sort_keys(keys: &Vec<SortKey>) -> (r: Vec<SortKey>)
    ensures
        r@ == spec_key_sort(keys@),
        r@.len() == keys@.len(),
{
    broadcast use group_to_multiset_ensures;

    let mut out: Vec<SortKey> = Vec::new();
    let mut i: usize = 0;
    while i < keys.len()
        invariant
            i <= keys.len(),
            sorted_by(out@, key_leq_fn()),
            out@.to_multiset() == keys@.take(i as int).to_multiset(),
        decreases keys.len() - i,
    {
        broadcast use group_to_multiset_ensures;

        let x = keys[i];
        let mut j: usize = 0;
        while j < out.len() && key_le_exec(&out[j], &x)
            invariant
                j <= out@.len(),
                forall|k: int| 0 <= k < j ==> key_le(out@[k], x),
            decreases out.len() - j,
        {
            j += 1;
        }
        let ghost prev = out@;
        out.insert(j, x);
        let ghost t = out@;
        proof {
            let r = key_leq_fn();
            // each element before the insertion point is <= x, each at or
            // after it is >= x
            assert(t =~= prev.insert(j as int, x));
            assert forall|p: int, q: int| 0 <= p < q < t.len() implies #[trigger] r(t[p], t[q]) by {
                if q < j {
                    assert(r(prev[p], prev[q]));
                } else if p > j {
                    assert(t[p] == prev[p - 1] && t[q] == prev[q - 1]);
                    assert(r(prev[p - 1], prev[q - 1]));
                } else if p < j && q == j {
                    assert(t[p] == prev[p] && t[q] == x);
                    assert(key_le(prev[p], x));
                } else if p == j {
                    assert(t[p] == x && t[q] == prev[q - 1]);
                    if j < prev.len() {
                        assert(!key_le(prev[j as int], x));
                        assert(key_le(x, prev[j as int]));
                        if q - 1 > j {
                            assert(r(prev[j as int], prev[q - 1]));
                        }
                        assert(key_le(x, prev[q - 1]));
                    }
                } else {
                    assert(p < j && q > j);
                    assert(t[p] == prev[p] && t[q] == prev[q - 1]);
                    assert(key_le(prev[p], x));
                    if j < prev.len() {
                        assert(!key_le(prev[j as int], x));
                        assert(key_le(x, prev[j as int]));
                        if q - 1 > j {
                            assert(r(prev[j as int], prev[q - 1]));
                        }
                        assert(key_le(x, prev[q - 1]));
                    }
                    assert(key_le(prev[p], prev[q - 1]));
                }
            }
            // the multiset gains exactly x
            assert(t.remove(j as int) =~= prev);
            assert(t[j as int] == x);
            assert(t.remove(j as int).to_multiset() =~= t.to_multiset().remove(x));
            assert(t.contains(x));
            assert(t.to_multiset().count(x) > 0);
            assert forall|y: SortKey|
                t.to_multiset().count(y) == prev.to_multiset().insert(x).count(y) by {
                if y == x {
                    assert(prev.to_multiset().count(x) == t.to_multiset().count(x) - 1);
                } else {
                    assert(prev.to_multiset().count(y) == t.to_multiset().count(y));
                }
            }
            assert(t.to_multiset() =~= prev.to_multiset().insert(x));
            assert(keys@.take(i + 1 as int) =~= keys@.take(i as int).push(keys@[i as int]));
        }
        i += 1;
    }
    proof {
        assert(keys@.take(keys@.len() as int) =~= keys@);
        lemma_key_le_total();
        keys@.lemma_sort_by_ensures(key_leq_fn());
        lemma_sorted_unique(out@, spec_key_sort(keys@));
        assert(out@.len() == out@.to_multiset().len());
        assert(keys@.len() == keys@.to_multiset().len());
    }
    out
}

/// The sorted order of a key sequence keeps every position in range.
pub proof fn lemma_key_sort_positions(s: Seq<SortKey>, bound: int)
    requires
        forall|i: int| 0 <= i < s.len() ==> (#[trigger] s[i]).position < bound,
    ensures
        forall|k: int|
            0 <= k < spec_key_sort(s).len() ==> (#[trigger] spec_key_sort(s)[k]).position < bound,
{
    lemma_key_le_total();
    s.lemma_sort_by_ensures(key_leq_fn());
    let t = spec_key_sort(s);
    assert forall|k: int| 0 <= k < t.len() implies (#[trigger] t[k]).position < bound by {
        let x = t[k];
        assert(t.contains(x));
        assert(s.contains(x));
        let i = choose|i: int| 0 <= i < s.len() && s[i] == x;
        assert(s[i].position < bound);
    }
}

/// Whether some key in the sequence carries the given position.
pub open spec fn covers_position(ks: Seq<SortKey>, p: int) -> bool {
    exists|k: int| 0 <= k < ks.len() && (#[trigger] ks[k]).position == p
}

/// Reading a sequence through a set of keys whose positions are a
/// permutation of its indices yields the same elements: the multiset is
/// unchanged.
pub proof fn lemma_mapped_multiset<T>(s: Seq<T>, ks: Seq<SortKey>)
    requires
        ks.len() == s.len(),
        forall|k: int| 0 <= k < ks.len() ==> (#[trigger] ks[k]).position < s.len(),
        forall|k1: int, k2: int|
            #![trigger ks[k1], ks[k2]]
            0 <= k1 < k2 < ks.len() ==> ks[k1].position != ks[k2].position,
        forall|p: int| 0 <= p < s.len() ==> #[trigger] covers_position(ks, p),
    ensures
        Seq::new(ks.len(), |k: int| s[ks[k].position as int]).to_multiset() == s.to_multiset(),
    decreases s.len(),
{
    broadcast use group_to_multiset_ensures;

    let mapped = Seq::new(ks.len(), |k: int| s[ks[k].position as int]);
    if s.len() == 0 {
        assert(mapped.to_multiset() =~= s.to_multiset());
    } else {
        let n = s.len() as int;
        assert(covers_position(ks, n - 1));
        let kstar = choose|k: int| 0 <= k < ks.len() && (#[trigger] ks[k]).position == n - 1;
        let ks2 = ks.remove(kstar);
        let s2 = s.drop_last();
        assert(ks2.len() == s2.len());
        assert forall|k: int| 0 <= k < ks2.len() implies (#[trigger] ks2[k]).position
            < s2.len() by {
            if k < kstar {
                assert(ks2[k] == ks[k]);
                assert(ks[k].position != n - 1);
            } else {
                assert(ks2[k] == ks[k + 1]);
                assert(ks[k + 1].position != n - 1);
            }
        }
        assert forall|k1: int, k2: int| 0 <= k1 < k2 < ks2.len() implies ks2[k1].position
            != ks2[k2].position by {
            let j1 = if k1 < kstar {
                k1
            } else {
                k1 + 1
            };
            let j2 = if k2 < kstar {
                k2
            } else {
                k2 + 1
            };
            assert(ks2[k1] == ks[j1] && ks2[k2] == ks[j2]);
            assert(j1 < j2);
        }
        assert forall|p: int| 0 <= p < s2.len() implies #[trigger] covers_position(
            ks2,
            p,
        ) by {
            assert(covers_position(ks, p));
            let k = choose|k: int| 0 <= k < ks.len() && (#[trigger] ks[k]).position == p;
            if k < kstar {
                assert(ks2[k] == ks[k]);
                assert(0 <= k < ks2.len() && ks2[k].position == p);
            } else {
                assert(k != kstar);
                assert(ks2[k - 1] == ks[k]);
                assert(0 <= k - 1 < ks2.len() && ks2[k - 1].position == p);
            }
        }
        lemma_mapped_multiset(s2, ks2);
        let mapped2 = Seq::new(ks2.len(), |k: int| s2[ks2[k].position as int]);
        assert forall|k: int| 0 <= k < mapped2.len() implies mapped2[k] == mapped.remove(
            kstar,
        )[k] by {
            if k < kstar {
                assert(ks2[k] == ks[k]);
                assert(ks[k].position < n - 1);
            } else {
                assert(ks2[k] == ks[k + 1]);
                assert(ks[k + 1].position < n - 1);
            }
        }
        assert(mapped2 =~= mapped.remove(kstar));
        assert(mapped.remove(kstar).to_multiset() =~= mapped.to_multiset().remove(
            mapped[kstar],
        ));
        assert(mapped[kstar] == s[n - 1]);
        assert(mapped.contains(mapped[kstar]));
        assert(mapped.to_multiset().count(s[n - 1]) > 0);
        assert forall|y: T|
            mapped.to_multiset().count(y) == mapped2.to_multiset().insert(s[n - 1]).count(
                y,
            ) by {
            if y == s[n - 1] {
                assert(mapped2.to_multiset().count(y) == mapped.to_multiset().count(y) - 1);
            } else {
                assert(mapped2.to_multiset().count(y) == mapped.to_multiset().count(y));
            }
        }
        assert(mapped.to_multiset() =~= mapped2.to_multiset().insert(s[n - 1]));
        assert(s2.push(s.last()) =~= s);
        assert(s.to_multiset() =~= s2.to_multiset().insert(s.last()));
        assert(mapped.to_multiset() =~= s.to_multiset());
    }
}

/// The sort keys of a contribution list: the ordinal first, storage
/// position as tiebreaker.
pub open spec fn contribution_keys(s: Seq<Contribution>) -> Seq<SortKey> {
    Seq::new(
        s.len(),
        |i: int| SortKey { primary: s[i].ordinal as u64, secondary: 0, position: i as usize },
    )
}

/// The order contributions are listed in: ascending ordinal, ties by
/// storage position. Returns the sorted keys; `position` indexes back
/// into the list.
pub fn contribution_order(contribs: &Vec<Contribution>) -> (r: Vec<SortKey>)
    ensures
        r@ == spec_key_sort(contribution_keys(contribs@)),
        r@.len() == contribs@.len(),
        forall|k: int| 0 <= k < r@.len() ==> (#[trigger] r@[k]).position < contribs@.len(),
{
    let mut keys: Vec<SortKey> = Vec::new();
    let mut i: usize = 0;
    while i < contribs.len()
        invariant
            i <= contribs@.len(),
            keys@.len() == i,
            forall|k: int| 0 <= k < i ==> keys@[k] == contribution_keys(contribs@)[k],
        decreases contribs.len() - i,
    {
        keys.push(SortKey { primary: contribs[i].ordinal as u64, secondary: 0, position: i });
        i += 1;
    }
    proof {
        assert(keys@ =~= contribution_keys(contribs@));
        lemma_key_sort_positions(keys@, contribs@.len() as int);
    }
    sort_keys(&keys)
}

/// Rank of a subject scheme, fixing the order schemes are listed in.
pub open spec fn subject_rank(t: SubjectType) -> int {
    match t {
        SubjectType::Bic => 0,
        SubjectType::Bisac => 1,
        SubjectType::Thema => 2,
        SubjectType::Lcc => 3,
        SubjectType::Custom => 4,
        SubjectType::Keyword => 5,
    }
}

/// The sort keys of a subject list: scheme rank then ordinal in one
/// primary key, storage position as tiebreaker.
pub open spec fn subject_keys(s: Seq<Subject>) -> Seq<SortKey> {
    Seq::new(
        s.len(),
        |i: int|
            SortKey {
                primary: (subject_rank(s[i].subject_type) * 0x100000000 + s[i].ordinal as int)
                    as u64,
                secondary: 0,
                position: i as usize,
            },
    )
}

fn subject_rank_exec(t: SubjectType) -> (r: u64)
    ensures
        r == subject_rank(t),
{
    match t {
        SubjectType::Bic => 0,
        SubjectType::Bisac => 1,
        SubjectType::Thema => 2,
        SubjectType::Lcc => 3,
        SubjectType::Custom => 4,
        SubjectType::Keyword => 5,
    }
}

/// The order subjects are listed in: by scheme, then ordinal, ties by
/// storage position.
pub fn subject_order(subjects: &Vec<Subject>) -> (r: Vec<SortKey>)
    ensures
        r@ == spec_key_sort(subject_keys(subjects@)),
        r@.len() == subjects@.len(),
        forall|k: int| 0 <= k < r@.len() ==> (#[trigger] r@[k]).position < subjects@.len(),
{
    let mut keys: Vec<SortKey> = Vec::new();
    let mut i: usize = 0;
    while i < subjects.len()
        invariant
            i <= subjects@.len(),
            keys@.len() == i,
            forall|k: int| 0 <= k < i ==> keys@[k] == subject_keys(subjects@)[k],
        decreases subjects.len() - i,
    {
        let rank = subject_rank_exec(subjects[i].subject_type);
        keys.push(
            SortKey {
                primary: rank * 0x100000000 + subjects[i].ordinal as u64,
                secondary: 0,
                position: i,
            },
        );
        i += 1;
    }
    proof {
        assert(keys@ =~= subject_keys(subjects@));
        lemma_key_sort_positions(keys@, subjects@.len() as int);
    }
    sort_keys(&keys)
}

/// The stable order of a fetched collection page: last-update timestamp
/// first, then work identity, which makes pagination deterministic.
pub open spec fn work_le(a: Work, b: Work) -> bool {
    if a.updated_at != b.updated_at {
        a.updated_at < b.updated_at
    } else {
        a.work_id <= b.work_id
    }
}

/// The page order as a relation value.
pub open spec fn work_leq_fn() -> spec_fn(Work, Work) -> bool {
    |a: Work, b: Work| work_le(a, b)
}

fn work_le_exec(a: &Work, b: &Work) -> (r: bool)
    ensures
        r == work_le(*a, *b),
{
    if a.updated_at != b.updated_at {
        a.updated_at < b.updated_at
    } else {
        a.work_id <= b.work_id
    }
}

/// No two works of the sequence share an identity.
pub open spec fn distinct_ids(s: Seq<Work>) -> bool {
    forall|i: int, j: int| 0 <= i < j < s.len() ==> s[i].work_id != s[j].work_id
}

/// Orders a fetched page by (last-update timestamp, identity).
pub fn order_page(works: Vec<Work>) -> (r: Vec<Work>)
    ensures
        r@.to_multiset() == works@.to_multiset(),
        sorted_by(r@, work_leq_fn()),
{
    broadcast use group_to_multiset_ensures;

    let ghost orig = works@;
    let mut rem = works;
    let mut out: Vec<Work> = Vec::new();
    proof {
        assert(out@.to_multiset().add(rem@.to_multiset()) =~= orig.to_multiset());
    }
    while rem.len() > 0
        invariant
            out@.to_multiset().add(rem@.to_multiset()) == orig.to_multiset(),
            sorted_by(out@, work_leq_fn()),
            forall|p: int, q: int|
                0 <= p < out@.len() && 0 <= q < rem@.len() ==> work_le(
                    #[trigger] out@[p],
                    #[trigger] rem@[q],
                ),
        decreases rem.len(),
    {
        broadcast use group_to_multiset_ensures;

        let mut m: usize = 0;
        let mut k: usize = 1;
        while k < rem.len()
            invariant
                m < k,
                k <= rem@.len(),
                m < rem@.len(),
                forall|t: int| 0 <= t < k ==> work_le(rem@[m as int], #[trigger] rem@[t]),
            decreases rem.len() - k,
        {
            if !work_le_exec(&rem[m], &rem[k]) {
                proof {
                    assert(work_le(rem@[k as int], rem@[m as int]));
                    assert forall|t: int| 0 <= t < k + 1 implies work_le(
                        rem@[k as int],
                        #[trigger] rem@[t],
                    ) by {
                        assert(work_le(rem@[m as int], rem@[t]) || t == k);
                    }
                }
                m = k;
            }
            k += 1;
        }
        let ghost prev_rem = rem@;
        let ghost prev_out = out@;
        let ghost w = rem@[m as int];
        let x = rem.remove(m);
        out.push(x);
        proof {
            let r = work_leq_fn();
            // sortedness: everything already in place is <= the removed
            // minimum
            assert forall|p: int, q: int| 0 <= p < q < out@.len() implies #[trigger] r(
                out@[p],
                out@[q],
            ) by {
                if q == out@.len() - 1 {
                    assert(out@[q] == w);
                    assert(work_le(prev_out[p], prev_rem[m as int]));
                } else {
                    assert(r(prev_out[p], prev_out[q]));
                }
            }
            // the minimum is <= every element left
            assert forall|p: int, q: int|
                0 <= p < out@.len() && 0 <= q < rem@.len() implies work_le(
                #[trigger] out@[p],
                #[trigger] rem@[q],
            ) by {
                let y = if q < m { prev_rem[q] } else { prev_rem[q + 1] };
                assert(rem@[q] == y);
                assert(work_le(w, y));
                if p < out@.len() - 1 {
                    assert(work_le(prev_out[p], y));
                } else {
                    assert(out@[p] == w);
                }
            }
            // multiset bookkeeping: one element moved across
            assert(prev_rem.remove(m as int).to_multiset() =~= prev_rem.to_multiset().remove(w));
            assert(prev_rem.contains(w));
            assert(prev_rem.to_multiset().count(w) > 0);
            assert(out@.to_multiset() =~= prev_out.to_multiset().insert(w));
            assert forall|y: Work|
                out@.to_multiset().add(rem@.to_multiset()).count(y) == orig.to_multiset().count(
                    y,
                ) by {
                assert(prev_out.to_multiset().add(prev_rem.to_multiset()).count(y)
                    == orig.to_multiset().count(y));
            }
            assert(out@.to_multiset().add(rem@.to_multiset()) =~= orig.to_multiset());
        }
    }
    proof {
        assert(rem@.to_multiset().len() == rem@.len());
        assert(out@.to_multiset().add(rem@.to_multiset()) =~= out@.to_multiset());
    }
    out
}

/// Pagination determinism: over a page without repeated identities
/// there is exactly one ordering by (timestamp, identity); two sorted
/// arrangements of the same works are the same sequence.
pub proof fn lemma_page_order_unique(s1: Seq<Work>, s2: Seq<Work>)
    requires
        sorted_by(s1, work_leq_fn()),
        sorted_by(s2, work_leq_fn()),
        s1.to_multiset() == s2.to_multiset(),
        distinct_ids(s1),
    ensures
        s1 == s2,
    decreases s1.len(),
{
    broadcast use group_to_multiset_ensures;

    let r = work_leq_fn();
    if s1.len() == 0 {
        assert(s1.to_multiset().len() == s1.len());
        assert(s2.to_multiset().len() == s2.len());
        assert(s2.len() == 0);
        assert(s1 =~= s2);
    } else {
        assert(s1.to_multiset().len() == s1.len());
        assert(s2.to_multiset().len() == s2.len());
        assert(s2.len() == s1.len());
        let a = s1[0];
        let b = s2[0];
        assert(s1.contains(a));
        assert(s2.to_multiset().count(a) > 0);
        assert(s2.contains(a));
        let ia = choose|i: int| 0 <= i < s2.len() && s2[i] == a;
        if ia > 0 {
            assert(r(s2[0], s2[ia]));
        }
        assert(work_le(b, a));
        assert(s2.contains(b));
        assert(s1.to_multiset().count(b) > 0);
        assert(s1.contains(b));
        let ib = choose|i: int| 0 <= i < s1.len() && s1[i] == b;
        if ib > 0 {
            assert(r(s1[0], s1[ib]));
        }
        assert(work_le(a, b));
        // both orders hold, so timestamps and identities agree; the
        // page has no repeated identity, so it is the same work
        assert(a.work_id == b.work_id && a.updated_at == b.updated_at);
        if ib > 0 {
            assert(s1[0].work_id != s1[ib].work_id);
            assert(false);
        }
        assert(a == b);
        let t1 = s1.drop_first();
        let t2 = s2.drop_first();
        assert(t1 =~= s1.remove(0));
        assert(t2 =~= s2.remove(0));
        assert(t1.to_multiset() =~= s1.to_multiset().remove(a));
        assert(t2.to_multiset() =~= s2.to_multiset().remove(a));
        assert forall|i: int, j: int| 0 <= i < j < t1.len() implies #[trigger] r(t1[i], t1[j]) by {
            assert(r(s1[i + 1], s1[j + 1]));
        }
        assert forall|i: int, j: int| 0 <= i < j < t2.len() implies #[trigger] r(t2[i], t2[j]) by {
            assert(r(s2[i + 1], s2[j + 1]));
        }
        assert forall|i: int, j: int| 0 <= i < j < t1.len() implies t1[i].work_id
            != t1[j].work_id by {
            assert(s1[i + 1].work_id != s1[j + 1].work_id);
        }
        lemma_page_order_unique(t1, t2);
        assert forall|i: int| 0 <= i < s1.len() implies s1[i] == s2[i] by {
            if i == 0 {
                assert(s1[0] == a && s2[0] == b);
            } else {
                assert(s1[i] == t1[i - 1]);
                assert(s2[i] == t2[i - 1]);
                assert(t1[i - 1] == t2[i - 1]);
            }
        }
        assert(s1 =~= s2);
    }
}

} // verus!
