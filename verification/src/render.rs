//! Shared rendering pieces the encoders build on: date renderings, the
//! ordinal-sorted view of the contribution list, name collection and
//! joining, and the ISBN of the first matching publication.

use vstd::prelude::*;
use vstd::string::*;

use crate::model::Contribution;
use crate::model::ContributionRole;
use crate::model::Date;
use crate::model::Publication;
use crate::model::PublicationFormat;
use crate::order::contribution_keys;
use crate::order::contribution_order;
use crate::order::spec_key_sort;
use crate::text::spec_dec2;
use crate::text::spec_dec4;
use crate::text::dec2;
use crate::text::dec4;

verus! {

/// A date in its dashed form: year, month, day, zero padded.
pub open spec fn spec_date_iso(d: Date) -> Seq<char> {
    spec_dec4(d.year as nat) + seq!['-'] + spec_dec2(d.month as nat) + seq!['-'] + spec_dec2(
        d.day as nat,
    )
}

/// Renders a date in its dashed form.
pub fn date_iso(d: &Date) -> (r: String)
    requires
        d.wf(),
    ensures
        r@ == spec_date_iso(*d),
{
    let mut s = dec4(d.year as u64);
    s.append("-");
    let m = dec2(d.month as u64);
    s.append(m.as_str());
    s.append("-");
    let day = dec2(d.day as u64);
    s.append(day.as_str());
    proof {
        reveal_strlit("-");
        assert(("-")@ =~= seq!['-']);
        assert(s@ =~= spec_date_iso(*d));
    }
    s
}

/// A date in its compact form: eight digits, year first.
pub open spec fn spec_date_compact(d: Date) -> Seq<char> {
    spec_dec4(d.year as nat) + spec_dec2(d.month as nat) + spec_dec2(d.day as nat)
}

/// Renders a date in its compact form.
pub fn date_compact(d: &Date) -> (r: String)
    requires
        d.wf(),
    ensures
        r@ == spec_date_compact(*d),
{
    let mut s = dec4(d.year as u64);
    let m = dec2(d.month as u64);
    s.append(m.as_str());
    let day = dec2(d.day as u64);
    s.append(day.as_str());
    proof {
        assert(s@ =~= spec_date_compact(*d));
    }
    s
}

/// The contribution list in the order it is serialized: ascending
/// ordinal, storage order breaking ties.
pub open spec fn spec_mapped_contribs(s: Seq<Contribution>) -> Seq<Contribution> {
    let ks = spec_key_sort(contribution_keys(s));
    Seq::new(ks.len(), |k: int| s[ks[k].position as int])
}

/// The subject list in the order it is serialized: by scheme, then
/// ordinal, storage order breaking ties.
pub open spec fn spec_mapped_subjects(s: Seq<crate::model::Subject>) -> Seq<crate::model::Subject> {
    let ks = spec_key_sort(crate::order::subject_keys(s));
    Seq::new(ks.len(), |k: int| s[ks[k].position as int])
}

/// The name of each contribution, serialization order.
pub open spec fn spec_names(s: Seq<Contribution>) -> Seq<Seq<char>> {
    Seq::new(s.len(), |i: int| s[i].full_name@)
}

/// The name of each author-role contribution, serialization order kept.
pub open spec fn spec_author_names(s: Seq<Contribution>) -> Seq<Seq<char>>
    decreases s.len(),
{
    if s.len() == 0 {
        Seq::empty()
    } else {
        (if s[0].role == ContributionRole::Author {
            seq![s[0].full_name@]
        } else {
            Seq::empty()
        }) + spec_author_names(s.drop_first())
    }
}

proof fn lemma_author_names_app(s1: Seq<Contribution>, s2: Seq<Contribution>)
    ensures
        spec_author_names(s1 + s2) == spec_author_names(s1) + spec_author_names(s2),
    decreases s1.len(),
{
    if s1.len() == 0 {
        assert(s1 + s2 =~= s2);
        assert(spec_author_names(s1) + spec_author_names(s2) =~= spec_author_names(s2));
    } else {
        lemma_author_names_app(s1.drop_first(), s2);
        assert((s1 + s2).drop_first() =~= s1.drop_first() + s2);
        assert(spec_author_names(s1 + s2) =~= spec_author_names(s1) + spec_author_names(s2));
    }
}

proof fn lemma_author_names_snoc(s: Seq<Contribution>, i: int)
    requires
        0 <= i < s.len(),
    ensures
        spec_author_names(s.take(i + 1)) == spec_author_names(s.take(i)) + (if s[i].role
            == ContributionRole::Author {
            seq![s[i].full_name@]
        } else {
            Seq::<Seq<char>>::empty()
        }),
{
    let single = seq![s[i]];
    assert(s.take(i + 1) =~= s.take(i) + single);
    lemma_author_names_app(s.take(i), single);
    assert(single.drop_first() =~= Seq::<Contribution>::empty());
    let head: Seq<Seq<char>> = if s[i].role == ContributionRole::Author {
        seq![s[i].full_name@]
    } else {
        Seq::empty()
    };
    assert(spec_author_names(single) == head + spec_author_names(single.drop_first()));
    assert(spec_author_names(single.drop_first()) == Seq::<Seq<char>>::empty());
    assert(head + Seq::<Seq<char>>::empty() =~= head);
}

/// The views of a list of owned strings.
pub open spec fn views_of(names: Seq<String>) -> Seq<Seq<char>> {
    Seq::new(names.len(), |i: int| names[i]@)
}

/// Collects the contribution names in serialization order.
pub fn collect_names(contribs: &Vec<Contribution>) -> (r: Vec<String>)
    ensures
        views_of(r@) == spec_names(spec_mapped_contribs(contribs@)),
{
    let ord = contribution_order(contribs);
    let ghost mapped = spec_mapped_contribs(contribs@);
    let mut out: Vec<String> = Vec::new();
    let mut k: usize = 0;
    while k < ord.len()
        invariant
            k <= ord@.len(),
            ord@ == spec_key_sort(contribution_keys(contribs@)),
            forall|t: int| 0 <= t < ord@.len() ==> (#[trigger] ord@[t]).position < contribs@.len(),
            mapped == spec_mapped_contribs(contribs@),
            out@.len() == k,
            forall|t: int| 0 <= t < k ==> (#[trigger] out@[t])@ == mapped[t].full_name@,
        decreases ord.len() - k,
    {
        let pos = ord[k].position;
        out.push(contribs[pos].full_name.clone());
        proof {
            assert(mapped[k as int] == contribs@[ord@[k as int].position as int]);
        }
        k += 1;
    }
    proof {
        assert(mapped.len() == ord@.len());
        assert(views_of(out@) =~= spec_names(mapped));
    }
    out
}

/// Collects the author-role contribution names in serialization order.
pub fn collect_author_names(contribs: &Vec<Contribution>) -> (r: Vec<String>)
    ensures
        views_of(r@) == spec_author_names(spec_mapped_contribs(contribs@)),
{
    let ord = contribution_order(contribs);
    let ghost mapped = spec_mapped_contribs(contribs@);
    let mut out: Vec<String> = Vec::new();
    let mut k: usize = 0;
    while k < ord.len()
        invariant
            k <= ord@.len(),
            ord@ == spec_key_sort(contribution_keys(contribs@)),
            forall|t: int| 0 <= t < ord@.len() ==> (#[trigger] ord@[t]).position < contribs@.len(),
            mapped == spec_mapped_contribs(contribs@),
            views_of(out@) == spec_author_names(mapped.take(k as int)),
        decreases ord.len() - k,
    {
        let pos = ord[k].position;
        proof {
            assert(mapped[k as int] == contribs@[ord@[k as int].position as int]);
            lemma_author_names_snoc(mapped, k as int);
        }
        if contribs[pos].role == ContributionRole::Author {
            out.push(contribs[pos].full_name.clone());
            proof {
                assert(views_of(out@) =~= spec_author_names(mapped.take(k as int + 1)));
            }
        } else {
            proof {
                assert(views_of(out@) =~= spec_author_names(mapped.take(k as int + 1)));
            }
        }
        k += 1;
    }
    proof {
        assert(mapped.take(mapped.len() as int) =~= mapped);
        assert(mapped.len() == ord@.len());
    }
    out
}

/// Parts joined with a separator between neighbours.
pub open spec fn spec_join(parts: Seq<Seq<char>>, sep: Seq<char>) -> Seq<char>
    decreases parts.len(),
{
    if parts.len() == 0 {
        Seq::empty()
    } else if parts.len() == 1 {
        parts[0]
    } else {
        spec_join(parts.drop_last(), sep) + sep + parts.last()
    }
}

/// Joins owned strings with a separator.
pub fn join_with(parts: &Vec<String>, sep: &str) -> (r: String)
    ensures
        r@ == spec_join(views_of(parts@), sep@),
{
    let mut s = String::new();
    let mut k: usize = 0;
    while k < parts.len()
        invariant
            k <= parts@.len(),
            s@ == spec_join(views_of(parts@).take(k as int), sep@),
        decreases parts.len() - k,
    {
        if k > 0 {
            s.append(sep);
        }
        s.append(parts[k].as_str());
        proof {
            let vs = views_of(parts@);
            assert(vs.take(k as int + 1).drop_last() =~= vs.take(k as int));
            assert(vs.take(k as int + 1).last() == vs[k as int]);
            if k == 0 {
                assert(vs.take(1) =~= seq![vs[0]]);
                assert(s@ =~= spec_join(vs.take(k as int + 1), sep@));
            } else {
                assert(s@ =~= spec_join(vs.take(k as int + 1), sep@));
            }
        }
        k += 1;
    }
    proof {
        assert(views_of(parts@).take(parts@.len() as int) =~= views_of(parts@));
    }
    s
}

/// Order of two contributions by ordinal alone.
pub open spec fn contrib_ord_le(a: Contribution, b: Contribution) -> bool {
    a.ordinal <= b.ordinal
}

/// The ordinal order as a relation value.
pub open spec fn contrib_leq_fn() -> spec_fn(Contribution, Contribution) -> bool {
    |a: Contribution, b: Contribution| contrib_ord_le(a, b)
}

/// No two contributions of the sequence share an ordinal.
pub open spec fn distinct_ordinals(s: Seq<Contribution>) -> bool {
    forall|i: int, j: int| 0 <= i < j < s.len() ==> s[i].ordinal != s[j].ordinal
}

/// The serialization order of a contribution list keeps exactly its
/// elements and lists them by ascending ordinal.
pub proof fn lemma_mapped_props(s: Seq<Contribution>)
    requires
        s.len() <= usize::MAX,
    ensures
        spec_mapped_contribs(s).to_multiset() == s.to_multiset(),
        vstd::relations::sorted_by(spec_mapped_contribs(s), contrib_leq_fn()),
{
    broadcast use vstd::seq_lib::group_to_multiset_ensures;

    let keys = contribution_keys(s);
    let ks = spec_key_sort(keys);
    let mapped = spec_mapped_contribs(s);
    crate::order::lemma_key_le_total();
    keys.lemma_sort_by_ensures(crate::order::key_leq_fn());
    assert(ks.to_multiset().len() == ks.len());
    assert(keys.to_multiset().len() == keys.len());
    assert(ks.len() == s.len());
    // every sorted key is one of the original keys, so its position is
    // in range and its primary key is that element's ordinal
    assert forall|k: int| 0 <= k < ks.len() implies (#[trigger] ks[k]).position < s.len()
        && ks[k].primary == s[ks[k].position as int].ordinal by {
        assert(ks.contains(ks[k]));
        assert(keys.to_multiset().count(ks[k]) > 0);
        assert(keys.contains(ks[k]));
        let i = choose|i: int| 0 <= i < keys.len() && keys[i] == ks[k];
        assert(keys[i].position == i);
    }
    // the original keys have pairwise distinct positions, so no key
    // repeats, and neither does any sorted key
    assert forall|i: int, j: int|
        #![trigger keys[i], keys[j]]
        0 <= i < keys.len() && 0 <= j < keys.len() && i != j implies keys[i] != keys[j] by {
        assert(keys[i].position == i && keys[j].position == j);
    }
    keys.lemma_multiset_has_no_duplicates();
    ks.lemma_multiset_has_no_duplicates_conv();
    assert forall|k1: int, k2: int|
        #![trigger ks[k1], ks[k2]]
        0 <= k1 < k2 < ks.len() implies ks[k1].position != ks[k2].position by {
        if ks[k1].position == ks[k2].position {
            assert(ks.contains(ks[k1]) && ks.contains(ks[k2]));
            assert(keys.to_multiset().count(ks[k1]) > 0);
            assert(keys.to_multiset().count(ks[k2]) > 0);
            assert(keys.contains(ks[k1]) && keys.contains(ks[k2]));
            let i1 = choose|i: int| 0 <= i < keys.len() && keys[i] == ks[k1];
            let i2 = choose|i: int| 0 <= i < keys.len() && keys[i] == ks[k2];
            assert(keys[i1].position == i1 && keys[i2].position == i2);
            assert(i1 == ks[k1].position && i2 == ks[k2].position);
            assert(ks[k1] == ks[k2]);
        }
    }
    assert forall|p: int| 0 <= p < s.len() implies #[trigger] crate::order::covers_position(
        ks,
        p,
    ) by {
        assert(keys[p].position == p);
        assert(keys.contains(keys[p]));
        assert(ks.to_multiset().count(keys[p]) > 0);
        assert(ks.contains(keys[p]));
        let k = choose|k: int| 0 <= k < ks.len() && ks[k] == keys[p];
        assert(0 <= k < ks.len() && ks[k].position == p);
    }
    crate::order::lemma_mapped_multiset(s, ks);
    assert(mapped =~= Seq::new(ks.len(), |k: int| s[ks[k].position as int]));
    assert(mapped.to_multiset() == s.to_multiset());
    let r = contrib_leq_fn();
    assert forall|i: int, j: int| 0 <= i < j < mapped.len() implies #[trigger] r(
        mapped[i],
        mapped[j],
    ) by {
        let kr = crate::order::key_leq_fn();
        assert(kr(ks[i], ks[j]));
        assert(crate::order::key_le(ks[i], ks[j]));
        assert(mapped[i].ordinal == ks[i].primary && mapped[j].ordinal == ks[j].primary);
    }
}

/// Two ordinal-sorted arrangements of the same contributions are the
/// same sequence, when no ordinal repeats.
pub proof fn lemma_contribs_sorted_unique(s1: Seq<Contribution>, s2: Seq<Contribution>)
    requires
        vstd::relations::sorted_by(s1, contrib_leq_fn()),
        vstd::relations::sorted_by(s2, contrib_leq_fn()),
        s1.to_multiset() == s2.to_multiset(),
        distinct_ordinals(s1),
    ensures
        s1 == s2,
    decreases s1.len(),
{
    broadcast use vstd::seq_lib::group_to_multiset_ensures;

    let r = contrib_leq_fn();
    if s1.len() == 0 {
        assert(s1.to_multiset().len() == s1.len());
        assert(s2.to_multiset().len() == s2.len());
        assert(s2.len() == 0);
        assert(s1 =~= s2);
    } else {
        assert(s1.to_multiset().len() == s1.len());
        assert(s2.to_multiset().len() == s2.len());
        assert(s2.len() == s1.len());
        let a = s1[0];
        let b = s2[0];
        assert(s1.contains(a));
        assert(s2.to_multiset().count(a) > 0);
        assert(s2.contains(a));
        let ia = choose|i: int| 0 <= i < s2.len() && s2[i] == a;
        if ia > 0 {
            assert(r(s2[0], s2[ia]));
        }
        assert(contrib_ord_le(b, a));
        assert(s2.contains(b));
        assert(s1.to_multiset().count(b) > 0);
        assert(s1.contains(b));
        let ib = choose|i: int| 0 <= i < s1.len() && s1[i] == b;
        if ib > 0 {
            assert(r(s1[0], s1[ib]));
        }
        assert(contrib_ord_le(a, b));
        assert(a.ordinal == b.ordinal);
        if ib > 0 {
            assert(s1[0].ordinal != s1[ib].ordinal);
            assert(false);
        }
        assert(a == b);
        let t1 = s1.drop_first();
        let t2 = s2.drop_first();
        assert(t1 =~= s1.remove(0));
        assert(t2 =~= s2.remove(0));
        assert(t1.to_multiset() =~= s1.to_multiset().remove(a));
        assert(t2.to_multiset() =~= s2.to_multiset().remove(a));
        assert forall|i: int, j: int| 0 <= i < j < t1.len() implies #[trigger] r(t1[i], t1[j]) by {
            assert(r(s1[i + 1], s1[j + 1]));
        }
        assert forall|i: int, j: int| 0 <= i < j < t2.len() implies #[trigger] r(t2[i], t2[j]) by {
            assert(r(s2[i + 1], s2[j + 1]));
        }
        assert forall|i: int, j: int| 0 <= i < j < t1.len() implies t1[i].ordinal
            != t1[j].ordinal by {
            assert(s1[i + 1].ordinal != s1[j + 1].ordinal);
        }
        lemma_contribs_sorted_unique(t1, t2);
        assert forall|i: int| 0 <= i < s1.len() implies s1[i] == s2[i] by {
            if i == 0 {
                assert(s1[0] == a && s2[0] == b);
            } else {
                assert(s1[i] == t1[i - 1]);
                assert(s2[i] == t2[i - 1]);
                assert(t1[i - 1] == t2[i - 1]);
            }
        }
        assert(s1 =~= s2);
    }
}

/// Ordering stability: when no ordinal repeats, the serialization
/// order of a contribution list depends only on which contributions it
/// holds, not on how they were stored.
pub proof fn lemma_ordering_stability(c1: Seq<Contribution>, c2: Seq<Contribution>)
    requires
        c1.len() <= usize::MAX,
        c1.to_multiset() == c2.to_multiset(),
        distinct_ordinals(c1),
    ensures
        spec_mapped_contribs(c1) == spec_mapped_contribs(c2),
{
    broadcast use vstd::seq_lib::group_to_multiset_ensures;

    assert(c1.to_multiset().len() == c1.len());
    assert(c2.to_multiset().len() == c2.len());
    lemma_mapped_props(c1);
    lemma_mapped_props(c2);
    let m1 = spec_mapped_contribs(c1);
    let m2 = spec_mapped_contribs(c2);
    // no ordinal repeats, so no contribution value repeats either, and
    // the ordinals of the serialized list are again pairwise distinct
    assert forall|i: int, j: int|
        #![trigger c1[i], c1[j]]
        0 <= i < c1.len() && 0 <= j < c1.len() && i != j implies c1[i] != c1[j] by {
        if i < j {
            assert(c1[i].ordinal != c1[j].ordinal);
        } else {
            assert(c1[j].ordinal != c1[i].ordinal);
        }
    }
    c1.lemma_multiset_has_no_duplicates();
    m1.lemma_multiset_has_no_duplicates_conv();
    assert forall|i: int, j: int| 0 <= i < j < m1.len() implies m1[i].ordinal != m1[j].ordinal by {
        assert(m1[i] != m1[j]);
        assert(m1.contains(m1[i]) && m1.contains(m1[j]));
        assert(c1.to_multiset().count(m1[i]) > 0);
        assert(c1.to_multiset().count(m1[j]) > 0);
        assert(c1.contains(m1[i]) && c1.contains(m1[j]));
        let p1 = choose|p: int| 0 <= p < c1.len() && c1[p] == m1[i];
        let p2 = choose|p: int| 0 <= p < c1.len() && c1[p] == m1[j];
        assert(p1 != p2);
        if p1 < p2 {
            assert(c1[p1].ordinal != c1[p2].ordinal);
        } else {
            assert(c1[p2].ordinal != c1[p1].ordinal);
        }
    }
    lemma_contribs_sorted_unique(m1, m2);
}

/// Whether a publication format is a physical (print) form.
pub open spec fn is_print_format(f: PublicationFormat) -> bool {
    f == PublicationFormat::Paperback || f == PublicationFormat::Hardback
}

/// The ISBN of the first publication matching the wanted form, print
/// or electronic, skipping publications without one.
pub open spec fn spec_first_isbn(s: Seq<Publication>, print: bool) -> Option<Seq<char>>
    decreases s.len(),
{
    if s.len() == 0 {
        None
    } else if is_print_format(s[0].format) == print && (s[0].isbn matches Some(i) && i@.len()
        > 0) {
        Some(s[0].isbn->Some_0@)
    } else {
        spec_first_isbn(s.drop_first(), print)
    }
}

/// Finds the ISBN of the first publication in the wanted form.
pub fn first_isbn(pubs: &Vec<Publication>, print: bool) -> (r: Option<String>)
    ensures
        match r {
            Some(s) => spec_first_isbn(pubs@, print) matches Some(v) && s@ == v,
            None => spec_first_isbn(pubs@, print) is None,
        },
{
    let mut i: usize = 0;
    proof {
        assert(pubs@.skip(0) =~= pubs@);
    }
    while i < pubs.len()
        invariant
            i <= pubs@.len(),
            spec_first_isbn(pubs@, print) == spec_first_isbn(pubs@.skip(i as int), print),
        decreases pubs.len() - i,
    {
        let matches_form = match pubs[i].format {
            PublicationFormat::Paperback | PublicationFormat::Hardback => print,
            _ => !print,
        };
        proof {
            assert(pubs@.skip(i as int)[0] == pubs@[i as int]);
            assert(pubs@.skip(i as int).drop_first() =~= pubs@.skip(i as int + 1));
        }
        if matches_form {
            match &pubs[i].isbn {
                Some(s) => {
                    if !s.as_str().is_empty() {
                        return Some(s.clone());
                    }
                },
                None => {},
            }
        }
        i += 1;
    }
    proof {
        assert(pubs@.skip(pubs@.len() as int) =~= Seq::<Publication>::empty());
    }
    None
}

} // verus!
