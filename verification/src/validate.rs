//! Per-dialect mandatory-field contracts: which canonical fields a
//! dialect requires, whether an aggregate satisfies them, and the exact
//! set of missing or invalid fields reported on failure.

use vstd::prelude::*;
use vstd::string::*;

use crate::dialect::Dialect;
use crate::dialect::FormatFamily;
use crate::error::Field;
use crate::model::ContributionRole;
use crate::model::Work;
use crate::model::WorkStatus;

verus! {

/// The mandatory-field set of a registered pair. The work identity is
/// structural (every aggregate carries one) and is not listed.
pub open spec fn spec_mandatory(family: FormatFamily, dialect: Dialect) -> Seq<Field> {
    match family {
        FormatFamily::Csv => seq![Field::Title],
        FormatFamily::Json => seq![Field::Title],
        FormatFamily::Kbart => seq![Field::Title, Field::Isbn],
        FormatFamily::Bibtex => seq![Field::Title, Field::AuthorContribution, Field::PublicationDate],
        FormatFamily::DoiDeposit => seq![Field::Title, Field::Doi, Field::AuthorContribution, Field::PublicationDate],
        FormatFamily::Onix3 => match dialect {
            Dialect::ProjectMuse | Dialect::Jstor | Dialect::Overdrive => seq![
                Field::Title,
                Field::Doi,
                Field::Isbn,
            ],
            Dialect::Oapen => seq![Field::Title, Field::Doi, Field::AuthorContribution],
            Dialect::GoogleBooks => seq![
                Field::Title,
                Field::Doi,
                Field::Isbn,
                Field::PublicationDate,
            ],
            _ => seq![Field::Title, Field::Doi],
        },
        FormatFamily::Onix21 => seq![Field::Title, Field::Doi, Field::Isbn],
        FormatFamily::Marc21Record => seq![Field::Title],
        FormatFamily::Marc21Markup => seq![Field::Title],
        FormatFamily::Marc21Xml => seq![Field::Title],
    }
}

/// Renders the mandatory-field set of a pair.
pub fn mandatory_fields(family: FormatFamily, dialect: Dialect) -> (r: Vec<Field>)
    ensures
        r@ == spec_mandatory(family, dialect),
{
    let mut v: Vec<Field> = Vec::new();
    match family {
        FormatFamily::Csv => {
            v.push(Field::Title);
        },
        FormatFamily::Json => {
            v.push(Field::Title);
        },
        FormatFamily::Kbart => {
            v.push(Field::Title);
            v.push(Field::Isbn);
        },
        FormatFamily::Bibtex => {
            v.push(Field::Title);
            v.push(Field::AuthorContribution);
            v.push(Field::PublicationDate);
        },
        FormatFamily::DoiDeposit => {
            v.push(Field::Title);
            v.push(Field::Doi);
            v.push(Field::AuthorContribution);
            v.push(Field::PublicationDate);
        },
        FormatFamily::Onix3 => {
            match dialect {
                Dialect::ProjectMuse | Dialect::Jstor | Dialect::Overdrive => {
                    v.push(Field::Title);
                    v.push(Field::Doi);
                    v.push(Field::Isbn);
                },
                Dialect::Oapen => {
                    v.push(Field::Title);
                    v.push(Field::Doi);
                    v.push(Field::AuthorContribution);
                },
                Dialect::GoogleBooks => {
                    v.push(Field::Title);
                    v.push(Field::Doi);
                    v.push(Field::Isbn);
                    v.push(Field::PublicationDate);
                },
                _ => {
                    v.push(Field::Title);
                    v.push(Field::Doi);
                },
            }
        },
        FormatFamily::Onix21 => {
            v.push(Field::Title);
            v.push(Field::Doi);
            v.push(Field::Isbn);
        },
        FormatFamily::Marc21Record => {
            v.push(Field::Title);
        },
        FormatFamily::Marc21Markup => {
            v.push(Field::Title);
        },
        FormatFamily::Marc21Xml => {
            v.push(Field::Title);
        },
    }
    proof {
        assert(v@ =~= spec_mandatory(family, dialect));
    }
    v
}

/// Whether the aggregate carries the field, in the sense the
/// mandatory-field contracts use: text fields non-empty, at least one
/// contribution in the author role, at least one publication with an
/// ISBN.
pub open spec fn field_present(w: Work, f: Field) -> bool {
    match f {
        Field::Title => w.title@.len() > 0,
        Field::Doi => w.doi matches Some(d) && d@.len() > 0,
        Field::PublicationDate => w.publication_date is Some,
        Field::AuthorContribution => exists|i: int|
            0 <= i < w.contributions@.len() && (#[trigger] w.contributions@[i]).role
                == ContributionRole::Author,
        Field::Isbn => exists|i: int|
            0 <= i < w.publications@.len() && ((#[trigger] w.publications@[i]).isbn matches Some(s)
                && s@.len() > 0),
        Field::WorkStatusCode => true,
    }
}

/// Checks presence of one field on the aggregate.
pub fn check_field(w: &Work, f: Field) -> (r: bool)
    ensures
        r == field_present(*w, f),
{
    match f {
        Field::Title => !w.title.as_str().is_empty(),
        Field::Doi => match &w.doi {
            Some(d) => !d.as_str().is_empty(),
            None => false,
        },
        Field::PublicationDate => w.publication_date.is_some(),
        Field::AuthorContribution => {
            let mut i: usize = 0;
            while i < w.contributions.len()
                invariant
                    f == Field::AuthorContribution,
                    i <= w.contributions@.len(),
                    forall|k: int|
                        0 <= k < i ==> (#[trigger] w.contributions@[k]).role
                            != ContributionRole::Author,
                decreases w.contributions.len() - i,
            {
                if w.contributions[i].role == ContributionRole::Author {
                    proof {
                        assert((w.contributions@[i as int]).role == ContributionRole::Author);
                    }
                    return true;
                }
                i += 1;
            }
            false
        },
        Field::Isbn => {
            let mut i: usize = 0;
            while i < w.publications.len()
                invariant
                    f == Field::Isbn,
                    i <= w.publications@.len(),
                    forall|k: int|
                        0 <= k < i ==> !((#[trigger] w.publications@[k]).isbn matches Some(s)
                            && s@.len() > 0),
                decreases w.publications.len() - i,
            {
                match &w.publications[i].isbn {
                    Some(s) => {
                        if !s.as_str().is_empty() {
                            proof {
                                assert((w.publications@[i as int]).isbn matches Some(t) && t@.len()
                                    > 0);
                            }
                            return true;
                        }
                    },
                    None => {},
                }
                i += 1;
            }
            false
        },
        Field::WorkStatusCode => true,
    }
}

/// Whether the work status is inside the dialect's controlled
/// vocabulary. The DOI-deposit dialect registers only published or
/// announced works; every other dialect has a code for every status.
pub open spec fn status_accepted(family: FormatFamily, status: WorkStatus) -> bool {
    match family {
        FormatFamily::DoiDeposit => status == WorkStatus::Active || status
            == WorkStatus::Forthcoming,
        _ => true,
    }
}

fn check_status(family: FormatFamily, status: WorkStatus) -> (r: bool)
    ensures
        r == status_accepted(family, status),
{
    match family {
        FormatFamily::DoiDeposit => status == WorkStatus::Active || status
            == WorkStatus::Forthcoming,
        _ => true,
    }
}

/// The exact set of fields reported when validation fails: the
/// mandatory fields the aggregate lacks, in the order the dialect
/// lists them, followed by the status marker when the status falls
/// outside the dialect's vocabulary.
pub open spec fn spec_missing(w: Work, family: FormatFamily, dialect: Dialect) -> Seq<Field> {
    spec_mandatory(family, dialect).filter(|f: Field| !field_present(w, f)) + (if status_accepted(
        family,
        w.work_status,
    ) {
        Seq::<Field>::empty()
    } else {
        seq![Field::WorkStatusCode]
    })
}

/// Computes the missing or invalid fields of an aggregate under one
/// dialect's contract; the aggregate validates exactly when the result
/// is empty.
pub fn missing_fields(w: &Work, family: FormatFamily, dialect: Dialect) -> (r: Vec<Field>)
    ensures
        r@ == spec_missing(*w, family, dialect),
{
    let mandatory = mandatory_fields(family, dialect);
    let ghost pred = |f: Field| !field_present(*w, f);
    let mut v: Vec<Field> = Vec::new();
    let mut i: usize = 0;
    while i < mandatory.len()
        invariant
            i <= mandatory@.len(),
            pred == (|f: Field| !field_present(*w, f)),
            v@ == mandatory@.take(i as int).filter(pred),
        decreases mandatory.len() - i,
    {
        let f = mandatory[i];
        let present = check_field(w, f);
        proof {
            reveal(Seq::filter);
            assert(mandatory@.take(i as int + 1).drop_last() =~= mandatory@.take(i as int));
            assert(mandatory@.take(i as int + 1).last() == mandatory@[i as int]);
        }
        if !present {
            v.push(f);
        }
        i += 1;
    }
    proof {
        assert(mandatory@.take(mandatory@.len() as int) =~= mandatory@);
    }
    if !check_status(family, w.work_status) {
        v.push(Field::WorkStatusCode);
        proof {
            assert(v@ =~= spec_missing(*w, family, dialect));
        }
    } else {
        proof {
            assert(v@ =~= spec_missing(*w, family, dialect));
        }
    }
    v
}

proof fn lemma_filter_subset(m: Seq<Field>, pred: spec_fn(Field) -> bool, k: int)
    requires
        0 <= k < m.filter(pred).len(),
    ensures
        m.contains(m.filter(pred)[k]),
    decreases m.len(),
{
    reveal(Seq::filter);
    if m.len() > 0 {
        let sub = m.drop_last().filter(pred);
        if pred(m.last()) {
            if k < sub.len() {
                lemma_filter_subset(m.drop_last(), pred, k);
                let i = choose|i: int| 0 <= i < m.drop_last().len() && m.drop_last()[i] == sub[k];
                assert(m[i] == sub[k]);
            } else {
                assert(m.filter(pred)[k] == m.last());
                assert(m[m.len() - 1] == m.last());
            }
        } else {
            lemma_filter_subset(m.drop_last(), pred, k);
            let i = choose|i: int| 0 <= i < m.drop_last().len() && m.drop_last()[i] == m.filter(
                pred,
            )[k];
            assert(m[i] == m.filter(pred)[k]);
        }
    }
}

/// Validation completeness, one direction per clause: a mandatory field
/// the aggregate lacks is always among the reported fields, and every
/// reported field is either a lacking mandatory field or the status
/// marker of a status outside the dialect's vocabulary.
pub proof fn lemma_validation_completeness(w: Work, family: FormatFamily, dialect: Dialect)
    ensures
        forall|f: Field|
            spec_mandatory(family, dialect).contains(f) && !field_present(w, f)
                ==> #[trigger] spec_missing(w, family, dialect).contains(f),
        forall|k: int|
            0 <= k < spec_missing(w, family, dialect).len() ==> {
                let f = #[trigger] spec_missing(w, family, dialect)[k];
                (spec_mandatory(family, dialect).contains(f) && !field_present(w, f)) || (f
                    == Field::WorkStatusCode && !status_accepted(family, w.work_status))
            },
        spec_missing(w, family, dialect).len() == 0 <==> (forall|f: Field|
            spec_mandatory(family, dialect).contains(f) ==> #[trigger] field_present(w, f))
            && status_accepted(family, w.work_status),
{
    broadcast use vstd::seq_lib::group_filter_ensures;

    let m = spec_mandatory(family, dialect);
    let pred = |f: Field| !field_present(w, f);
    let filtered = m.filter(pred);
    let missing = spec_missing(w, family, dialect);
    assert forall|f: Field| m.contains(f) && !field_present(w, f) implies #[trigger] missing.contains(
        f,
    ) by {
        let i = choose|i: int| 0 <= i < m.len() && m[i] == f;
        m.lemma_filter_contains(pred, i);
        let j = choose|j: int| 0 <= j < filtered.len() && filtered[j] == f;
        assert(missing[j] == f);
    }
    assert forall|k: int| 0 <= k < missing.len() implies {
        let f = #[trigger] missing[k];
        (m.contains(f) && !field_present(w, f)) || (f == Field::WorkStatusCode && !status_accepted(
            family,
            w.work_status,
        ))
    } by {
        if k < filtered.len() {
            let f = filtered[k];
            m.lemma_filter_pred(pred, k);
            assert(filtered.to_multiset().count(f) > 0) by {
                broadcast use vstd::seq_lib::group_to_multiset_ensures;

                assert(filtered.contains(f));
            }
            assert(m.contains(f)) by {
                broadcast use vstd::seq_lib::group_to_multiset_ensures;

                lemma_filter_subset(m, pred, k);
            }
        }
    }
    if missing.len() == 0 {
        assert forall|f: Field| m.contains(f) implies #[trigger] field_present(w, f) by {
            if !field_present(w, f) {
                let i = choose|i: int| 0 <= i < m.len() && m[i] == f;
                m.lemma_filter_contains(pred, i);
            }
        }
    }
    if (forall|f: Field| m.contains(f) ==> #[trigger] field_present(w, f)) && status_accepted(
        family,
        w.work_status,
    ) {
        if filtered.len() > 0 {
            m.lemma_filter_pred(pred, 0);
            lemma_filter_subset(m, pred, 0);
            assert(false);
        }
        assert(missing.len() == filtered.len());
    }
}

} // verus!
