//! The encoder entry point: validates an aggregate against one
//! registered dialect's mandatory-field contract and renders it, or
//! reports exactly the missing fields and emits nothing.

use vstd::prelude::*;

use crate::dialect::content_type_of;
use crate::dialect::spec_content_type;
use crate::dialect::spec_supported;
use crate::dialect::Dialect;
use crate::dialect::FormatFamily;
use crate::encode_markup::render_deposit;
use crate::encode_markup::render_marc_lines;
use crate::encode_markup::render_marc_xml;
use crate::encode_markup::render_onix21;
use crate::encode_markup::render_onix3;
use crate::encode_markup::spec_deposit;
use crate::encode_markup::spec_marc_lines;
use crate::encode_markup::spec_marc_xml;
use crate::encode_markup::spec_onix21;
use crate::encode_markup::spec_onix3;
use crate::encode_record::render_bibtex;
use crate::encode_record::render_json;
use crate::encode_record::spec_bibtex;
use crate::encode_record::spec_json;
use crate::encode_tabular::render_csv;
use crate::encode_tabular::render_kbart;
use crate::encode_tabular::spec_csv;
use crate::encode_tabular::spec_kbart;
use crate::error::ExportError;
use crate::model::Work;
use crate::render::distinct_ordinals;
use crate::render::lemma_ordering_stability;
use crate::render::spec_mapped_contribs;
use crate::validate::missing_fields;
use crate::validate::spec_missing;

verus! {

/// Rendered output of one encoder: the body text and its content type.
#[derive(Debug, PartialEq, Eq)]
pub struct EncodedPayload {
    pub body: String,
    pub content_type: String,
}

/// What each registered pair renders a valid aggregate to.
pub open spec fn spec_render(w: Work, family: FormatFamily, dialect: Dialect) -> Seq<char> {
    match family {
        FormatFamily::Csv => spec_csv(w),
        FormatFamily::Json => spec_json(w),
        FormatFamily::Kbart => spec_kbart(w),
        FormatFamily::Bibtex => spec_bibtex(w),
        FormatFamily::DoiDeposit => spec_deposit(w),
        FormatFamily::Onix3 => spec_onix3(w, dialect),
        FormatFamily::Onix21 => spec_onix21(w, dialect),
        FormatFamily::Marc21Record => spec_marc_lines(w),
        FormatFamily::Marc21Markup => spec_marc_lines(w),
        FormatFamily::Marc21Xml => spec_marc_xml(w),
    }
}

/// Encodes one aggregate under one registered pair: when the aggregate
/// satisfies the dialect's mandatory-field contract the rendering and
/// content type come back, otherwise the validation error names
/// exactly the missing or invalid fields and no output is produced.
pub fn encode(w: &Work, family: FormatFamily, dialect: Dialect) -> (r: Result<
    EncodedPayload,
    ExportError,
>)
    requires
        w.wf(),
        spec_supported(family, dialect),
    ensures
        spec_missing(*w, family, dialect).len() == 0 ==> (r matches Ok(p) && p.body@
            == spec_render(*w, family, dialect) && p.content_type@ == spec_content_type(family)),
        spec_missing(*w, family, dialect).len() > 0 ==> (r matches Err(
            ExportError::ValidationFailed { fields },
        ) && fields@ == spec_missing(*w, family, dialect)),
{
    let missing = missing_fields(w, family, dialect);
    if missing.len() > 0 {
        return Err(ExportError::ValidationFailed { fields: missing });
    }
    let body = match family {
        FormatFamily::Csv => render_csv(w),
        FormatFamily::Json => render_json(w),
        FormatFamily::Kbart => render_kbart(w),
        FormatFamily::Bibtex => render_bibtex(w),
        FormatFamily::DoiDeposit => render_deposit(w),
        FormatFamily::Onix3 => render_onix3(w, dialect),
        FormatFamily::Onix21 => render_onix21(w, dialect),
        FormatFamily::Marc21Record => render_marc_lines(w),
        FormatFamily::Marc21Markup => render_marc_lines(w),
        FormatFamily::Marc21Xml => render_marc_xml(w),
    };
    Ok(EncodedPayload { body, content_type: content_type_of(family) })
}

/// Determinism: what an encoder renders is a function of the aggregate
/// and the pair alone, so any two bodies produced for the same
/// aggregate under the same pair are identical.
pub proof fn lemma_encode_deterministic(
    w: Work,
    family: FormatFamily,
    dialect: Dialect,
    b1: Seq<char>,
    b2: Seq<char>,
)
    requires
        b1 == spec_render(w, family, dialect),
        b2 == spec_render(w, family, dialect),
    ensures
        b1 == b2,
{
}

/// Two aggregates equal in every field, whose contribution lists hold
/// the same contributions possibly in different storage order.
pub open spec fn same_but_contribution_order(w1: Work, w2: Work) -> bool {
    &&& w1.work_id == w2.work_id
    &&& w1.work_type == w2.work_type
    &&& w1.work_status == w2.work_status
    &&& w1.title == w2.title
    &&& w1.subtitle == w2.subtitle
    &&& w1.full_title == w2.full_title
    &&& w1.doi == w2.doi
    &&& w1.publication_date == w2.publication_date
    &&& w1.place == w2.place
    &&& w1.landing_page == w2.landing_page
    &&& w1.cover_url == w2.cover_url
    &&& w1.license == w2.license
    &&& w1.imprint_name == w2.imprint_name
    &&& w1.publisher_name == w2.publisher_name
    &&& w1.publisher_id == w2.publisher_id
    &&& w1.updated_at == w2.updated_at
    &&& w1.subjects == w2.subjects
    &&& w1.languages == w2.languages
    &&& w1.series == w2.series
    &&& w1.publications == w2.publications
    &&& w1.contributions@.to_multiset() == w2.contributions@.to_multiset()
}

/// Ordering stability at the output: when no ordinal repeats, the
/// rendered bytes do not depend on the storage order of the
/// contribution list.
pub proof fn lemma_render_order_independent(
    w1: Work,
    w2: Work,
    family: FormatFamily,
    dialect: Dialect,
)
    requires
        spec_supported(family, dialect),
        same_but_contribution_order(w1, w2),
        distinct_ordinals(w1.contributions@),
        w1.contributions@.len() <= usize::MAX,
    ensures
        spec_render(w1, family, dialect) == spec_render(w2, family, dialect),
{
    lemma_ordering_stability(w1.contributions@, w2.contributions@);
    assert(spec_mapped_contribs(w1.contributions@) == spec_mapped_contribs(w2.contributions@));
}

} // verus!
