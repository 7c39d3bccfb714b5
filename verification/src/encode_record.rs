//! Citation and structured-record encoders: the BibTeX dialect and the
//! JSON dialect. JSON keys are written in one fixed order, so that the
//! rendering is a function of the aggregate alone.

use vstd::prelude::*;
use vstd::string::*;

use crate::model::Contribution;
use crate::model::Work;
use crate::order::contribution_keys;
use crate::order::contribution_order;
use crate::order::spec_key_sort;
use crate::render::collect_author_names;
use crate::render::date_iso;
use crate::render::first_isbn;
use crate::render::join_with;
use crate::render::spec_author_names;
use crate::render::spec_date_iso;
use crate::render::spec_first_isbn;
use crate::render::spec_join;
use crate::render::spec_mapped_contribs;
use crate::render::views_of;
use crate::text::append_json_escaped;
use crate::text::dec_u64;
use crate::text::spec_dec;
use crate::text::spec_dec4;
use crate::text::spec_json_escaped;
use crate::text::spec_uuid_chars;
use crate::text::uuid_hyphenated;
use crate::text::dec4;
use crate::vocab::role_code;
use crate::vocab::spec_role_code;
use crate::vocab::spec_work_status_code;
use crate::vocab::spec_work_type_code;
use crate::vocab::work_status_code;
use crate::vocab::work_type_code;

verus! {

/// The citation rendering of one work: a book entry keyed by the work
/// identity, with the author names joined in serialization order.
pub open spec fn spec_bibtex(w: Work) -> Seq<char> {
    ("@book{")@ + spec_uuid_chars(w.work_id as nat) + (",\n  title = {")@ + w.full_title@ + (
    "},\n  author = {")@ + spec_join(
        spec_author_names(spec_mapped_contribs(w.contributions@)),
        (" and ")@,
    ) + ("},\n  year = {")@ + (match w.publication_date {
        Some(d) => spec_dec4(d.year as nat),
        None => Seq::empty(),
    }) + ("},\n  publisher = {")@ + w.publisher_name@ + ("},\n")@ + (match w.doi {
        Some(d) => ("  doi = {")@ + d@ + ("},\n")@,
        None => Seq::empty(),
    }) + (match spec_first_isbn(w.publications@, true) {
        Some(i) => ("  isbn = {")@ + i + ("},\n")@,
        None => Seq::empty(),
    }) + ("}\n")@
}

/// Renders the citation output of one work.
#[verifier::rlimit(100)]
pub fn render_bibtex(w: &Work) -> (r: String)
    requires
        w.wf(),
    ensures
        r@ == spec_bibtex(*w),
{
    let mut s = "@book{".to_owned();
    let uid = uuid_hyphenated(w.work_id);
    s.append(uid.as_str());
    s.append(",\n  title = {");
    s.append(w.full_title.as_str());
    s.append("},\n  author = {");
    let authors = collect_author_names(&w.contributions);
    let joined = join_with(&authors, " and ");
    s.append(joined.as_str());
    s.append("},\n  year = {");
    match &w.publication_date {
        Some(d) => {
            let y = dec4(d.year as u64);
            s.append(y.as_str());
        },
        None => {},
    }
    s.append("},\n  publisher = {");
    s.append(w.publisher_name.as_str());
    s.append("},\n");
    match &w.doi {
        Some(d) => {
            s.append("  doi = {");
            s.append(d.as_str());
            s.append("},\n");
        },
        None => {},
    }
    match first_isbn(&w.publications, true) {
        Some(i) => {
            s.append("  isbn = {");
            s.append(i.as_str());
            s.append("},\n");
        },
        None => {},
    }
    s.append("}\n");
    proof {
        assert(s@ =~= spec_bibtex(*w));
    }
    s
}

/// The structured rendering of one contribution: name, role code and
/// ordinal under fixed keys.
pub open spec fn spec_json_contrib(c: Contribution) -> Seq<char> {
    ("{\"fullName\":\"")@ + spec_json_escaped(c.full_name@) + ("\",\"role\":\"")@ + spec_role_code(
        c.role,
    ) + ("\",\"ordinal\":")@ + spec_dec(c.ordinal as nat) + ("}")@
}

/// The renderings of every contribution, serialization order.
pub open spec fn spec_json_contribs(w: Work) -> Seq<Seq<char>> {
    let mapped = spec_mapped_contribs(w.contributions@);
    Seq::new(mapped.len(), |i: int| spec_json_contrib(mapped[i]))
}

/// The structured rendering of one work: one object with a fixed key
/// order, null for absent optional fields, contributions as an array
/// in serialization order.
pub open spec fn spec_json(w: Work) -> Seq<char> {
    ("{\"workId\":\"")@ + spec_uuid_chars(w.work_id as nat) + ("\",\"fullTitle\":\"")@
        + spec_json_escaped(w.full_title@) + ("\",\"workType\":\"")@ + spec_work_type_code(
        w.work_type,
    ) + ("\",\"workStatus\":\"")@ + spec_work_status_code(w.work_status) + ("\",\"doi\":")@ + (
    match w.doi {
        Some(d) => seq!['"'] + spec_json_escaped(d@) + seq!['"'],
        None => ("null")@,
    }) + (",\"publicationDate\":")@ + (match w.publication_date {
        Some(d) => seq!['"'] + spec_date_iso(d) + seq!['"'],
        None => ("null")@,
    }) + (",\"publisher\":\"")@ + spec_json_escaped(w.publisher_name@) + ("\",\"imprint\":\"")@
        + spec_json_escaped(w.imprint_name@) + ("\",\"contributions\":[")@ + spec_join(
        spec_json_contribs(w),
        seq![','],
    ) + ("]}")@
}

/// Renders the structured output of one work.
#[verifier::rlimit(100)]
pub fn render_json(w: &Work) -> (r: String)
    requires
        w.wf(),
    ensures
        r@ == spec_json(*w),
{
    let mut s = "{\"workId\":\"".to_owned();
    let uid = uuid_hyphenated(w.work_id);
    s.append(uid.as_str());
    s.append("\",\"fullTitle\":\"");
    append_json_escaped(&mut s, w.full_title.as_str());
    s.append("\",\"workType\":\"");
    let tc = work_type_code(w.work_type);
    s.append(tc.as_str());
    s.append("\",\"workStatus\":\"");
    let sc = work_status_code(w.work_status);
    s.append(sc.as_str());
    s.append("\",\"doi\":");
    match &w.doi {
        Some(d) => {
            s.append("\"");
            append_json_escaped(&mut s, d.as_str());
            s.append("\"");
            proof {
                reveal_strlit("\"");
                assert(("\"")@ =~= seq!['"']);
            }
        },
        None => s.append("null"),
    }
    s.append(",\"publicationDate\":");
    match &w.publication_date {
        Some(d) => {
            s.append("\"");
            let ds = date_iso(d);
            s.append(ds.as_str());
            s.append("\"");
            proof {
                reveal_strlit("\"");
                assert(("\"")@ =~= seq!['"']);
            }
        },
        None => s.append("null"),
    }
    s.append(",\"publisher\":\"");
    append_json_escaped(&mut s, w.publisher_name.as_str());
    s.append("\",\"imprint\":\"");
    append_json_escaped(&mut s, w.imprint_name.as_str());
    s.append("\",\"contributions\":[");
    let parts = render_json_contribs(w);
    let joined = join_with(&parts, ",");
    s.append(joined.as_str());
    s.append("]}");
    proof {
        reveal_strlit(",");
        assert((",")@ =~= seq![',']);
        assert(s@ =~= spec_json(*w));
    }
    s
}

fn render_json_contribs(w: &Work) -> (r: Vec<String>)
    ensures
        views_of(r@) == spec_json_contribs(*w),
{
    let ord = contribution_order(&w.contributions);
    let ghost mapped = spec_mapped_contribs(w.contributions@);
    let mut out: Vec<String> = Vec::new();
    let mut k: usize = 0;
    while k < ord.len()
        invariant
            k <= ord@.len(),
            ord@ == spec_key_sort(contribution_keys(w.contributions@)),
            forall|t: int|
                0 <= t < ord@.len() ==> (#[trigger] ord@[t]).position < w.contributions@.len(),
            mapped == spec_mapped_contribs(w.contributions@),
            out@.len() == k,
            forall|t: int| 0 <= t < k ==> (#[trigger] out@[t])@ == spec_json_contrib(mapped[t]),
        decreases ord.len() - k,
    {
        let pos = ord[k].position;
        let c = &w.contributions[pos];
        let mut item = "{\"fullName\":\"".to_owned();
        append_json_escaped(&mut item, c.full_name.as_str());
        item.append("\",\"role\":\"");
        let rc = role_code(c.role);
        item.append(rc.as_str());
        item.append("\",\"ordinal\":");
        let o = dec_u64(c.ordinal as u64);
        item.append(o.as_str());
        item.append("}");
        proof {
            assert(mapped[k as int] == w.contributions@[ord@[k as int].position as int]);
            assert(item@ =~= spec_json_contrib(mapped[k as int]));
        }
        out.push(item);
        k += 1;
    }
    proof {
        assert(mapped.len() == ord@.len());
        assert(views_of(out@) =~= spec_json_contribs(*w));
    }
    out
}

} // verus!
