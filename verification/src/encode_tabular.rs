//! Tabular encoders: the comma-separated dialect and the
//! tab-separated knowledge-base dialect. One header line, one row per
//! work.

use vstd::prelude::*;
use vstd::string::*;

use crate::model::Work;
use crate::render::collect_author_names;
use crate::render::collect_names;
use crate::render::date_iso;
use crate::render::first_isbn;
use crate::render::join_with;
use crate::render::spec_author_names;
use crate::render::spec_date_iso;
use crate::render::spec_first_isbn;
use crate::render::spec_join;
use crate::render::spec_mapped_contribs;
use crate::render::spec_names;
use crate::text::append_csv_field;
use crate::text::spec_csv_field;
use crate::text::spec_uuid_chars;
use crate::text::uuid_hyphenated;
use crate::vocab::spec_work_status_code;
use crate::vocab::spec_work_type_code;
use crate::vocab::work_status_code;
use crate::vocab::work_type_code;

verus! {

/// The header line of the comma-separated output.
pub open spec fn spec_csv_header() -> Seq<char> {
    ("work_id,full_title,work_type,work_status,doi,publisher,publication_date,contributions\n")@
}

/// The complete comma-separated rendering of one work: the header and
/// one row, fields quoted exactly where their text demands it.
pub open spec fn spec_csv(w: Work) -> Seq<char> {
    spec_csv_header() + spec_uuid_chars(w.work_id as nat) + seq![','] + spec_csv_field(
        w.full_title@,
    ) + seq![','] + spec_work_type_code(w.work_type) + seq![','] + spec_work_status_code(
        w.work_status,
    ) + seq![','] + (match w.doi {
        Some(d) => spec_csv_field(d@),
        None => Seq::empty(),
    }) + seq![','] + spec_csv_field(w.publisher_name@) + seq![','] + (match w.publication_date {
        Some(d) => spec_date_iso(d),
        None => Seq::empty(),
    }) + seq![','] + spec_csv_field(
        spec_join(spec_names(spec_mapped_contribs(w.contributions@)), ("; ")@),
    ) + seq!['\n']
}

/// Renders the comma-separated output of one work.
#[verifier::rlimit(100)]
pub fn render_csv(w: &Work) -> (r: String)
    requires
        w.wf(),
    ensures
        r@ == spec_csv(*w),
{
    let mut s =
        "work_id,full_title,work_type,work_status,doi,publisher,publication_date,contributions\n".to_owned();
    let uid = uuid_hyphenated(w.work_id);
    s.append(uid.as_str());
    s.append(",");
    append_csv_field(&mut s, w.full_title.as_str());
    s.append(",");
    let tc = work_type_code(w.work_type);
    s.append(tc.as_str());
    s.append(",");
    let sc = work_status_code(w.work_status);
    s.append(sc.as_str());
    s.append(",");
    match &w.doi {
        Some(d) => append_csv_field(&mut s, d.as_str()),
        None => {},
    }
    s.append(",");
    append_csv_field(&mut s, w.publisher_name.as_str());
    s.append(",");
    match &w.publication_date {
        Some(d) => {
            let ds = date_iso(d);
            s.append(ds.as_str());
        },
        None => {},
    }
    s.append(",");
    let names = collect_names(&w.contributions);
    let joined = join_with(&names, "; ");
    append_csv_field(&mut s, joined.as_str());
    s.append("\n");
    proof {
        reveal_strlit(",");
        reveal_strlit("\n");
        assert((",")@ =~= seq![',']);
        assert(("\n")@ =~= seq!['\n']);
        assert(s@ =~= spec_csv(*w));
    }
    s
}

/// The header line of the tab-separated output.
pub open spec fn spec_kbart_header() -> Seq<char> {
    (
    "publication_title\tprint_identifier\tonline_identifier\tdate_monograph_published_print\tpublication_type\ttitle_id\tfirst_author\ttitle_url\n"
    )@
}

/// The title identifier of the tab-separated row: the DOI when the
/// work has one, its identity otherwise.
pub open spec fn spec_kbart_title_id(w: Work) -> Seq<char> {
    match w.doi {
        Some(d) => d@,
        None => spec_uuid_chars(w.work_id as nat),
    }
}

/// The complete tab-separated rendering of one work.
pub open spec fn spec_kbart(w: Work) -> Seq<char> {
    spec_kbart_header() + w.full_title@ + seq!['\t'] + (match spec_first_isbn(
        w.publications@,
        true,
    ) {
        Some(i) => i,
        None => Seq::empty(),
    }) + seq!['\t'] + (match spec_first_isbn(w.publications@, false) {
        Some(i) => i,
        None => Seq::empty(),
    }) + seq!['\t'] + (match w.publication_date {
        Some(d) => spec_date_iso(d),
        None => Seq::empty(),
    }) + seq!['\t'] + ("monograph")@ + seq!['\t'] + spec_kbart_title_id(w) + seq!['\t'] + {
        let authors = spec_author_names(spec_mapped_contribs(w.contributions@));
        if authors.len() > 0 {
            authors[0]
        } else {
            Seq::empty()
        }
    } + seq!['\t'] + (match w.landing_page {
        Some(u) => u@,
        None => Seq::empty(),
    }) + seq!['\n']
}

/// Renders the tab-separated output of one work.
#[verifier::rlimit(100)]
pub fn render_kbart(w: &Work) -> (r: String)
    requires
        w.wf(),
    ensures
        r@ == spec_kbart(*w),
{
    let mut s =
        "publication_title\tprint_identifier\tonline_identifier\tdate_monograph_published_print\tpublication_type\ttitle_id\tfirst_author\ttitle_url\n".to_owned();
    s.append(w.full_title.as_str());
    s.append("\t");
    match first_isbn(&w.publications, true) {
        Some(i) => s.append(i.as_str()),
        None => {},
    }
    s.append("\t");
    match first_isbn(&w.publications, false) {
        Some(i) => s.append(i.as_str()),
        None => {},
    }
    s.append("\t");
    match &w.publication_date {
        Some(d) => {
            let ds = date_iso(d);
            s.append(ds.as_str());
        },
        None => {},
    }
    s.append("\t");
    s.append("monograph");
    s.append("\t");
    match &w.doi {
        Some(d) => s.append(d.as_str()),
        None => {
            let uid = uuid_hyphenated(w.work_id);
            s.append(uid.as_str());
        },
    }
    s.append("\t");
    let authors = collect_author_names(&w.contributions);
    if authors.len() > 0 {
        s.append(authors[0].as_str());
        proof {
            let vs = crate::render::views_of(authors@);
            assert(vs[0] == authors@[0]@);
        }
    }
    s.append("\t");
    match &w.landing_page {
        Some(u) => s.append(u.as_str()),
        None => {},
    }
    s.append("\n");
    proof {
        reveal_strlit("\t");
        reveal_strlit("\n");
        assert(("\t")@ =~= seq!['\t']);
        assert(("\n")@ =~= seq!['\n']);
        assert(s@ =~= spec_kbart(*w));
    }
    s
}

} // verus!
