//! Markup encoders: the ONIX 3.0 and ONIX 2.1 families, the
//! rights-deposit record, and the MARC 21 renderings. Text content is
//! XML-escaped; repeated elements follow the ordinal order.

use vstd::prelude::*;
use vstd::string::*;

use crate::dialect::spec_specification_id;
use crate::dialect::specification_id;
use crate::dialect::spec_supported;
use crate::dialect::Dialect;
use crate::dialect::FormatFamily;
use crate::model::Contribution;
use crate::model::ContributionRole;
use crate::model::Language;
use crate::model::Subject;
use crate::model::Work;
use crate::order::subject_keys;
use crate::order::subject_order;
use crate::order::contribution_keys;
use crate::order::contribution_order;
use crate::order::spec_key_sort;
use crate::render::collect_author_names;
use crate::render::first_isbn;
use crate::render::join_with;
use crate::render::spec_author_names;
use crate::render::spec_date_compact;
use crate::render::spec_first_isbn;
use crate::render::spec_join;
use crate::render::spec_mapped_contribs;
use crate::render::spec_mapped_subjects;
use crate::render::date_compact;
use crate::render::views_of;
use crate::text::append_xml_escaped;
use crate::text::dec_u64;
use crate::text::spec_dec;
use crate::text::spec_dec2;
use crate::text::spec_dec4;
use crate::text::spec_uuid_chars;
use crate::text::spec_xml_escaped;
use crate::text::uuid_hyphenated;
use crate::text::dec2;
use crate::text::dec4;
use crate::vocab::onix_language_role;
use crate::vocab::onix_role_code;
use crate::vocab::onix_status_code;
use crate::vocab::onix_subject_scheme;
use crate::vocab::spec_onix_language_role;
use crate::vocab::spec_onix_role_code;
use crate::vocab::spec_onix_status_code;
use crate::vocab::spec_onix_subject_scheme;

verus! {

/// One contributor element of the ONIX 3.0 body, carrying its
/// one-based sequence number in serialization order.
pub open spec fn spec_onix3_contrib(c: Contribution, k: int) -> Seq<char> {
    ("<Contributor><SequenceNumber>")@ + spec_dec((k + 1) as nat) + (
    "</SequenceNumber><ContributorRole>")@ + spec_onix_role_code(c.role) + (
    "</ContributorRole><PersonName>")@ + spec_xml_escaped(c.full_name@) + (
    "</PersonName></Contributor>")@
}

/// The contributor elements of the ONIX 3.0 body, serialization order.
pub open spec fn spec_onix3_contribs(w: Work) -> Seq<Seq<char>> {
    let mapped = spec_mapped_contribs(w.contributions@);
    Seq::new(mapped.len(), |i: int| spec_onix3_contrib(mapped[i], i))
}

/// The identifier and title part of the ONIX 3.0 product.
pub open spec fn spec_onix3_front(w: Work) -> Seq<char> {
    ("<Product><RecordReference>")@ + spec_uuid_chars(w.work_id as nat) + (
    "</RecordReference><NotificationType>03</NotificationType>")@ + (match w.doi {
        Some(d) => ("<ProductIdentifier><ProductIDType>06</ProductIDType><IDValue>")@
            + spec_xml_escaped(d@) + ("</IDValue></ProductIdentifier>")@,
        None => Seq::empty(),
    }) + (match spec_first_isbn(w.publications@, true) {
        Some(i) => ("<ProductIdentifier><ProductIDType>15</ProductIDType><IDValue>")@
            + spec_xml_escaped(i) + ("</IDValue></ProductIdentifier>")@,
        None => Seq::empty(),
    }) + ("<TitleText>")@ + spec_xml_escaped(w.full_title@) + ("</TitleText>")@
}

/// One subject element of the ONIX 3.0 body.
pub open spec fn spec_onix3_subject(s: Subject) -> Seq<char> {
    ("<Subject><SubjectSchemeIdentifier>")@ + spec_onix_subject_scheme(s.subject_type) + (
    "</SubjectSchemeIdentifier><SubjectCode>")@ + spec_xml_escaped(s.code@) + (
    "</SubjectCode></Subject>")@
}

/// The subject elements of the ONIX 3.0 body, serialization order.
pub open spec fn spec_onix3_subjects(w: Work) -> Seq<Seq<char>> {
    let mapped = spec_mapped_subjects(w.subjects@);
    Seq::new(mapped.len(), |i: int| spec_onix3_subject(mapped[i]))
}

/// One language element of the ONIX 3.0 body.
pub open spec fn spec_onix3_language(l: Language) -> Seq<char> {
    ("<Language><LanguageRole>")@ + spec_onix_language_role(l.relation) + (
    "</LanguageRole><LanguageCode>")@ + spec_xml_escaped(l.code@) + ("</LanguageCode></Language>")@
}

/// The language elements of the ONIX 3.0 body, storage order.
pub open spec fn spec_onix3_languages(w: Work) -> Seq<Seq<char>> {
    Seq::new(w.languages@.len(), |i: int| spec_onix3_language(w.languages@[i]))
}

/// The contributor and publishing part of the ONIX 3.0 product.
pub open spec fn spec_onix3_tail(w: Work) -> Seq<char> {
    spec_join(spec_onix3_contribs(w), Seq::empty()) + ("<PublishingStatus>")@
        + spec_onix_status_code(w.work_status) + ("</PublishingStatus>")@ + ("<PublisherName>")@
        + spec_xml_escaped(w.publisher_name@) + ("</PublisherName>")@ + spec_join(
        spec_onix3_subjects(w),
        Seq::empty(),
    ) + spec_join(spec_onix3_languages(w), Seq::empty()) + (
    match w.publication_date {
        Some(d) => ("<PublicationDate>")@ + spec_date_compact(d) + ("</PublicationDate>")@,
        None => Seq::empty(),
    }) + (match w.license {
        Some(l) => ("<LicenseUrl>")@ + spec_xml_escaped(l@) + ("</LicenseUrl>")@,
        None => Seq::empty(),
    }) + ("</Product></ONIXMessage>")@
}

/// The ONIX 3.0 rendering of one work. The header names the consumer
/// profile the message was produced for.
pub open spec fn spec_onix3(w: Work, dialect: Dialect) -> Seq<char> {
    ("<?xml version=\"1.0\" encoding=\"UTF-8\"?><ONIXMessage release=\"3.0\"><Header><Sender><SenderName>")@
        + spec_specification_id(FormatFamily::Onix3, dialect) + ("</SenderName></Sender></Header>")@
        + spec_onix3_front(w) + spec_onix3_tail(w)
}

fn render_onix3_contribs(w: &Work) -> (r: Vec<String>)
    ensures
        views_of(r@) == spec_onix3_contribs(*w),
{
    let ord = contribution_order(&w.contributions);
    let ghost mapped = spec_mapped_contribs(w.contributions@);
    let mut out: Vec<String> = Vec::new();
    let mut k: usize = 0;
    while k < ord.len()
        invariant
            k <= ord@.len(),
            ord@ == spec_key_sort(contribution_keys(w.contributions@)),
            forall|t: int|
                0 <= t < ord@.len() ==> (#[trigger] ord@[t]).position < w.contributions@.len(),
            mapped == spec_mapped_contribs(w.contributions@),
            out@.len() == k,
            forall|t: int|
                0 <= t < k ==> (#[trigger] out@[t])@ == spec_onix3_contrib(mapped[t], t),
        decreases ord.len() - k,
    {
        let pos = ord[k].position;
        let c = &w.contributions[pos];
        let mut item = "<Contributor><SequenceNumber>".to_owned();
        let n = dec_u64((k as u64) + 1);
        item.append(n.as_str());
        item.append("</SequenceNumber><ContributorRole>");
        let rc = onix_role_code(c.role);
        item.append(rc.as_str());
        item.append("</ContributorRole><PersonName>");
        append_xml_escaped(&mut item, c.full_name.as_str());
        item.append("</PersonName></Contributor>");
        proof {
            assert(mapped[k as int] == w.contributions@[ord@[k as int].position as int]);
            assert(item@ =~= spec_onix3_contrib(mapped[k as int], k as int));
        }
        out.push(item);
        k += 1;
    }
    proof {
        assert(mapped.len() == ord@.len());
        assert(views_of(out@) =~= spec_onix3_contribs(*w));
    }
    out
}

#[verifier::rlimit(100)]
fn render_onix3_front(w: &Work) -> (r: String)
    requires
        w.wf(),
    ensures
        r@ == spec_onix3_front(*w),
{
    let mut s = "<Product><RecordReference>".to_owned();
    let uid = uuid_hyphenated(w.work_id);
    s.append(uid.as_str());
    s.append("</RecordReference><NotificationType>03</NotificationType>");
    match &w.doi {
        Some(d) => {
            s.append("<ProductIdentifier><ProductIDType>06</ProductIDType><IDValue>");
            append_xml_escaped(&mut s, d.as_str());
            s.append("</IDValue></ProductIdentifier>");
        },
        None => {},
    }
    match first_isbn(&w.publications, true) {
        Some(i) => {
            s.append("<ProductIdentifier><ProductIDType>15</ProductIDType><IDValue>");
            append_xml_escaped(&mut s, i.as_str());
            s.append("</IDValue></ProductIdentifier>");
        },
        None => {},
    }
    s.append("<TitleText>");
    append_xml_escaped(&mut s, w.full_title.as_str());
    s.append("</TitleText>");
    proof {
        assert(s@ =~= spec_onix3_front(*w));
    }
    s
}

fn render_onix3_subjects(w: &Work) -> (r: Vec<String>)
    ensures
        views_of(r@) == spec_onix3_subjects(*w),
{
    let ord = subject_order(&w.subjects);
    let ghost mapped = spec_mapped_subjects(w.subjects@);
    let mut out: Vec<String> = Vec::new();
    let mut k: usize = 0;
    while k < ord.len()
        invariant
            k <= ord@.len(),
            ord@ == crate::order::spec_key_sort(subject_keys(w.subjects@)),
            forall|t: int|
                0 <= t < ord@.len() ==> (#[trigger] ord@[t]).position < w.subjects@.len(),
            mapped == spec_mapped_subjects(w.subjects@),
            out@.len() == k,
            forall|t: int| 0 <= t < k ==> (#[trigger] out@[t])@ == spec_onix3_subject(mapped[t]),
        decreases ord.len() - k,
    {
        let pos = ord[k].position;
        let su = &w.subjects[pos];
        let mut item = "<Subject><SubjectSchemeIdentifier>".to_owned();
        let sc = onix_subject_scheme(su.subject_type);
        item.append(sc.as_str());
        item.append("</SubjectSchemeIdentifier><SubjectCode>");
        append_xml_escaped(&mut item, su.code.as_str());
        item.append("</SubjectCode></Subject>");
        proof {
            assert(mapped[k as int] == w.subjects@[ord@[k as int].position as int]);
            assert(item@ =~= spec_onix3_subject(mapped[k as int]));
        }
        out.push(item);
        k += 1;
    }
    proof {
        assert(mapped.len() == ord@.len());
        assert(views_of(out@) =~= spec_onix3_subjects(*w));
    }
    out
}

fn render_onix3_languages(w: &Work) -> (r: Vec<String>)
    ensures
        views_of(r@) == spec_onix3_languages(*w),
{
    let mut out: Vec<String> = Vec::new();
    let mut k: usize = 0;
    while k < w.languages.len()
        invariant
            k <= w.languages@.len(),
            out@.len() == k,
            forall|t: int|
                0 <= t < k ==> (#[trigger] out@[t])@ == spec_onix3_language(w.languages@[t]),
        decreases w.languages.len() - k,
    {
        let l = &w.languages[k];
        let mut item = "<Language><LanguageRole>".to_owned();
        let rc = onix_language_role(l.relation);
        item.append(rc.as_str());
        item.append("</LanguageRole><LanguageCode>");
        append_xml_escaped(&mut item, l.code.as_str());
        item.append("</LanguageCode></Language>");
        proof {
            assert(item@ =~= spec_onix3_language(w.languages@[k as int]));
        }
        out.push(item);
        k += 1;
    }
    proof {
        assert(views_of(out@) =~= spec_onix3_languages(*w));
    }
    out
}

#[verifier::rlimit(100)]
fn render_onix3_tail(w: &Work) -> (r: String)
    requires
        w.wf(),
    ensures
        r@ == spec_onix3_tail(*w),
{
    let parts = render_onix3_contribs(w);
    let mut s = join_with(&parts, "");
    s.append("<PublishingStatus>");
    let sc = onix_status_code(w.work_status);
    s.append(sc.as_str());
    s.append("</PublishingStatus>");
    s.append("<PublisherName>");
    append_xml_escaped(&mut s, w.publisher_name.as_str());
    s.append("</PublisherName>");
    let subjects = render_onix3_subjects(w);
    let joined_subjects = join_with(&subjects, "");
    s.append(joined_subjects.as_str());
    let languages = render_onix3_languages(w);
    let joined_languages = join_with(&languages, "");
    s.append(joined_languages.as_str());
    match &w.publication_date {
        Some(d) => {
            s.append("<PublicationDate>");
            let dc = date_compact(d);
            s.append(dc.as_str());
            s.append("</PublicationDate>");
        },
        None => {},
    }
    match &w.license {
        Some(l) => {
            s.append("<LicenseUrl>");
            append_xml_escaped(&mut s, l.as_str());
            s.append("</LicenseUrl>");
        },
        None => {},
    }
    s.append("</Product></ONIXMessage>");
    proof {
        reveal_strlit("");
        assert(("")@ =~= Seq::<char>::empty());
        assert(s@ =~= spec_onix3_tail(*w));
    }
    s
}

/// Renders the ONIX 3.0 output of one work for one registered profile.
pub fn render_onix3(w: &Work, dialect: Dialect) -> (r: String)
    requires
        w.wf(),
        spec_supported(FormatFamily::Onix3, dialect),
    ensures
        r@ == spec_onix3(*w, dialect),
{
    let mut s =
        "<?xml version=\"1.0\" encoding=\"UTF-8\"?><ONIXMessage release=\"3.0\"><Header><Sender><SenderName>".to_owned();
    let sid = specification_id(FormatFamily::Onix3, dialect);
    s.append(sid.as_str());
    s.append("</SenderName></Sender></Header>");
    let front = render_onix3_front(w);
    s.append(front.as_str());
    let tail = render_onix3_tail(w);
    s.append(tail.as_str());
    proof {
        assert(s@ =~= spec_onix3(*w, dialect));
    }
    s
}

/// One contributor element of the ONIX 2.1 body.
pub open spec fn spec_onix21_contrib(c: Contribution) -> Seq<char> {
    ("<Contributor><ContributorRole>")@ + spec_onix_role_code(c.role) + (
    "</ContributorRole><PersonName>")@ + spec_xml_escaped(c.full_name@) + (
    "</PersonName></Contributor>")@
}

/// The contributor elements of the ONIX 2.1 body, serialization order.
pub open spec fn spec_onix21_contribs(w: Work) -> Seq<Seq<char>> {
    let mapped = spec_mapped_contribs(w.contributions@);
    Seq::new(mapped.len(), |i: int| spec_onix21_contrib(mapped[i]))
}

/// The ONIX 2.1 rendering of one work for one registered profile.
pub open spec fn spec_onix21(w: Work, dialect: Dialect) -> Seq<char> {
    ("<?xml version=\"1.0\" encoding=\"UTF-8\"?><ONIXMessage><Header><FromCompany>")@
        + spec_specification_id(FormatFamily::Onix21, dialect) + (
    "</FromCompany></Header><Product><RecordReference>")@ + spec_uuid_chars(w.work_id as nat) + (
    "</RecordReference>")@ + (match spec_first_isbn(w.publications@, true) {
        Some(i) => ("<ISBN>")@ + spec_xml_escaped(i) + ("</ISBN>")@,
        None => Seq::empty(),
    }) + (match w.doi {
        Some(d) => ("<DOI>")@ + spec_xml_escaped(d@) + ("</DOI>")@,
        None => Seq::empty(),
    }) + ("<Title><TitleText>")@ + spec_xml_escaped(w.full_title@) + ("</TitleText></Title>")@
        + spec_join(spec_onix21_contribs(w), Seq::empty()) + ("<PublishingStatus>")@
        + spec_onix_status_code(w.work_status) + ("</PublishingStatus><Publisher><PublisherName>")@
        + spec_xml_escaped(w.publisher_name@) + ("</PublisherName></Publisher></Product></ONIXMessage>")@
}

fn render_onix21_contribs(w: &Work) -> (r: Vec<String>)
    ensures
        views_of(r@) == spec_onix21_contribs(*w),
{
    let ord = contribution_order(&w.contributions);
    let ghost mapped = spec_mapped_contribs(w.contributions@);
    let mut out: Vec<String> = Vec::new();
    let mut k: usize = 0;
    while k < ord.len()
        invariant
            k <= ord@.len(),
            ord@ == spec_key_sort(contribution_keys(w.contributions@)),
            forall|t: int|
                0 <= t < ord@.len() ==> (#[trigger] ord@[t]).position < w.contributions@.len(),
            mapped == spec_mapped_contribs(w.contributions@),
            out@.len() == k,
            forall|t: int| 0 <= t < k ==> (#[trigger] out@[t])@ == spec_onix21_contrib(mapped[t]),
        decreases ord.len() - k,
    {
        let pos = ord[k].position;
        let c = &w.contributions[pos];
        let mut item = "<Contributor><ContributorRole>".to_owned();
        let rc = onix_role_code(c.role);
        item.append(rc.as_str());
        item.append("</ContributorRole><PersonName>");
        append_xml_escaped(&mut item, c.full_name.as_str());
        item.append("</PersonName></Contributor>");
        proof {
            assert(mapped[k as int] == w.contributions@[ord@[k as int].position as int]);
            assert(item@ =~= spec_onix21_contrib(mapped[k as int]));
        }
        out.push(item);
        k += 1;
    }
    proof {
        assert(mapped.len() == ord@.len());
        assert(views_of(out@) =~= spec_onix21_contribs(*w));
    }
    out
}

/// Renders the ONIX 2.1 output of one work for one registered profile.
#[verifier::rlimit(100)]
pub fn render_onix21(w: &Work, dialect: Dialect) -> (r: String)
    requires
        w.wf(),
        spec_supported(FormatFamily::Onix21, dialect),
    ensures
        r@ == spec_onix21(*w, dialect),
{
    let mut s =
        "<?xml version=\"1.0\" encoding=\"UTF-8\"?><ONIXMessage><Header><FromCompany>".to_owned();
    let sid = specification_id(FormatFamily::Onix21, dialect);
    s.append(sid.as_str());
    s.append("</FromCompany></Header><Product><RecordReference>");
    let uid = uuid_hyphenated(w.work_id);
    s.append(uid.as_str());
    s.append("</RecordReference>");
    match first_isbn(&w.publications, true) {
        Some(i) => {
            s.append("<ISBN>");
            append_xml_escaped(&mut s, i.as_str());
            s.append("</ISBN>");
        },
        None => {},
    }
    match &w.doi {
        Some(d) => {
            s.append("<DOI>");
            append_xml_escaped(&mut s, d.as_str());
            s.append("</DOI>");
        },
        None => {},
    }
    s.append("<Title><TitleText>");
    append_xml_escaped(&mut s, w.full_title.as_str());
    s.append("</TitleText></Title>");
    let parts = render_onix21_contribs(w);
    let joined = join_with(&parts, "");
    s.append(joined.as_str());
    s.append("<PublishingStatus>");
    let sc = onix_status_code(w.work_status);
    s.append(sc.as_str());
    s.append("</PublishingStatus><Publisher><PublisherName>");
    append_xml_escaped(&mut s, w.publisher_name.as_str());
    s.append("</PublisherName></Publisher></Product></ONIXMessage>");
    proof {
        reveal_strlit("");
        assert(("")@ =~= Seq::<char>::empty());
        assert(s@ =~= spec_onix21(*w, dialect));
    }
    s
}

/// The deposit role attribute of a contribution role.
pub open spec fn spec_deposit_role(r: ContributionRole) -> Seq<char> {
    match r {
        ContributionRole::Author => ("author")@,
        ContributionRole::Editor => ("editor")@,
        ContributionRole::Translator => ("translator")@,
        _ => ("other")@,
    }
}

fn deposit_role(r: ContributionRole) -> (res: String)
    ensures
        res@ == spec_deposit_role(r),
{
    match r {
        ContributionRole::Author => "author".to_owned(),
        ContributionRole::Editor => "editor".to_owned(),
        ContributionRole::Translator => "translator".to_owned(),
        _ => "other".to_owned(),
    }
}

/// One contributor element of the deposit record; the first
/// contributor in serialization order is marked as such.
pub open spec fn spec_deposit_contrib(c: Contribution, k: int) -> Seq<char> {
    ("<person_name sequence=\"")@ + (if k == 0 {
        ("first")@
    } else {
        ("additional")@
    }) + ("\" contributor_role=\"")@ + spec_deposit_role(c.role) + ("\">")@ + spec_xml_escaped(
        c.full_name@,
    ) + ("</person_name>")@
}

/// The contributor elements of the deposit record, serialization order.
pub open spec fn spec_deposit_contribs(w: Work) -> Seq<Seq<char>> {
    let mapped = spec_mapped_contribs(w.contributions@);
    Seq::new(mapped.len(), |i: int| spec_deposit_contrib(mapped[i], i))
}

/// The rights-deposit rendering of one work: one book record with its
/// title, publication date, identifier data and contributors.
pub open spec fn spec_deposit(w: Work) -> Seq<char> {
    ("<?xml version=\"1.0\" encoding=\"UTF-8\"?><doi_batch><head><depositor>")@ + spec_xml_escaped(
        w.publisher_name@,
    ) + ("</depositor></head><body><book book_type=\"monograph\"><book_metadata><contributors>")@
        + spec_join(spec_deposit_contribs(w), Seq::empty()) + ("</contributors><titles><title>")@
        + spec_xml_escaped(w.full_title@) + ("</title></titles>")@ + (match w.publication_date {
        Some(d) => ("<publication_date><year>")@ + spec_dec4(d.year as nat) + ("</year><month>")@
            + spec_dec2(d.month as nat) + ("</month><day>")@ + spec_dec2(d.day as nat) + (
        "</day></publication_date>")@,
        None => Seq::empty(),
    }) + (match w.license {
        Some(l) => ("<license_ref>")@ + spec_xml_escaped(l@) + ("</license_ref>")@,
        None => Seq::empty(),
    }) + ("<doi_data><doi>")@ + (match w.doi {
        Some(d) => spec_xml_escaped(d@),
        None => Seq::empty(),
    }) + ("</doi><resource>")@ + (match w.landing_page {
        Some(u) => spec_xml_escaped(u@),
        None => Seq::empty(),
    }) + ("</resource></doi_data></book_metadata></book></body></doi_batch>")@
}

fn render_deposit_contribs(w: &Work) -> (r: Vec<String>)
    ensures
        views_of(r@) == spec_deposit_contribs(*w),
{
    let ord = contribution_order(&w.contributions);
    let ghost mapped = spec_mapped_contribs(w.contributions@);
    let mut out: Vec<String> = Vec::new();
    let mut k: usize = 0;
    while k < ord.len()
        invariant
            k <= ord@.len(),
            ord@ == spec_key_sort(contribution_keys(w.contributions@)),
            forall|t: int|
                0 <= t < ord@.len() ==> (#[trigger] ord@[t]).position < w.contributions@.len(),
            mapped == spec_mapped_contribs(w.contributions@),
            out@.len() == k,
            forall|t: int|
                0 <= t < k ==> (#[trigger] out@[t])@ == spec_deposit_contrib(mapped[t], t),
        decreases ord.len() - k,
    {
        let pos = ord[k].position;
        let c = &w.contributions[pos];
        let mut item = "<person_name sequence=\"".to_owned();
        if k == 0 {
            item.append("first");
        } else {
            item.append("additional");
        }
        item.append("\" contributor_role=\"");
        let rc = deposit_role(c.role);
        item.append(rc.as_str());
        item.append("\">");
        append_xml_escaped(&mut item, c.full_name.as_str());
        item.append("</person_name>");
        proof {
            assert(mapped[k as int] == w.contributions@[ord@[k as int].position as int]);
            assert(item@ =~= spec_deposit_contrib(mapped[k as int], k as int));
        }
        out.push(item);
        k += 1;
    }
    proof {
        assert(mapped.len() == ord@.len());
        assert(views_of(out@) =~= spec_deposit_contribs(*w));
    }
    out
}

/// Renders the rights-deposit output of one work.
#[verifier::rlimit(100)]
pub fn render_deposit(w: &Work) -> (r: String)
    requires
        w.wf(),
    ensures
        r@ == spec_deposit(*w),
{
    let mut s = "<?xml version=\"1.0\" encoding=\"UTF-8\"?><doi_batch><head><depositor>".to_owned();
    append_xml_escaped(&mut s, w.publisher_name.as_str());
    s.append(
        "</depositor></head><body><book book_type=\"monograph\"><book_metadata><contributors>",
    );
    let parts = render_deposit_contribs(w);
    let joined = join_with(&parts, "");
    s.append(joined.as_str());
    s.append("</contributors><titles><title>");
    append_xml_escaped(&mut s, w.full_title.as_str());
    s.append("</title></titles>");
    match &w.publication_date {
        Some(d) => {
            s.append("<publication_date><year>");
            let y = dec4(d.year as u64);
            s.append(y.as_str());
            s.append("</year><month>");
            let m = dec2(d.month as u64);
            s.append(m.as_str());
            s.append("</month><day>");
            let day = dec2(d.day as u64);
            s.append(day.as_str());
            s.append("</day></publication_date>");
        },
        None => {},
    }
    match &w.license {
        Some(l) => {
            s.append("<license_ref>");
            append_xml_escaped(&mut s, l.as_str());
            s.append("</license_ref>");
        },
        None => {},
    }
    s.append("<doi_data><doi>");
    match &w.doi {
        Some(d) => append_xml_escaped(&mut s, d.as_str()),
        None => {},
    }
    s.append("</doi><resource>");
    match &w.landing_page {
        Some(u) => append_xml_escaped(&mut s, u.as_str()),
        None => {},
    }
    s.append("</resource></doi_data></book_metadata></book></body></doi_batch>");
    proof {
        reveal_strlit("");
        assert(("")@ =~= Seq::<char>::empty());
        assert(s@ =~= spec_deposit(*w));
    }
    s
}

/// The MARC 21 field lines of one work, shared by the record and
/// markup renderings: leader, identity, identifiers, first author,
/// title, imprint and access location.
pub open spec fn spec_marc_lines(w: Work) -> Seq<char> {
    ("=LDR  00000nam a22000003u 4500\n=001  ")@ + spec_uuid_chars(w.work_id as nat) + ("\n")@ + (
    match spec_first_isbn(w.publications@, true) {
        Some(i) => ("=020  \\\\$a")@ + i + ("\n")@,
        None => Seq::empty(),
    }) + (match w.doi {
        Some(d) => ("=024  7\\$a")@ + d@ + ("$2doi\n")@,
        None => Seq::empty(),
    }) + {
        let authors = spec_author_names(spec_mapped_contribs(w.contributions@));
        if authors.len() > 0 {
            ("=100  1\\$a")@ + authors[0] + ("\n")@
        } else {
            Seq::empty()
        }
    } + ("=245  00$a")@ + w.full_title@ + ("\n=264  \\1$b")@ + w.publisher_name@ + (match w.publication_date {
        Some(d) => ("$c")@ + spec_dec4(d.year as nat),
        None => Seq::empty(),
    }) + ("\n")@ + (match w.landing_page {
        Some(u) => ("=856  40$u")@ + u@ + ("\n")@,
        None => Seq::empty(),
    })
}

/// Renders the MARC 21 field lines of one work.
#[verifier::rlimit(100)]
pub fn render_marc_lines(w: &Work) -> (r: String)
    requires
        w.wf(),
    ensures
        r@ == spec_marc_lines(*w),
{
    let mut s = "=LDR  00000nam a22000003u 4500\n=001  ".to_owned();
    let uid = uuid_hyphenated(w.work_id);
    s.append(uid.as_str());
    s.append("\n");
    match first_isbn(&w.publications, true) {
        Some(i) => {
            s.append("=020  \\\\$a");
            s.append(i.as_str());
            s.append("\n");
        },
        None => {},
    }
    match &w.doi {
        Some(d) => {
            s.append("=024  7\\$a");
            s.append(d.as_str());
            s.append("$2doi\n");
        },
        None => {},
    }
    let authors = collect_author_names(&w.contributions);
    if authors.len() > 0 {
        s.append("=100  1\\$a");
        s.append(authors[0].as_str());
        s.append("\n");
        proof {
            let vs = views_of(authors@);
            assert(vs[0] == authors@[0]@);
        }
    }
    s.append("=245  00$a");
    s.append(w.full_title.as_str());
    s.append("\n=264  \\1$b");
    s.append(w.publisher_name.as_str());
    match &w.publication_date {
        Some(d) => {
            s.append("$c");
            let y = dec4(d.year as u64);
            s.append(y.as_str());
        },
        None => {},
    }
    s.append("\n");
    match &w.landing_page {
        Some(u) => {
            s.append("=856  40$u");
            s.append(u.as_str());
            s.append("\n");
        },
        None => {},
    }
    proof {
        reveal_strlit("\n");
        assert(s@ =~= spec_marc_lines(*w));
    }
    s
}

/// The MARC 21 XML rendering of one work.
pub open spec fn spec_marc_xml(w: Work) -> Seq<char> {
    ("<?xml version=\"1.0\" encoding=\"UTF-8\"?><record><leader>00000nam a22000003u 4500</leader><controlfield tag=\"001\">")@
        + spec_uuid_chars(w.work_id as nat) + ("</controlfield>")@ + (match spec_first_isbn(
        w.publications@,
        true,
    ) {
        Some(i) => ("<datafield tag=\"020\"><subfield code=\"a\">")@ + spec_xml_escaped(i) + (
        "</subfield></datafield>")@,
        None => Seq::empty(),
    }) + (match w.doi {
        Some(d) => ("<datafield tag=\"024\"><subfield code=\"a\">")@ + spec_xml_escaped(d@) + (
        "</subfield></datafield>")@,
        None => Seq::empty(),
    }) + {
        let authors = spec_author_names(spec_mapped_contribs(w.contributions@));
        if authors.len() > 0 {
            ("<datafield tag=\"100\"><subfield code=\"a\">")@ + spec_xml_escaped(authors[0]) + (
            "</subfield></datafield>")@
        } else {
            Seq::empty()
        }
    } + ("<datafield tag=\"245\"><subfield code=\"a\">")@ + spec_xml_escaped(w.full_title@) + (
    "</subfield></datafield><datafield tag=\"264\"><subfield code=\"b\">")@ + spec_xml_escaped(
        w.publisher_name@,
    ) + ("</subfield>")@ + (match w.publication_date {
        Some(d) => ("<subfield code=\"c\">")@ + spec_dec4(d.year as nat) + ("</subfield>")@,
        None => Seq::empty(),
    }) + ("</datafield>")@ + (match w.landing_page {
        Some(u) => ("<datafield tag=\"856\"><subfield code=\"u\">")@ + spec_xml_escaped(u@) + (
        "</subfield></datafield>")@,
        None => Seq::empty(),
    }) + ("</record>")@
}

/// Renders the MARC 21 XML output of one work.
#[verifier::rlimit(100)]
pub fn render_marc_xml(w: &Work) -> (r: String)
    requires
        w.wf(),
    ensures
        r@ == spec_marc_xml(*w),
{
    let mut s =
        "<?xml version=\"1.0\" encoding=\"UTF-8\"?><record><leader>00000nam a22000003u 4500</leader><controlfield tag=\"001\">".to_owned();
    let uid = uuid_hyphenated(w.work_id);
    s.append(uid.as_str());
    s.append("</controlfield>");
    match first_isbn(&w.publications, true) {
        Some(i) => {
            s.append("<datafield tag=\"020\"><subfield code=\"a\">");
            append_xml_escaped(&mut s, i.as_str());
            s.append("</subfield></datafield>");
        },
        None => {},
    }
    match &w.doi {
        Some(d) => {
            s.append("<datafield tag=\"024\"><subfield code=\"a\">");
            append_xml_escaped(&mut s, d.as_str());
            s.append("</subfield></datafield>");
        },
        None => {},
    }
    let authors = collect_author_names(&w.contributions);
    if authors.len() > 0 {
        s.append("<datafield tag=\"100\"><subfield code=\"a\">");
        append_xml_escaped(&mut s, authors[0].as_str());
        s.append("</subfield></datafield>");
        proof {
            let vs = views_of(authors@);
            assert(vs[0] == authors@[0]@);
        }
    }
    s.append("<datafield tag=\"245\"><subfield code=\"a\">");
    append_xml_escaped(&mut s, w.full_title.as_str());
    s.append("</subfield></datafield><datafield tag=\"264\"><subfield code=\"b\">");
    append_xml_escaped(&mut s, w.publisher_name.as_str());
    s.append("</subfield>");
    match &w.publication_date {
        Some(d) => {
            s.append("<subfield code=\"c\">");
            let y = dec4(d.year as u64);
            s.append(y.as_str());
            s.append("</subfield>");
        },
        None => {},
    }
    s.append("</datafield>");
    match &w.landing_page {
        Some(u) => {
            s.append("<datafield tag=\"856\"><subfield code=\"u\">");
            append_xml_escaped(&mut s, u.as_str());
            s.append("</subfield></datafield>");
        },
        None => {},
    }
    s.append("</record>");
    proof {
        assert(s@ =~= spec_marc_xml(*w));
    }
    s
}

} // verus!
