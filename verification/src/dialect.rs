//! The dialect registry: the closed space of (format family, dialect)
//! pairs the engine can serve, the content type of each, and the
//! specification identifier under which the boundary layer exposes it.

use vstd::prelude::*;
use vstd::string::*;

use crate::error::ExportError;
use crate::text::spec_uuid_chars;
use crate::text::uuid_hyphenated;

verus! {

/// Broad output format category.
#[derive(Clone, Copy, Debug, PartialEq, Eq, Structural)]
pub enum FormatFamily {
    Onix3,
    Onix21,
    Csv,
    Json,
    Kbart,
    Bibtex,
    DoiDeposit,
    Marc21Record,
    Marc21Markup,
    Marc21Xml,
}

/// Consumer profile within a format family.
#[derive(Clone, Copy, Debug, PartialEq, Eq, Structural)]
pub enum Dialect {
    Thoth,
    ProjectMuse,
    Oapen,
    Jstor,
    GoogleBooks,
    Overdrive,
    EbscoHost,
    ProquestEbrary,
    Oclc,
    Crossref,
}

/// The registered (family, dialect) pairs. Exactly these resolve to a
/// descriptor; every other pair is an unsupported-dialect error.
pub open spec fn spec_supported(family: FormatFamily, dialect: Dialect) -> bool {
    match family {
        FormatFamily::Onix3 => match dialect {
            Dialect::Thoth
            | Dialect::ProjectMuse
            | Dialect::Oapen
            | Dialect::Jstor
            | Dialect::GoogleBooks
            | Dialect::Overdrive => true,
            _ => false,
        },
        FormatFamily::Onix21 => match dialect {
            Dialect::EbscoHost | Dialect::ProquestEbrary => true,
            _ => false,
        },
        FormatFamily::Csv => dialect == Dialect::Thoth,
        FormatFamily::Json => dialect == Dialect::Thoth,
        FormatFamily::Kbart => dialect == Dialect::Oclc,
        FormatFamily::Bibtex => dialect == Dialect::Thoth,
        FormatFamily::DoiDeposit => dialect == Dialect::Crossref,
        FormatFamily::Marc21Record => dialect == Dialect::Thoth,
        FormatFamily::Marc21Markup => dialect == Dialect::Thoth,
        FormatFamily::Marc21Xml => dialect == Dialect::Thoth,
    }
}

/// The content type every dialect of a family is delivered under.
pub open spec fn spec_content_type(family: FormatFamily) -> Seq<char> {
    match family {
        FormatFamily::Onix3 => ("application/xml")@,
        FormatFamily::Onix21 => ("application/xml")@,
        FormatFamily::Csv => ("text/csv")@,
        FormatFamily::Json => ("application/json")@,
        FormatFamily::Kbart => ("text/tab-separated-values")@,
        FormatFamily::Bibtex => ("application/x-bibtex")@,
        FormatFamily::DoiDeposit => ("application/xml")@,
        FormatFamily::Marc21Record => ("application/marc")@,
        FormatFamily::Marc21Markup => ("text/plain")@,
        FormatFamily::Marc21Xml => ("application/marc+xml")@,
    }
}

/// What a registered pair resolves to: its tags and content type.
#[derive(Debug)]
pub struct DialectDescriptor {
    pub family: FormatFamily,
    pub dialect: Dialect,
    pub content_type: String,
}

/// A descriptor carries exactly the data the registry assigns to the
/// pair it was resolved for.
pub open spec fn descriptor_matches(
    desc: DialectDescriptor,
    family: FormatFamily,
    dialect: Dialect,
) -> bool {
    &&& desc.family == family
    &&& desc.dialect == dialect
    &&& desc.content_type@ == spec_content_type(family)
}

/// Renders the content type of a family.
pub fn content_type_of(family: FormatFamily) -> (r: String)
    ensures
        r@ == spec_content_type(family),
{
    match family {
        FormatFamily::Onix3 => "application/xml".to_owned(),
        FormatFamily::Onix21 => "application/xml".to_owned(),
        FormatFamily::Csv => "text/csv".to_owned(),
        FormatFamily::Json => "application/json".to_owned(),
        FormatFamily::Kbart => "text/tab-separated-values".to_owned(),
        FormatFamily::Bibtex => "application/x-bibtex".to_owned(),
        FormatFamily::DoiDeposit => "application/xml".to_owned(),
        FormatFamily::Marc21Record => "application/marc".to_owned(),
        FormatFamily::Marc21Markup => "text/plain".to_owned(),
        FormatFamily::Marc21Xml => "application/marc+xml".to_owned(),
    }
}

/// Checks whether a pair is registered.
pub fn is_supported(family: FormatFamily, dialect: Dialect) -> (r: bool)
    ensures
        r == spec_supported(family, dialect),
{
    match family {
        FormatFamily::Onix3 => match dialect {
            Dialect::Thoth
            | Dialect::ProjectMuse
            | Dialect::Oapen
            | Dialect::Jstor
            | Dialect::GoogleBooks
            | Dialect::Overdrive => true,
            _ => false,
        },
        FormatFamily::Onix21 => match dialect {
            Dialect::EbscoHost | Dialect::ProquestEbrary => true,
            _ => false,
        },
        FormatFamily::Csv => dialect == Dialect::Thoth,
        FormatFamily::Json => dialect == Dialect::Thoth,
        FormatFamily::Kbart => dialect == Dialect::Oclc,
        FormatFamily::Bibtex => dialect == Dialect::Thoth,
        FormatFamily::DoiDeposit => dialect == Dialect::Crossref,
        FormatFamily::Marc21Record => dialect == Dialect::Thoth,
        FormatFamily::Marc21Markup => dialect == Dialect::Thoth,
        FormatFamily::Marc21Xml => dialect == Dialect::Thoth,
    }
}

/// Resolves a requested pair against the registry: a registered pair
/// yields its descriptor, any other pair the unsupported-dialect error
/// carrying the requested tags.
pub fn resolve(family: FormatFamily, dialect: Dialect) -> (r: Result<
    DialectDescriptor,
    ExportError,
>)
    ensures
        spec_supported(family, dialect) ==> (r matches Ok(desc) && descriptor_matches(
            desc,
            family,
            dialect,
        )),
        !spec_supported(family, dialect) ==> (r matches Err(
            ExportError::UnsupportedDialect { family: f, dialect: d },
        ) && f == family && d == dialect),
{
    if is_supported(family, dialect) {
        Ok(DialectDescriptor { family, dialect, content_type: content_type_of(family) })
    } else {
        Err(ExportError::UnsupportedDialect { family, dialect })
    }
}

/// Registry closure: a registered pair resolves to exactly one
/// descriptor. Any two descriptors valid for the same pair agree on
/// their tags and content type, and resolving an unregistered pair is
/// pinned by `resolve` to the unsupported-dialect error.
pub proof fn lemma_registry_closure(
    c1: DialectDescriptor,
    c2: DialectDescriptor,
    family: FormatFamily,
    dialect: Dialect,
)
    requires
        descriptor_matches(c1, family, dialect),
        descriptor_matches(c2, family, dialect),
    ensures
        c1.family == c2.family,
        c1.dialect == c2.dialect,
        c1.content_type@ == c2.content_type@,
{
}

/// The identifier of a format family alone.
pub open spec fn spec_family_id(family: FormatFamily) -> Seq<char> {
    match family {
        FormatFamily::Onix3 => ("onix_3.0")@,
        FormatFamily::Onix21 => ("onix_2.1")@,
        FormatFamily::Csv => ("csv")@,
        FormatFamily::Json => ("json")@,
        FormatFamily::Kbart => ("kbart")@,
        FormatFamily::Bibtex => ("bibtex")@,
        FormatFamily::DoiDeposit => ("doideposit")@,
        FormatFamily::Marc21Record => ("marc21record")@,
        FormatFamily::Marc21Markup => ("marc21markup")@,
        FormatFamily::Marc21Xml => ("marc21xml")@,
    }
}

/// Renders the identifier of a format family.
pub fn family_id(family: FormatFamily) -> (r: String)
    ensures
        r@ == spec_family_id(family),
{
    match family {
        FormatFamily::Onix3 => "onix_3.0".to_owned(),
        FormatFamily::Onix21 => "onix_2.1".to_owned(),
        FormatFamily::Csv => "csv".to_owned(),
        FormatFamily::Json => "json".to_owned(),
        FormatFamily::Kbart => "kbart".to_owned(),
        FormatFamily::Bibtex => "bibtex".to_owned(),
        FormatFamily::DoiDeposit => "doideposit".to_owned(),
        FormatFamily::Marc21Record => "marc21record".to_owned(),
        FormatFamily::Marc21Markup => "marc21markup".to_owned(),
        FormatFamily::Marc21Xml => "marc21xml".to_owned(),
    }
}

/// The identifier of a dialect alone.
pub open spec fn spec_dialect_id(dialect: Dialect) -> Seq<char> {
    match dialect {
        Dialect::Thoth => ("thoth")@,
        Dialect::ProjectMuse => ("project_muse")@,
        Dialect::Oapen => ("oapen")@,
        Dialect::Jstor => ("jstor")@,
        Dialect::GoogleBooks => ("google_books")@,
        Dialect::Overdrive => ("overdrive")@,
        Dialect::EbscoHost => ("ebsco_host")@,
        Dialect::ProquestEbrary => ("proquest_ebrary")@,
        Dialect::Oclc => ("oclc")@,
        Dialect::Crossref => ("crossref")@,
    }
}

/// Renders the identifier of a dialect.
pub fn dialect_id(dialect: Dialect) -> (r: String)
    ensures
        r@ == spec_dialect_id(dialect),
{
    match dialect {
        Dialect::Thoth => "thoth".to_owned(),
        Dialect::ProjectMuse => "project_muse".to_owned(),
        Dialect::Oapen => "oapen".to_owned(),
        Dialect::Jstor => "jstor".to_owned(),
        Dialect::GoogleBooks => "google_books".to_owned(),
        Dialect::Overdrive => "overdrive".to_owned(),
        Dialect::EbscoHost => "ebsco_host".to_owned(),
        Dialect::ProquestEbrary => "proquest_ebrary".to_owned(),
        Dialect::Oclc => "oclc".to_owned(),
        Dialect::Crossref => "crossref".to_owned(),
    }
}

/// The identifier under which a registered pair is exposed, written
/// family first, profile second.
pub open spec fn spec_specification_id(family: FormatFamily, dialect: Dialect) -> Seq<char> {
    match (family, dialect) {
        (FormatFamily::Onix3, Dialect::Thoth) => ("onix_3.0::thoth")@,
        (FormatFamily::Onix3, Dialect::ProjectMuse) => ("onix_3.0::project_muse")@,
        (FormatFamily::Onix3, Dialect::Oapen) => ("onix_3.0::oapen")@,
        (FormatFamily::Onix3, Dialect::Jstor) => ("onix_3.0::jstor")@,
        (FormatFamily::Onix3, Dialect::GoogleBooks) => ("onix_3.0::google_books")@,
        (FormatFamily::Onix3, Dialect::Overdrive) => ("onix_3.0::overdrive")@,
        (FormatFamily::Onix21, Dialect::EbscoHost) => ("onix_2.1::ebsco_host")@,
        (FormatFamily::Onix21, Dialect::ProquestEbrary) => ("onix_2.1::proquest_ebrary")@,
        (FormatFamily::Csv, Dialect::Thoth) => ("csv::thoth")@,
        (FormatFamily::Json, Dialect::Thoth) => ("json::thoth")@,
        (FormatFamily::Kbart, Dialect::Oclc) => ("kbart::oclc")@,
        (FormatFamily::Bibtex, Dialect::Thoth) => ("bibtex::thoth")@,
        (FormatFamily::DoiDeposit, Dialect::Crossref) => ("doideposit::crossref")@,
        (FormatFamily::Marc21Record, Dialect::Thoth) => ("marc21record::thoth")@,
        (FormatFamily::Marc21Markup, Dialect::Thoth) => ("marc21markup::thoth")@,
        (FormatFamily::Marc21Xml, Dialect::Thoth) => ("marc21xml::thoth")@,
        _ => Seq::empty(),
    }
}

/// Renders the specification identifier of a registered pair.
pub fn specification_id(family: FormatFamily, dialect: Dialect) -> (r: String)
    requires
        spec_supported(family, dialect),
    ensures
        r@ == spec_specification_id(family, dialect),
{
    match (family, dialect) {
        (FormatFamily::Onix3, Dialect::Thoth) => "onix_3.0::thoth".to_owned(),
        (FormatFamily::Onix3, Dialect::ProjectMuse) => "onix_3.0::project_muse".to_owned(),
        (FormatFamily::Onix3, Dialect::Oapen) => "onix_3.0::oapen".to_owned(),
        (FormatFamily::Onix3, Dialect::Jstor) => "onix_3.0::jstor".to_owned(),
        (FormatFamily::Onix3, Dialect::GoogleBooks) => "onix_3.0::google_books".to_owned(),
        (FormatFamily::Onix3, Dialect::Overdrive) => "onix_3.0::overdrive".to_owned(),
        (FormatFamily::Onix21, Dialect::EbscoHost) => "onix_2.1::ebsco_host".to_owned(),
        (FormatFamily::Onix21, Dialect::ProquestEbrary) => "onix_2.1::proquest_ebrary".to_owned(),
        (FormatFamily::Csv, Dialect::Thoth) => "csv::thoth".to_owned(),
        (FormatFamily::Json, Dialect::Thoth) => "json::thoth".to_owned(),
        (FormatFamily::Kbart, Dialect::Oclc) => "kbart::oclc".to_owned(),
        (FormatFamily::Bibtex, Dialect::Thoth) => "bibtex::thoth".to_owned(),
        (FormatFamily::DoiDeposit, Dialect::Crossref) => "doideposit::crossref".to_owned(),
        (FormatFamily::Marc21Record, Dialect::Thoth) => "marc21record::thoth".to_owned(),
        (FormatFamily::Marc21Markup, Dialect::Thoth) => "marc21markup::thoth".to_owned(),
        _ => "marc21xml::thoth".to_owned(),
    }
}

/// The public URL one work's export in one registered pair is served
/// from, under a given base URL.
pub open spec fn spec_export_endpoint(
    base: Seq<char>,
    family: FormatFamily,
    dialect: Dialect,
    work_id: nat,
) -> Seq<char> {
    base + ("/specifications/")@ + spec_specification_id(family, dialect) + ("/work/")@
        + spec_uuid_chars(work_id)
}

/// Builds the export endpoint URL for one work and one registered pair.
pub fn export_endpoint(base: &str, family: FormatFamily, dialect: Dialect, work_id: u128) -> (r:
    String)
    requires
        spec_supported(family, dialect),
    ensures
        r@ == spec_export_endpoint(base@, family, dialect, work_id as nat),
{
    let mut s = base.to_owned();
    s.append("/specifications/");
    let id = specification_id(family, dialect);
    s.append(id.as_str());
    s.append("/work/");
    let uid = uuid_hyphenated(work_id);
    s.append(uid.as_str());
    proof {
        assert(s@ =~= spec_export_endpoint(base@, family, dialect, work_id as nat));
    }
    s
}

} // verus!
