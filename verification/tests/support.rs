//! Behaviour of the supporting pieces: the registry, license
//! recognition, dates, identifiers, ordering, retry parameters and
//! error reporting.

use thoth_export::dialect::export_endpoint;
use thoth_export::dialect::resolve;
use thoth_export::dialect::specification_id;
use thoth_export::dialect::Dialect;
use thoth_export::dialect::FormatFamily;
use thoth_export::error::ExportError;
use thoth_export::error::Field;
use thoth_export::coordinator::work_request_from_text;
use thoth_export::coordinator::RequestTarget;
use thoth_export::license::License;
use std::str::FromStr;
use thoth_export::model::Date;
use thoth_export::model::StatusTag;
use thoth_export::model::Work;
use thoth_export::model::WorkStatus;
use thoth_export::model::WorkType;
use thoth_export::order::order_page;
use thoth_export::resolver::backoff_ms;
use thoth_export::resolver::latest_update;
use thoth_export::resolver::may_retry;
use thoth_export::text::dec_u64;
use thoth_export::text::str_eq;
use thoth_export::text::uuid_hyphenated;
use thoth_export::max_fetch_attempts;

fn bare_work(id: u128, updated_at: i64) -> Work {
    Work {
        work_id: id,
        work_type: WorkType::Monograph,
        work_status: WorkStatus::Active,
        title: "T".to_string(),
        subtitle: None,
        full_title: "T".to_string(),
        doi: None,
        publication_date: None,
        place: None,
        landing_page: None,
        cover_url: None,
        license: None,
        imprint_name: "I".to_string(),
        publisher_name: "P".to_string(),
        publisher_id: 0,
        updated_at,
        contributions: vec![],
        subjects: vec![],
        languages: vec![],
        series: None,
        publications: vec![],
    }
}

#[test]
fn registry_resolves_every_registered_pair() {
    let pairs = vec![
        (FormatFamily::Onix3, Dialect::Thoth),
        (FormatFamily::Onix3, Dialect::ProjectMuse),
        (FormatFamily::Onix3, Dialect::Oapen),
        (FormatFamily::Onix3, Dialect::Jstor),
        (FormatFamily::Onix3, Dialect::GoogleBooks),
        (FormatFamily::Onix3, Dialect::Overdrive),
        (FormatFamily::Onix21, Dialect::EbscoHost),
        (FormatFamily::Onix21, Dialect::ProquestEbrary),
        (FormatFamily::Csv, Dialect::Thoth),
        (FormatFamily::Json, Dialect::Thoth),
        (FormatFamily::Kbart, Dialect::Oclc),
        (FormatFamily::Bibtex, Dialect::Thoth),
        (FormatFamily::DoiDeposit, Dialect::Crossref),
        (FormatFamily::Marc21Record, Dialect::Thoth),
        (FormatFamily::Marc21Markup, Dialect::Thoth),
        (FormatFamily::Marc21Xml, Dialect::Thoth),
    ];
    for (family, dialect) in pairs {
        let desc = resolve(family, dialect).unwrap();
        assert_eq!(desc.family, family);
        assert_eq!(desc.dialect, dialect);
        assert!(!desc.content_type.is_empty());
    }
}

#[test]
fn registry_rejects_unregistered_pairs() {
    let r = resolve(FormatFamily::Kbart, Dialect::Thoth);
    match r {
        Err(ExportError::UnsupportedDialect { family, dialect }) => {
            assert_eq!(family, FormatFamily::Kbart);
            assert_eq!(dialect, Dialect::Thoth);
        },
        other => panic!("expected an unsupported-dialect error, got {:?}", other),
    }
    assert!(resolve(FormatFamily::DoiDeposit, Dialect::Oclc).is_err());
    assert!(resolve(FormatFamily::Onix21, Dialect::Thoth).is_err());
}

#[test]
fn specification_ids_match_exposed_names() {
    assert_eq!(specification_id(FormatFamily::Onix3, Dialect::ProjectMuse), "onix_3.0::project_muse");
    assert_eq!(specification_id(FormatFamily::Csv, Dialect::Thoth), "csv::thoth");
    assert_eq!(specification_id(FormatFamily::Kbart, Dialect::Oclc), "kbart::oclc");
    assert_eq!(specification_id(FormatFamily::DoiDeposit, Dialect::Crossref), "doideposit::crossref");
}

#[test]
fn endpoint_urls_follow_the_exposed_layout() {
    let url = export_endpoint("http://localhost:8181", FormatFamily::Onix3, Dialect::ProjectMuse, 1);
    assert_eq!(
        url,
        "http://localhost:8181/specifications/onix_3.0::project_muse/work/00000000-0000-0000-0000-000000000001"
    );
    let url2 = export_endpoint("http://localhost:8181", FormatFamily::Marc21Xml, Dialect::Thoth, 1);
    assert_eq!(
        url2,
        "http://localhost:8181/specifications/marc21xml::thoth/work/00000000-0000-0000-0000-000000000001"
    );
}

#[test]
fn license_urls_recognised_for_every_kind() {
    assert_eq!(License::from_url("https://creativecommons.org/licenses/by/4.0/"), License::By);
    assert_eq!(License::from_url("http://creativecommons.org/licenses/by/1.0/"), License::By);
    assert_eq!(License::from_url("https://creativecommons.org/licenses/by-sa/3.0/"), License::BySa);
    assert_eq!(License::from_url("http://creativecommons.org/licenses/by-nd/2.5/"), License::ByNd);
    assert_eq!(License::from_url("https://creativecommons.org/licenses/by-nc/2.0/"), License::ByNc);
    assert_eq!(
        License::from_url("http://creativecommons.org/licenses/by-nc-sa/2.5/"),
        License::ByNcSa
    );
    assert_eq!(
        License::from_url("https://creativecommons.org/licenses/by-nc-nd/4.0/"),
        License::ByNcNd
    );
    assert_eq!(
        License::from_url("https://creativecommons.org/publicdomain/zero/1.0/"),
        License::Zero
    );
}

#[test]
fn license_parses_through_the_standard_trait() {
    let l = License::from_str("https://creativecommons.org/licenses/by-nc-nd/3.0/").unwrap();
    assert_eq!(l, License::ByNcNd);
    let u = License::from_str("something else").unwrap();
    assert_eq!(u, License::Undefined);
}

#[test]
fn unknown_license_urls_map_to_undefined() {
    assert_eq!(License::from_url(""), License::Undefined);
    assert_eq!(License::from_url("https://example.com/license"), License::Undefined);
    // a recognised code under an unrecognised version stays undefined
    assert_eq!(
        License::from_url("https://creativecommons.org/licenses/by/5.0/"),
        License::Undefined
    );
}

#[test]
fn dates_accept_exactly_the_calendar() {
    assert!(Date::new(2024, 2, 29).is_some());
    assert!(Date::new(2023, 2, 29).is_none());
    assert!(Date::new(1900, 2, 29).is_none());
    assert!(Date::new(2000, 2, 29).is_some());
    assert!(Date::new(2023, 4, 31).is_none());
    assert!(Date::new(2023, 12, 31).is_some());
    assert!(Date::new(2023, 0, 1).is_none());
    assert!(Date::new(2023, 1, 0).is_none());
    assert!(Date::new(0, 1, 1).is_none());
    // agreement with the calendar library on a sample of days
    for (y, m, d) in [(2021u16, 2u8, 28u8), (2021, 2, 29), (2100, 2, 29), (1999, 6, 31)] {
        assert_eq!(
            Date::new(y, m, d).is_some(),
            chrono::NaiveDate::from_ymd_opt(y as i32, m as u32, d as u32).is_some()
        );
    }
}

#[test]
fn identifier_rendering_round_trips_through_parser() {
    let ids: Vec<u128> = vec![0, 1, 0xdeadbeef, u128::MAX, 0x0123456789abcdef0123456789abcdef];
    for id in ids {
        let text = uuid_hyphenated(id);
        let parsed = uuid::Uuid::parse_str(&text).unwrap();
        assert_eq!(parsed.as_u128(), id);
    }
}

#[test]
fn work_requests_built_only_from_valid_identifiers() {
    let r = work_request_from_text(
        "00000000-0000-0000-0000-000000000001",
        FormatFamily::Csv,
        Dialect::Thoth,
    );
    let q = r.unwrap();
    assert_eq!(q.target, RequestTarget::WorkById(1));
    assert_eq!(q.family, FormatFamily::Csv);
    assert_eq!(q.dialect, Dialect::Thoth);
    assert!(work_request_from_text("not-an-identifier", FormatFamily::Csv, Dialect::Thoth).is_none());
}

#[test]
fn page_ordering_is_by_timestamp_then_identity() {
    let works = vec![bare_work(3, 200), bare_work(1, 100), bare_work(2, 100)];
    let ordered = order_page(works);
    let ids: Vec<u128> = ordered.iter().map(|w| w.work_id).collect();
    assert_eq!(ids, vec![1, 2, 3]);
}

#[test]
fn latest_update_is_the_maximum_timestamp() {
    assert_eq!(latest_update(&vec![]), None);
    let works = vec![bare_work(1, 100), bare_work(2, 300), bare_work(3, 200)];
    assert_eq!(latest_update(&works), Some(300));
}

#[test]
fn retry_parameters_follow_the_curve() {
    assert_eq!(max_fetch_attempts(), 5);
    assert_eq!(backoff_ms(0), 100);
    assert_eq!(backoff_ms(1), 200);
    assert_eq!(backoff_ms(4), 1600);
    assert_eq!(backoff_ms(9), 12800);
    assert!(may_retry(2, 5));
    assert!(!may_retry(5, 5));
}

#[test]
fn status_tags_mark_problem_statuses_only() {
    let tag: StatusTag = WorkStatus::Cancelled.status_tag().unwrap();
    assert_eq!(tag.label, "Cancelled");
    assert_eq!(tag.class, "is-danger");
    let tag = WorkStatus::Forthcoming.status_tag().unwrap();
    assert_eq!(tag.label, "Forthcoming");
    assert_eq!(tag.class, "is-warning");
    let tag = WorkStatus::PostponedIndefinitely.status_tag().unwrap();
    assert_eq!(tag.label, "Postponed");
    let tag = WorkStatus::WithdrawnFromSale.status_tag().unwrap();
    assert_eq!(tag.label, "Withdrawn");
    assert!(WorkStatus::Active.status_tag().is_none());
    assert!(WorkStatus::Unspecified.status_tag().is_none());
    assert!(WorkStatus::Unknown.status_tag().is_none());
}

#[test]
fn cover_alt_text_extends_the_title() {
    let w = bare_work(1, 0);
    assert_eq!(w.cover_alt_text(), "T - Cover Image");
}

#[test]
fn failure_descriptions_name_the_cause() {
    assert_eq!(ExportError::NotFound.describe(), "work not found");
    let e = ExportError::UnsupportedDialect { family: FormatFamily::Csv, dialect: Dialect::Oclc };
    assert_eq!(e.describe(), "unsupported dialect: csv::oclc");
    let v = ExportError::ValidationFailed {
        fields: vec![Field::Doi, Field::PublicationDate],
    };
    assert_eq!(v.describe(), "validation failed, missing fields: doi, publication_date");
    assert_eq!(
        ExportError::UpstreamUnavailable.describe(),
        "upstream metadata provider unavailable"
    );
}

#[test]
fn text_helpers_render_exactly() {
    assert!(str_eq("abc", "abc"));
    assert!(!str_eq("abc", "abd"));
    assert!(!str_eq("abc", "ab"));
    assert_eq!(dec_u64(0), "0");
    assert_eq!(dec_u64(907), "907");
    assert_eq!(dec_u64(u64::MAX), "18446744073709551615");
    assert_eq!(uuid_hyphenated(u128::MAX), "ffffffff-ffff-ffff-ffff-ffffffffffff");
}
