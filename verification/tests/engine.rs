//! End-to-end behaviour of the export engine: encoding scenarios,
//! validation failures, coordinator sequencing and retry behaviour.

use thoth_export::coordinator::export_outcomes;
use thoth_export::coordinator::export_resolved;
use thoth_export::coordinator::ExportRequest;
use thoth_export::coordinator::RequestTarget;
use thoth_export::dialect::Dialect;
use thoth_export::dialect::FormatFamily;
use thoth_export::encode::encode;
use thoth_export::error::ExportError;
use thoth_export::error::Field;
use thoth_export::model::Contribution;
use thoth_export::model::Language;
use thoth_export::model::LanguageRelation;
use thoth_export::model::Subject;
use thoth_export::model::SubjectType;
use thoth_export::model::ContributionRole;
use thoth_export::model::Date;
use thoth_export::model::Publication;
use thoth_export::model::PublicationFormat;
use thoth_export::model::Work;
use thoth_export::model::WorkStatus;
use thoth_export::model::WorkType;
use thoth_export::resolver::resolve_outcomes;
use thoth_export::resolver::FetchOutcome;

fn sample_work() -> Work {
    Work {
        work_id: 1,
        work_type: WorkType::Monograph,
        work_status: WorkStatus::Active,
        title: "Test Book".to_string(),
        subtitle: None,
        full_title: "Test Book".to_string(),
        doi: Some("10.1000/xyz".to_string()),
        publication_date: Some(Date::new(2023, 5, 1).unwrap()),
        place: Some("Utrecht".to_string()),
        landing_page: None,
        cover_url: None,
        license: Some("https://creativecommons.org/licenses/by/4.0/".to_string()),
        imprint_name: "Test Imprint".to_string(),
        publisher_name: "Test Press".to_string(),
        publisher_id: 7,
        updated_at: 1700000000,
        contributions: vec![Contribution {
            role: ContributionRole::Author,
            ordinal: 1,
            full_name: "Alice Author".to_string(),
        }],
        subjects: vec![],
        languages: vec![],
        series: None,
        publications: vec![],
    }
}

fn csv_request() -> ExportRequest {
    ExportRequest {
        target: RequestTarget::WorkById(1),
        family: FormatFamily::Csv,
        dialect: Dialect::Thoth,
    }
}

#[test]
fn csv_row_carries_doi_unquoted_and_author() {
    let w = sample_work();
    let out = encode(&w, FormatFamily::Csv, Dialect::Thoth).unwrap();
    assert_eq!(out.content_type, "text/csv");
    let expected = "work_id,full_title,work_type,work_status,doi,publisher,publication_date,contributions\n\
        00000000-0000-0000-0000-000000000001,Test Book,MONOGRAPH,ACTIVE,10.1000/xyz,Test Press,2023-05-01,Alice Author\n";
    assert_eq!(out.body, expected);
    // the DOI appears verbatim, without quotes around it
    assert!(out.body.contains(",10.1000/xyz,"));
    assert!(!out.body.contains("\"10.1000/xyz\""));
    assert!(out.body.contains("Alice Author"));
}

#[test]
fn rights_deposit_requires_publication_date() {
    let mut w = sample_work();
    w.publication_date = None;
    let r = encode(&w, FormatFamily::DoiDeposit, Dialect::Crossref);
    match r {
        Err(ExportError::ValidationFailed { fields }) => {
            assert_eq!(fields, vec![Field::PublicationDate]);
            assert_eq!(fields[0].name(), "publication_date");
        },
        other => panic!("expected a validation failure, got {:?}", other),
    }
}

#[test]
fn missing_work_reported_before_dialect_resolution() {
    // the requested pair is not registered, yet the absent work wins
    let request = ExportRequest {
        target: RequestTarget::WorkById(42),
        family: FormatFamily::Csv,
        dialect: Dialect::Crossref,
    };
    let r = export_resolved(&request, Err(ExportError::NotFound));
    assert_eq!(r, Err(ExportError::NotFound));
    let (r2, attempts) = export_outcomes(&request, vec![FetchOutcome::Missing], 5);
    assert_eq!(r2, Err(ExportError::NotFound));
    assert_eq!(attempts, 1);
}

#[test]
fn unsupported_pair_reported_for_present_work() {
    let request = ExportRequest {
        target: RequestTarget::WorkById(1),
        family: FormatFamily::Csv,
        dialect: Dialect::Crossref,
    };
    let r = export_resolved(&request, Ok(sample_work()));
    match r {
        Err(ExportError::UnsupportedDialect { family, dialect }) => {
            assert_eq!(family, FormatFamily::Csv);
            assert_eq!(dialect, Dialect::Crossref);
        },
        other => panic!("expected an unsupported-dialect error, got {:?}", other),
    }
}

#[test]
fn transient_failures_retried_until_success() {
    let outcomes = vec![
        FetchOutcome::Transient,
        FetchOutcome::Transient,
        FetchOutcome::Found(sample_work()),
    ];
    let (r, attempts) = resolve_outcomes(outcomes, 5);
    assert!(r.is_ok());
    assert_eq!(attempts, 3);
    assert!(attempts <= 5);
}

#[test]
fn transient_failures_exhaust_retry_budget() {
    let outcomes = vec![
        FetchOutcome::Transient,
        FetchOutcome::Transient,
        FetchOutcome::Transient,
        FetchOutcome::Found(sample_work()),
    ];
    let (r, attempts) = resolve_outcomes(outcomes, 3);
    assert_eq!(r, Err(ExportError::UpstreamUnavailable));
    assert_eq!(attempts, 3);
}

#[test]
fn malformed_response_not_retried() {
    let outcomes = vec![FetchOutcome::Malformed, FetchOutcome::Found(sample_work())];
    let (r, attempts) = resolve_outcomes(outcomes, 5);
    assert_eq!(r, Err(ExportError::MalformedUpstreamResponse));
    assert_eq!(attempts, 1);
}

#[test]
fn full_pipeline_retries_then_encodes() {
    let request = csv_request();
    let outcomes = vec![
        FetchOutcome::Transient,
        FetchOutcome::Transient,
        FetchOutcome::Found(sample_work()),
    ];
    let (r, attempts) = export_outcomes(&request, outcomes, 5);
    let out = r.unwrap();
    assert_eq!(attempts, 3);
    assert_eq!(out.content_type, "text/csv");
    assert_eq!(out.request, request);
}

#[test]
fn same_work_two_dialects_distinct_content_types() {
    let w1 = sample_work();
    let w2 = sample_work();
    let csv = encode(&w1, FormatFamily::Csv, Dialect::Thoth).unwrap();
    let json = encode(&w2, FormatFamily::Json, Dialect::Thoth).unwrap();
    assert_eq!(csv.content_type, "text/csv");
    assert_eq!(json.content_type, "application/json");
    assert_ne!(csv.content_type, json.content_type);
}

#[test]
fn encoding_is_deterministic() {
    let w = sample_work();
    let a = encode(&w, FormatFamily::Json, Dialect::Thoth).unwrap();
    let b = encode(&w, FormatFamily::Json, Dialect::Thoth).unwrap();
    assert_eq!(a.body, b.body);
    assert_eq!(a.content_type, b.content_type);
    let c = encode(&w, FormatFamily::Bibtex, Dialect::Thoth).unwrap();
    let d = encode(&w, FormatFamily::Bibtex, Dialect::Thoth).unwrap();
    assert_eq!(c.body, d.body);
}

fn with_contributions(mut w: Work, contribs: Vec<Contribution>) -> Work {
    w.contributions = contribs;
    w
}

#[test]
fn contributions_listed_by_ordinal_regardless_of_storage_order() {
    let ascending = with_contributions(
        sample_work(),
        vec![
            Contribution {
                role: ContributionRole::Author,
                ordinal: 1,
                full_name: "Alice Author".to_string(),
            },
            Contribution {
                role: ContributionRole::Editor,
                ordinal: 2,
                full_name: "Eve Editor".to_string(),
            },
        ],
    );
    let descending = with_contributions(
        sample_work(),
        vec![
            Contribution {
                role: ContributionRole::Editor,
                ordinal: 2,
                full_name: "Eve Editor".to_string(),
            },
            Contribution {
                role: ContributionRole::Author,
                ordinal: 1,
                full_name: "Alice Author".to_string(),
            },
        ],
    );
    let a = encode(&ascending, FormatFamily::Json, Dialect::Thoth).unwrap();
    let b = encode(&descending, FormatFamily::Json, Dialect::Thoth).unwrap();
    assert_eq!(a.body, b.body);
    let alice = a.body.find("Alice Author").unwrap();
    let eve = a.body.find("Eve Editor").unwrap();
    assert!(alice < eve);
    let x = encode(&ascending, FormatFamily::Onix3, Dialect::Thoth).unwrap();
    let y = encode(&descending, FormatFamily::Onix3, Dialect::Thoth).unwrap();
    assert_eq!(x.body, y.body);
    assert!(x.body.contains(
        "<Contributor><SequenceNumber>1</SequenceNumber><ContributorRole>A01</ContributorRole><PersonName>Alice Author</PersonName></Contributor>"
    ));
    assert!(x.body.contains(
        "<Contributor><SequenceNumber>2</SequenceNumber><ContributorRole>B01</ContributorRole><PersonName>Eve Editor</PersonName></Contributor>"
    ));
}

#[test]
fn empty_title_fails_validation_with_no_output() {
    let mut w = sample_work();
    w.title = String::new();
    w.full_title = String::new();
    let r = encode(&w, FormatFamily::Csv, Dialect::Thoth);
    match r {
        Err(ExportError::ValidationFailed { fields }) => {
            assert_eq!(fields, vec![Field::Title]);
        },
        other => panic!("expected a validation failure, got {:?}", other),
    }
}

#[test]
fn kbart_requires_isbn() {
    let w = sample_work();
    let r = encode(&w, FormatFamily::Kbart, Dialect::Oclc);
    match r {
        Err(ExportError::ValidationFailed { fields }) => {
            assert_eq!(fields, vec![Field::Isbn]);
        },
        other => panic!("expected a validation failure, got {:?}", other),
    }
}

#[test]
fn deposit_rejects_out_of_vocabulary_status() {
    let mut w = sample_work();
    w.work_status = WorkStatus::OutOfPrint;
    let r = encode(&w, FormatFamily::DoiDeposit, Dialect::Crossref);
    match r {
        Err(ExportError::ValidationFailed { fields }) => {
            assert_eq!(fields, vec![Field::WorkStatusCode]);
        },
        other => panic!("expected a validation failure, got {:?}", other),
    }
}

#[test]
fn bibtex_renders_expected_entry() {
    let w = sample_work();
    let out = encode(&w, FormatFamily::Bibtex, Dialect::Thoth).unwrap();
    assert_eq!(out.content_type, "application/x-bibtex");
    let expected = "@book{00000000-0000-0000-0000-000000000001,\n  title = {Test Book},\n  author = {Alice Author},\n  year = {2023},\n  publisher = {Test Press},\n  doi = {10.1000/xyz},\n}\n";
    assert_eq!(out.body, expected);
}

#[test]
fn json_renders_expected_object() {
    let w = sample_work();
    let out = encode(&w, FormatFamily::Json, Dialect::Thoth).unwrap();
    let expected = "{\"workId\":\"00000000-0000-0000-0000-000000000001\",\"fullTitle\":\"Test Book\",\"workType\":\"MONOGRAPH\",\"workStatus\":\"ACTIVE\",\"doi\":\"10.1000/xyz\",\"publicationDate\":\"2023-05-01\",\"publisher\":\"Test Press\",\"imprint\":\"Test Imprint\",\"contributions\":[{\"fullName\":\"Alice Author\",\"role\":\"AUTHOR\",\"ordinal\":1}]}";
    assert_eq!(out.body, expected);
    // the body is valid structured output
    let parsed: serde_json::Value = serde_json::from_str(&out.body).unwrap();
    assert_eq!(parsed["workId"], "00000000-0000-0000-0000-000000000001");
    assert_eq!(parsed["contributions"][0]["fullName"], "Alice Author");
}

#[test]
fn kbart_renders_expected_row() {
    let mut w = sample_work();
    w.publications = vec![
        Publication {
            format: PublicationFormat::Paperback,
            isbn: Some("978-1-0000-0000-1".to_string()),
            prices: vec![],
        },
        Publication {
            format: PublicationFormat::Pdf,
            isbn: Some("978-1-0000-0000-2".to_string()),
            prices: vec![],
        },
    ];
    let out = encode(&w, FormatFamily::Kbart, Dialect::Oclc).unwrap();
    assert_eq!(out.content_type, "text/tab-separated-values");
    let expected = "publication_title\tprint_identifier\tonline_identifier\tdate_monograph_published_print\tpublication_type\ttitle_id\tfirst_author\ttitle_url\n\
        Test Book\t978-1-0000-0000-1\t978-1-0000-0000-2\t2023-05-01\tmonograph\t10.1000/xyz\tAlice Author\t\n";
    assert_eq!(out.body, expected);
}

#[test]
fn csv_quotes_fields_that_need_it() {
    let mut w = sample_work();
    w.full_title = "Commas, and \"quotes\"".to_string();
    let out = encode(&w, FormatFamily::Csv, Dialect::Thoth).unwrap();
    assert!(out.body.contains("\"Commas, and \"\"quotes\"\"\""));
}

#[test]
fn xml_escapes_markup_characters() {
    let mut w = sample_work();
    w.full_title = "Salt & <Light>".to_string();
    let out = encode(&w, FormatFamily::Onix3, Dialect::Thoth).unwrap();
    assert!(out.body.contains("<TitleText>Salt &amp; &lt;Light&gt;</TitleText>"));
    assert!(!out.body.contains("Salt & <Light>"));
}

#[test]
fn json_escapes_string_characters() {
    let mut w = sample_work();
    w.full_title = "A \"quoted\"\ntitle".to_string();
    let out = encode(&w, FormatFamily::Json, Dialect::Thoth).unwrap();
    assert!(out.body.contains("A \\\"quoted\\\"\\ntitle"));
    let parsed: serde_json::Value = serde_json::from_str(&out.body).unwrap();
    assert_eq!(parsed["fullTitle"], "A \"quoted\"\ntitle");
}

#[test]
fn deposit_renders_date_and_doi() {
    let mut w = sample_work();
    w.landing_page = Some("https://example.com/book".to_string());
    let out = encode(&w, FormatFamily::DoiDeposit, Dialect::Crossref).unwrap();
    assert_eq!(out.content_type, "application/xml");
    assert!(out.body.contains(
        "<publication_date><year>2023</year><month>05</month><day>01</day></publication_date>"
    ));
    assert!(out.body.contains("<doi_data><doi>10.1000/xyz</doi>"));
    assert!(out.body.contains("<resource>https://example.com/book</resource>"));
    assert!(out.body.contains(
        "<person_name sequence=\"first\" contributor_role=\"author\">Alice Author</person_name>"
    ));
}

#[test]
fn marc_renderings_share_fields_and_differ_in_form() {
    let w = sample_work();
    let markup = encode(&w, FormatFamily::Marc21Markup, Dialect::Thoth).unwrap();
    let record = encode(&w, FormatFamily::Marc21Record, Dialect::Thoth).unwrap();
    let xml = encode(&w, FormatFamily::Marc21Xml, Dialect::Thoth).unwrap();
    assert_eq!(markup.content_type, "text/plain");
    assert_eq!(record.content_type, "application/marc");
    assert_eq!(xml.content_type, "application/marc+xml");
    assert!(markup.body.contains("=245  00$aTest Book"));
    assert!(markup.body.contains("=100  1\\$aAlice Author"));
    assert!(markup.body.contains("$c2023"));
    assert!(xml.body.contains("<datafield tag=\"245\"><subfield code=\"a\">Test Book</subfield>"));
}

#[test]
fn onix21_renders_profile_and_status() {
    let mut w = sample_work();
    w.publications = vec![Publication {
        format: PublicationFormat::Hardback,
        isbn: Some("978-1-0000-0000-3".to_string()),
        prices: vec![],
    }];
    let out = encode(&w, FormatFamily::Onix21, Dialect::EbscoHost).unwrap();
    assert_eq!(out.content_type, "application/xml");
    assert!(out.body.contains("<FromCompany>onix_2.1::ebsco_host</FromCompany>"));
    assert!(out.body.contains("<PublishingStatus>04</PublishingStatus>"));
    assert!(out.body.contains("<DOI>10.1000/xyz</DOI>"));
    assert!(out.body.contains("<ISBN>978-1-0000-0000-3</ISBN>"));
}

#[test]
fn onix3_lists_subjects_by_scheme_then_ordinal() {
    let mut w = sample_work();
    w.subjects = vec![
        Subject { subject_type: SubjectType::Keyword, code: "verification".to_string(), ordinal: 1 },
        Subject { subject_type: SubjectType::Bic, code: "UMZ".to_string(), ordinal: 2 },
        Subject { subject_type: SubjectType::Bic, code: "UYF".to_string(), ordinal: 1 },
    ];
    w.languages = vec![Language {
        code: "eng".to_string(),
        relation: LanguageRelation::Original,
        main: true,
    }];
    let out = encode(&w, FormatFamily::Onix3, Dialect::Thoth).unwrap();
    let uyf = out.body.find("<SubjectCode>UYF</SubjectCode>").unwrap();
    let umz = out.body.find("<SubjectCode>UMZ</SubjectCode>").unwrap();
    let kw = out.body.find("<SubjectCode>verification</SubjectCode>").unwrap();
    assert!(uyf < umz && umz < kw);
    assert!(out.body.contains(
        "<Language><LanguageRole>01</LanguageRole><LanguageCode>eng</LanguageCode></Language>"
    ));
}

#[test]
fn onix3_variant_requires_isbn() {
    let w = sample_work();
    let r = encode(&w, FormatFamily::Onix3, Dialect::GoogleBooks);
    match r {
        Err(ExportError::ValidationFailed { fields }) => {
            assert_eq!(fields, vec![Field::Isbn]);
        },
        other => panic!("expected a validation failure, got {:?}", other),
    }
}
