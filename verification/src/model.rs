//! The canonical publication aggregate: one work and its sub-entities,
//! carried as plain values so that every field the encoders read is
//! visible to the verifier.

use vstd::prelude::*;
use vstd::string::*;

verus! {

/// Proleptic Gregorian leap-year rule.
pub open spec fn is_leap_year(y: int) -> bool {
    y % 4 == 0 && (y % 100 != 0 || y % 400 == 0)
}

/// Number of days in a month of the proleptic Gregorian calendar.
pub open spec fn days_in_month(y: int, m: int) -> int {
    if m == 2 {
        if is_leap_year(y) {
            29
        } else {
            28
        }
    } else if m == 4 || m == 6 || m == 9 || m == 11 {
        30
    } else {
        31
    }
}

/// A calendar date that exists, within the year range the engine accepts.
pub open spec fn valid_ymd(y: int, m: int, d: int) -> bool {
    1 <= y <= 9999 && 1 <= m <= 12 && 1 <= d <= days_in_month(y, m)
}

/// Relies on chrono::NaiveDate::from_ymd_opt: for a year between 1 and
/// 9999 it returns Some exactly when (year, month, day) is a date of the
/// proleptic Gregorian calendar.
#[verifier::external_body]
fn chrono_ymd_valid(year: i32, month: u32, day: u32) -> (r: bool)
    requires
        1 <= year <= 9999,
    ensures
        r == valid_ymd(year as int, month as int, day as int),
{
    chrono::NaiveDate::from_ymd_opt(year, month, day).is_some()
}

/// A publication date, held as plain calendar fields.
#[derive(Clone, Copy, Debug, PartialEq, Eq, Structural)]
pub struct Date {
    pub year: u16,
    pub month: u8,
    pub day: u8,
}

impl Date {
    /// The date names a day that exists.
    pub open spec fn wf(self) -> bool {
        valid_ymd(self.year as int, self.month as int, self.day as int)
    }

    /// Builds a date, accepting exactly the days of the calendar.
    pub fn new(year: u16, month: u8, day: u8) -> (r: Option<Date>)
        ensures
            r matches Some(d) ==> d.wf() && d.year == year && d.month == month && d.day == day,
            r is Some <==> valid_ymd(year as int, month as int, day as int),
    {
        if year < 1 || year > 9999 {
            return None;
        }
        if chrono_ymd_valid(year as i32, month as u32, day as u32) {
            Some(Date { year, month, day })
        } else {
            None
        }
    }
}

/// Life-cycle state of a work.
#[derive(Clone, Copy, Debug, PartialEq, Eq, Structural)]
pub enum WorkStatus {
    Unspecified,
    Cancelled,
    Forthcoming,
    PostponedIndefinitely,
    Active,
    NoLongerOurProduct,
    OutOfStockIndefinitely,
    OutOfPrint,
    Inactive,
    Unknown,
    Remaindered,
    WithdrawnFromSale,
    Recalled,
}

/// Kind of a work.
#[derive(Clone, Copy, Debug, PartialEq, Eq, Structural)]
pub enum WorkType {
    BookChapter,
    Monograph,
    EditedBook,
    Textbook,
    JournalIssue,
    BookSet,
}

/// Role of one contributor on a work.
#[derive(Clone, Copy, Debug, PartialEq, Eq, Structural)]
pub enum ContributionRole {
    Author,
    Editor,
    Translator,
    Photographer,
    Illustrator,
    ForewordBy,
    IntroductionBy,
}

/// One contributor with the ordinal that fixes its place in output.
#[derive(Debug, PartialEq, Eq)]
pub struct Contribution {
    pub role: ContributionRole,
    pub ordinal: u32,
    pub full_name: String,
}

/// Classification scheme of a subject code.
#[derive(Clone, Copy, Debug, PartialEq, Eq, Structural)]
pub enum SubjectType {
    Bic,
    Bisac,
    Thema,
    Lcc,
    Custom,
    Keyword,
}

/// One subject classification entry.
#[derive(Debug, PartialEq, Eq)]
pub struct Subject {
    pub subject_type: SubjectType,
    pub code: String,
    pub ordinal: u32,
}

/// How a language relates to the original text of the work.
#[derive(Clone, Copy, Debug, PartialEq, Eq, Structural)]
pub enum LanguageRelation {
    Original,
    TranslatedFrom,
    TranslatedInto,
}

/// One language entry of a work.
#[derive(Debug, PartialEq, Eq)]
pub struct Language {
    pub code: String,
    pub relation: LanguageRelation,
    pub main: bool,
}

/// Kind of a series a work can belong to.
#[derive(Clone, Copy, Debug, PartialEq, Eq, Structural)]
pub enum SeriesType {
    Journal,
    BookSeries,
}

/// Membership of a work in a series.
#[derive(Debug, PartialEq, Eq)]
pub struct SeriesMembership {
    pub series_type: SeriesType,
    pub name: String,
    pub issn_print: Option<String>,
    pub issn_digital: Option<String>,
    pub ordinal: u32,
}

/// Physical or digital form one publication of the work takes.
#[derive(Clone, Copy, Debug, PartialEq, Eq, Structural)]
pub enum PublicationFormat {
    Paperback,
    Hardback,
    Pdf,
    Epub,
    Xml,
    Html,
}

/// One price of a publication, in minor units of its currency.
#[derive(Debug, PartialEq, Eq)]
pub struct Price {
    pub currency: String,
    pub amount_minor: u64,
}

/// One concrete publication (manifestation) of the work.
#[derive(Debug, PartialEq, Eq)]
pub struct Publication {
    pub format: PublicationFormat,
    pub isbn: Option<String>,
    pub prices: Vec<Price>,
}

/// The canonical aggregate: one work with every related entity the
/// encoders read.
#[derive(Debug, PartialEq, Eq)]
pub struct Work {
    pub work_id: u128,
    pub work_type: WorkType,
    pub work_status: WorkStatus,
    pub title: String,
    pub subtitle: Option<String>,
    pub full_title: String,
    pub doi: Option<String>,
    pub publication_date: Option<Date>,
    pub place: Option<String>,
    pub landing_page: Option<String>,
    pub cover_url: Option<String>,
    pub license: Option<String>,
    pub imprint_name: String,
    pub publisher_name: String,
    pub publisher_id: u128,
    pub updated_at: i64,
    pub contributions: Vec<Contribution>,
    pub subjects: Vec<Subject>,
    pub languages: Vec<Language>,
    pub series: Option<SeriesMembership>,
    pub publications: Vec<Publication>,
}

impl Work {
    /// Invariants of a canonical aggregate: the publication date, when
    /// present, is a real day; subjects are unique per scheme and code;
    /// at most one language is flagged main among those marking the
    /// original language.
    pub open spec fn wf(self) -> bool {
        &&& (self.publication_date matches Some(d) ==> d.wf())
        &&& (forall|i: int, j: int|
            0 <= i < j < self.subjects@.len() ==> !(self.subjects@[i].subject_type
                == self.subjects@[j].subject_type && self.subjects@[i].code@
                == self.subjects@[j].code@))
        &&& (forall|i: int, j: int|
            0 <= i < j < self.languages@.len() ==> !(self.languages@[i].main
                && self.languages@[j].main && self.languages@[i].relation
                == LanguageRelation::Original && self.languages@[j].relation
                == LanguageRelation::Original))
    }

    /// Alternative text for the cover image: the title followed by a
    /// fixed suffix.
    pub fn cover_alt_text(&self) -> (r: String)
        ensures
            r@ == self.title@ + (" - Cover Image")@,
    {
        let mut s = self.title.clone();
        s.append(" - Cover Image");
        s
    }
}

/// Badge text and style class shown for a work status, for the statuses
/// that surface one.
#[derive(Debug, PartialEq, Eq)]
pub struct StatusTag {
    pub label: String,
    pub class: String,
}

impl WorkStatus {
    /// Whether this status surfaces a badge.
    pub open spec fn spec_tag(self) -> Option<(Seq<char>, Seq<char>)> {
        match self {
            WorkStatus::Cancelled => Some((("Cancelled")@, ("is-danger")@)),
            WorkStatus::Forthcoming => Some((("Forthcoming")@, ("is-warning")@)),
            WorkStatus::PostponedIndefinitely => Some((("Postponed")@, ("is-warning")@)),
            WorkStatus::OutOfPrint => Some((("Out of print")@, ("is-danger")@)),
            WorkStatus::Inactive => Some((("Inactive")@, ("is-danger")@)),
            WorkStatus::WithdrawnFromSale => Some((("Withdrawn")@, ("is-danger")@)),
            WorkStatus::Recalled => Some((("Recalled")@, ("is-danger")@)),
            _ => None,
        }
    }

    /// The badge for this status: label and style class, or nothing for
    /// the statuses that show none.
    pub fn status_tag(&self) -> (r: Option<StatusTag>)
        ensures
            match self.spec_tag() {
                Some(t) => r matches Some(tag) && tag.label@ == t.0 && tag.class@ == t.1,
                None => r is None,
            },
    {
        match self {
            WorkStatus::Cancelled => Some(
                StatusTag { label: "Cancelled".to_owned(), class: "is-danger".to_owned() },
            ),
            WorkStatus::Forthcoming => Some(
                StatusTag { label: "Forthcoming".to_owned(), class: "is-warning".to_owned() },
            ),
            WorkStatus::PostponedIndefinitely => Some(
                StatusTag { label: "Postponed".to_owned(), class: "is-warning".to_owned() },
            ),
            WorkStatus::OutOfPrint => Some(
                StatusTag { label: "Out of print".to_owned(), class: "is-danger".to_owned() },
            ),
            WorkStatus::Inactive => Some(
                StatusTag { label: "Inactive".to_owned(), class: "is-danger".to_owned() },
            ),
            WorkStatus::WithdrawnFromSale => Some(
                StatusTag { label: "Withdrawn".to_owned(), class: "is-danger".to_owned() },
            ),
            WorkStatus::Recalled => Some(
                StatusTag { label: "Recalled".to_owned(), class: "is-danger".to_owned() },
            ),
            _ => None,
        }
    }
}

} // verus!
