//! Controlled-vocabulary tables: the exhaustive mapping from each
//! canonical enum to the code a dialect family writes. Every canonical
//! variant has an entry, so adding a variant without extending a table
//! fails at build time rather than silently.

use vstd::prelude::*;
use vstd::string::*;

use crate::model::ContributionRole;
use crate::model::WorkStatus;
use crate::model::WorkType;

verus! {

/// Canonical uppercase code of a work type, used by the tabular and
/// structured dialects.
pub open spec fn spec_work_type_code(t: WorkType) -> Seq<char> {
    match t {
        WorkType::BookChapter => ("BOOK_CHAPTER")@,
        WorkType::Monograph => ("MONOGRAPH")@,
        WorkType::EditedBook => ("EDITED_BOOK")@,
        WorkType::Textbook => ("TEXTBOOK")@,
        WorkType::JournalIssue => ("JOURNAL_ISSUE")@,
        WorkType::BookSet => ("BOOK_SET")@,
    }
}

/// Renders the canonical code of a work type.
pub fn work_type_code(t: WorkType) -> (r: String)
    ensures
        r@ == spec_work_type_code(t),
{
    match t {
        WorkType::BookChapter => "BOOK_CHAPTER".to_owned(),
        WorkType::Monograph => "MONOGRAPH".to_owned(),
        WorkType::EditedBook => "EDITED_BOOK".to_owned(),
        WorkType::Textbook => "TEXTBOOK".to_owned(),
        WorkType::JournalIssue => "JOURNAL_ISSUE".to_owned(),
        WorkType::BookSet => "BOOK_SET".to_owned(),
    }
}

/// Canonical uppercase code of a work status, used by the tabular and
/// structured dialects.
pub open spec fn spec_work_status_code(s: WorkStatus) -> Seq<char> {
    match s {
        WorkStatus::Unspecified => ("UNSPECIFIED")@,
        WorkStatus::Cancelled => ("CANCELLED")@,
        WorkStatus::Forthcoming => ("FORTHCOMING")@,
        WorkStatus::PostponedIndefinitely => ("POSTPONED_INDEFINITELY")@,
        WorkStatus::Active => ("ACTIVE")@,
        WorkStatus::NoLongerOurProduct => ("NO_LONGER_OUR_PRODUCT")@,
        WorkStatus::OutOfStockIndefinitely => ("OUT_OF_STOCK_INDEFINITELY")@,
        WorkStatus::OutOfPrint => ("OUT_OF_PRINT")@,
        WorkStatus::Inactive => ("INACTIVE")@,
        WorkStatus::Unknown => ("UNKNOWN")@,
        WorkStatus::Remaindered => ("REMAINDERED")@,
        WorkStatus::WithdrawnFromSale => ("WITHDRAWN_FROM_SALE")@,
        WorkStatus::Recalled => ("RECALLED")@,
    }
}

/// Renders the canonical code of a work status.
pub fn work_status_code(s: WorkStatus) -> (r: String)
    ensures
        r@ == spec_work_status_code(s),
{
    match s {
        WorkStatus::Unspecified => "UNSPECIFIED".to_owned(),
        WorkStatus::Cancelled => "CANCELLED".to_owned(),
        WorkStatus::Forthcoming => "FORTHCOMING".to_owned(),
        WorkStatus::PostponedIndefinitely => "POSTPONED_INDEFINITELY".to_owned(),
        WorkStatus::Active => "ACTIVE".to_owned(),
        WorkStatus::NoLongerOurProduct => "NO_LONGER_OUR_PRODUCT".to_owned(),
        WorkStatus::OutOfStockIndefinitely => "OUT_OF_STOCK_INDEFINITELY".to_owned(),
        WorkStatus::OutOfPrint => "OUT_OF_PRINT".to_owned(),
        WorkStatus::Inactive => "INACTIVE".to_owned(),
        WorkStatus::Unknown => "UNKNOWN".to_owned(),
        WorkStatus::Remaindered => "REMAINDERED".to_owned(),
        WorkStatus::WithdrawnFromSale => "WITHDRAWN_FROM_SALE".to_owned(),
        WorkStatus::Recalled => "RECALLED".to_owned(),
    }
}

/// Canonical uppercase code of a contribution role.
pub open spec fn spec_role_code(r: ContributionRole) -> Seq<char> {
    match r {
        ContributionRole::Author => ("AUTHOR")@,
        ContributionRole::Editor => ("EDITOR")@,
        ContributionRole::Translator => ("TRANSLATOR")@,
        ContributionRole::Photographer => ("PHOTOGRAPHER")@,
        ContributionRole::Illustrator => ("ILLUSTRATOR")@,
        ContributionRole::ForewordBy => ("FOREWORD_BY")@,
        ContributionRole::IntroductionBy => ("INTRODUCTION_BY")@,
    }
}

/// Renders the canonical code of a contribution role.
pub fn role_code(r: ContributionRole) -> (res: String)
    ensures
        res@ == spec_role_code(r),
{
    match r {
        ContributionRole::Author => "AUTHOR".to_owned(),
        ContributionRole::Editor => "EDITOR".to_owned(),
        ContributionRole::Translator => "TRANSLATOR".to_owned(),
        ContributionRole::Photographer => "PHOTOGRAPHER".to_owned(),
        ContributionRole::Illustrator => "ILLUSTRATOR".to_owned(),
        ContributionRole::ForewordBy => "FOREWORD_BY".to_owned(),
        ContributionRole::IntroductionBy => "INTRODUCTION_BY".to_owned(),
    }
}

/// Publishing status code a markup-family dialect writes for a work
/// status.
pub open spec fn spec_onix_status_code(s: WorkStatus) -> Seq<char> {
    match s {
        WorkStatus::Unspecified => ("00")@,
        WorkStatus::Cancelled => ("01")@,
        WorkStatus::Forthcoming => ("02")@,
        WorkStatus::PostponedIndefinitely => ("03")@,
        WorkStatus::Active => ("04")@,
        WorkStatus::NoLongerOurProduct => ("05")@,
        WorkStatus::OutOfStockIndefinitely => ("06")@,
        WorkStatus::OutOfPrint => ("07")@,
        WorkStatus::Inactive => ("08")@,
        WorkStatus::Unknown => ("09")@,
        WorkStatus::Remaindered => ("10")@,
        WorkStatus::WithdrawnFromSale => ("11")@,
        WorkStatus::Recalled => ("15")@,
    }
}

/// Renders the markup-family publishing status code.
pub fn onix_status_code(s: WorkStatus) -> (r: String)
    ensures
        r@ == spec_onix_status_code(s),
{
    match s {
        WorkStatus::Unspecified => "00".to_owned(),
        WorkStatus::Cancelled => "01".to_owned(),
        WorkStatus::Forthcoming => "02".to_owned(),
        WorkStatus::PostponedIndefinitely => "03".to_owned(),
        WorkStatus::Active => "04".to_owned(),
        WorkStatus::NoLongerOurProduct => "05".to_owned(),
        WorkStatus::OutOfStockIndefinitely => "06".to_owned(),
        WorkStatus::OutOfPrint => "07".to_owned(),
        WorkStatus::Inactive => "08".to_owned(),
        WorkStatus::Unknown => "09".to_owned(),
        WorkStatus::Remaindered => "10".to_owned(),
        WorkStatus::WithdrawnFromSale => "11".to_owned(),
        WorkStatus::Recalled => "15".to_owned(),
    }
}

/// Contributor role code a markup-family dialect writes.
pub open spec fn spec_onix_role_code(r: ContributionRole) -> Seq<char> {
    match r {
        ContributionRole::Author => ("A01")@,
        ContributionRole::Editor => ("B01")@,
        ContributionRole::Translator => ("B06")@,
        ContributionRole::Photographer => ("A13")@,
        ContributionRole::Illustrator => ("A12")@,
        ContributionRole::ForewordBy => ("A23")@,
        ContributionRole::IntroductionBy => ("A24")@,
    }
}

/// Renders the markup-family contributor role code.
pub fn onix_role_code(r: ContributionRole) -> (res: String)
    ensures
        res@ == spec_onix_role_code(r),
{
    match r {
        ContributionRole::Author => "A01".to_owned(),
        ContributionRole::Editor => "B01".to_owned(),
        ContributionRole::Translator => "B06".to_owned(),
        ContributionRole::Photographer => "A13".to_owned(),
        ContributionRole::Illustrator => "A12".to_owned(),
        ContributionRole::ForewordBy => "A23".to_owned(),
        ContributionRole::IntroductionBy => "A24".to_owned(),
    }
}

/// Subject scheme identifier a markup-family dialect writes for a
/// classification scheme.
pub open spec fn spec_onix_subject_scheme(t: crate::model::SubjectType) -> Seq<char> {
    match t {
        crate::model::SubjectType::Bic => ("12")@,
        crate::model::SubjectType::Bisac => ("10")@,
        crate::model::SubjectType::Thema => ("93")@,
        crate::model::SubjectType::Lcc => ("04")@,
        crate::model::SubjectType::Custom => ("23")@,
        crate::model::SubjectType::Keyword => ("20")@,
    }
}

/// Renders the markup-family subject scheme identifier.
pub fn onix_subject_scheme(t: crate::model::SubjectType) -> (r: String)
    ensures
        r@ == spec_onix_subject_scheme(t),
{
    match t {
        crate::model::SubjectType::Bic => "12".to_owned(),
        crate::model::SubjectType::Bisac => "10".to_owned(),
        crate::model::SubjectType::Thema => "93".to_owned(),
        crate::model::SubjectType::Lcc => "04".to_owned(),
        crate::model::SubjectType::Custom => "23".to_owned(),
        crate::model::SubjectType::Keyword => "20".to_owned(),
    }
}

/// Language role code a markup-family dialect writes: the language of
/// the text itself, or the source language it was rendered out of.
pub open spec fn spec_onix_language_role(r: crate::model::LanguageRelation) -> Seq<char> {
    match r {
        crate::model::LanguageRelation::Original => ("01")@,
        crate::model::LanguageRelation::TranslatedFrom => ("02")@,
        crate::model::LanguageRelation::TranslatedInto => ("01")@,
    }
}

/// Renders the markup-family language role code.
pub fn onix_language_role(r: crate::model::LanguageRelation) -> (res: String)
    ensures
        res@ == spec_onix_language_role(r),
{
    match r {
        crate::model::LanguageRelation::Original => "01".to_owned(),
        crate::model::LanguageRelation::TranslatedFrom => "02".to_owned(),
        crate::model::LanguageRelation::TranslatedInto => "01".to_owned(),
    }
}

} // verus!
