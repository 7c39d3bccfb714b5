//! The closed error taxonomy every component failure is normalized
//! into before it reaches the boundary layer.

use vstd::prelude::*;
use vstd::string::*;

use crate::dialect::Dialect;
use crate::dialect::FormatFamily;

verus! {

/// A canonical field a dialect may require; named in validation
/// failures so the caller knows what to correct.
#[derive(Clone, Copy, Debug, PartialEq, Eq, Structural)]
pub enum Field {
    Title,
    Doi,
    PublicationDate,
    AuthorContribution,
    Isbn,
    WorkStatusCode,
}

impl Field {
    /// The name under which this field is reported.
    pub open spec fn spec_name(self) -> Seq<char> {
        match self {
            Field::Title => ("title")@,
            Field::Doi => ("doi")@,
            Field::PublicationDate => ("publication_date")@,
            Field::AuthorContribution => ("author_contribution")@,
            Field::Isbn => ("isbn")@,
            Field::WorkStatusCode => ("work_status")@,
        }
    }

    /// Renders the reported name of this field.
    pub fn name(&self) -> (r: String)
        ensures
            r@ == self.spec_name(),
    {
        match self {
            Field::Title => "title".to_owned(),
            Field::Doi => "doi".to_owned(),
            Field::PublicationDate => "publication_date".to_owned(),
            Field::AuthorContribution => "author_contribution".to_owned(),
            Field::Isbn => "isbn".to_owned(),
            Field::WorkStatusCode => "work_status".to_owned(),
        }
    }
}

/// Everything an export can fail with, after normalization.
///
/// `NotFound`, `UnsupportedDialect` and `ValidationFailed` are terminal
/// client- or data-side failures and are never retried;
/// `UpstreamUnavailable` is surfaced once the retry ceiling is spent;
/// `MalformedUpstreamResponse` marks a provider contract violation and
/// is terminal as well.
#[derive(Debug, PartialEq, Eq)]
pub enum ExportError {
    NotFound,
    UnsupportedDialect { family: FormatFamily, dialect: Dialect },
    ValidationFailed { fields: Vec<Field> },
    UpstreamUnavailable,
    MalformedUpstreamResponse,
}

/// The reported names of a field list, in order.
pub open spec fn spec_field_names(fields: Seq<Field>) -> Seq<Seq<char>> {
    Seq::new(fields.len(), |i: int| fields[i].spec_name())
}

/// What each failure reports: the specific reason, the requested pair
/// of an unsupported dialect, the field names of a validation failure.
pub open spec fn spec_describe(e: ExportError) -> Seq<char> {
    match e {
        ExportError::NotFound => ("work not found")@,
        ExportError::UnsupportedDialect { family, dialect } => ("unsupported dialect: ")@
            + crate::dialect::spec_family_id(family) + ("::")@ + crate::dialect::spec_dialect_id(
            dialect,
        ),
        ExportError::ValidationFailed { fields } => ("validation failed, missing fields: ")@
            + crate::render::spec_join(spec_field_names(fields@), (", ")@),
        ExportError::UpstreamUnavailable => ("upstream metadata provider unavailable")@,
        ExportError::MalformedUpstreamResponse => ("malformed upstream response")@,
    }
}

impl ExportError {
    /// Renders the failure for the boundary layer: a specific,
    /// actionable reason rather than a generic message.
    pub fn describe(&self) -> (r: String)
        ensures
            r@ == spec_describe(*self),
    {
        match self {
            ExportError::NotFound => "work not found".to_owned(),
            ExportError::UnsupportedDialect { family, dialect } => {
                let mut s = "unsupported dialect: ".to_owned();
                let f = crate::dialect::family_id(*family);
                s.append(f.as_str());
                s.append("::");
                let d = crate::dialect::dialect_id(*dialect);
                s.append(d.as_str());
                proof {
                    assert(s@ =~= spec_describe(*self));
                }
                s
            },
            ExportError::ValidationFailed { fields } => {
                let mut names: Vec<String> = Vec::new();
                let mut i: usize = 0;
                while i < fields.len()
                    invariant
                        i <= fields@.len(),
                        names@.len() == i,
                        forall|k: int|
                            0 <= k < i ==> (#[trigger] names@[k])@ == fields@[k].spec_name(),
                    decreases fields.len() - i,
                {
                    names.push(fields[i].name());
                    i += 1;
                }
                let mut s = "validation failed, missing fields: ".to_owned();
                proof {
                    assert(crate::render::views_of(names@) =~= spec_field_names(fields@));
                }
                let joined = crate::render::join_with(&names, ", ");
                s.append(joined.as_str());
                proof {
                    assert(s@ =~= spec_describe(*self));
                }
                s
            },
            ExportError::UpstreamUnavailable => "upstream metadata provider unavailable".to_owned(),
            ExportError::MalformedUpstreamResponse => "malformed upstream response".to_owned(),
        }
    }
}

} // verus!
