use vstd::prelude::*;
use vstd::string::StringExecFns;

verus! {

/// Why a document was refused, or why an enumeration stopped.
#[derive(Clone, Debug, PartialEq, Eq)]
pub enum Error {
    /// The discriminator names no variant of the family that a variant was
    /// expected of. `discriminator` is the one that was read; it is `None`
    /// where the document has none, or has one that is not a string.
    UnknownVariant { family: String, discriminator: Option<String> },
    /// A required field is absent.
    MissingField { field: String },
    /// A field is present, but its value has not the shape that the field
    /// is declared with.
    InvalidType { field: String },
    /// A field of an enumerated type holds a value outside the enumeration.
    InvalidEnumValue { field: String, received: String },
    /// A page handed back the cursor that it was fetched with.
    PaginationCycle { cursor: String },
}

/// The mathematical value of an [`Error`].
pub enum ErrorView {
    UnknownVariant { family: Seq<char>, discriminator: Option<Seq<char>> },
    MissingField { field: Seq<char> },
    InvalidType { field: Seq<char> },
    InvalidEnumValue { field: Seq<char>, received: Seq<char> },
    PaginationCycle { cursor: Seq<char> },
}

impl DeepView for Error {
    type V = ErrorView;

    open spec fn deep_view(&self) -> ErrorView {
        match self {
            Error::UnknownVariant { family, discriminator } => ErrorView::UnknownVariant {
                family: family@,
                discriminator: discriminator.deep_view(),
            },
            Error::MissingField { field } => ErrorView::MissingField { field: field@ },
            Error::InvalidType { field } => ErrorView::InvalidType { field: field@ },
            Error::InvalidEnumValue { field, received } => ErrorView::InvalidEnumValue {
                field: field@,
                received: received@,
            },
            Error::PaginationCycle { cursor } => ErrorView::PaginationCycle { cursor: cursor@ },
        }
    }
}

impl View for Error {
    type V = ErrorView;

    open spec fn view(&self) -> ErrorView {
        self.deep_view()
    }
}

/// What a decoder returns, as a value: the decoded value's view, or the
/// error's.
pub open spec fn outcome<T: DeepView>(r: Result<T, Error>) -> Result<T::V, ErrorView> {
    match r {
        Ok(t) => Ok(t.deep_view()),
        Err(e) => Err(e@),
    }
}

impl Error {
    /// The name of the error's kind, as it is written in reports.
    pub fn kind(&self) -> (r: &'static str)
        ensures
            r@ == self@.kind(),
    {
        match self {
            Error::UnknownVariant { .. } => "UnknownVariant",
            Error::MissingField { .. } => "MissingField",
            Error::InvalidType { .. } => "InvalidType",
            Error::InvalidEnumValue { .. } => "InvalidEnumValue",
            Error::PaginationCycle { .. } => "PaginationCycle",
        }
    }
}

impl ErrorView {
    /// The name of the error's kind.
    pub open spec fn kind(self) -> Seq<char> {
        match self {
            ErrorView::UnknownVariant { .. } => "UnknownVariant"@,
            ErrorView::MissingField { .. } => "MissingField"@,
            ErrorView::InvalidType { .. } => "InvalidType"@,
            ErrorView::InvalidEnumValue { .. } => "InvalidEnumValue"@,
            ErrorView::PaginationCycle { .. } => "PaginationCycle"@,
        }
    }

    /// What the error is about: the family and the discriminator, the
    /// field and the value, or the cursor, with `: ` between two of them.
    pub open spec fn detail(self) -> Seq<char> {
        match self {
            ErrorView::UnknownVariant { family, discriminator } => match discriminator {
                Some(d) => family + ": "@ + d,
                None => family,
            },
            ErrorView::MissingField { field } => field,
            ErrorView::InvalidType { field } => field,
            ErrorView::InvalidEnumValue { field, received } => field + ": "@ + received,
            ErrorView::PaginationCycle { cursor } => cursor,
        }
    }

    /// The error in words: its kind, `: `, and what it is about.
    pub open spec fn message(self) -> Seq<char> {
        self.kind() + ": "@ + self.detail()
    }
}

impl Error {
    /// The error in words: its kind, and what it is about.
    pub fn message(&self) -> (r: String)
        ensures
            r@ == self@.message(),
    {
        let mut out = String::new();
        out.append(self.kind());
        out.append(": ");
        let ghost head = out@;
        assert(head =~= self@.kind() + ": "@);
        match self {
            Error::UnknownVariant { family, discriminator } => {
                out.append(family.as_str());
                match discriminator {
                    Some(d) => {
                        out.append(": ");
                        out.append(d.as_str());
                        assert(out@ =~= head + (family@ + ": "@ + d@));
                    },
                    None => {},
                }
            },
            Error::MissingField { field } => {
                out.append(field.as_str());
            },
            Error::InvalidType { field } => {
                out.append(field.as_str());
            },
            Error::InvalidEnumValue { field, received } => {
                out.append(field.as_str());
                out.append(": ");
                out.append(received.as_str());
                assert(out@ =~= head + (field@ + ": "@ + received@));
            },
            Error::PaginationCycle { cursor } => {
                out.append(cursor.as_str());
            },
        }
        out
    }
}

} // verus!
