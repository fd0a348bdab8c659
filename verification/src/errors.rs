//! The error type shared by every step of a conversion.

use vstd::prelude::*;

verus! {

/// The full set of failures that can be raised at any step.
#[derive(Clone, Copy, PartialEq, Eq, Debug, Structural)]
pub enum Kind {
    GenericError,
    /// A group of errors assembled from a transaction or an iteration loop.
    ErrorList,
    /// A situation which should return a unique item returned several.
    AmbiguousResult,
    /// An invalid parameter was received by the current function.
    BadValue,
    /// Tried to use an item already in use.
    Busy,
    /// An item being used as a key was not unique.
    DuplicateKey,
    /// One type could not be converted into another.
    ConversionError,
    EmptyWorksheet,
    IncorrectExcelObject,
    InvalidCellType,
    /// Problem with the workbook location value.
    InvalidLocation,
    InvalidPath,
    /// The current condition is supposed to be impossible.
    Impossible,
    FileReadOnly,
    NetworkError,
    NotFound,
    NotImplemented,
    /// A required value was not set.
    NullValue,
    FloatParseError,
    ReadOnly,
    UnknownColumn,
    UnknownSheet,
    UnexpectedError,
    ExcelError,
    SheetsError,
    WorkbookMismatch,
    ParsingError,
    RwLockError,
    /// An error generated by a CSV reader.
    CsvError,
    UrlError,
    /// An error generated while reading or writing JSON.
    JsonError,
}

/// One failure that a larger one stands for.
#[derive(Clone, PartialEq, Eq, Debug)]
pub struct Cause {
    pub kind: Kind,
    pub message: String,
    /// The column that the failure belongs to, where one is known.
    pub column: Option<String>,
}

/// What a `Cause` says, as plain values.
pub struct CauseView {
    pub kind: Kind,
    pub message: Seq<char>,
    pub column: Option<Seq<char>>,
}

impl View for Cause {
    type V = CauseView;

    open spec fn view(&self) -> CauseView {
        CauseView { kind: self.kind, message: self.message@, column: text_view(self.column) }
    }
}

/// One failure, with what is known of where it happened.
///
/// A failure that stands for several others (`Kind::ErrorList`) keeps each of
/// them, in the order in which they were met, under `causes`.
#[derive(Clone, PartialEq, Eq, Debug)]
pub struct SubparError {
    pub kind: Kind,
    pub message: String,
    /// The column that the failure belongs to, where one is known.
    pub column: Option<String>,
    /// The line of the source that the failure belongs to, where one is known.
    pub line: Option<u64>,
    pub causes: Vec<Cause>,
}

/// What a `SubparError` says, as plain values.
pub struct ErrorView {
    pub kind: Kind,
    pub message: Seq<char>,
    pub column: Option<Seq<char>>,
    pub line: Option<u64>,
    pub causes: Seq<CauseView>,
}

impl View for SubparError {
    type V = ErrorView;

    open spec fn view(&self) -> ErrorView {
        ErrorView {
            kind: self.kind,
            message: self.message@,
            column: text_view(self.column),
            line: self.line,
            causes: cause_views(self.causes@),
        }
    }
}

/// The characters of a text that may be absent.
pub open spec fn text_view(text: Option<String>) -> Option<Seq<char>> {
    match text {
        Some(t) => Some(t@),
        None => None,
    }
}

/// What each of `causes` says, in order.
pub open spec fn cause_views(causes: Seq<Cause>) -> Seq<CauseView> {
    causes.map_values(|c: Cause| c@)
}

/// What each of `errors` says, in order.
pub open spec fn error_views(errors: Seq<SubparError>) -> Seq<ErrorView> {
    errors.map_values(|e: SubparError| e@)
}

/// A failure of the given kind that belongs to no column and no line and
/// stands for no other.
pub open spec fn plain_error(kind: Kind, message: Seq<char>) -> ErrorView {
    ErrorView { kind, message, column: None, line: None, causes: Seq::empty() }
}

impl ErrorView {
    /// The failure as one of those that a larger failure stands for.
    pub open spec fn as_cause(self) -> CauseView {
        CauseView { kind: self.kind, message: self.message, column: self.column }
    }

    /// The same failure, known to belong to `column`.
    pub open spec fn in_column(self, column: Seq<char>) -> ErrorView {
        ErrorView { column: Some(column), ..self }
    }

    /// The same failure, known to belong to `line`.
    pub open spec fn at_line(self, line: u64) -> ErrorView {
        ErrorView { line: Some(line), ..self }
    }
}

/// A copy of a text that may be absent.
pub fn copy_text(text: &Option<String>) -> (copy: Option<String>)
    ensures
        text_view(copy) == text_view(*text),
{
    match text {
        Some(t) => Some(t.clone()),
        None => None,
    }
}

impl Cause {
    /// A copy of the cause.
    pub fn duplicate(&self) -> (c: Cause)
        ensures
            c@ == self@,
    {
        Cause { kind: self.kind, message: self.message.clone(), column: copy_text(&self.column) }
    }
}

impl SubparError {
    /// A failure that belongs to no column and no line and stands for no other.
    pub fn new(kind: Kind, message: String) -> (e: SubparError)
        ensures
            e@ == plain_error(kind, message@),
    {
        let e = SubparError { kind, message, column: None, line: None, causes: Vec::new() };
        assert(e@.causes =~= Seq::empty());
        e
    }

    /// A failure of the given kind with the given message.
    pub fn of(kind: Kind, message: &str) -> (e: SubparError)
        ensures
            e@ == plain_error(kind, message@),
    {
        SubparError::new(kind, message.to_owned())
    }

    /// The same failure, known to belong to `column`.
    pub fn in_column(self, column: &str) -> (e: SubparError)
        ensures
            e@ == self@.in_column(column@),
    {
        SubparError {
            kind: self.kind,
            message: self.message,
            column: Some(column.to_owned()),
            line: self.line,
            causes: self.causes,
        }
    }

    /// The same failure, known to belong to `line`.
    pub fn at_line(self, line: u64) -> (e: SubparError)
        ensures
            e@ == self@.at_line(line),
    {
        SubparError {
            kind: self.kind,
            message: self.message,
            column: self.column,
            line: Some(line),
            causes: self.causes,
        }
    }

    /// The failure as one of those that a larger failure stands for.
    pub fn into_cause(self) -> (c: Cause)
        ensures
            c@ == self@.as_cause(),
    {
        Cause { kind: self.kind, message: self.message, column: self.column }
    }

    /// One failure of kind `ErrorList` that stands for all of `causes`.
    pub fn group(message: &str, causes: Vec<Cause>) -> (e: SubparError)
        ensures
            e@ == (ErrorView {
                kind: Kind::ErrorList,
                message: message@,
                column: None,
                line: None,
                causes: cause_views(causes@),
            }),
    {
        SubparError {
            kind: Kind::ErrorList,
            message: message.to_owned(),
            column: None,
            line: None,
            causes,
        }
    }

    /// A copy of the failure.
    pub fn duplicate(&self) -> (e: SubparError)
        ensures
            e@ == self@,
    {
        let mut causes: Vec<Cause> = Vec::new();
        let mut i: usize = 0;
        while i < self.causes.len()
            invariant
                i <= self.causes.len(),
                causes@.len() == i,
                forall|j: int| 0 <= j < i ==> (#[trigger] causes@[j])@ == self.causes@[j]@,
            decreases self.causes.len() - i,
        {
            causes.push(self.causes[i].duplicate());
            i = i + 1;
        }
        assert(cause_views(causes@) =~= cause_views(self.causes@));
        SubparError {
            kind: self.kind,
            message: self.message.clone(),
            column: copy_text(&self.column),
            line: self.line,
            causes,
        }
    }
}

} // verus!
