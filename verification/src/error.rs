//! Errors of the catalog and of the query engine.
use vstd::prelude::*;

verus! {

/// What went wrong in a catalog.
#[derive(Clone, Copy, Debug, PartialEq, Eq, Structural)]
pub enum ErrorKind {
    /// A precondition of the operation does not hold.
    PreconditionFailed,
    /// Something that no other kind covers.
    Unexpected,
    /// Data or metadata is invalid.
    DataInvalid,
    /// The namespace exists already.
    NamespaceAlreadyExists,
    /// The table exists already.
    TableAlreadyExists,
    /// The namespace does not exist.
    NamespaceNotFound,
    /// The table does not exist.
    TableNotFound,
    /// The catalog does not support the operation.
    FeatureUnsupported,
    /// A commit was made on metadata that is no longer current.
    CatalogCommitConflicts,
}

/// An error of a catalog operation.
#[derive(Debug)]
pub struct Error {
    /// What went wrong.
    pub kind: ErrorKind,
    /// The message for the user.
    pub message: String,
}

/// What an [`Error`] says.
pub struct ErrorView {
    pub kind: ErrorKind,
    pub message: Seq<char>,
}

impl View for Error {
    type V = ErrorView;

    open spec fn view(&self) -> ErrorView {
        ErrorView { kind: self.kind, message: self.message@ }
    }
}

impl Error {
    /// An error of `kind` with `message`.
    pub fn new(kind: ErrorKind, message: String) -> (res: Self)
        ensures
            res.kind == kind,
            res.message == message,
    {
        Error { kind, message }
    }

    /// What went wrong.
    pub fn kind(&self) -> (res: ErrorKind)
        ensures
            res == self.kind,
    {
        self.kind
    }
}

/// An error handed to the query engine.
#[derive(Debug)]
pub enum DataFusionError {
    /// The query cannot be planned.
    Plan(String),
    /// The operation failed.
    Execution(String),
    /// The session is not configured for the operation.
    Configuration(String),
    /// The operation is not offered.
    NotImplemented(String),
    /// The catalog reported an error.
    External(Error),
}

/// What a [`DataFusionError`] says.
pub enum DataFusionErrorView {
    Plan(Seq<char>),
    Execution(Seq<char>),
    Configuration(Seq<char>),
    NotImplemented(Seq<char>),
    External(ErrorView),
}

impl View for DataFusionError {
    type V = DataFusionErrorView;

    open spec fn view(&self) -> DataFusionErrorView {
        match self {
            DataFusionError::Plan(message) => DataFusionErrorView::Plan(message@),
            DataFusionError::Execution(message) => DataFusionErrorView::Execution(message@),
            DataFusionError::Configuration(message) => DataFusionErrorView::Configuration(message@),
            DataFusionError::NotImplemented(message) => DataFusionErrorView::NotImplemented(
                message@,
            ),
            DataFusionError::External(error) => DataFusionErrorView::External(error@),
        }
    }
}

/// Hands a catalog error to the query engine.
pub fn to_datafusion_error(error: Error) -> (res: DataFusionError)
    ensures
        res == DataFusionError::External(error),
{
    DataFusionError::External(error)
}

/// What an error says is its kind and its message, whatever they are; and what is
/// handed to the query engine says the same.
pub proof fn law_errors_say_what_they_hold(error: Error, message: String)
    ensures
        error@.kind == error.kind,
        error@.message == error.message@,
        DataFusionError::External(error)@ == DataFusionErrorView::External(
            ErrorView { kind: error.kind, message: error.message@ },
        ),
        DataFusionError::Plan(message)@ == DataFusionErrorView::Plan(message@),
        DataFusionError::Execution(message)@ == DataFusionErrorView::Execution(message@),
        DataFusionError::Configuration(message)@ == DataFusionErrorView::Configuration(message@),
        DataFusionError::NotImplemented(message)@ == DataFusionErrorView::NotImplemented(message@),
{
}

} // verus!
