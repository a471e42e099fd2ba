//! Why an operation did not give a result.

use vstd::prelude::*;

use crate::profile::Operation;
use crate::text::{copy, Deep};

verus! {

/// Why an operation did not give a result.
#[derive(Debug)]
pub enum Error {
    /// The manager of this id cannot be used on this host.
    Unavailable(String),
    /// No package of this name.
    NotFound(String),
    /// What a tool printed is not what it was asked to print.
    Parse { what: String, detail: String },
    /// The manager of this id has no such operation.
    Unsupported { manager: String, operation: Operation },
    /// A command ran and reported failure.
    Failed { code: Option<i32>, stderr: String },
    /// Anything else, in words.
    Other(String),
}

/// The model of an [`Error`].
pub enum ErrorView {
    Unavailable(Seq<char>),
    NotFound(Seq<char>),
    Parse { what: Seq<char>, detail: Seq<char> },
    Unsupported { manager: Seq<char>, operation: Operation },
    Failed { code: Option<i32>, stderr: Seq<char> },
    Other(Seq<char>),
}

impl View for Error {
    type V = ErrorView;

    open spec fn view(&self) -> ErrorView {
        match *self {
            Error::Unavailable(id) => ErrorView::Unavailable(id@),
            Error::NotFound(name) => ErrorView::NotFound(name@),
            Error::Parse { what, detail } => ErrorView::Parse { what: what@, detail: detail@ },
            Error::Unsupported { manager, operation } => ErrorView::Unsupported {
                manager: manager@,
                operation,
            },
            Error::Failed { code, stderr } => ErrorView::Failed { code, stderr: stderr@ },
            Error::Other(message) => ErrorView::Other(message@),
        }
    }
}

/// The model of an outcome whose value is its own model.
pub open spec fn outcome<T>(r: Result<T, Error>) -> Result<T, ErrorView> {
    match r {
        Ok(value) => Ok(value),
        Err(error) => Err(error@),
    }
}

/// The model of an outcome whose value has a model.
pub open spec fn outcome_of<T: View>(r: Result<T, Error>) -> Result<T::V, ErrorView> {
    match r {
        Ok(value) => Ok(value@),
        Err(error) => Err(error@),
    }
}

/// The model of an outcome whose value is a list of values with models.
pub open spec fn outcome_list<T: View>(r: Result<Vec<T>, Error>) -> Result<
    Seq<T::V>,
    ErrorView,
> {
    match r {
        Ok(values) => Ok(values@.deep()),
        Err(error) => Err(error@),
    }
}

/// [`Error::Other`] with a copy of `message`.
pub fn other(message: &str) -> (r: Error)
    ensures
        r@ == ErrorView::Other(message@),
{
    Error::Other(copy(message))
}

/// [`Error::NotFound`] for `name`.
pub fn not_found(name: &str) -> (r: Error)
    ensures
        r@ == ErrorView::NotFound(name@),
{
    Error::NotFound(copy(name))
}

/// [`Error::Unsupported`] for the manager `id`.
pub fn unsupported(id: &str, operation: Operation) -> (r: Error)
    ensures
        r@ == (ErrorView::Unsupported { manager: id@, operation }),
{
    Error::Unsupported { manager: copy(id), operation }
}

} // verus!
