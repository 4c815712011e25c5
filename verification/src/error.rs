//! Errors raised by plugin hooks and by the engine itself.

use vstd::prelude::*;
use vstd::string::*;

verus! {

/// An error of a plugin hook or of the engine's own plumbing.
#[derive(Debug, PartialEq, Eq)]
pub enum Error {
    /// An error built from scratch, carrying its own description.
    Synthetic(String),
    /// An underlying failure together with the context in which it happened.
    Wrapped { source: String, ctx: String },
    /// Any other failure, carried as its description.
    Generic(String),
}

/// Mathematical model of an [`Error`].
pub enum ErrorView {
    Synthetic(Seq<char>),
    Wrapped { source: Seq<char>, ctx: Seq<char> },
    Generic(Seq<char>),
}

impl View for Error {
    type V = ErrorView;

    open spec fn view(&self) -> ErrorView {
        match self {
            Error::Synthetic(text) => ErrorView::Synthetic(text@),
            Error::Wrapped { source, ctx } => ErrorView::Wrapped { source: source@, ctx: ctx@ },
            Error::Generic(text) => ErrorView::Generic(text@),
        }
    }
}

impl ErrorView {
    /// The text shown for an error.
    pub open spec fn message(self) -> Seq<char> {
        match self {
            ErrorView::Synthetic(text) => "Generic plugin error "@ + text,
            ErrorView::Wrapped { source, ctx } => "Plugin error from "@ + source,
            ErrorView::Generic(text) => "Generic error"@,
        }
    }

    /// The same failure, one level down, under the context `ctx`.
    pub open spec fn within(self, ctx: Seq<char>) -> ErrorView {
        ErrorView::Wrapped { source: self.message(), ctx }
    }
}

impl Clone for Error {
    fn clone(&self) -> (copy: Self)
        ensures
            copy@ == self@,
    {
        match self {
            Error::Synthetic(text) => Error::Synthetic(text.clone()),
            Error::Wrapped { source, ctx } => Error::Wrapped {
                source: source.clone(),
                ctx: ctx.clone(),
            },
            Error::Generic(text) => Error::Generic(text.clone()),
        }
    }
}

impl Error {
    /// Renders the error as text.
    pub fn message(&self) -> (text: String)
        ensures
            text@ == self@.message(),
    {
        match self {
            Error::Synthetic(detail) => String::from_str("Generic plugin error ").concat(
                detail.as_str(),
            ),
            Error::Wrapped { source, ctx: _ } => String::from_str("Plugin error from ").concat(
                source.as_str(),
            ),
            Error::Generic(_) => String::from_str("Generic error"),
        }
    }

    /// Wraps the error with the context in which it was met, keeping its
    /// rendered text as the source.
    pub fn within(&self, ctx: String) -> (wrapped: Error)
        ensures
            wrapped@ == self@.within(ctx@),
    {
        Error::Wrapped { source: self.message(), ctx }
    }
}

/// Conversion of a foreign failure into the engine's [`Error`].
pub trait WrapError<T> {
    /// The result that `wrap` yields.
    spec fn wrapped(self) -> Result<T, ErrorView>
        where Self: Sized;

    fn wrap(self) -> (result: Result<T, Error>)
        where Self: Sized
        ensures
            result is Ok == self.wrapped() is Ok,
            result is Ok ==> result->Ok_0 == self.wrapped()->Ok_0,
            result is Err ==> result->Err_0@ == self.wrapped()->Err_0,
    ;
}

impl<T> WrapError<T> for Result<T, String> {
    open spec fn wrapped(self) -> Result<T, ErrorView> {
        match self {
            Ok(value) => Ok(value),
            Err(text) => Err(ErrorView::Generic(text@)),
        }
    }

    fn wrap(self) -> (result: Result<T, Error>) {
        match self {
            Ok(value) => Ok(value),
            Err(text) => Err(Error::Generic(text)),
        }
    }
}

} // verus!
