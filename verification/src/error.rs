//! The errors that the service's own rules raise.

use vstd::prelude::*;

verus! {

/// What went wrong, with the text that is shown for it.
#[derive(Debug, PartialEq)]
pub enum AppError {
    /// A password could not be hashed, or a stored hash could not be read.
    Auth(String),
    /// The service was started or called with unusable input.
    Config(String),
    /// No valid API key was presented.
    Unauthorized(String),
    /// The caller may not do this for that user.
    Forbidden(String),
}

/// The outcome of an operation that can fail.
pub type AppResult<T> = Result<T, AppError>;

/// Why an operation that also relies on a database or a store failed.
#[derive(Debug, PartialEq)]
pub enum Failure<E> {
    /// One of the service's own rules rejected it.
    App(AppError),
    /// The database, the store or the terminal reported an error.
    Outside(E),
}

/// `AppError` with its text as a character sequence.
pub enum ErrorView {
    Auth(Seq<char>),
    Config(Seq<char>),
    Unauthorized(Seq<char>),
    Forbidden(Seq<char>),
}

/// `Failure` with its text as a character sequence.
pub enum FailureView<E> {
    App(ErrorView),
    Outside(E),
}

impl View for AppError {
    type V = ErrorView;

    open spec fn view(&self) -> ErrorView {
        match self {
            AppError::Auth(text) => ErrorView::Auth(text@),
            AppError::Config(text) => ErrorView::Config(text@),
            AppError::Unauthorized(text) => ErrorView::Unauthorized(text@),
            AppError::Forbidden(text) => ErrorView::Forbidden(text@),
        }
    }
}

impl<E> View for Failure<E> {
    type V = FailureView<E>;

    open spec fn view(&self) -> FailureView<E> {
        match *self {
            Failure::App(e) => FailureView::App(e@),
            Failure::Outside(e) => FailureView::Outside(e),
        }
    }
}

impl AppError {
    pub fn unauthorized(detail: &str) -> (r: AppError)
        ensures
            r matches AppError::Unauthorized(text) && text@ == detail@,
    {
        AppError::Unauthorized(detail.to_owned())
    }

    pub fn forbidden(detail: &str) -> (r: AppError)
        ensures
            r matches AppError::Forbidden(text) && text@ == detail@,
    {
        AppError::Forbidden(detail.to_owned())
    }
}

/// An error is seen as its kind and its text, and a failure as what it stems from.
pub proof fn law_errors_are_seen_whole<E>(error: AppError, e: E)
    ensures
        error matches AppError::Auth(text) ==> error@ == ErrorView::Auth(text@),
        error matches AppError::Config(text) ==> error@ == ErrorView::Config(text@),
        error matches AppError::Unauthorized(text) ==> error@ == ErrorView::Unauthorized(text@),
        error matches AppError::Forbidden(text) ==> error@ == ErrorView::Forbidden(text@),
        Failure::<E>::App(error)@ == FailureView::<E>::App(error@),
        Failure::Outside(e)@ == FailureView::Outside(e),
{
}

} // verus!
