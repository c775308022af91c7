//! The errors of the crate.

use vstd::prelude::*;

verus! {

/// Why an operation failed.
#[derive(Debug, Clone, PartialEq, Eq)]
pub enum MicrosandboxError {
    /// A block image could not be made, used or removed.
    BlockImageError(String),
    /// The host refused an access to a file; the text is the host's.
    Io(String),
    /// Any other failure.
    Other(String),
}

/// The result of an operation that may fail with a [`MicrosandboxError`].
pub type MicrosandboxResult<T> = Result<T, MicrosandboxError>;

/// A [`MicrosandboxError`] by its characters.
pub enum ErrorView {
    BlockImageError(Seq<char>),
    Io(Seq<char>),
    Other(Seq<char>),
}

impl View for MicrosandboxError {
    type V = ErrorView;

    open spec fn view(&self) -> ErrorView {
        match self {
            MicrosandboxError::BlockImageError(text) => ErrorView::BlockImageError(text@),
            MicrosandboxError::Io(text) => ErrorView::Io(text@),
            MicrosandboxError::Other(text) => ErrorView::Other(text@),
        }
    }
}

/// A result by the characters of its error.
pub open spec fn result_view<T>(r: Result<T, MicrosandboxError>) -> Result<T, ErrorView> {
    match r {
        Ok(value) => Ok(value),
        Err(e) => Err(e@),
    }
}

/// The view of an error tells its kind and its words.
pub proof fn law_error_view_keeps_kind_and_words(e: MicrosandboxError)
    ensures
        e matches MicrosandboxError::BlockImageError(text) ==> e@ == ErrorView::BlockImageError(
            text@,
        ),
        e matches MicrosandboxError::Io(text) ==> e@ == ErrorView::Io(text@),
        e matches MicrosandboxError::Other(text) ==> e@ == ErrorView::Other(text@),
{
}

/// The view of a result tells success from failure, and which of either it is.
pub proof fn law_result_view_keeps_outcome<T>(r: Result<T, MicrosandboxError>)
    ensures
        r matches Ok(value) ==> result_view(r) == Ok::<T, ErrorView>(value),
        r matches Err(e) ==> result_view(r) == Err::<T, ErrorView>(e@),
{
}

} // verus!
