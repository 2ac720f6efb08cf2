//! The two ways in which a cache operation fails.

use vstd::prelude::*;

verus! {

/// A failure of a cache operation, with a message for the user.
#[derive(Debug, PartialEq, Eq)]
pub enum TealdeerError {
    /// The cache directory cannot be located, is invalid, or cannot be cleared.
    CacheError(String),
    /// Fetching or unpacking the archive failed.
    UpdateError(String),
}

/// What a [`TealdeerError`] says: its kind and the characters of its message.
pub enum ErrorView {
    CacheError(Seq<char>),
    UpdateError(Seq<char>),
}

impl View for TealdeerError {
    type V = ErrorView;

    open spec fn view(&self) -> ErrorView {
        match self {
            TealdeerError::CacheError(m) => ErrorView::CacheError(m@),
            TealdeerError::UpdateError(m) => ErrorView::UpdateError(m@),
        }
    }
}

/// The view of an outcome that carries no value on success.
pub open spec fn outcome_view(r: Result<(), TealdeerError>) -> Result<(), ErrorView> {
    match r {
        Ok(_) => Ok(()),
        Err(e) => Err(e@),
    }
}

impl Clone for TealdeerError {
    fn clone(&self) -> (r: Self)
        ensures
            r@ == self@,
    {
        match self {
            TealdeerError::CacheError(m) => TealdeerError::CacheError(m.clone()),
            TealdeerError::UpdateError(m) => TealdeerError::UpdateError(m.clone()),
        }
    }
}

impl TealdeerError {
    /// The message, without the kind.
    pub fn message(&self) -> (m: String)
        ensures
            self@ == ErrorView::CacheError(m@) || self@ == ErrorView::UpdateError(m@),
    {
        match self {
            TealdeerError::CacheError(m) => m.clone(),
            TealdeerError::UpdateError(m) => m.clone(),
        }
    }

    /// Whether the cache directory, rather than the update, is at fault.
    pub fn is_cache_error(&self) -> (b: bool)
        ensures
            b == (self@ is CacheError),
    {
        match self {
            TealdeerError::CacheError(_) => true,
            TealdeerError::UpdateError(_) => false,
        }
    }
}

} // verus!
