//! Where the cache lies: at the place that the user's override names, or
//! else at the place that the platform keeps for this application.

use crate::cache::Cache;
use crate::error::{ErrorView, TealdeerError};
use vstd::prelude::*;

verus! {

/// What was observed when the cache was looked for. `P` is the caller's way
/// of writing a directory; the library hands it on and never looks inside.
#[derive(Debug)]
pub enum CacheDirSource<P> {
    /// The override is set and names `path`; `is_dir` says whether an
    /// existing directory lies there.
    Override { path: P, is_dir: bool },
    /// The override is not set; the platform names this directory for the
    /// application's cache, or none.
    Platform(Option<P>),
}

/// The message for an override that names no existing directory.
pub open spec fn override_invalid_message() -> Seq<char> {
    "override path missing or not a directory"@
}

/// The message for a platform that names no cache directory.
pub open spec fn undetermined_message() -> Seq<char> {
    "could not determine cache directory"@
}

/// The cache root that follows from what was observed, or why there is none.
pub open spec fn cache_dir<P>(source: CacheDirSource<P>) -> Result<P, ErrorView> {
    match source {
        CacheDirSource::Override { path, is_dir } => if is_dir {
            Ok(path)
        } else {
            Err(ErrorView::CacheError(override_invalid_message()))
        },
        CacheDirSource::Platform(Some(path)) => Ok(path),
        CacheDirSource::Platform(None) => Err(ErrorView::CacheError(undetermined_message())),
    }
}

/// The view of the outcome of locating the cache.
pub open spec fn located_view<P>(r: Result<P, TealdeerError>) -> Result<P, ErrorView> {
    match r {
        Ok(p) => Ok(p),
        Err(e) => Err(e@),
    }
}

/// A set override decides alone: the platform's directory is used only
/// where no override is set, and an override that names no directory is an
/// error rather than a reason to fall back.
pub proof fn lemma_override_decides<P>(path: P, is_dir: bool)
    ensures
        is_dir ==> cache_dir(CacheDirSource::Override { path, is_dir }) == Ok::<P, ErrorView>(path),
        !is_dir ==> cache_dir(CacheDirSource::Override { path, is_dir }) is Err,
{
}

impl Cache {
    /// The cache root, from what was observed when looking for it.
    pub fn get_cache_dir<P>(source: CacheDirSource<P>) -> (r: Result<P, TealdeerError>)
        ensures
            located_view(r) == cache_dir(source),
    {
        match source {
            CacheDirSource::Override { path, is_dir } => {
                if is_dir {
                    Ok(path)
                } else {
                    Err(
                        TealdeerError::CacheError(
                            "override path missing or not a directory".to_owned(),
                        ),
                    )
                }
            },
            CacheDirSource::Platform(Some(path)) => Ok(path),
            CacheDirSource::Platform(None) => Err(
                TealdeerError::CacheError("could not determine cache directory".to_owned()),
            ),
        }
    }
}

} // verus!
