use tealdeer::cache::Cache;
use tealdeer::error::TealdeerError;
use tealdeer::locator::CacheDirSource;

#[test]
fn override_that_names_a_directory() {
    let source = CacheDirSource::Override { path: "/tmp/pages", is_dir: true };
    assert_eq!(Cache::get_cache_dir(source), Ok("/tmp/pages"));
}

#[test]
fn override_that_names_no_directory() {
    let source = CacheDirSource::Override { path: "/tmp/file", is_dir: false };
    assert_eq!(
        Cache::get_cache_dir(source),
        Err(TealdeerError::CacheError("override path missing or not a directory".to_string()))
    );
}

#[test]
fn platform_directory_without_override() {
    let source = CacheDirSource::Platform(Some(String::from("/home/me/.cache/tealdeer")));
    assert_eq!(Cache::get_cache_dir(source), Ok(String::from("/home/me/.cache/tealdeer")));
}

#[test]
fn no_directory_at_all() {
    let source: CacheDirSource<String> = CacheDirSource::Platform(None);
    assert_eq!(
        Cache::get_cache_dir(source),
        Err(TealdeerError::CacheError("could not determine cache directory".to_string()))
    );
}

#[test]
fn error_kinds_and_messages() {
    let cache = TealdeerError::CacheError("a".to_string());
    let update = TealdeerError::UpdateError("b".to_string());
    assert!(cache.is_cache_error());
    assert!(!update.is_cache_error());
    assert_eq!(cache.message(), "a");
    assert_eq!(update.message(), "b");
    assert_eq!(cache.clone(), cache);
    assert_ne!(cache, update);
}
