use tealdeer::cache::Cache;
use tealdeer::error::TealdeerError;
use tealdeer::lifecycle::{CacheDirProbe, ClearStep, DirState, UpdateEvent, UpdateStep};
use tealdeer::types::OsType;

fn probe(state: DirState) -> Result<CacheDirProbe, TealdeerError> {
    Ok(CacheDirProbe { display: "/home/me/.cache/tealdeer".to_string(), state })
}

fn cache_error(message: &str) -> TealdeerError {
    TealdeerError::CacheError(message.to_string())
}

fn update_error(message: &str) -> TealdeerError {
    TealdeerError::UpdateError(message.to_string())
}

fn cache() -> Cache {
    Cache::new("https://example.org/archive.tar.gz", OsType::Linux)
}

fn next(step: UpdateStep, event: UpdateEvent) -> UpdateStep {
    cache().update_next(step, event)
}

fn run(mut step: UpdateStep, events: Vec<UpdateEvent>) -> UpdateStep {
    for event in events {
        step = next(step, event);
    }
    step
}

fn start() -> UpdateStep {
    cache().update()
}

fn download() -> UpdateStep {
    UpdateStep::Download("https://example.org/archive.tar.gz".to_string())
}

#[test]
fn clearing_removes_a_directory() {
    assert_eq!(Cache::clear(probe(DirState::Directory)), ClearStep::RemoveDir);
    assert_eq!(Cache::clear_removed("/home/me/.cache/tealdeer", true), Ok(()));
}

#[test]
fn clearing_a_missing_cache_fails() {
    assert_eq!(
        Cache::clear(probe(DirState::Missing)),
        ClearStep::Finished(Err(cache_error("Cache path (/home/me/.cache/tealdeer) does not exist.")))
    );
}

#[test]
fn clearing_what_is_not_a_directory_fails() {
    assert_eq!(
        Cache::clear(probe(DirState::NotADirectory)),
        ClearStep::Finished(Err(cache_error(
            "Cache path (/home/me/.cache/tealdeer) is not a directory."
        )))
    );
}

#[test]
fn clearing_fails_without_a_cache_root() {
    let error = cache_error("could not determine cache directory");
    assert_eq!(Cache::clear(Err(error.clone())), ClearStep::Finished(Err(error)));
}

#[test]
fn clearing_fails_when_the_removal_fails() {
    assert_eq!(
        Cache::clear_removed("/home/me/.cache/tealdeer", false),
        Err(cache_error("Could not remove cache directory (/home/me/.cache/tealdeer)."))
    );
}

#[test]
fn update_starts_with_the_cache_root() {
    assert_eq!(start(), UpdateStep::LocateCacheDir);
}

#[test]
fn update_runs_through_its_stages() {
    let step = next(start(), UpdateEvent::Located(Ok(())));
    assert_eq!(step, download());
    let step = next(step, UpdateEvent::Downloaded(Ok(())));
    assert_eq!(step, UpdateStep::CreateCacheDir);
    let step = next(step, UpdateEvent::Created(Ok(())));
    assert_eq!(step, UpdateStep::ClearCache);
    let step = next(step, UpdateEvent::Cleared(Ok(())));
    assert_eq!(step, UpdateStep::Unpack);
    let step = next(step, UpdateEvent::Unpacked(Ok(())));
    assert_eq!(step, UpdateStep::Finished(Ok(())));
}

#[test]
fn update_fetches_from_the_address_of_the_cache() {
    let other = Cache::new("http://mirror.example/pages.tgz", OsType::Other);
    let step = other.update_next(other.update(), UpdateEvent::Located(Ok(())));
    assert_eq!(step, UpdateStep::Download("http://mirror.example/pages.tgz".to_string()));
}

#[test]
fn update_fails_without_a_cache_root() {
    let error = cache_error("override path missing or not a directory");
    let step = next(start(), UpdateEvent::Located(Err(error.clone())));
    assert_eq!(step, UpdateStep::Finished(Err(error)));
}

#[test]
fn update_fails_when_the_download_fails() {
    let step = next(download(), UpdateEvent::Downloaded(Err("timed out".to_string())));
    assert_eq!(step, UpdateStep::Finished(Err(update_error("HTTP error: timed out"))));
}

#[test]
fn update_fails_when_the_cache_root_cannot_be_created() {
    let step = run(
        start(),
        vec![
            UpdateEvent::Located(Ok(())),
            UpdateEvent::Downloaded(Ok(())),
            UpdateEvent::Created(Err("Permission denied (os error 13)".to_string())),
        ],
    );
    assert_eq!(
        step,
        UpdateStep::Finished(Err(update_error(
            "Could not create cache directory: Permission denied (os error 13)"
        )))
    );
}

#[test]
fn update_fails_when_clearing_fails() {
    let error = cache_error("Could not remove cache directory (/c).");
    let step = run(
        start(),
        vec![
            UpdateEvent::Located(Ok(())),
            UpdateEvent::Downloaded(Ok(())),
            UpdateEvent::Created(Ok(())),
            UpdateEvent::Cleared(Err(error.clone())),
        ],
    );
    assert_eq!(step, UpdateStep::Finished(Err(error)));
}

#[test]
fn update_fails_when_unpacking_fails() {
    let step = run(
        start(),
        vec![
            UpdateEvent::Located(Ok(())),
            UpdateEvent::Downloaded(Ok(())),
            UpdateEvent::Created(Ok(())),
            UpdateEvent::Cleared(Ok(())),
            UpdateEvent::Unpacked(Err("invalid gzip header".to_string())),
        ],
    );
    assert_eq!(
        step,
        UpdateStep::Finished(Err(update_error(
            "Could not unpack compressed data: invalid gzip header"
        )))
    );
}

#[test]
fn update_passes_over_events_of_other_stages() {
    assert_eq!(next(start(), UpdateEvent::Unpacked(Ok(()))), start());
    assert_eq!(next(start(), UpdateEvent::Downloaded(Ok(()))), start());
    assert_eq!(next(start(), UpdateEvent::Created(Err("no".to_string()))), start());
    assert_eq!(next(download(), UpdateEvent::Located(Err(cache_error("no")))), download());
    assert_eq!(next(UpdateStep::ClearCache, UpdateEvent::Unpacked(Ok(()))), UpdateStep::ClearCache);
    assert_eq!(
        next(UpdateStep::Unpack, UpdateEvent::Downloaded(Err("no".to_string()))),
        UpdateStep::Unpack
    );
}

#[test]
fn update_that_ended_stays_as_it_ended() {
    let failed = UpdateStep::Finished(Err(update_error("HTTP error: refused")));
    let after = run(
        UpdateStep::Finished(Err(update_error("HTTP error: refused"))),
        vec![
            UpdateEvent::Located(Ok(())),
            UpdateEvent::Downloaded(Ok(())),
            UpdateEvent::Created(Ok(())),
            UpdateEvent::Cleared(Ok(())),
            UpdateEvent::Unpacked(Ok(())),
        ],
    );
    assert_eq!(after, failed);
    let done = run(UpdateStep::Finished(Ok(())), vec![UpdateEvent::Unpacked(Err("x".to_string()))]);
    assert_eq!(done, UpdateStep::Finished(Ok(())));
}

#[test]
fn nothing_is_unpacked_before_the_cache_is_cleared() {
    let step = run(
        start(),
        vec![
            UpdateEvent::Located(Ok(())),
            UpdateEvent::Downloaded(Ok(())),
            UpdateEvent::Created(Ok(())),
            UpdateEvent::Unpacked(Ok(())),
        ],
    );
    assert_eq!(step, UpdateStep::ClearCache);
}

#[test]
fn nothing_is_fetched_without_a_cache_root() {
    let step = run(
        start(),
        vec![
            UpdateEvent::Located(Err(cache_error("could not determine cache directory"))),
            UpdateEvent::Downloaded(Ok(())),
        ],
    );
    assert_eq!(
        step,
        UpdateStep::Finished(Err(cache_error("could not determine cache directory")))
    );
}
