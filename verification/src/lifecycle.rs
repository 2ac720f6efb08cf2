//! The life of the cache: clearing it, replacing it with a fresh archive,
//! and telling how old it is.
//!
//! Clearing and updating alternate work on the disk or the network with
//! decisions. The decisions are here: each function takes the outcome of the
//! work just done and names the work to do next.

use crate::cache::Cache;
use crate::error::{outcome_view, ErrorView, TealdeerError};
use vstd::prelude::*;

verus! {

/// What lies at the cache root.
#[derive(Clone, Copy, Debug, PartialEq, Eq, Structural)]
pub enum DirState {
    /// Nothing.
    Missing,
    /// Something that is not a directory.
    NotADirectory,
    Directory,
}

/// The cache root, as found before clearing it.
#[derive(Debug)]
pub struct CacheDirProbe {
    /// The root, as it is shown to the user.
    pub display: String,
    pub state: DirState,
}

/// What clearing the cache does next.
#[derive(Debug, PartialEq, Eq)]
pub enum ClearStep {
    /// Remove the cache root and all that lies below it.
    RemoveDir,
    Finished(Result<(), TealdeerError>),
}

/// The view of a [`ClearStep`].
pub enum ClearStepView {
    RemoveDir,
    Finished(Result<(), ErrorView>),
}

impl View for ClearStep {
    type V = ClearStepView;

    open spec fn view(&self) -> ClearStepView {
        match self {
            ClearStep::RemoveDir => ClearStepView::RemoveDir,
            ClearStep::Finished(r) => ClearStepView::Finished(outcome_view(*r)),
        }
    }
}

/// The message for a cache root that could not be removed.
pub open spec fn not_removed_message(path: Seq<char>) -> Seq<char> {
    "Could not remove cache directory ("@ + path + ")."@
}

/// The message for a cache root that is not a directory.
pub open spec fn not_a_directory_message(path: Seq<char>) -> Seq<char> {
    "Cache path ("@ + path + ") is not a directory."@
}

/// The message for a cache root that does not exist.
pub open spec fn missing_message(path: Seq<char>) -> Seq<char> {
    "Cache path ("@ + path + ") does not exist."@
}

/// What clearing does with the cache root as it was found: a directory is
/// removed, and anything else is an error. To clear a cache that does not
/// exist is an error too.
pub open spec fn clear_step(located: Result<(Seq<char>, DirState), ErrorView>) -> ClearStepView {
    match located {
        Err(e) => ClearStepView::Finished(Err(e)),
        Ok((path, DirState::Directory)) => ClearStepView::RemoveDir,
        Ok((path, DirState::NotADirectory)) => ClearStepView::Finished(
            Err(ErrorView::CacheError(not_a_directory_message(path))),
        ),
        Ok((path, DirState::Missing)) => ClearStepView::Finished(
            Err(ErrorView::CacheError(missing_message(path))),
        ),
    }
}

/// The view of the cache root as found, or of the failure to locate it.
pub open spec fn probe_view(located: Result<CacheDirProbe, TealdeerError>) -> Result<
    (Seq<char>, DirState),
    ErrorView,
> {
    match located {
        Ok(p) => Ok((p.display@, p.state)),
        Err(e) => Err(e@),
    }
}

/// How clearing ends once the removal was tried.
pub open spec fn clear_outcome(path: Seq<char>, removed: bool) -> Result<(), ErrorView> {
    if removed {
        Ok(())
    } else {
        Err(ErrorView::CacheError(not_removed_message(path)))
    }
}

/// Clearing removes nothing but an existing directory, and ends well only
/// where it removed one.
pub proof fn lemma_clear_removes_only_directories(located: Result<(Seq<char>, DirState), ErrorView>)
    ensures
        clear_step(located) is RemoveDir <==> located is Ok && located->Ok_0.1 == DirState::Directory,
        clear_step(located) is Finished ==> clear_step(located)->Finished_0 is Err,
        located is Ok && located->Ok_0.1 == DirState::Missing ==> clear_step(located)
            == ClearStepView::Finished(
            Err(ErrorView::CacheError(missing_message(located->Ok_0.0))),
        ),
{
}

/// A stage of an update: the work that the caller does next.
#[derive(Debug, PartialEq, Eq)]
pub enum UpdateStep {
    /// Find the cache root.
    LocateCacheDir,
    /// Fetch the archive from this address.
    Download(String),
    /// Make sure that the cache root exists.
    CreateCacheDir,
    /// Clear the cache.
    ClearCache,
    /// Unpack the archive into the cache root.
    Unpack,
    Finished(Result<(), TealdeerError>),
}

/// The outcome of the work of one stage. Work of the network and the disk
/// fails with a description of the cause.
#[derive(Debug, PartialEq, Eq)]
pub enum UpdateEvent {
    Located(Result<(), TealdeerError>),
    Downloaded(Result<(), String>),
    Created(Result<(), String>),
    Cleared(Result<(), TealdeerError>),
    Unpacked(Result<(), String>),
}

/// The view of an [`UpdateStep`].
pub enum UpdateStepView {
    LocateCacheDir,
    Download(Seq<char>),
    CreateCacheDir,
    ClearCache,
    Unpack,
    Finished(Result<(), ErrorView>),
}

/// The view of an [`UpdateEvent`].
pub enum UpdateEventView {
    Located(Result<(), ErrorView>),
    Downloaded(Result<(), Seq<char>>),
    Created(Result<(), Seq<char>>),
    Cleared(Result<(), ErrorView>),
    Unpacked(Result<(), Seq<char>>),
}

/// The view of the outcome of work that fails with a description.
pub open spec fn work_view(r: Result<(), String>) -> Result<(), Seq<char>> {
    match r {
        Ok(_) => Ok(()),
        Err(cause) => Err(cause@),
    }
}

impl View for UpdateStep {
    type V = UpdateStepView;

    open spec fn view(&self) -> UpdateStepView {
        match self {
            UpdateStep::Download(url) => UpdateStepView::Download(url@),
            UpdateStep::LocateCacheDir => UpdateStepView::LocateCacheDir,
            UpdateStep::CreateCacheDir => UpdateStepView::CreateCacheDir,
            UpdateStep::ClearCache => UpdateStepView::ClearCache,
            UpdateStep::Unpack => UpdateStepView::Unpack,
            UpdateStep::Finished(r) => UpdateStepView::Finished(outcome_view(*r)),
        }
    }
}

impl View for UpdateEvent {
    type V = UpdateEventView;

    open spec fn view(&self) -> UpdateEventView {
        match self {
            UpdateEvent::Downloaded(r) => UpdateEventView::Downloaded(work_view(*r)),
            UpdateEvent::Located(r) => UpdateEventView::Located(outcome_view(*r)),
            UpdateEvent::Created(r) => UpdateEventView::Created(work_view(*r)),
            UpdateEvent::Cleared(r) => UpdateEventView::Cleared(outcome_view(*r)),
            UpdateEvent::Unpacked(r) => UpdateEventView::Unpacked(work_view(*r)),
        }
    }
}

/// The message for an archive that could not be fetched.
pub open spec fn download_failed_message(cause: Seq<char>) -> Seq<char> {
    "HTTP error: "@ + cause
}

/// The message for a cache root that could not be created.
pub open spec fn create_failed_message(cause: Seq<char>) -> Seq<char> {
    "Could not create cache directory: "@ + cause
}

/// The message for an archive that could not be unpacked.
pub open spec fn unpack_failed_message(cause: Seq<char>) -> Seq<char> {
    "Could not unpack compressed data: "@ + cause
}

/// An update that ended in an `UpdateError` with this message.
pub open spec fn update_failed(message: Seq<char>) -> UpdateStepView {
    UpdateStepView::Finished(Err(ErrorView::UpdateError(message)))
}

/// The stage that follows `step` once `event` is known, in an update from
/// the archive at `url`. The stages follow one another while the work
/// succeeds: the cache root is found, the archive fetched, the root created,
/// the cache cleared, the archive unpacked. The first failure ends the
/// update. An event that does not belong to the stage changes nothing.
pub open spec fn next_step(
    url: Seq<char>,
    step: UpdateStepView,
    event: UpdateEventView,
) -> UpdateStepView {
    match (step, event) {
        (UpdateStepView::LocateCacheDir, UpdateEventView::Located(Ok(_))) => {
            UpdateStepView::Download(url)
        },
        (UpdateStepView::LocateCacheDir, UpdateEventView::Located(Err(e))) => {
            UpdateStepView::Finished(Err(e))
        },
        (UpdateStepView::Download(_), UpdateEventView::Downloaded(Ok(_))) => {
            UpdateStepView::CreateCacheDir
        },
        (UpdateStepView::Download(_), UpdateEventView::Downloaded(Err(cause))) => update_failed(
            download_failed_message(cause),
        ),
        (UpdateStepView::CreateCacheDir, UpdateEventView::Created(Ok(_))) => {
            UpdateStepView::ClearCache
        },
        (UpdateStepView::CreateCacheDir, UpdateEventView::Created(Err(cause))) => update_failed(
            create_failed_message(cause),
        ),
        (UpdateStepView::ClearCache, UpdateEventView::Cleared(Ok(_))) => UpdateStepView::Unpack,
        (UpdateStepView::ClearCache, UpdateEventView::Cleared(Err(e))) => UpdateStepView::Finished(
            Err(e),
        ),
        (UpdateStepView::Unpack, UpdateEventView::Unpacked(Ok(_))) => UpdateStepView::Finished(
            Ok(()),
        ),
        (UpdateStepView::Unpack, UpdateEventView::Unpacked(Err(cause))) => update_failed(
            unpack_failed_message(cause),
        ),
        (step, _) => step,
    }
}

/// The stage that an update is at after a run of events.
pub open spec fn run(
    url: Seq<char>,
    step: UpdateStepView,
    events: Seq<UpdateEventView>,
) -> UpdateStepView
    decreases events.len(),
{
    if events.len() == 0 {
        step
    } else {
        run(url, next_step(url, step, events[0]), events.drop_first())
    }
}

/// How far an update has come: the number of stages behind it.
pub open spec fn progress(step: UpdateStepView) -> int {
    match step {
        UpdateStepView::LocateCacheDir => 0,
        UpdateStepView::Download(_) => 1,
        UpdateStepView::CreateCacheDir => 2,
        UpdateStepView::ClearCache => 3,
        UpdateStepView::Unpack => 4,
        UpdateStepView::Finished(_) => 5,
    }
}

/// Whether the event reports that the work of the stage `step` succeeded.
pub open spec fn succeeds(step: UpdateStepView, event: UpdateEventView) -> bool {
    match (step, event) {
        (UpdateStepView::LocateCacheDir, UpdateEventView::Located(Ok(_))) => true,
        (UpdateStepView::Download(_), UpdateEventView::Downloaded(Ok(_))) => true,
        (UpdateStepView::CreateCacheDir, UpdateEventView::Created(Ok(_))) => true,
        (UpdateStepView::ClearCache, UpdateEventView::Cleared(Ok(_))) => true,
        (UpdateStepView::Unpack, UpdateEventView::Unpacked(Ok(_))) => true,
        _ => false,
    }
}

/// An update that has ended stays as it ended.
pub proof fn lemma_finished_is_final(
    url: Seq<char>,
    outcome: Result<(), ErrorView>,
    events: Seq<UpdateEventView>,
)
    ensures
        run(url, UpdateStepView::Finished(outcome), events) == UpdateStepView::Finished(outcome),
    decreases events.len(),
{
    if events.len() > 0 {
        lemma_finished_is_final(url, outcome, events.drop_first());
    }
}

/// One event moves an update by at most one stage, and forward only where
/// the work of the stage succeeded; any other change is the end of the
/// update in an error.
pub proof fn lemma_step_by_step(url: Seq<char>, step: UpdateStepView, event: UpdateEventView)
    ensures
        succeeds(step, event) ==> progress(next_step(url, step, event)) == progress(step) + 1,
        succeeds(step, event) && progress(step) == 4 ==> next_step(url, step, event)
            == UpdateStepView::Finished(Ok(())),
        !succeeds(step, event) ==> next_step(url, step, event) == step || (next_step(
            url,
            step,
            event,
        ) is Finished && next_step(url, step, event)->Finished_0 is Err),
{
}

/// The archive is unpacked only into a cache that was just cleared: an
/// update comes to unpack from clearing, and only when clearing succeeded.
pub proof fn lemma_unpack_follows_clear(url: Seq<char>, step: UpdateStepView, event: UpdateEventView)
    requires
        next_step(url, step, event) is Unpack,
        !(step is Unpack),
    ensures
        step is ClearCache,
        event is Cleared,
        event->Cleared_0 is Ok,
{
}

/// In a run that ends well from a stage that is not the end, some event
/// reports the success of that stage, and the run ends well from the next
/// stage on the events behind it. The result is the place of that event.
pub proof fn lemma_stage_succeeds(
    url: Seq<char>,
    step: UpdateStepView,
    events: Seq<UpdateEventView>,
) -> (at: int)
    requires
        !(step is Finished),
        run(url, step, events) is Finished,
        run(url, step, events)->Finished_0 is Ok,
    ensures
        0 <= at < events.len(),
        succeeds(step, events[at]),
        run(url, next_step(url, step, events[at]), events.skip(at + 1)) == run(url, step, events),
    decreases events.len(),
{
    let next = next_step(url, step, events[0]);
    let rest = events.drop_first();
    if succeeds(step, events[0]) {
        assert(events.skip(1) =~= rest);
        0
    } else if next is Finished {
        lemma_finished_is_final(url, next->Finished_0, rest);
        0
    } else {
        let at = lemma_stage_succeeds(url, step, rest);
        assert(rest.skip(at + 1) =~= events.skip(at + 2));
        at + 1
    }
}

/// An update ends well only if the work of every stage succeeded, one stage
/// after the other: a run that ends well holds an event for each of the five
/// stages that reports its success, in the order of the stages. The result
/// gives the places of these events.
pub proof fn lemma_success_runs_every_stage(url: Seq<char>, events: Seq<UpdateEventView>) -> (at: (
    int,
    int,
    int,
    int,
    int,
))
    requires
        run(url, UpdateStepView::LocateCacheDir, events) is Finished,
        run(url, UpdateStepView::LocateCacheDir, events)->Finished_0 is Ok,
    ensures
        0 <= at.0 < at.1 < at.2 < at.3 < at.4 < events.len(),
        events[at.0] is Located && events[at.0]->Located_0 is Ok,
        events[at.1] is Downloaded && events[at.1]->Downloaded_0 is Ok,
        events[at.2] is Created && events[at.2]->Created_0 is Ok,
        events[at.3] is Cleared && events[at.3]->Cleared_0 is Ok,
        events[at.4] is Unpacked && events[at.4]->Unpacked_0 is Ok,
{
    let a0 = lemma_stage_succeeds(url, UpdateStepView::LocateCacheDir, events);
    let e1 = events.skip(a0 + 1);
    let a1 = lemma_stage_succeeds(url, UpdateStepView::Download(url), e1);
    let e2 = e1.skip(a1 + 1);
    let a2 = lemma_stage_succeeds(url, UpdateStepView::CreateCacheDir, e2);
    let e3 = e2.skip(a2 + 1);
    let a3 = lemma_stage_succeeds(url, UpdateStepView::ClearCache, e3);
    let e4 = e3.skip(a3 + 1);
    let a4 = lemma_stage_succeeds(url, UpdateStepView::Unpack, e4);
    let b1 = a0 + 1 + a1;
    let b2 = b1 + 1 + a2;
    let b3 = b2 + 1 + a3;
    let b4 = b3 + 1 + a4;
    (a0, b1, b2, b3, b4)
}

/// The first failure ends an update: the outcome is the failure, whatever
/// events follow.
pub proof fn lemma_failure_aborts(
    url: Seq<char>,
    step: UpdateStepView,
    event: UpdateEventView,
    later: Seq<UpdateEventView>,
)
    requires
        next_step(url, step, event) is Finished,
    ensures
        run(url, step, seq![event] + later) == next_step(url, step, event),
{
    let events = seq![event] + later;
    assert(events[0] == event);
    assert(events.drop_first() =~= later);
    lemma_finished_is_final(url, next_step(url, step, event)->Finished_0, later);
}

impl Cache {
    /// What clearing the cache does, given the cache root as it was found
    /// or the failure to locate it.
    pub fn clear(located: Result<CacheDirProbe, TealdeerError>) -> (step: ClearStep)
        ensures
            step@ == clear_step(probe_view(located)),
    {
        match located {
            Err(e) => ClearStep::Finished(Err(e)),
            Ok(probe) => match probe.state {
                DirState::Directory => ClearStep::RemoveDir,
                DirState::NotADirectory => {
                    let message = "Cache path (".to_owned().concat(probe.display.as_str()).concat(
                        ") is not a directory.",
                    );
                    ClearStep::Finished(Err(TealdeerError::CacheError(message)))
                },
                DirState::Missing => {
                    let message = "Cache path (".to_owned().concat(probe.display.as_str()).concat(
                        ") does not exist.",
                    );
                    ClearStep::Finished(Err(TealdeerError::CacheError(message)))
                },
            },
        }
    }

    /// How clearing ends after [`ClearStep::RemoveDir`]: well if the cache
    /// root, shown to the user as `display`, was removed.
    pub fn clear_removed(display: &str, removed: bool) -> (r: Result<(), TealdeerError>)
        ensures
            outcome_view(r) == clear_outcome(display@, removed),
    {
        if removed {
            Ok(())
        } else {
            let message = "Could not remove cache directory (".to_owned().concat(display).concat(
                ").",
            );
            Err(TealdeerError::CacheError(message))
        }
    }

    /// The first stage of an update of this cache.
    pub fn update(&self) -> (step: UpdateStep)
        ensures
            step@ == UpdateStepView::LocateCacheDir,
    {
        UpdateStep::LocateCacheDir
    }

    /// The stage that follows `step` once `event` is known.
    pub fn update_next(&self, step: UpdateStep, event: UpdateEvent) -> (next: UpdateStep)
        ensures
            next@ == next_step(self@.url, step@, event@),
    {
        match (step, event) {
            (UpdateStep::LocateCacheDir, UpdateEvent::Located(Ok(_))) => UpdateStep::Download(
                self.url().to_owned(),
            ),
            (UpdateStep::LocateCacheDir, UpdateEvent::Located(Err(e))) => UpdateStep::Finished(
                Err(e),
            ),
            (UpdateStep::Download(_), UpdateEvent::Downloaded(Ok(_))) => UpdateStep::CreateCacheDir,
            (UpdateStep::Download(_), UpdateEvent::Downloaded(Err(cause))) => {
                let message = "HTTP error: ".to_owned().concat(cause.as_str());
                UpdateStep::Finished(Err(TealdeerError::UpdateError(message)))
            },
            (UpdateStep::CreateCacheDir, UpdateEvent::Created(Ok(_))) => UpdateStep::ClearCache,
            (UpdateStep::CreateCacheDir, UpdateEvent::Created(Err(cause))) => {
                let message = "Could not create cache directory: ".to_owned().concat(
                    cause.as_str(),
                );
                UpdateStep::Finished(Err(TealdeerError::UpdateError(message)))
            },
            (UpdateStep::ClearCache, UpdateEvent::Cleared(Ok(_))) => UpdateStep::Unpack,
            (UpdateStep::ClearCache, UpdateEvent::Cleared(Err(e))) => UpdateStep::Finished(Err(e)),
            (UpdateStep::Unpack, UpdateEvent::Unpacked(Ok(_))) => UpdateStep::Finished(Ok(())),
            (UpdateStep::Unpack, UpdateEvent::Unpacked(Err(cause))) => {
                let message = "Could not unpack compressed data: ".to_owned().concat(
                    cause.as_str(),
                );
                UpdateStep::Finished(Err(TealdeerError::UpdateError(message)))
            },
            (step, _) => step,
        }
    }
}

} // verus!
