//! Sessions as a whole: every report the core can receive, the step each one
//! stands for, and what holds of every sequence of them.

use crate::directive::{DirectiveView, PipelineErrorView};
use crate::frame::{FrameView, Rect};
use crate::job::{JobEvent, JobStageView, JobView};
use crate::notice::translation_failure_text;
use crate::state::{
    after_cancel, after_capture, after_capture_failure, after_copy, after_engine_report, after_persist,
    after_persist_failure, after_read, after_region, after_save, after_trigger, AppStateView, StageView,
};
use crate::translator::{Reply, Translator};
use vstd::prelude::*;

verus! {

/// Anything that can be reported to the coordination context.
pub enum Report {
    /// A trigger asks for a capture session.
    Trigger,
    /// The display was captured.
    Captured(FrameView),
    /// The display could not be captured.
    CaptureFailed(Seq<char>),
    /// The user cancels.
    Cancel,
    /// The user has selected a region.
    Region(Rect),
    /// The region was written to this file.
    Persisted(Seq<char>),
    /// The region could not be written.
    PersistFailed(Seq<char>),
    /// Something happened for the recognition job.
    Engine(JobEvent),
    /// Putting the image on the clipboard was tried.
    Copied(Result<(), String>),
    /// Saving the image was tried.
    Saved(Result<(), String>),
    /// Reading the image back was tried.
    Read(Option<Vec<u8>>),
}

/// The state after a report, and the answer to it.
pub open spec fn step<T: Translator>(state: AppStateView, report: Report, translator: &T) -> (
    AppStateView,
    DirectiveView,
) {
    match report {
        Report::Trigger => after_trigger(state),
        Report::Captured(frame) => after_capture(state, frame),
        Report::CaptureFailed(reason) => after_capture_failure(state, reason),
        Report::Cancel => after_cancel(state),
        Report::Region(rect) => after_region(state, rect),
        Report::Persisted(path) => after_persist(state, path),
        Report::PersistFailed(reason) => after_persist_failure(state, reason),
        Report::Engine(event) => after_engine_report(state, event, translator),
        Report::Copied(outcome) => after_copy(state, outcome),
        Report::Saved(outcome) => after_save(state, outcome),
        Report::Read(file) => after_read(state, file),
    }
}

/// The state after a sequence of reports, taken in order.
pub open spec fn run<T: Translator>(state: AppStateView, reports: Seq<Report>, translator: &T) -> AppStateView
    decreases reports.len(),
{
    if reports.len() == 0 {
        state
    } else {
        step(run(state, reports.drop_last(), translator), reports.last(), translator).0
    }
}

/// How often the lock is taken in the course of a sequence of reports.
pub open spec fn acquisitions<T: Translator>(state: AppStateView, reports: Seq<Report>, translator: &T) -> nat
    decreases reports.len(),
{
    if reports.len() == 0 {
        0
    } else {
        let before = run(state, reports.drop_last(), translator);
        let after = step(before, reports.last(), translator).0;
        let earlier = acquisitions(state, reports.drop_last(), translator);
        if !before.lock_held && after.lock_held {
            earlier + 1
        } else {
            earlier
        }
    }
}

/// How often the lock is released in the course of a sequence of reports.
pub open spec fn releases<T: Translator>(state: AppStateView, reports: Seq<Report>, translator: &T) -> nat
    decreases reports.len(),
{
    if reports.len() == 0 {
        0
    } else {
        let before = run(state, reports.drop_last(), translator);
        let after = step(before, reports.last(), translator).0;
        let earlier = releases(state, reports.drop_last(), translator);
        if before.lock_held && !after.lock_held {
            earlier + 1
        } else {
            earlier
        }
    }
}

/// An answer that turns a report away, as opposed to one that says a
/// session failed: it names an error and asks for nothing to be done. The
/// failure of a session always has the user told and the processing
/// indicator taken away.
pub open spec fn turned_away(directive: DirectiveView) -> bool {
    directive.error is Some && directive.effects.len() == 0
}

/// Of two triggers that arrive while no session is in flight, whichever
/// comes first gets the session, and the other is told that the lock is
/// busy and changes nothing.
pub proof fn lemma_one_trigger_wins(state: AppStateView)
    requires
        !state.lock_held,
    ensures
        after_trigger(state).1.error is None,
        after_trigger(state).1.request is Some,
        after_trigger(after_trigger(state).0).1.error == Some(PipelineErrorView::LockBusy),
        after_trigger(after_trigger(state).0).1.request is None,
        after_trigger(after_trigger(state).0).1.effects.len() == 0,
        after_trigger(after_trigger(state).0).0 == after_trigger(state).0,
{
}

/// No step breaks the rule that the lock is held exactly while a session is
/// in flight.
pub proof fn lemma_step_keeps_consistency<T: Translator>(state: AppStateView, report: Report, translator: &T)
    requires
        state.consistent(),
    ensures
        step(state, report, translator).0.consistent(),
{
}

/// A step that fails, at whatever stage, ends the session: the lock is free
/// afterwards and no further work is asked for.
pub proof fn lemma_failure_frees_lock<T: Translator>(state: AppStateView, report: Report, translator: &T)
    requires
        step(state, report, translator).1.error is Some,
        !turned_away(step(state, report, translator).1),
    ensures
        !step(state, report, translator).0.lock_held,
        step(state, report, translator).0.stage is Idle,
        step(state, report, translator).1.request is None,
{
}

/// A report that is turned away changes nothing at all: a pipeline that
/// runs keeps its lock, whatever is reported out of turn.
pub proof fn lemma_turned_away_changes_nothing<T: Translator>(
    state: AppStateView,
    report: Report,
    translator: &T,
)
    requires
        turned_away(step(state, report, translator).1),
    ensures
        step(state, report, translator).0 == state,
        step(state, report, translator).1.request is None,
{
}

/// While a session is in flight, the lock is held as long as work is asked
/// for, and free as soon as none is.
pub proof fn lemma_lock_follows_work<T: Translator>(state: AppStateView, report: Report, translator: &T)
    requires
        state.consistent(),
        !turned_away(step(state, report, translator).1),
    ensures
        step(state, report, translator).0.lock_held == (step(state, report, translator).1.request is Some),
{
}

/// A region that finds the handoff empty fails with `EmptyHandoff` in every
/// stage, and nothing is handed over to be written. It ends a session that
/// waited for the region; in any other stage it changes nothing.
pub proof fn lemma_region_needs_a_frame(state: AppStateView, rect: Rect)
    requires
        state.handoff is None,
    ensures
        after_region(state, rect).1.error == Some(PipelineErrorView::EmptyHandoff),
        after_region(state, rect).1.request is None,
        after_region(state, rect).0.handoff is None,
        after_region(state, rect).0.history == state.history,
        state.stage is Grabbing || state.stage is Selecting ==> after_region(state, rect).0 == state.ended(),
        !(state.stage is Grabbing || state.stage is Selecting) ==> after_region(state, rect).0 == state,
{
}

/// A frame serves one region. Whatever becomes of the first region that a
/// session receives, a second one finds the handoff empty, fails with
/// `EmptyHandoff`, and leaves everything as the first left it.
pub proof fn lemma_frame_serves_one_region(state: AppStateView, first: Rect, second: Rect)
    requires
        state.stage is Grabbing || state.stage is Selecting,
    ensures
        after_region(state, first).0.handoff is None,
        after_region(after_region(state, first).0, second).1.error == Some(PipelineErrorView::EmptyHandoff),
        after_region(after_region(state, first).0, second).1.request is None,
        after_region(after_region(state, first).0, second).0 == after_region(state, first).0,
{
}

/// Over any sequence of reports the rule of the lock holds throughout, and
/// the lock is released exactly once for each time it was taken: the two
/// counts differ only by the session that is still in flight at either end.
pub proof fn lemma_releases_match_acquisitions<T: Translator>(
    state: AppStateView,
    reports: Seq<Report>,
    translator: &T,
)
    requires
        state.consistent(),
    ensures
        run(state, reports, translator).consistent(),
        acquisitions(state, reports, translator) + (if state.lock_held {
            1nat
        } else {
            0nat
        }) == releases(state, reports, translator) + (if run(state, reports, translator).lock_held {
            1nat
        } else {
            0nat
        }),
    decreases reports.len(),
{
    if reports.len() > 0 {
        lemma_releases_match_acquisitions(state, reports.drop_last(), translator);
        lemma_step_keeps_consistency(run(state, reports.drop_last(), translator), reports.last(), translator);
    }
}

/// A translation that fails does not take the recognised text away: the
/// result that is cached holds the text, with the words of the failure in
/// the translation's place, and the failure is reported as the engine's.
pub proof fn lemma_failed_translation_keeps_text<T: Translator>(
    state: AppStateView,
    job: JobView,
    original: Seq<char>,
    reply: Reply,
    translator: &T,
)
    requires
        state.stage == StageView::Recognising(job),
        job.stage == (JobStageView::Translating { original }),
        translator.reading(reply) is Err,
    ensures
        ({
            let event = match reply {
                Reply::Http(r) => JobEvent::Replied(r),
                Reply::Process(outcome) => JobEvent::Exited(outcome),
            };
            let (after, directive) = after_engine_report(state, event, translator);
            &&& after.cache matches Some(result)
            &&& result.original_text == Some(original)
            &&& result.translated_text == Some(translation_failure_text(translator.reading(reply)->Err_0))
            &&& directive.error == Some(PipelineErrorView::Engine(translator.reading(reply)->Err_0))
            &&& !after.lock_held
        }),
{
}

/// A region that reaches outside the frame leaves no trace: the step fails
/// as out of bounds, nothing is handed over to be written, the history and
/// the cache stay as they were, and the lock is free.
pub proof fn lemma_out_of_bounds_leaves_no_trace(state: AppStateView, frame: FrameView, rect: Rect)
    requires
        state.stage is Grabbing || state.stage is Selecting,
        state.handoff == Some(frame),
        !rect.within(frame.width as int, frame.height as int),
    ensures
        after_region(state, rect).1.error == Some(PipelineErrorView::CropOutOfBounds),
        after_region(state, rect).1.request is None,
        after_region(state, rect).0.history == state.history,
        after_region(state, rect).0.last_screenshot_path == state.last_screenshot_path,
        after_region(state, rect).0.cache == state.cache,
        !after_region(state, rect).0.lock_held,
{
}

} // verus!
