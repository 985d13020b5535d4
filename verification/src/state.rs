//! The coordination context: everything the capture core shares between
//! triggers and pipeline runs, and the steps that move a session along.

use crate::cache::{OcrResult, OcrResultView, ResultCache};
use crate::directive::{
    effect_views, optional_error, Directive, DirectiveView, Effect, EffectView, Notice, NoticeView,
    PipelineError, PipelineErrorView, Request, RequestView,
};
use crate::encode::{data_url_of_png, encode_image_to_data_url, image_data_url, png_data_url, EncodeError};
use crate::frame::{crop_of, Frame, FrameHandoff, FrameView, Rect};
use crate::history::{HistoryRing, HistoryView, ScreenshotRecord};
use crate::job::{job_next, EngineLocation, JobEvent, JobPlan, JobStageView, JobStep, JobView, OcrJob};
use crate::lock::CaptureLock;
use crate::notice::{
    capture_failed_notice, copied_notice, copy_failed_notice, make_capture_failed_notice, make_copied_notice,
    make_copy_failed_notice, make_preview_failed_notice, make_save_failed_notice, make_saved_notice,
    preview_failed_notice, save_failed_notice, saved_notice,
};
use crate::settings::{
    action_named, change_between, plan_change, AppSettings, AppSettingsView, PrimaryAction, SettingsChange,
};
use crate::translator::Translator;
use vstd::prelude::*;
use vstd::string::StringExecFns;

verus! {

/// What the user is told when the frame could not be encoded for display.
pub const ENCODE_FAILED_TEXT: &'static str = "无法编码截图";

/// What the user is told when there was no frame to crop.
pub const EMPTY_HANDOFF_TEXT: &'static str = "未找到缓存的全屏截图";

/// What the user is told when the selection reaches outside the screen.
pub const OUT_OF_BOUNDS_TEXT: &'static str = "所选区域超出屏幕范围";

/// What precedes the reason for which a region could not be written.
pub const PERSIST_FAILED_PREFIX: &'static str = "保存截图失败: ";

/// Where a capture session stands.
#[derive(Debug, PartialEq, Eq)]
pub enum Stage {
    /// No session.
    Idle,
    /// The display is being captured.
    Grabbing,
    /// The user is selecting a region.
    Selecting,
    /// The region is being written to disk; the settings are those that
    /// were in force when the region came in.
    Persisting(AppSettings),
    /// Text is being recognised.
    Recognising(OcrJob),
    /// The image is being put on the clipboard.
    CopyingImage,
    /// The image is being saved.
    SavingImage,
    /// The image at this path is being read back for showing it.
    ReadingImage(String),
}

/// A `Stage` with its contents as mathematical values.
pub enum StageView {
    Idle,
    Grabbing,
    Selecting,
    Persisting(AppSettingsView),
    Recognising(JobView),
    CopyingImage,
    SavingImage,
    ReadingImage(Seq<char>),
}

impl View for Stage {
    type V = StageView;

    open spec fn view(&self) -> StageView {
        match self {
            Stage::Idle => StageView::Idle,
            Stage::Grabbing => StageView::Grabbing,
            Stage::Selecting => StageView::Selecting,
            Stage::Persisting(settings) => StageView::Persisting(settings@),
            Stage::Recognising(job) => StageView::Recognising(job@),
            Stage::CopyingImage => StageView::CopyingImage,
            Stage::SavingImage => StageView::SavingImage,
            Stage::ReadingImage(path) => StageView::ReadingImage(path@),
        }
    }
}

/// The coordination context. It is made once and handed to every operation.
#[derive(Debug)]
pub struct AppState {
    settings: AppSettings,
    extractor: EngineLocation,
    lock: CaptureLock,
    handoff: FrameHandoff,
    history: HistoryRing,
    cache: ResultCache,
    last_screenshot_path: Option<String>,
    stage: Stage,
}

/// An `AppState` as mathematical values.
pub struct AppStateView {
    pub settings: AppSettingsView,
    pub exe_path: Seq<char>,
    pub exe_dir: Seq<char>,
    pub lock_held: bool,
    pub handoff: Option<FrameView>,
    pub history: HistoryView,
    pub cache: Option<OcrResultView>,
    pub last_screenshot_path: Option<Seq<char>>,
    pub stage: StageView,
}

impl View for AppState {
    type V = AppStateView;

    closed spec fn view(&self) -> AppStateView {
        AppStateView {
            settings: self.settings@,
            exe_path: self.extractor.exe_path@,
            exe_dir: self.extractor.exe_dir@,
            lock_held: self.lock.held(),
            handoff: self.handoff@,
            history: self.history@,
            cache: self.cache@,
            last_screenshot_path: match self.last_screenshot_path {
                Some(path) => Some(path@),
                None => None,
            },
            stage: self.stage@,
        }
    }
}

impl AppStateView {
    /// The lock is held exactly while a session is in flight.
    pub open spec fn consistent(self) -> bool {
        self.lock_held == !(self.stage is Idle)
    }

    /// The state after a session has ended: the lock is free and nothing is
    /// in flight. Everything else is as it was.
    pub open spec fn ended(self) -> AppStateView {
        AppStateView { lock_held: false, stage: StageView::Idle, ..self }
    }
}

/// The answer to a report that nothing is waiting for.
pub open spec fn refusal() -> DirectiveView {
    DirectiveView { effects: Seq::empty(), request: None, error: Some(PipelineErrorView::OutOfTurn) }
}

/// The answer that ends a session in failure: the user is told why, and the
/// processing indicator goes away.
pub open spec fn failure(error: PipelineErrorView, words: Seq<char>) -> DirectiveView {
    DirectiveView {
        effects: seq![EffectView::Notify(capture_failed_notice(words)), EffectView::ProcessingFinished],
        request: None,
        error: Some(error),
    }
}

/// A trigger arrives. It wins the lock if the lock is free, and is then
/// asked to capture the display; otherwise nothing changes.
pub open spec fn after_trigger(state: AppStateView) -> (AppStateView, DirectiveView) {
    if state.lock_held {
        (state, DirectiveView { effects: Seq::empty(), request: None, error: Some(PipelineErrorView::LockBusy) })
    } else {
        (
            AppStateView { lock_held: true, stage: StageView::Grabbing, ..state },
            DirectiveView { effects: Seq::empty(), request: Some(RequestView::Grab), error: None },
        )
    }
}

/// The display was captured. The frame goes into the handoff and is shown
/// for selection; a frame that cannot be shown ends the session.
pub open spec fn after_capture(state: AppStateView, frame: FrameView) -> (AppStateView, DirectiveView) {
    if state.stage is Grabbing {
        match image_data_url(frame.width, frame.height, frame.pixels) {
            Ok(url) => (
                AppStateView { handoff: Some(frame), stage: StageView::Selecting, ..state },
                DirectiveView {
                    effects: seq![EffectView::CaptureReady(url)],
                    request: Some(RequestView::Select),
                    error: None,
                },
            ),
            Err(e) => (state.ended(), failure(PipelineErrorView::EncodeError(e), ENCODE_FAILED_TEXT@)),
        }
    } else {
        (state, refusal())
    }
}

/// The display could not be captured: the session ends.
pub open spec fn after_capture_failure(state: AppStateView, reason: Seq<char>) -> (
    AppStateView,
    DirectiveView,
) {
    if state.stage is Grabbing {
        (state.ended(), failure(PipelineErrorView::CaptureError(reason), reason))
    } else {
        (state, refusal())
    }
}

/// The user cancels. Before a region has come in that ends the session;
/// later there is nothing to cancel.
pub open spec fn after_cancel(state: AppStateView) -> (AppStateView, DirectiveView) {
    if state.stage is Grabbing || state.stage is Selecting {
        (state.ended(), DirectiveView { effects: Seq::empty(), request: None, error: None })
    } else {
        (state, refusal())
    }
}

/// The answer to a region that finds no frame while nothing waits for a
/// region: the handoff is empty, and that is all there is to say.
pub open spec fn nothing_to_crop() -> DirectiveView {
    DirectiveView { effects: Seq::empty(), request: None, error: Some(PipelineErrorView::EmptyHandoff) }
}

/// A region comes in. Without a frame in the handoff it fails with
/// `EmptyHandoff`, whatever the stage.
///
/// While a session waits for a region, the frame leaves the handoff
/// whatever happens next. A region inside the frame is cut out and handed
/// over to be written to disk; a missing frame or a region that reaches
/// outside ends the session.
///
/// While nothing waits for a region, the state stays as it is: a pipeline
/// that runs keeps its lock, and a frame that was left behind stays where
/// it is.
pub open spec fn after_region(state: AppStateView, rect: Rect) -> (AppStateView, DirectiveView) {
    if state.stage is Grabbing || state.stage is Selecting {
        match state.handoff {
            Some(frame) => if rect.within(frame.width as int, frame.height as int) {
                (
                    AppStateView { handoff: None, stage: StageView::Persisting(state.settings), ..state },
                    DirectiveView {
                        effects: seq![EffectView::ProcessingStarted],
                        request: Some(RequestView::Persist(crop_of(frame, rect))),
                        error: None,
                    },
                )
            } else {
                (
                    AppStateView { handoff: None, ..state.ended() },
                    failure(PipelineErrorView::CropOutOfBounds, OUT_OF_BOUNDS_TEXT@),
                )
            },
            None => (state.ended(), failure(PipelineErrorView::EmptyHandoff, EMPTY_HANDOFF_TEXT@)),
        }
    } else if state.handoff is None {
        (state, nothing_to_crop())
    } else {
        (state, refusal())
    }
}

/// The job that recognises the text in a freshly written region.
pub open spec fn job_for(state: AppStateView, settings: AppSettingsView, path: Seq<char>, translate: bool) -> JobView {
    JobView {
        image_path: path,
        translate,
        target_lang: settings.target_lang,
        preserve_line_breaks: settings.preserve_line_breaks,
        exe_path: state.exe_path,
        exe_dir: state.exe_dir,
        stage: JobStageView::ProbingExtractor,
    }
}

/// What is waited for, and what is asked, once a region is on disk: by the
/// configured action.
pub open spec fn dispatched(state: AppStateView, settings: AppSettingsView, path: Seq<char>) -> (
    StageView,
    RequestView,
) {
    match action_named(settings.primary_action) {
        PrimaryAction::Extract => (
            StageView::Recognising(job_for(state, settings, path, false)),
            RequestView::Probe(state.exe_path),
        ),
        PrimaryAction::ExtractTranslate => (
            StageView::Recognising(job_for(state, settings, path, true)),
            RequestView::Probe(state.exe_path),
        ),
        PrimaryAction::Copy => (StageView::CopyingImage, RequestView::CopyImage(path)),
        PrimaryAction::Save => (StageView::SavingImage, RequestView::SaveImage(path)),
        PrimaryAction::Preview => (StageView::ReadingImage(path), RequestView::ReadImage(path)),
    }
}

/// The region is on disk. It enters the history, whose oldest entry makes
/// room where the history was full and has its file deleted; then the
/// configured action is started.
pub open spec fn after_persist(state: AppStateView, path: Seq<char>) -> (AppStateView, DirectiveView) {
    match state.stage {
        StageView::Persisting(settings) => (
            AppStateView {
                history: state.history.inserted(path),
                last_screenshot_path: Some(path),
                stage: dispatched(state, settings, path).0,
                ..state
            },
            DirectiveView {
                effects: match state.history.evicted() {
                    Some(oldest) => seq![EffectView::DeleteFile(oldest)],
                    None => Seq::empty(),
                },
                request: Some(dispatched(state, settings, path).1),
                error: None,
            },
        ),
        _ => (state, refusal()),
    }
}

/// The region could not be written: the session ends, the history stays
/// as it was.
pub open spec fn after_persist_failure(state: AppStateView, reason: Seq<char>) -> (
    AppStateView,
    DirectiveView,
) {
    if state.stage is Persisting {
        (state.ended(), failure(PipelineErrorView::PersistError(reason), PERSIST_FAILED_PREFIX@ + reason))
    } else {
        (state, refusal())
    }
}

/// A report for the recognition job. The job decides what follows. When it
/// hands out its result, the result is cached, whether or not every stage
/// succeeded, and the session ends.
pub open spec fn after_engine_report<T: Translator>(state: AppStateView, event: JobEvent, translator: &T) -> (
    AppStateView,
    DirectiveView,
) {
    match state.stage {
        StageView::Recognising(job) => {
            let (stage, step) = job_next(job, event, translator);
            match step.result {
                Some(result) => (
                    AppStateView { cache: Some(result), ..state.ended() },
                    DirectiveView {
                        effects: step.effects.push(EffectView::ProcessingFinished),
                        request: None,
                        error: match step.failure {
                            Some(e) => Some(PipelineErrorView::Engine(e)),
                            None => None,
                        },
                    },
                ),
                None => if step.request is Some {
                    (
                        AppStateView { stage: StageView::Recognising(JobView { stage, ..job }), ..state },
                        DirectiveView { effects: step.effects, request: step.request, error: None },
                    )
                } else {
                    (state, refusal())
                },
            }
        },
        _ => (state, refusal()),
    }
}

/// The answer that ends a session with a message to the user.
pub open spec fn closing(notice: NoticeView, error: Option<PipelineErrorView>) -> DirectiveView {
    DirectiveView {
        effects: seq![EffectView::Notify(notice), EffectView::ProcessingFinished],
        request: None,
        error,
    }
}

/// The image went to the clipboard, or did not: the user is told which, and
/// the session ends.
pub open spec fn after_copy(state: AppStateView, outcome: Result<(), String>) -> (AppStateView, DirectiveView) {
    if state.stage is CopyingImage {
        match outcome {
            Ok(_) => (state.ended(), closing(copied_notice(), None)),
            Err(reason) => (
                state.ended(),
                closing(copy_failed_notice(reason@), Some(PipelineErrorView::ClipboardError(reason@))),
            ),
        }
    } else {
        (state, refusal())
    }
}

/// The image was saved, or was not: the user is told which, and the session
/// ends.
pub open spec fn after_save(state: AppStateView, outcome: Result<(), String>) -> (AppStateView, DirectiveView) {
    if state.stage is SavingImage {
        match outcome {
            Ok(_) => (state.ended(), closing(saved_notice(), None)),
            Err(reason) => (
                state.ended(),
                closing(save_failed_notice(reason@), Some(PipelineErrorView::SaveError(reason@))),
            ),
        }
    } else {
        (state, refusal())
    }
}

/// The image file was read back, or could not be. What was read is shown as
/// a data URL; otherwise the user is told. Either way the session ends.
pub open spec fn after_read(state: AppStateView, file: Option<Vec<u8>>) -> (AppStateView, DirectiveView) {
    match state.stage {
        StageView::ReadingImage(path) => match file {
            Some(bytes) => if bytes@.len() / 3 < usize::MAX / 4 {
                (
                    state.ended(),
                    DirectiveView {
                        effects: seq![
                            EffectView::ShowPreview { image_data_url: png_data_url(bytes@), image_path: path },
                            EffectView::ProcessingFinished,
                        ],
                        request: None,
                        error: None,
                    },
                )
            } else {
                (
                    state.ended(),
                    closing(
                        preview_failed_notice(),
                        Some(PipelineErrorView::EncodeError(EncodeError::TooLarge)),
                    ),
                )
            },
            None => (state.ended(), closing(preview_failed_notice(), Some(PipelineErrorView::ReadError))),
        },
        _ => (state, refusal()),
    }
}

/// Whether a recognition of an existing image is to translate, by the name
/// of the action asked for: recognition alone goes by `ocr`, recognition
/// with translation by `ocr_translate`. Every other name gives nothing.
pub open spec fn reprocess_translates(action: Seq<char>) -> Option<bool> {
    if action == "ocr_translate"@ {
        Some(true)
    } else if action == "ocr"@ {
        Some(false)
    } else {
        None
    }
}

/// A step that neither asks for work nor hands out a result leaves the job
/// where it was.
pub proof fn lemma_silent_step_keeps_stage<T: Translator>(job: JobView, event: JobEvent, translator: &T)
    requires
        job_next(job, event, translator).1.request is None,
        job_next(job, event, translator).1.result is None,
    ensures
        job_next(job, event, translator).0 == job.stage,
{
}

/// Answers a report that nothing is waiting for.
fn refuse() -> (directive: Directive)
    ensures
        directive@ == refusal(),
{
    let effects: Vec<Effect> = Vec::new();
    assert(effect_views(effects@) == Seq::<EffectView>::empty());
    Directive { effects, request: None, error: Some(PipelineError::OutOfTurn) }
}

/// Builds the answer that ends a session with a message to the user.
fn close_with(notice: Notice, error: Option<PipelineError>) -> (directive: Directive)
    ensures
        directive@ == closing(notice@, optional_error(error)),
{
    let mut effects: Vec<Effect> = Vec::new();
    effects.push(Effect::Notify(notice));
    effects.push(Effect::ProcessingFinished);
    assert(effect_views(effects@) == seq![EffectView::Notify(notice@), EffectView::ProcessingFinished]);
    Directive { effects, request: None, error }
}

impl AppState {
    /// A context with the given settings and engine location: no session,
    /// nothing captured, nothing recorded, nothing cached.
    pub fn new(settings: AppSettings, extractor: EngineLocation) -> (state: AppState)
        ensures
            state@.settings == settings@,
            state@.exe_path == extractor.exe_path@,
            state@.exe_dir == extractor.exe_dir@,
            !state@.lock_held,
            state@.handoff is None,
            state@.history.paths.len() == 0,
            state@.history.cursor == 0,
            state@.cache is None,
            state@.last_screenshot_path is None,
            state@.stage is Idle,
            state@.consistent(),
    {
        AppState {
            settings,
            extractor,
            lock: CaptureLock::new(),
            handoff: FrameHandoff::new(),
            history: HistoryRing::new(),
            cache: ResultCache::new(),
            last_screenshot_path: None,
            stage: Stage::Idle,
        }
    }

    /// Whether a capture session is in flight.
    pub fn is_capturing(&self) -> (held: bool)
        ensures
            held == self@.lock_held,
    {
        self.lock.is_held()
    }

    /// Where the session stands.
    pub fn stage(&self) -> (stage: &Stage)
        ensures
            stage@ == self@.stage,
    {
        &self.stage
    }

    /// The settings in force.
    pub fn settings(&self) -> (settings: &AppSettings)
        ensures
            settings@ == self@.settings,
    {
        &self.settings
    }

    /// The path of the screenshot written last.
    pub fn last_screenshot_path(&self) -> (path: Option<&str>)
        ensures
            match path {
                Some(p) => self@.last_screenshot_path == Some(p@),
                None => self@.last_screenshot_path is None,
            },
    {
        match &self.last_screenshot_path {
            Some(path) => Some(path.as_str()),
            None => None,
        }
    }

    /// The history of screenshots.
    pub fn history(&self) -> (history: &HistoryRing)
        ensures
            history@ == self@.history,
    {
        &self.history
    }

    /// The result cached last, for showing it again.
    pub fn latest_result(&self) -> (result: Option<&OcrResult>)
        ensures
            match result {
                Some(r) => self@.cache == Some(r@),
                None => self@.cache is None,
            },
    {
        self.cache.latest()
    }

    /// Ends the session: frees the lock and forgets the stage.
    fn end_session(&mut self)
        ensures
            final(self)@ == old(self)@.ended(),
    {
        self.lock.end();
        self.stage = Stage::Idle;
    }

    /// Ends the session in failure.
    fn fail(&mut self, error: PipelineError, words: &str) -> (directive: Directive)
        ensures
            final(self)@ == old(self)@.ended(),
            directive@ == failure(error@, words@),
    {
        self.end_session();
        let mut effects: Vec<Effect> = Vec::new();
        effects.push(Effect::Notify(make_capture_failed_notice(words)));
        effects.push(Effect::ProcessingFinished);
        assert(effect_views(effects@) == seq![
            EffectView::Notify(capture_failed_notice(words@)),
            EffectView::ProcessingFinished,
        ]);
        Directive { effects, request: None, error: Some(error) }
    }

    /// A trigger asks for a capture session. It gets one exactly when none
    /// is in flight; a trigger that comes second changes nothing.
    pub fn begin_capture(&mut self) -> (directive: Directive)
        ensures
            (final(self)@, directive@) == after_trigger(old(self)@),
    {
        let effects: Vec<Effect> = Vec::new();
        assert(effect_views(effects@) == Seq::<EffectView>::empty());
        match self.lock.try_begin() {
            Ok(_) => {
                self.stage = Stage::Grabbing;
                Directive { effects, request: Some(Request::Grab), error: None }
            },
            Err(_) => Directive { effects, request: None, error: Some(PipelineError::LockBusy) },
        }
    }

    /// The display was captured.
    pub fn frame_captured(&mut self, frame: Frame) -> (directive: Directive)
        ensures
            (final(self)@, directive@) == after_capture(old(self)@, frame@),
    {
        match self.stage {
            Stage::Grabbing => {},
            _ => {
                return refuse();
            },
        }
        match encode_image_to_data_url(&frame) {
            Ok(url) => {
                self.handoff.put(frame);
                self.stage = Stage::Selecting;
                let mut effects: Vec<Effect> = Vec::new();
                effects.push(Effect::CaptureReady(url));
                assert(effect_views(effects@) == seq![EffectView::CaptureReady(url@)]);
                Directive { effects, request: Some(Request::Select), error: None }
            },
            Err(e) => self.fail(PipelineError::EncodeError(e), ENCODE_FAILED_TEXT),
        }
    }

    /// The display could not be captured.
    pub fn capture_failed(&mut self, reason: String) -> (directive: Directive)
        ensures
            (final(self)@, directive@) == after_capture_failure(old(self)@, reason@),
    {
        match self.stage {
            Stage::Grabbing => {},
            _ => {
                return refuse();
            },
        }
        let words = reason.clone();
        self.fail(PipelineError::CaptureError(reason), words.as_str())
    }

    /// The user cancels the selection.
    pub fn cancel(&mut self) -> (directive: Directive)
        ensures
            (final(self)@, directive@) == after_cancel(old(self)@),
    {
        match self.stage {
            Stage::Grabbing => {},
            Stage::Selecting => {},
            _ => {
                return refuse();
            },
        }
        self.end_session();
        let effects: Vec<Effect> = Vec::new();
        assert(effect_views(effects@) == Seq::<EffectView>::empty());
        Directive { effects, request: None, error: None }
    }

    /// The user has selected a region. A region that lies within the frame
    /// is cut out and handed over to be written to a file. A region that
    /// does not ends the session: nothing is handed over, and the history
    /// stays as it was. Without a frame there is nothing to cut: the step
    /// fails with `EmptyHandoff` in every stage, and only a session that
    /// waited for the region ends by it.
    pub fn process_region(&mut self, rect: Rect) -> (directive: Directive)
        ensures
            (final(self)@, directive@) == after_region(old(self)@, rect),
            old(self)@.handoff is None ==> directive@.error == Some(PipelineErrorView::EmptyHandoff),
    {
        match self.stage {
            Stage::Grabbing => {},
            Stage::Selecting => {},
            _ => {
                if self.handoff.is_occupied() {
                    return refuse();
                }
                let effects: Vec<Effect> = Vec::new();
                assert(effect_views(effects@) == Seq::<EffectView>::empty());
                return Directive { effects, request: None, error: Some(PipelineError::EmptyHandoff) };
            },
        }
        match self.handoff.take() {
            Err(_) => self.fail(PipelineError::EmptyHandoff, EMPTY_HANDOFF_TEXT),
            Ok(frame) => match frame.crop(rect) {
                Err(_) => self.fail(PipelineError::CropOutOfBounds, OUT_OF_BOUNDS_TEXT),
                Ok(region) => {
                    self.stage = Stage::Persisting(self.settings.snapshot());
                    let mut effects: Vec<Effect> = Vec::new();
                    effects.push(Effect::ProcessingStarted);
                    assert(effect_views(effects@) == seq![EffectView::ProcessingStarted]);
                    Directive { effects, request: Some(Request::Persist(region)), error: None }
                },
            },
        }
    }

    /// Starts the configured action on the image at `path`.
    fn dispatch(&mut self, settings: AppSettings, path: String) -> (request: Request)
        ensures
            final(self)@ == (AppStateView { stage: dispatched(old(self)@, settings@, path@).0, ..old(self)@ }),
            request@ == dispatched(old(self)@, settings@, path@).1,
    {
        let action = settings.action();
        match action {
            PrimaryAction::Extract | PrimaryAction::ExtractTranslate => {
                let plan = JobPlan {
                    image_path: path,
                    translate: action == PrimaryAction::ExtractTranslate,
                    target_lang: settings.target_lang,
                    preserve_line_breaks: settings.preserve_line_breaks,
                };
                let location = EngineLocation {
                    exe_path: self.extractor.exe_path.clone(),
                    exe_dir: self.extractor.exe_dir.clone(),
                };
                let (job, probe) = OcrJob::begin(plan, location);
                self.stage = Stage::Recognising(job);
                probe
            },
            PrimaryAction::Copy => {
                self.stage = Stage::CopyingImage;
                Request::CopyImage(path)
            },
            PrimaryAction::Save => {
                self.stage = Stage::SavingImage;
                Request::SaveImage(path)
            },
            PrimaryAction::Preview => {
                self.stage = Stage::ReadingImage(path.clone());
                Request::ReadImage(path)
            },
        }
    }

    /// The region was written to the file at `path`.
    pub fn persisted(&mut self, path: String) -> (directive: Directive)
        ensures
            (final(self)@, directive@) == after_persist(old(self)@, path@),
    {
        let mut stage = Stage::Idle;
        core::mem::swap(&mut stage, &mut self.stage);
        match stage {
            Stage::Persisting(settings) => {
                let dropped = self.history.insert_front(ScreenshotRecord { path: path.clone() });
                self.last_screenshot_path = Some(path.clone());
                let mut effects: Vec<Effect> = Vec::new();
                match dropped {
                    Some(oldest) => {
                        effects.push(Effect::DeleteFile(oldest.path));
                        assert(effect_views(effects@) == seq![EffectView::DeleteFile(oldest.path@)]);
                    },
                    None => {
                        assert(effect_views(effects@) == Seq::<EffectView>::empty());
                    },
                }
                let request = self.dispatch(settings, path);
                Directive { effects, request: Some(request), error: None }
            },
            other => {
                self.stage = other;
                refuse()
            },
        }
    }

    /// The region could not be written to a file.
    pub fn persist_failed(&mut self, reason: String) -> (directive: Directive)
        ensures
            (final(self)@, directive@) == after_persist_failure(old(self)@, reason@),
    {
        match self.stage {
            Stage::Persisting(_) => {},
            _ => {
                return refuse();
            },
        }
        let mut words = String::from_str(PERSIST_FAILED_PREFIX);
        words.append(reason.as_str());
        self.fail(PipelineError::PersistError(reason), words.as_str())
    }

    /// Something is reported to the recognition job of this session.
    pub fn engine_report<T: Translator>(&mut self, event: JobEvent, translator: &T) -> (directive: Directive)
        ensures
            (final(self)@, directive@) == after_engine_report(old(self)@, event, translator),
    {
        let mut stage = Stage::Idle;
        core::mem::swap(&mut stage, &mut self.stage);
        match stage {
            Stage::Recognising(mut job) => {
                let ghost before = job@;
                let step = job.advance(event, translator);
                let JobStep { effects, request, result, failure } = step;
                match result {
                    Some(outcome) => {
                        self.cache.store(outcome);
                        self.lock.end();
                        let mut effects = effects;
                        effects.push(Effect::ProcessingFinished);
                        assert(effect_views(effects@) == step@.effects.push(EffectView::ProcessingFinished));
                        let error = match failure {
                            Some(e) => Some(PipelineError::Engine(e)),
                            None => None,
                        };
                        Directive { effects, request: None, error }
                    },
                    None => {
                        if request.is_some() {
                            self.stage = Stage::Recognising(job);
                            Directive { effects, request, error: None }
                        } else {
                            proof {
                                lemma_silent_step_keeps_stage(before, event, translator);
                            }
                            self.stage = Stage::Recognising(job);
                            refuse()
                        }
                    },
                }
            },
            other => {
                self.stage = other;
                refuse()
            },
        }
    }

    /// Putting the image on the clipboard was tried.
    pub fn image_copied(&mut self, outcome: Result<(), String>) -> (directive: Directive)
        ensures
            (final(self)@, directive@) == after_copy(old(self)@, outcome),
    {
        match self.stage {
            Stage::CopyingImage => {},
            _ => {
                return refuse();
            },
        }
        self.end_session();
        match outcome {
            Ok(_) => close_with(make_copied_notice(), None),
            Err(reason) => {
                let notice = make_copy_failed_notice(reason.as_str());
                close_with(notice, Some(PipelineError::ClipboardError(reason)))
            },
        }
    }

    /// Saving the image was tried.
    pub fn image_saved(&mut self, outcome: Result<(), String>) -> (directive: Directive)
        ensures
            (final(self)@, directive@) == after_save(old(self)@, outcome),
    {
        match self.stage {
            Stage::SavingImage => {},
            _ => {
                return refuse();
            },
        }
        self.end_session();
        match outcome {
            Ok(_) => close_with(make_saved_notice(), None),
            Err(reason) => {
                let notice = make_save_failed_notice(reason.as_str());
                close_with(notice, Some(PipelineError::SaveError(reason)))
            },
        }
    }

    /// Reading the image file back was tried; `file` holds what was read.
    pub fn image_read(&mut self, file: Option<Vec<u8>>) -> (directive: Directive)
        ensures
            (final(self)@, directive@) == after_read(old(self)@, file),
    {
        let mut stage = Stage::Idle;
        core::mem::swap(&mut stage, &mut self.stage);
        match stage {
            Stage::ReadingImage(path) => {
                self.lock.end();
                match file {
                    Some(bytes) => match data_url_of_png(bytes.as_slice()) {
                        Ok(url) => {
                            let mut effects: Vec<Effect> = Vec::new();
                            effects.push(Effect::ShowPreview { image_data_url: url, image_path: path });
                            effects.push(Effect::ProcessingFinished);
                            assert(effect_views(effects@) == seq![
                                EffectView::ShowPreview { image_data_url: url@, image_path: path@ },
                                EffectView::ProcessingFinished,
                            ]);
                            Directive { effects, request: None, error: None }
                        },
                        Err(e) => close_with(
                            make_preview_failed_notice(),
                            Some(PipelineError::EncodeError(e)),
                        ),
                    },
                    None => close_with(make_preview_failed_notice(), Some(PipelineError::ReadError)),
                }
            },
            other => {
                self.stage = other;
                refuse()
            },
        }
    }

    /// Sets up a recognition of an image that exists already, outside any
    /// capture session. The action asked for says whether to translate; for
    /// any other action nothing is set up.
    pub fn reprocess(&self, path: String, action: &str) -> (started: Option<(OcrJob, Request)>)
        ensures
            match reprocess_translates(action@) {
                Some(translate) => started matches Some((job, request)) && job@ == job_for(
                    self@,
                    self@.settings,
                    path@,
                    translate,
                ) && request@ == RequestView::Probe(self@.exe_path),
                None => started is None,
            },
    {
        let translate = if action.eq("ocr_translate") {
            true
        } else if action.eq("ocr") {
            false
        } else {
            return None;
        };
        let plan = JobPlan {
            image_path: path,
            translate,
            target_lang: self.settings.target_lang.clone(),
            preserve_line_breaks: self.settings.preserve_line_breaks,
        };
        let location = EngineLocation {
            exe_path: self.extractor.exe_path.clone(),
            exe_dir: self.extractor.exe_dir.clone(),
        };
        Some(OcrJob::begin(plan, location))
    }

    /// Caches a result, replacing the one cached before.
    pub fn cache_result(&mut self, result: OcrResult)
        ensures
            final(self)@ == (AppStateView { cache: Some(result@), ..old(self)@ }),
    {
        self.cache.store(result);
    }

    /// Moves the view cursor through the history and returns the path it
    /// then points at; nothing in an empty history.
    pub fn navigate_history(&mut self, delta: i64) -> (path: Option<String>)
        ensures
            final(self)@ == (AppStateView {
                history: HistoryView { cursor: old(self)@.history.moved(delta as int), ..old(self)@.history },
                ..old(self)@
            }),
            match path {
                Some(p) => old(self)@.history.paths.len() > 0 && p@ == old(self)@.history.paths[old(
                    self,
                )@.history.moved(delta as int) as int],
                None => old(self)@.history.paths.len() == 0,
            },
    {
        let at = self.history.navigate(delta);
        match self.history.path_at(at) {
            Some(path) => Some(String::from_str(path)),
            None => None,
        }
    }

    /// Puts new settings in force and says what the system has to be told.
    pub fn replace_settings(&mut self, settings: AppSettings, autostart_enabled: bool) -> (change:
        SettingsChange)
        ensures
            final(self)@ == (AppStateView { settings: settings@, ..old(self)@ }),
            change == change_between(old(self)@.settings, settings@, autostart_enabled),
    {
        let change = plan_change(&self.settings, &settings, autostart_enabled);
        self.settings = settings;
        change
    }
}

} // verus!
