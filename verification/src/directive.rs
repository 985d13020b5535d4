//! What the core asks of the code around it: effects to carry out, and work
//! whose outcome is to be reported back.

use crate::encode::EncodeError;
use crate::engine::{EngineError, EngineErrorView, Invocation, InvocationView};
use crate::frame::{Frame, FrameView};
use crate::translator::{HttpCall, HttpCallView};
use vstd::prelude::*;

verus! {

/// A message for the user.
#[derive(Debug, PartialEq, Eq)]
pub struct Notice {
    pub title: String,
    pub body: String,
}

/// A `Notice` with its texts as character sequences.
pub struct NoticeView {
    pub title: Seq<char>,
    pub body: Seq<char>,
}

impl View for Notice {
    type V = NoticeView;

    open spec fn view(&self) -> NoticeView {
        NoticeView { title: self.title@, body: self.body@ }
    }
}

/// Something to be carried out by the code around the core. Nothing is
/// reported back.
#[derive(Debug, PartialEq, Eq)]
pub enum Effect {
    /// The frame is captured: show it, as this data URL, for selection.
    CaptureReady(String),
    /// Show that a region is being processed.
    ProcessingStarted,
    /// Stop showing that a region is being processed.
    ProcessingFinished,
    /// Put this text on the clipboard.
    CopyText(String),
    /// Show this message.
    Notify(Notice),
    /// This text was recognised.
    ExtractionResult(String),
    /// This translation was made.
    TranslationResult(String),
    /// Delete this file; a failure to do so is of no consequence.
    DeleteFile(String),
    /// Show this image.
    ShowPreview { image_data_url: String, image_path: String },
}

/// An `Effect` with its texts as character sequences.
pub enum EffectView {
    CaptureReady(Seq<char>),
    ProcessingStarted,
    ProcessingFinished,
    CopyText(Seq<char>),
    Notify(NoticeView),
    ExtractionResult(Seq<char>),
    TranslationResult(Seq<char>),
    DeleteFile(Seq<char>),
    ShowPreview { image_data_url: Seq<char>, image_path: Seq<char> },
}

impl View for Effect {
    type V = EffectView;

    open spec fn view(&self) -> EffectView {
        match self {
            Effect::CaptureReady(url) => EffectView::CaptureReady(url@),
            Effect::ProcessingStarted => EffectView::ProcessingStarted,
            Effect::ProcessingFinished => EffectView::ProcessingFinished,
            Effect::CopyText(text) => EffectView::CopyText(text@),
            Effect::Notify(notice) => EffectView::Notify(notice@),
            Effect::ExtractionResult(text) => EffectView::ExtractionResult(text@),
            Effect::TranslationResult(text) => EffectView::TranslationResult(text@),
            Effect::DeleteFile(path) => EffectView::DeleteFile(path@),
            Effect::ShowPreview { image_data_url, image_path } => EffectView::ShowPreview {
                image_data_url: image_data_url@,
                image_path: image_path@,
            },
        }
    }
}

/// The views of a run of effects, in order.
pub open spec fn effect_views(effects: Seq<Effect>) -> Seq<EffectView> {
    effects.map_values(|effect: Effect| effect@)
}

/// Work to be done by the code around the core, which then reports how it
/// went.
#[derive(Debug, PartialEq, Eq)]
pub enum Request {
    /// Capture the full display.
    Grab,
    /// Let the user select a region, or cancel.
    Select,
    /// Write this image to a new file.
    Persist(Frame),
    /// Say whether there is an executable at this path.
    Probe(String),
    /// Run this program and collect its output.
    Run(Invocation),
    /// Send this HTTP request and collect the answer.
    Post(HttpCall),
    /// Put the image in this file on the clipboard.
    CopyImage(String),
    /// Copy this file to the user's desktop.
    SaveImage(String),
    /// Read this file.
    ReadImage(String),
}

/// A `Request` with its contents as mathematical values.
pub enum RequestView {
    Grab,
    Select,
    Persist(FrameView),
    Probe(Seq<char>),
    Run(InvocationView),
    Post(HttpCallView),
    CopyImage(Seq<char>),
    SaveImage(Seq<char>),
    ReadImage(Seq<char>),
}

impl View for Request {
    type V = RequestView;

    open spec fn view(&self) -> RequestView {
        match self {
            Request::Grab => RequestView::Grab,
            Request::Select => RequestView::Select,
            Request::Persist(frame) => RequestView::Persist(frame@),
            Request::Probe(path) => RequestView::Probe(path@),
            Request::Run(command) => RequestView::Run(command@),
            Request::Post(call) => RequestView::Post(call@),
            Request::CopyImage(path) => RequestView::CopyImage(path@),
            Request::SaveImage(path) => RequestView::SaveImage(path@),
            Request::ReadImage(path) => RequestView::ReadImage(path@),
        }
    }
}

/// The view of a request that may be absent.
pub open spec fn optional_request(request: Option<Request>) -> Option<RequestView> {
    match request {
        Some(r) => Some(r@),
        None => None,
    }
}

/// Why a step of the pipeline did not do what it was asked.
#[derive(Debug, PartialEq, Eq)]
pub enum PipelineError {
    /// A session is in flight already. This is a signal, not a failure.
    LockBusy,
    /// The display could not be captured.
    CaptureError(String),
    /// There was no frame to crop.
    EmptyHandoff,
    /// The selected region reaches outside the frame.
    CropOutOfBounds,
    /// The region could not be written to disk.
    PersistError(String),
    /// The image could not be encoded for display.
    EncodeError(EncodeError),
    /// An engine failed.
    Engine(EngineError),
    /// The image could not be put on the clipboard.
    ClipboardError(String),
    /// The image could not be saved.
    SaveError(String),
    /// The image file could not be read back.
    ReadError,
    /// The report does not answer anything the core is waiting for.
    OutOfTurn,
}

/// A `PipelineError` with its texts as character sequences.
pub enum PipelineErrorView {
    LockBusy,
    CaptureError(Seq<char>),
    EmptyHandoff,
    CropOutOfBounds,
    PersistError(Seq<char>),
    EncodeError(EncodeError),
    Engine(EngineErrorView),
    ClipboardError(Seq<char>),
    SaveError(Seq<char>),
    ReadError,
    OutOfTurn,
}

impl View for PipelineError {
    type V = PipelineErrorView;

    open spec fn view(&self) -> PipelineErrorView {
        match self {
            PipelineError::LockBusy => PipelineErrorView::LockBusy,
            PipelineError::CaptureError(text) => PipelineErrorView::CaptureError(text@),
            PipelineError::EmptyHandoff => PipelineErrorView::EmptyHandoff,
            PipelineError::CropOutOfBounds => PipelineErrorView::CropOutOfBounds,
            PipelineError::PersistError(text) => PipelineErrorView::PersistError(text@),
            PipelineError::EncodeError(e) => PipelineErrorView::EncodeError(*e),
            PipelineError::Engine(e) => PipelineErrorView::Engine(e@),
            PipelineError::ClipboardError(text) => PipelineErrorView::ClipboardError(text@),
            PipelineError::SaveError(text) => PipelineErrorView::SaveError(text@),
            PipelineError::ReadError => PipelineErrorView::ReadError,
            PipelineError::OutOfTurn => PipelineErrorView::OutOfTurn,
        }
    }
}

/// The view of an error that may be absent.
pub open spec fn optional_error(error: Option<PipelineError>) -> Option<PipelineErrorView> {
    match error {
        Some(e) => Some(e@),
        None => None,
    }
}

/// The answer of the core to a report: effects to carry out in order, then
/// at most one piece of work to do and report on. `error` says why the step
/// failed, if it did.
#[derive(Debug, PartialEq, Eq)]
pub struct Directive {
    pub effects: Vec<Effect>,
    pub request: Option<Request>,
    pub error: Option<PipelineError>,
}

/// A `Directive` with its contents as mathematical values.
pub struct DirectiveView {
    pub effects: Seq<EffectView>,
    pub request: Option<RequestView>,
    pub error: Option<PipelineErrorView>,
}

impl View for Directive {
    type V = DirectiveView;

    open spec fn view(&self) -> DirectiveView {
        DirectiveView {
            effects: effect_views(self.effects@),
            request: optional_request(self.request),
            error: optional_error(self.error),
        }
    }
}

} // verus!
