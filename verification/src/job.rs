//! A recognition job: extraction, then translation where it is wanted. The
//! job decides; the code around it probes for the engines, runs them and
//! reports back.

use crate::cache::{OcrResult, OcrResultView};
use crate::directive::{effect_views, optional_request, Effect, EffectView, Request, RequestView};
use crate::engine::{
    admit_launch, extraction_command, extraction_invocation, extraction_run_reading, read_extraction_run, EngineError,
    EngineErrorView, Invocation, InvocationView, ProcessOutcome, Reading,
};
use crate::notice::{
    make_recognised_notice, make_recognition_failed_notice, make_translated_notice,
    make_translation_failed_notice, recognised_notice, recognition_failed_notice, translated_notice,
    translation_failed_notice, translation_failure_text, translation_failure_words,
};
use crate::translator::{Dispatch, DispatchView, HttpReply, Reply, Translator};
use vstd::prelude::*;

verus! {

/// What a job is to do.
#[derive(Debug, PartialEq, Eq)]
pub struct JobPlan {
    /// The image to read.
    pub image_path: String,
    /// Whether the recognised text is to be translated.
    pub translate: bool,
    /// The language to translate into.
    pub target_lang: String,
    /// Whether recognised lines stay on lines of their own.
    pub preserve_line_breaks: bool,
}

/// Where the extraction engine is installed.
#[derive(Debug, PartialEq, Eq)]
pub struct EngineLocation {
    pub exe_path: String,
    pub exe_dir: String,
}

/// How far a job has come.
#[derive(Debug, PartialEq, Eq)]
pub enum JobStage {
    /// Waiting to hear whether the extraction engine is installed.
    ProbingExtractor,
    /// Waiting for the extraction engine to finish.
    Extracting,
    /// Text is recognised; waiting to hear whether the translation engine,
    /// which `command` would run, is installed.
    ProbingTranslator { original: String, command: Invocation },
    /// Text is recognised; waiting for its translation.
    Translating { original: String },
    /// Nothing more to do.
    Finished,
}

/// A `JobStage` with its contents as mathematical values.
pub enum JobStageView {
    ProbingExtractor,
    Extracting,
    ProbingTranslator { original: Seq<char>, command: InvocationView },
    Translating { original: Seq<char> },
    Finished,
}

impl View for JobStage {
    type V = JobStageView;

    open spec fn view(&self) -> JobStageView {
        match self {
            JobStage::ProbingExtractor => JobStageView::ProbingExtractor,
            JobStage::Extracting => JobStageView::Extracting,
            JobStage::ProbingTranslator { original, command } => JobStageView::ProbingTranslator {
                original: original@,
                command: command@,
            },
            JobStage::Translating { original } => JobStageView::Translating { original: original@ },
            JobStage::Finished => JobStageView::Finished,
        }
    }
}

/// What the code around a job reports to it.
#[derive(Debug, PartialEq, Eq)]
pub enum JobEvent {
    /// Whether the executable asked about is there.
    Probed(bool),
    /// How the program that was to be run fared.
    Exited(ProcessOutcome),
    /// How the HTTP request that was to be sent fared.
    Replied(HttpReply),
}

/// A recognition job.
#[derive(Debug, PartialEq, Eq)]
pub struct OcrJob {
    plan: JobPlan,
    extractor: EngineLocation,
    stage: JobStage,
}

/// An `OcrJob` with its contents as mathematical values.
pub struct JobView {
    pub image_path: Seq<char>,
    pub translate: bool,
    pub target_lang: Seq<char>,
    pub preserve_line_breaks: bool,
    pub exe_path: Seq<char>,
    pub exe_dir: Seq<char>,
    pub stage: JobStageView,
}

impl View for OcrJob {
    type V = JobView;

    closed spec fn view(&self) -> JobView {
        JobView {
            image_path: self.plan.image_path@,
            translate: self.plan.translate,
            target_lang: self.plan.target_lang@,
            preserve_line_breaks: self.plan.preserve_line_breaks,
            exe_path: self.extractor.exe_path@,
            exe_dir: self.extractor.exe_dir@,
            stage: self.stage@,
        }
    }
}

/// The answer of a job to a report: effects to carry out in order, then at
/// most one piece of work. A job that has finished says so by handing out
/// its result, and with it the error of the stage that failed, if one did.
#[derive(Debug, PartialEq, Eq)]
pub struct JobStep {
    pub effects: Vec<Effect>,
    pub request: Option<Request>,
    pub result: Option<OcrResult>,
    pub failure: Option<EngineError>,
}

/// A `JobStep` with its contents as mathematical values.
pub struct JobStepView {
    pub effects: Seq<EffectView>,
    pub request: Option<RequestView>,
    pub result: Option<OcrResultView>,
    pub failure: Option<EngineErrorView>,
}

impl View for JobStep {
    type V = JobStepView;

    open spec fn view(&self) -> JobStepView {
        JobStepView {
            effects: effect_views(self.effects@),
            request: optional_request(self.request),
            result: match self.result {
                Some(r) => Some(r@),
                None => None,
            },
            failure: match self.failure {
                Some(e) => Some(e@),
                None => None,
            },
        }
    }
}

/// The step that does nothing.
pub open spec fn no_step() -> JobStepView {
    JobStepView { effects: Seq::empty(), request: None, result: None, failure: None }
}

/// How a job ends when extraction fails: the user is told, and the result
/// holds no text.
pub open spec fn extraction_failed(job: JobView, error: EngineErrorView) -> (JobStageView, JobStepView) {
    (
        JobStageView::Finished,
        JobStepView {
            effects: seq![EffectView::Notify(recognition_failed_notice(error))],
            request: None,
            result: Some(
                OcrResultView { original_text: None, translated_text: None, image_path: job.image_path },
            ),
            failure: Some(error),
        },
    )
}

/// How a job goes on when text was recognised. The text goes to the
/// clipboard and is announced. Without translation the job ends there; with
/// it, the translator's work is asked for, after a probe where that work is
/// running a program.
pub open spec fn extraction_done(job: JobView, text: Seq<char>, dispatch: DispatchView) -> (
    JobStageView,
    JobStepView,
) {
    if !job.translate {
        (
            JobStageView::Finished,
            JobStepView {
                effects: seq![
                    EffectView::CopyText(text),
                    EffectView::ExtractionResult(text),
                    EffectView::Notify(recognised_notice()),
                ],
                request: None,
                result: Some(
                    OcrResultView {
                        original_text: Some(text),
                        translated_text: None,
                        image_path: job.image_path,
                    },
                ),
                failure: None,
            },
        )
    } else {
        match dispatch {
            DispatchView::Post(call) => (
                JobStageView::Translating { original: text },
                JobStepView {
                    effects: seq![EffectView::CopyText(text), EffectView::ExtractionResult(text)],
                    request: Some(RequestView::Post(call)),
                    result: None,
                    failure: None,
                },
            ),
            DispatchView::Run(command) => (
                JobStageView::ProbingTranslator { original: text, command },
                JobStepView {
                    effects: seq![EffectView::CopyText(text), EffectView::ExtractionResult(text)],
                    request: Some(RequestView::Probe(command.program)),
                    result: None,
                    failure: None,
                },
            ),
        }
    }
}

/// How a job ends once the translation is settled. A translation goes to
/// the clipboard and is announced. A failure is put in words, which take
/// the translation's place in the result; the recognised text stays.
pub open spec fn translation_settled(job: JobView, original: Seq<char>, reading: Reading) -> (
    JobStageView,
    JobStepView,
) {
    match reading {
        Ok(translation) => (
            JobStageView::Finished,
            JobStepView {
                effects: seq![
                    EffectView::CopyText(translation),
                    EffectView::TranslationResult(translation),
                    EffectView::Notify(translated_notice()),
                ],
                request: None,
                result: Some(
                    OcrResultView {
                        original_text: Some(original),
                        translated_text: Some(translation),
                        image_path: job.image_path,
                    },
                ),
                failure: None,
            },
        ),
        Err(error) => (
            JobStageView::Finished,
            JobStepView {
                effects: seq![
                    EffectView::Notify(translation_failed_notice(translation_failure_text(error))),
                ],
                request: None,
                result: Some(
                    OcrResultView {
                        original_text: Some(original),
                        translated_text: Some(translation_failure_text(error)),
                        image_path: job.image_path,
                    },
                ),
                failure: Some(error),
            },
        ),
    }
}

/// The stage a job is in after a report, and its answer. A report that the
/// job is not waiting for changes nothing and is answered by nothing.
pub open spec fn job_next<T: Translator>(job: JobView, event: JobEvent, translator: &T) -> (
    JobStageView,
    JobStepView,
) {
    match (job.stage, event) {
        (JobStageView::ProbingExtractor, JobEvent::Probed(found)) => if found {
            (
                JobStageView::Extracting,
                JobStepView {
                    effects: Seq::empty(),
                    request: Some(
                        RequestView::Run(extraction_invocation(job.exe_path, job.exe_dir, job.image_path)),
                    ),
                    result: None,
                    failure: None,
                },
            )
        } else {
            extraction_failed(job, EngineErrorView::EngineNotInstalled)
        },
        (JobStageView::Extracting, JobEvent::Exited(outcome)) => match extraction_run_reading(
            outcome,
            job.preserve_line_breaks,
        ) {
            Ok(text) => extraction_done(job, text, translator.dispatch_for(text, job.target_lang)),
            Err(error) => extraction_failed(job, error),
        },
        (JobStageView::ProbingTranslator { original, command }, JobEvent::Probed(found)) => if found {
            (
                JobStageView::Translating { original },
                JobStepView {
                    effects: Seq::empty(),
                    request: Some(RequestView::Run(command)),
                    result: None,
                    failure: None,
                },
            )
        } else {
            translation_settled(job, original, Err(EngineErrorView::EngineNotInstalled))
        },
        (JobStageView::Translating { original }, JobEvent::Exited(outcome)) => translation_settled(
            job,
            original,
            translator.reading(Reply::Process(outcome)),
        ),
        (JobStageView::Translating { original }, JobEvent::Replied(reply)) => translation_settled(
            job,
            original,
            translator.reading(Reply::Http(reply)),
        ),
        _ => (job.stage, no_step()),
    }
}

impl OcrJob {
    /// Sets a job up. Its first piece of work is to find out whether the
    /// extraction engine is installed.
    pub fn begin(plan: JobPlan, extractor: EngineLocation) -> (started: (OcrJob, Request))
        ensures
            started.0@ == (JobView {
                image_path: plan.image_path@,
                translate: plan.translate,
                target_lang: plan.target_lang@,
                preserve_line_breaks: plan.preserve_line_breaks,
                exe_path: extractor.exe_path@,
                exe_dir: extractor.exe_dir@,
                stage: JobStageView::ProbingExtractor,
            }),
            started.1@ == RequestView::Probe(extractor.exe_path@),
    {
        let probe = Request::Probe(extractor.exe_path.clone());
        (OcrJob { plan, extractor, stage: JobStage::ProbingExtractor }, probe)
    }

    /// Whether the job has nothing more to do.
    pub fn is_finished(&self) -> (finished: bool)
        ensures
            finished == (self@.stage is Finished),
    {
        match self.stage {
            JobStage::Finished => true,
            _ => false,
        }
    }

    fn fail_extraction(&self, error: EngineError) -> (step: JobStep)
        ensures
            step@ == extraction_failed(self@, error@).1,
    {
        let mut effects: Vec<Effect> = Vec::new();
        effects.push(Effect::Notify(make_recognition_failed_notice(&error)));
        assert(effect_views(effects@) == seq![EffectView::Notify(recognition_failed_notice(error@))]);
        JobStep {
            effects,
            request: None,
            result: Some(
                OcrResult {
                    original_text: None,
                    translated_text: None,
                    image_path: self.plan.image_path.clone(),
                },
            ),
            failure: Some(error),
        }
    }

    fn settle_translation(&self, original: String, answer: Result<String, EngineError>) -> (step: JobStep)
        ensures
            step@ == translation_settled(self@, original@, crate::engine::reading_of(answer)).1,
    {
        let mut effects: Vec<Effect> = Vec::new();
        match answer {
            Ok(translation) => {
                effects.push(Effect::CopyText(translation.clone()));
                effects.push(Effect::TranslationResult(translation.clone()));
                effects.push(Effect::Notify(make_translated_notice()));
                assert(effect_views(effects@) == seq![
                    EffectView::CopyText(translation@),
                    EffectView::TranslationResult(translation@),
                    EffectView::Notify(translated_notice()),
                ]);
                JobStep {
                    effects,
                    request: None,
                    result: Some(
                        OcrResult {
                            original_text: Some(original),
                            translated_text: Some(translation),
                            image_path: self.plan.image_path.clone(),
                        },
                    ),
                    failure: None,
                }
            },
            Err(error) => {
                let words = translation_failure_words(&error);
                effects.push(Effect::Notify(make_translation_failed_notice(words.as_str())));
                assert(effect_views(effects@) == seq![
                    EffectView::Notify(translation_failed_notice(translation_failure_text(error@))),
                ]);
                JobStep {
                    effects,
                    request: None,
                    result: Some(
                        OcrResult {
                            original_text: Some(original),
                            translated_text: Some(words),
                            image_path: self.plan.image_path.clone(),
                        },
                    ),
                    failure: Some(error),
                }
            },
        }
    }

    /// Takes a report and says what follows from it.
    pub fn advance<T: Translator>(&mut self, event: JobEvent, translator: &T) -> (step: JobStep)
        ensures
            final(self)@ == (JobView { stage: job_next(old(self)@, event, translator).0, ..old(self)@ }),
            step@ == job_next(old(self)@, event, translator).1,
    {
        let mut stage = JobStage::Finished;
        core::mem::swap(&mut stage, &mut self.stage);
        match (stage, event) {
            (JobStage::ProbingExtractor, JobEvent::Probed(found)) => {
                let command = extraction_command(
                    self.extractor.exe_path.as_str(),
                    self.extractor.exe_dir.as_str(),
                    self.plan.image_path.as_str(),
                );
                match admit_launch(found, command) {
                    Ok(admitted) => {
                        self.stage = JobStage::Extracting;
                        let effects: Vec<Effect> = Vec::new();
                        assert(effect_views(effects@) == Seq::<EffectView>::empty());
                        JobStep { effects, request: Some(Request::Run(admitted)), result: None, failure: None }
                    },
                    Err(error) => self.fail_extraction(error),
                }
            },
            (JobStage::Extracting, JobEvent::Exited(outcome)) => {
                match read_extraction_run(&outcome, self.plan.preserve_line_breaks) {
                    Ok(text) => {
                        let mut effects: Vec<Effect> = Vec::new();
                        effects.push(Effect::CopyText(text.clone()));
                        effects.push(Effect::ExtractionResult(text.clone()));
                        if !self.plan.translate {
                            effects.push(Effect::Notify(make_recognised_notice()));
                            assert(effect_views(effects@) == seq![
                                EffectView::CopyText(text@),
                                EffectView::ExtractionResult(text@),
                                EffectView::Notify(recognised_notice()),
                            ]);
                            JobStep {
                                effects,
                                request: None,
                                result: Some(
                                    OcrResult {
                                        original_text: Some(text),
                                        translated_text: None,
                                        image_path: self.plan.image_path.clone(),
                                    },
                                ),
                                failure: None,
                            }
                        } else {
                            assert(effect_views(effects@) == seq![
                                EffectView::CopyText(text@),
                                EffectView::ExtractionResult(text@),
                            ]);
                            match translator.prepare(text.as_str(), self.plan.target_lang.as_str()) {
                                Dispatch::Post(call) => {
                                    self.stage = JobStage::Translating { original: text };
                                    JobStep { effects, request: Some(Request::Post(call)), result: None, failure: None }
                                },
                                Dispatch::Run(command) => {
                                    let probe = Request::Probe(command.program.clone());
                                    self.stage = JobStage::ProbingTranslator { original: text, command };
                                    JobStep { effects, request: Some(probe), result: None, failure: None }
                                },
                            }
                        }
                    },
                    Err(error) => self.fail_extraction(error),
                }
            },
            (JobStage::ProbingTranslator { original, command }, JobEvent::Probed(found)) => {
                match admit_launch(found, command) {
                    Ok(admitted) => {
                        self.stage = JobStage::Translating { original };
                        let effects: Vec<Effect> = Vec::new();
                        assert(effect_views(effects@) == Seq::<EffectView>::empty());
                        JobStep { effects, request: Some(Request::Run(admitted)), result: None, failure: None }
                    },
                    Err(error) => self.settle_translation(original, Err(error)),
                }
            },
            (JobStage::Translating { original }, JobEvent::Exited(outcome)) => {
                let answer = translator.conclude(&Reply::Process(outcome));
                self.settle_translation(original, answer)
            },
            (JobStage::Translating { original }, JobEvent::Replied(reply)) => {
                let answer = translator.conclude(&Reply::Http(reply));
                self.settle_translation(original, answer)
            },
            (stage, _) => {
                self.stage = stage;
                let effects: Vec<Effect> = Vec::new();
                assert(effect_views(effects@) == Seq::<EffectView>::empty());
                JobStep { effects, request: None, result: None, failure: None }
            },
        }
    }
}

} // verus!
