use capture_pipeline::cache::OcrResult;
use capture_pipeline::directive::{Directive, Effect, Notice, PipelineError, Request};
use capture_pipeline::encode::EncodeError;
use capture_pipeline::engine::{EngineError, LanguagePair, ProcessOutcome};
use capture_pipeline::frame::{Frame, Rect};
use capture_pipeline::job::{EngineLocation, JobEvent};
use capture_pipeline::settings::{AppSettings, AutostartChange, SettingsChange};
use capture_pipeline::state::{AppState, Stage};
use capture_pipeline::translator::LocalTranslator;

fn state(action: &str) -> AppState {
    let settings = AppSettings {
        primary_action: action.to_string(),
        target_lang: "zh".to_string(),
        ..AppSettings::default()
    };
    AppState::new(settings, EngineLocation { exe_path: "/opt/ocr/ocr.exe".to_string(), exe_dir: "/opt/ocr".to_string() })
}

fn frame(width: u32, height: u32) -> Frame {
    let pixels = (0..width * height * 4).map(|i| (i % 251) as u8).collect();
    Frame::from_raw(width, height, pixels).unwrap()
}

fn translator() -> LocalTranslator {
    LocalTranslator {
        exe_path: "/opt/translate_engine.exe".to_string(),
        languages: LanguagePair { first: "zh".to_string(), second: "en".to_string() },
    }
}

fn notify(title: &str, body: &str) -> Effect {
    Effect::Notify(Notice { title: title.to_string(), body: body.to_string() })
}

fn printed(stdout: &str) -> JobEvent {
    JobEvent::Exited(ProcessOutcome::Exited { success: true, stdout: stdout.as_bytes().to_vec(), stderr: vec![] })
}

fn refusal() -> Directive {
    Directive { effects: vec![], request: None, error: Some(PipelineError::OutOfTurn) }
}

fn selecting(action: &str) -> AppState {
    let mut s = state(action);
    s.begin_capture();
    s.frame_captured(frame(8, 6));
    s
}

fn persisting(action: &str) -> AppState {
    let mut s = selecting(action);
    s.process_region(Rect { x: 1, y: 1, width: 4, height: 3 });
    s
}

fn persisted(action: &str) -> AppState {
    let mut s = persisting(action);
    s.persisted("/tmp/screenshot-1.png".to_string());
    s
}

const HELLO: &str = "[boot]\n{\"code\":100,\"data\":[{\"text\":\"hello\"},{\"text\":\"world\"}]}";

#[test]
fn fresh_state_has_nothing_in_flight() {
    let s = state("extract");
    assert!(!s.is_capturing());
    assert_eq!(s.history().len(), 0);
    assert_eq!(s.latest_result(), None);
    assert_eq!(s.last_screenshot_path(), None);
    assert_eq!(s.settings().primary_action, "extract");
}

#[test]
fn trigger_starts_a_session_by_grabbing() {
    let mut s = state("extract");
    let directive = s.begin_capture();
    assert_eq!(directive, Directive { effects: vec![], request: Some(Request::Grab), error: None });
    assert!(s.is_capturing());
}

#[test]
fn trigger_during_a_session_is_told_busy_and_changes_nothing() {
    let mut s = selecting("extract");
    let directive = s.begin_capture();
    assert_eq!(directive, Directive { effects: vec![], request: None, error: Some(PipelineError::LockBusy) });
    assert!(s.is_capturing());
    let directive = s.process_region(Rect { x: 0, y: 0, width: 2, height: 2 });
    assert!(matches!(directive.request, Some(Request::Persist(_))));
}

#[test]
fn captured_frame_is_shown_for_selection() {
    let mut s = state("extract");
    s.begin_capture();
    let directive = s.frame_captured(frame(8, 6));
    assert_eq!(directive.request, Some(Request::Select));
    assert_eq!(directive.error, None);
    assert_eq!(directive.effects.len(), 1);
    match &directive.effects[0] {
        Effect::CaptureReady(url) => assert!(url.starts_with("data:image/png;base64,iVBOR")),
        other => panic!("unexpected effect {:?}", other),
    }
    assert!(s.is_capturing());
}

#[test]
fn frame_that_cannot_be_shown_ends_the_session() {
    let mut s = state("extract");
    s.begin_capture();
    let directive = s.frame_captured(Frame::from_raw(0, 0, vec![]).unwrap());
    let expected = Directive {
        effects: vec![notify("❌ 截图失败", "无法编码截图"), Effect::ProcessingFinished],
        request: None,
        error: Some(PipelineError::EncodeError(EncodeError::Png)),
    };
    assert_eq!(directive, expected);
    assert!(!s.is_capturing());
}

#[test]
fn failed_capture_ends_the_session() {
    let mut s = state("extract");
    s.begin_capture();
    let directive = s.capture_failed("no display".to_string());
    let expected = Directive {
        effects: vec![notify("❌ 截图失败", "no display"), Effect::ProcessingFinished],
        request: None,
        error: Some(PipelineError::CaptureError("no display".to_string())),
    };
    assert_eq!(directive, expected);
    assert!(!s.is_capturing());
    assert_eq!(s.begin_capture().request, Some(Request::Grab));
}

#[test]
fn cancel_during_selection_frees_the_lock() {
    let mut s = selecting("extract");
    assert_eq!(s.cancel(), Directive { effects: vec![], request: None, error: None });
    assert!(!s.is_capturing());
    assert_eq!(s.begin_capture().request, Some(Request::Grab));
}

#[test]
fn cancel_while_grabbing_frees_the_lock() {
    let mut s = state("extract");
    s.begin_capture();
    assert_eq!(s.cancel().error, None);
    assert!(!s.is_capturing());
}

#[test]
fn cancel_without_a_session_is_turned_away() {
    let mut s = state("extract");
    assert_eq!(s.cancel(), refusal());
    assert!(!s.is_capturing());
}

#[test]
fn cancel_once_the_pipeline_runs_is_turned_away() {
    let mut s = persisting("extract");
    assert_eq!(s.cancel(), refusal());
    assert!(s.is_capturing());
    let mut s = persisted("copy");
    assert_eq!(s.cancel(), refusal());
    assert!(s.is_capturing());
}

#[test]
fn region_inside_the_frame_is_handed_over_for_writing() {
    let mut s = selecting("extract");
    let directive = s.process_region(Rect { x: 1, y: 1, width: 4, height: 3 });
    let expected = frame(8, 6).crop(Rect { x: 1, y: 1, width: 4, height: 3 }).unwrap();
    assert_eq!(expected.width(), 4);
    assert_eq!(expected.height(), 3);
    assert_eq!(
        directive,
        Directive { effects: vec![Effect::ProcessingStarted], request: Some(Request::Persist(expected)), error: None }
    );
    assert!(s.is_capturing());
    assert_eq!(s.history().len(), 0);
}

#[test]
fn region_outside_the_frame_leaves_no_trace() {
    for rect in [
        Rect { x: 5, y: 1, width: 4, height: 3 },
        Rect { x: 1, y: 4, width: 4, height: 3 },
        Rect { x: 100, y: 100, width: 4, height: 3 },
        Rect { x: -1, y: 1, width: 4, height: 3 },
        Rect { x: 0, y: 0, width: 9, height: 7 },
    ] {
        let mut s = selecting("extract");
        let directive = s.process_region(rect);
        let expected = Directive {
            effects: vec![notify("❌ 截图失败", "所选区域超出屏幕范围"), Effect::ProcessingFinished],
            request: None,
            error: Some(PipelineError::CropOutOfBounds),
        };
        assert_eq!(directive, expected);
        assert!(!s.is_capturing());
        assert_eq!(s.history().len(), 0);
        assert_eq!(s.last_screenshot_path(), None);
        assert_eq!(s.latest_result(), None);
    }
}

#[test]
fn frame_is_used_up_by_a_rejected_region() {
    let mut s = selecting("extract");
    s.process_region(Rect { x: 100, y: 100, width: 4, height: 3 });
    s.begin_capture();
    let directive = s.process_region(Rect { x: 0, y: 0, width: 1, height: 1 });
    assert_eq!(directive.error, Some(PipelineError::EmptyHandoff));
}

#[test]
fn region_without_a_frame_ends_the_session() {
    let mut s = state("extract");
    s.begin_capture();
    let directive = s.process_region(Rect { x: 0, y: 0, width: 1, height: 1 });
    let expected = Directive {
        effects: vec![notify("❌ 截图失败", "未找到缓存的全屏截图"), Effect::ProcessingFinished],
        request: None,
        error: Some(PipelineError::EmptyHandoff),
    };
    assert_eq!(directive, expected);
    assert!(!s.is_capturing());
}

fn nothing_to_crop() -> Directive {
    Directive { effects: vec![], request: None, error: Some(PipelineError::EmptyHandoff) }
}

#[test]
fn region_without_a_frame_fails_in_every_stage() {
    let mut s = state("extract");
    assert_eq!(s.process_region(Rect { x: 0, y: 0, width: 1, height: 1 }), nothing_to_crop());
    assert_eq!(s.stage(), &Stage::Idle);
    assert!(!s.is_capturing());
    for action in ["extract", "copy", "save", "preview"] {
        let mut s = persisted(action);
        assert_eq!(s.process_region(Rect { x: 0, y: 0, width: 1, height: 1 }), nothing_to_crop());
        assert!(s.is_capturing());
        assert_eq!(s.history().len(), 1);
    }
}

#[test]
fn second_region_finds_the_handoff_empty_and_leaves_the_pipeline_alone() {
    let mut s = persisting("copy");
    assert_eq!(s.process_region(Rect { x: 0, y: 0, width: 1, height: 1 }), nothing_to_crop());
    assert!(matches!(s.stage(), Stage::Persisting(_)));
    assert!(s.is_capturing());
    let directive = s.persisted("/tmp/a.png".to_string());
    assert_eq!(directive.request, Some(Request::CopyImage("/tmp/a.png".to_string())));
    assert_eq!(s.process_region(Rect { x: 0, y: 0, width: 1, height: 1 }), nothing_to_crop());
    assert_eq!(s.stage(), &Stage::CopyingImage);
    assert_eq!(s.image_copied(Ok(())).error, None);
    assert_eq!(s.process_region(Rect { x: 0, y: 0, width: 1, height: 1 }), nothing_to_crop());
    assert!(!s.is_capturing());
}

#[test]
fn frame_left_by_a_cancelled_session_is_not_cropped_without_a_session() {
    let mut s = selecting("copy");
    s.cancel();
    assert_eq!(s.process_region(Rect { x: 0, y: 0, width: 1, height: 1 }), refusal());
    assert_eq!(s.stage(), &Stage::Idle);
    assert!(!s.is_capturing());
    assert_eq!(s.history().len(), 0);
}

#[test]
fn written_region_enters_the_history_and_starts_extraction() {
    let mut s = persisting("extract");
    let directive = s.persisted("/tmp/screenshot-1.png".to_string());
    assert_eq!(
        directive,
        Directive { effects: vec![], request: Some(Request::Probe("/opt/ocr/ocr.exe".to_string())), error: None }
    );
    assert_eq!(s.history().len(), 1);
    assert_eq!(s.history().path_at(0), Some("/tmp/screenshot-1.png"));
    assert_eq!(s.history().cursor(), 0);
    assert_eq!(s.last_screenshot_path(), Some("/tmp/screenshot-1.png"));
    assert!(s.is_capturing());
}

#[test]
fn written_region_is_dispatched_by_the_configured_action() {
    let path = "/tmp/screenshot-1.png".to_string();
    assert_eq!(persisting("extract_translate").persisted(path.clone()).request, Some(Request::Probe("/opt/ocr/ocr.exe".to_string())));
    assert_eq!(persisting("copy").persisted(path.clone()).request, Some(Request::CopyImage(path.clone())));
    assert_eq!(persisting("save").persisted(path.clone()).request, Some(Request::SaveImage(path.clone())));
    assert_eq!(persisting("preview").persisted(path.clone()).request, Some(Request::ReadImage(path.clone())));
    assert_eq!(persisting("whatever").persisted(path.clone()).request, Some(Request::ReadImage(path.clone())));
}

#[test]
fn settings_are_those_in_force_when_the_region_came_in() {
    let mut s = persisting("copy");
    let mut changed = s.settings().clone();
    changed.primary_action = "save".to_string();
    s.replace_settings(changed, false);
    let directive = s.persisted("/tmp/a.png".to_string());
    assert_eq!(directive.request, Some(Request::CopyImage("/tmp/a.png".to_string())));
}

#[test]
fn twenty_first_screenshot_has_the_oldest_deleted() {
    let mut s = state("copy");
    for n in 1..=21 {
        s.begin_capture();
        s.frame_captured(frame(4, 4));
        s.process_region(Rect { x: 0, y: 0, width: 2, height: 2 });
        let directive = s.persisted(format!("/tmp/shot-{}.png", n));
        if n <= 20 {
            assert_eq!(directive.effects, vec![]);
        } else {
            assert_eq!(directive.effects, vec![Effect::DeleteFile("/tmp/shot-1.png".to_string())]);
        }
        assert_eq!(s.image_copied(Ok(())).error, None);
        assert!(!s.is_capturing());
    }
    assert_eq!(s.history().len(), 20);
    assert_eq!(s.history().path_at(0), Some("/tmp/shot-21.png"));
    assert_eq!(s.history().path_at(19), Some("/tmp/shot-2.png"));
}

#[test]
fn failed_write_ends_the_session_and_records_nothing() {
    let mut s = persisting("extract");
    let directive = s.persist_failed("disk full".to_string());
    let expected = Directive {
        effects: vec![notify("❌ 截图失败", "保存截图失败: disk full"), Effect::ProcessingFinished],
        request: None,
        error: Some(PipelineError::PersistError("disk full".to_string())),
    };
    assert_eq!(directive, expected);
    assert!(!s.is_capturing());
    assert_eq!(s.history().len(), 0);
    assert_eq!(s.last_screenshot_path(), None);
}

#[test]
fn extraction_runs_to_its_end_and_is_cached() {
    let mut s = persisted("extract");
    let directive = s.engine_report(JobEvent::Probed(true), &translator());
    assert!(matches!(directive.request, Some(Request::Run(_))));
    assert!(s.is_capturing());
    let directive = s.engine_report(printed(HELLO), &translator());
    let expected = Directive {
        effects: vec![
            Effect::CopyText("hello world".to_string()),
            Effect::ExtractionResult("hello world".to_string()),
            notify("✅ 文字识别成功", "内容已复制到剪贴板。"),
            Effect::ProcessingFinished,
        ],
        request: None,
        error: None,
    };
    assert_eq!(directive, expected);
    assert!(!s.is_capturing());
    let cached = OcrResult {
        original_text: Some("hello world".to_string()),
        translated_text: None,
        image_path: "/tmp/screenshot-1.png".to_string(),
    };
    assert_eq!(s.latest_result(), Some(&cached));
}

#[test]
fn missing_engine_ends_the_session_before_anything_is_run() {
    let mut s = persisted("extract");
    let directive = s.engine_report(JobEvent::Probed(false), &translator());
    let expected = Directive {
        effects: vec![notify("❌ 识别失败", "未找到OCR引擎，请在设置页面下载。"), Effect::ProcessingFinished],
        request: None,
        error: Some(PipelineError::Engine(EngineError::EngineNotInstalled)),
    };
    assert_eq!(directive, expected);
    assert!(!s.is_capturing());
    let cached = OcrResult { original_text: None, translated_text: None, image_path: "/tmp/screenshot-1.png".to_string() };
    assert_eq!(s.latest_result(), Some(&cached));
}

#[test]
fn failed_extraction_ends_the_session() {
    let mut s = persisted("extract_translate");
    s.engine_report(JobEvent::Probed(true), &translator());
    let directive = s.engine_report(printed("garbage"), &translator());
    assert_eq!(
        directive.error,
        Some(PipelineError::Engine(EngineError::MalformedEngineOutput("输出中没有以 { 开头的行".to_string())))
    );
    assert_eq!(directive.request, None);
    assert_eq!(directive.effects.last(), Some(&Effect::ProcessingFinished));
    assert!(!s.is_capturing());
}

#[test]
fn failed_translation_keeps_the_recognised_text_in_the_cache() {
    let mut s = persisted("extract_translate");
    s.engine_report(JobEvent::Probed(true), &translator());
    let directive = s.engine_report(printed(HELLO), &translator());
    assert_eq!(directive.request, Some(Request::Probe("/opt/translate_engine.exe".to_string())));
    assert!(s.is_capturing());
    let directive = s.engine_report(JobEvent::Probed(true), &translator());
    assert!(matches!(directive.request, Some(Request::Run(_))));
    let directive = s.engine_report(printed("{\"code\":500,\"error_message\":\"engine busy\"}"), &translator());
    let expected = Directive {
        effects: vec![notify("⚠️ 翻译失败", "OCR成功但翻译出错: engine busy"), Effect::ProcessingFinished],
        request: None,
        error: Some(PipelineError::Engine(EngineError::EngineReportedError("engine busy".to_string()))),
    };
    assert_eq!(directive, expected);
    assert!(!s.is_capturing());
    let cached = s.latest_result().unwrap();
    assert_eq!(cached.original_text, Some("hello world".to_string()));
    assert_eq!(cached.translated_text, Some("OCR成功但翻译出错: engine busy".to_string()));
    assert_eq!(cached.image_path, "/tmp/screenshot-1.png");
}

#[test]
fn translation_runs_to_its_end_and_is_cached() {
    let mut s = persisted("extract_translate");
    s.engine_report(JobEvent::Probed(true), &translator());
    s.engine_report(printed(HELLO), &translator());
    s.engine_report(JobEvent::Probed(true), &translator());
    let directive = s.engine_report(printed("{\"code\":200,\"translated_text\":\"你好世界\"}"), &translator());
    assert_eq!(directive.error, None);
    assert_eq!(directive.effects.last(), Some(&Effect::ProcessingFinished));
    assert!(!s.is_capturing());
    let cached = OcrResult {
        original_text: Some("hello world".to_string()),
        translated_text: Some("你好世界".to_string()),
        image_path: "/tmp/screenshot-1.png".to_string(),
    };
    assert_eq!(s.latest_result(), Some(&cached));
}

#[test]
fn engine_report_out_of_turn_is_turned_away() {
    let mut s = state("extract");
    assert_eq!(s.engine_report(JobEvent::Probed(true), &translator()), refusal());
    let mut s = persisted("extract");
    assert_eq!(s.engine_report(printed(HELLO), &translator()), refusal());
    assert!(s.is_capturing());
    assert!(matches!(s.engine_report(JobEvent::Probed(true), &translator()).request, Some(Request::Run(_))));
}

#[test]
fn copied_image_ends_the_session() {
    let mut s = persisted("copy");
    let directive = s.image_copied(Ok(()));
    let expected = Directive {
        effects: vec![notify("✅ 复制成功", "截图已复制到剪贴板。"), Effect::ProcessingFinished],
        request: None,
        error: None,
    };
    assert_eq!(directive, expected);
    assert!(!s.is_capturing());
}

#[test]
fn failed_copy_ends_the_session_too() {
    let mut s = persisted("copy");
    let directive = s.image_copied(Err("clipboard busy".to_string()));
    let expected = Directive {
        effects: vec![notify("❌ 复制失败", "clipboard busy"), Effect::ProcessingFinished],
        request: None,
        error: Some(PipelineError::ClipboardError("clipboard busy".to_string())),
    };
    assert_eq!(directive, expected);
    assert!(!s.is_capturing());
}

#[test]
fn saved_image_ends_the_session() {
    let mut s = persisted("save");
    let directive = s.image_saved(Ok(()));
    let expected = Directive {
        effects: vec![notify("✅ 保存成功", "截图已保存到桌面。"), Effect::ProcessingFinished],
        request: None,
        error: None,
    };
    assert_eq!(directive, expected);
    assert!(!s.is_capturing());
}

#[test]
fn failed_save_ends_the_session_too() {
    let mut s = persisted("save");
    let directive = s.image_saved(Err("no desktop".to_string()));
    let expected = Directive {
        effects: vec![notify("❌ 保存失败", "no desktop"), Effect::ProcessingFinished],
        request: None,
        error: Some(PipelineError::SaveError("no desktop".to_string())),
    };
    assert_eq!(directive, expected);
    assert!(!s.is_capturing());
}

#[test]
fn image_read_back_is_shown() {
    let mut s = persisted("preview");
    let directive = s.image_read(Some(b"hello".to_vec()));
    let expected = Directive {
        effects: vec![
            Effect::ShowPreview {
                image_data_url: "data:image/png;base64,aGVsbG8=".to_string(),
                image_path: "/tmp/screenshot-1.png".to_string(),
            },
            Effect::ProcessingFinished,
        ],
        request: None,
        error: None,
    };
    assert_eq!(directive, expected);
    assert!(!s.is_capturing());
}

#[test]
fn image_that_cannot_be_read_back_ends_the_session() {
    let mut s = persisted("preview");
    let directive = s.image_read(None);
    let expected = Directive {
        effects: vec![notify("❌ 错误", "无法读取截图文件进行预览。"), Effect::ProcessingFinished],
        request: None,
        error: Some(PipelineError::ReadError),
    };
    assert_eq!(directive, expected);
    assert!(!s.is_capturing());
}

#[test]
fn reports_for_another_action_are_turned_away() {
    let mut s = persisted("copy");
    assert_eq!(s.image_saved(Ok(())), refusal());
    assert_eq!(s.image_read(None), refusal());
    assert_eq!(s.persisted("/tmp/b.png".to_string()), refusal());
    assert_eq!(s.persist_failed("x".to_string()), refusal());
    assert_eq!(s.frame_captured(frame(2, 2)), refusal());
    assert_eq!(s.capture_failed("x".to_string()), refusal());
    assert!(s.is_capturing());
    assert_eq!(s.history().len(), 1);
    assert_eq!(s.image_copied(Ok(())).error, None);
    assert_eq!(s.image_copied(Ok(())), refusal());
}

#[test]
fn every_way_a_session_fails_leaves_the_lock_free_for_the_next() {
    let mut s = state("extract_translate");
    let mut sessions = 0;
    let mut closed = 0;
    let start = |s: &mut AppState, upto: u8| {
        assert_eq!(s.begin_capture().request, Some(Request::Grab));
        assert_eq!(s.begin_capture().error, Some(PipelineError::LockBusy));
        if upto >= 1 {
            s.frame_captured(frame(8, 6));
        }
        if upto >= 2 {
            s.process_region(Rect { x: 0, y: 0, width: 2, height: 2 });
        }
        if upto >= 3 {
            s.persisted("/tmp/x.png".to_string());
        }
        if upto >= 4 {
            s.engine_report(JobEvent::Probed(true), &translator());
        }
        if upto >= 5 {
            s.engine_report(printed(HELLO), &translator());
            s.engine_report(JobEvent::Probed(true), &translator());
        }
    };
    let mut endings: Vec<Box<dyn Fn(&mut AppState) -> Directive>> = Vec::new();
    endings.push(Box::new(|s| { s.capture_failed("x".to_string()) }));
    endings.push(Box::new(|s| { s.process_region(Rect { x: 7, y: 5, width: 2, height: 2 }) }));
    endings.push(Box::new(|s| { s.persist_failed("disk full".to_string()) }));
    endings.push(Box::new(|s| { s.engine_report(JobEvent::Probed(false), &translator()) }));
    endings.push(Box::new(|s| { s.engine_report(printed("{\"code\":101}"), &translator()) }));
    endings.push(Box::new(|s| { s.engine_report(printed("{\"code\":500}"), &translator()) }));
    for (upto, ending) in endings.iter().enumerate() {
        start(&mut s, upto as u8);
        sessions += 1;
        assert!(s.is_capturing());
        let directive = ending(&mut s);
        assert!(directive.error.is_some());
        assert_eq!(directive.request, None);
        assert!(!s.is_capturing());
        closed += 1;
        let again = ending(&mut s);
        assert!(again.error.is_some());
        assert_eq!(again.effects, vec![]);
        assert_eq!(again.request, None);
        assert!(!s.is_capturing());
    }
    assert_eq!(sessions, 6);
    assert_eq!(closed, sessions);
}

#[test]
fn reprocessing_sets_up_a_job_outside_any_session() {
    let s = state("copy");
    let (job, request) = s.reprocess("/tmp/old.png".to_string(), "ocr").unwrap();
    assert_eq!(request, Request::Probe("/opt/ocr/ocr.exe".to_string()));
    assert!(!job.is_finished());
    assert!(!s.is_capturing());
    let (mut job, _) = s.reprocess("/tmp/old.png".to_string(), "ocr_translate").unwrap();
    job.advance(JobEvent::Probed(true), &translator());
    let step = job.advance(printed(HELLO), &translator());
    assert_eq!(step.request, Some(Request::Probe("/opt/translate_engine.exe".to_string())));
}

#[test]
fn reprocessing_translates_only_where_asked() {
    let s = state("copy");
    let (mut job, _) = s.reprocess("/tmp/old.png".to_string(), "ocr").unwrap();
    job.advance(JobEvent::Probed(true), &translator());
    assert_eq!(job.advance(printed(HELLO), &translator()).request, None);
    let (mut job, _) = s.reprocess("/tmp/old.png".to_string(), "ocr_translate").unwrap();
    job.advance(JobEvent::Probed(true), &translator());
    assert!(job.advance(printed(HELLO), &translator()).request.is_some());
}

#[test]
fn reprocessing_with_another_action_does_nothing() {
    let s = state("copy");
    assert!(s.reprocess("/tmp/old.png".to_string(), "copy").is_none());
    assert!(s.reprocess("/tmp/old.png".to_string(), "").is_none());
    assert!(s.reprocess("/tmp/old.png".to_string(), "OCR").is_none());
    assert!(s.reprocess("/tmp/old.png".to_string(), "preview").is_none());
    assert!(s.reprocess("/tmp/old.png".to_string(), "extract").is_none());
    assert!(s.reprocess("/tmp/old.png".to_string(), "extract_translate").is_none());
    assert!(s.reprocess("/tmp/old.png".to_string(), "ocr ").is_none());
}

#[test]
fn cached_result_is_replaced_wholesale() {
    let mut s = state("copy");
    let first = OcrResult { original_text: Some("a".to_string()), translated_text: Some("b".to_string()), image_path: "1".to_string() };
    let second = OcrResult { original_text: None, translated_text: None, image_path: "2".to_string() };
    s.cache_result(first.clone());
    assert_eq!(s.latest_result(), Some(&first));
    assert_eq!(s.latest_result(), Some(&first));
    s.cache_result(second.clone());
    assert_eq!(s.latest_result(), Some(&second));
}

#[test]
fn history_is_looked_through_with_the_cursor() {
    let mut s = state("copy");
    assert_eq!(s.navigate_history(1), None);
    for n in 1..=3 {
        s.begin_capture();
        s.frame_captured(frame(4, 4));
        s.process_region(Rect { x: 0, y: 0, width: 1, height: 1 });
        s.persisted(format!("/tmp/shot-{}.png", n));
        s.image_copied(Ok(()));
    }
    assert_eq!(s.navigate_history(0), Some("/tmp/shot-3.png".to_string()));
    assert_eq!(s.navigate_history(1), Some("/tmp/shot-2.png".to_string()));
    assert_eq!(s.navigate_history(5), Some("/tmp/shot-1.png".to_string()));
    assert_eq!(s.navigate_history(-1), Some("/tmp/shot-2.png".to_string()));
    assert_eq!(s.navigate_history(-7), Some("/tmp/shot-3.png".to_string()));
}

#[test]
fn new_settings_come_into_force() {
    let mut s = state("copy");
    let mut next = s.settings().clone();
    next.shortcut = "Ctrl+Shift+S".to_string();
    next.autostart = true;
    let change = s.replace_settings(next.clone(), false);
    assert_eq!(change, SettingsChange { rebind_shortcut: true, autostart: AutostartChange::Enable });
    assert_eq!(s.settings(), &next);
    let change = s.replace_settings(next.clone(), true);
    assert_eq!(change, SettingsChange { rebind_shortcut: false, autostart: AutostartChange::Keep });
}

#[test]
fn stage_follows_the_session() {
    let mut s = state("copy");
    assert_eq!(s.stage(), &Stage::Idle);
    s.begin_capture();
    assert_eq!(s.stage(), &Stage::Grabbing);
    s.frame_captured(frame(4, 4));
    assert_eq!(s.stage(), &Stage::Selecting);
    s.process_region(Rect { x: 0, y: 0, width: 1, height: 1 });
    assert!(matches!(s.stage(), Stage::Persisting(_)));
    s.persisted("/tmp/a.png".to_string());
    assert_eq!(s.stage(), &Stage::CopyingImage);
    s.image_copied(Ok(()));
    assert_eq!(s.stage(), &Stage::Idle);
}
