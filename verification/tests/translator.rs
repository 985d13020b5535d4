use capture_pipeline::engine::{EngineError, Invocation, LanguagePair, ProcessOutcome};
use capture_pipeline::settings::AppSettings;
use capture_pipeline::translator::{
    choose_translator, get_translator, ChosenTranslator, DeepLRequest, DeepLTranslator, Dispatch, HttpCall,
    HttpReply, LocalTranslator, Reply, Translator,
};

fn call(url: &str, key: &str, text: &str, target: &str) -> Dispatch {
    Dispatch::Post(HttpCall {
        url: url.to_string(),
        authorization: format!("DeepL-Auth-Key {}", key),
        body: DeepLRequest { text: vec![text.to_string()], target_lang: target.to_string(), source_lang: None },
    })
}

fn local() -> LocalTranslator {
    LocalTranslator {
        exe_path: "/opt/translate_engine.exe".to_string(),
        languages: LanguagePair { first: "zh".to_string(), second: "en".to_string() },
    }
}

#[test]
fn free_keys_go_to_the_free_endpoint() {
    let translator = DeepLTranslator::new("abc:fx".to_string());
    assert!(translator.uses_free_plan());
    assert_eq!(
        translator.prepare("hello", "ZH"),
        call("https://api-free.deepl.com/v2/translate", "abc:fx", "hello", "ZH")
    );
}

#[test]
fn other_keys_go_to_the_paid_endpoint() {
    let translator = get_translator("abc".to_string());
    assert!(!translator.uses_free_plan());
    assert_eq!(translator.prepare("hello", "DE"), call("https://api.deepl.com/v2/translate", "abc", "hello", "DE"));
}

#[test]
fn free_plan_is_told_by_the_last_three_characters() {
    assert!(DeepLTranslator::new(":fx".to_string()).uses_free_plan());
    assert!(DeepLTranslator::new("密钥:fx".to_string()).uses_free_plan());
    assert!(!DeepLTranslator::new("fx".to_string()).uses_free_plan());
    assert!(!DeepLTranslator::new("".to_string()).uses_free_plan());
    assert!(!DeepLTranslator::new("abc:fx ".to_string()).uses_free_plan());
    assert!(!DeepLTranslator::new("abc:FX".to_string()).uses_free_plan());
}

#[test]
fn first_translation_is_the_answer() {
    let translator = DeepLTranslator::new("k".to_string());
    let reply = Reply::Http(HttpReply::Translations(vec!["你好".to_string(), "您好".to_string()]));
    assert_eq!(translator.conclude(&reply), Ok("你好".to_string()));
}

#[test]
fn reply_without_translations_is_empty() {
    let translator = DeepLTranslator::new("k".to_string());
    assert_eq!(translator.conclude(&Reply::Http(HttpReply::Translations(vec![]))), Err(EngineError::EmptyTranslation));
}

#[test]
fn refused_request_reports_status_and_body() {
    let translator = DeepLTranslator::new("k".to_string());
    let reply = Reply::Http(HttpReply::Refused { status: "403 Forbidden".to_string(), body: "bad key".to_string() });
    assert_eq!(
        translator.conclude(&reply),
        Err(EngineError::EngineReportedError("翻译API返回错误: 403 Forbidden - bad key".to_string()))
    );
}

#[test]
fn unsent_request_is_a_process_error() {
    let translator = DeepLTranslator::new("k".to_string());
    let reply = Reply::Http(HttpReply::Unsent("no route".to_string()));
    let expected = EngineError::EngineProcessError { launched: false, text: "发送翻译请求失败: no route".to_string() };
    assert_eq!(translator.conclude(&reply), Err(expected));
}

#[test]
fn unreadable_body_is_malformed() {
    let translator = DeepLTranslator::new("k".to_string());
    let reply = Reply::Http(HttpReply::Unreadable("eof".to_string()));
    assert_eq!(
        translator.conclude(&reply),
        Err(EngineError::MalformedEngineOutput("解析翻译结果失败: eof".to_string()))
    );
}

#[test]
fn online_service_cannot_read_a_process() {
    let translator = DeepLTranslator::new("k".to_string());
    let reply = Reply::Process(ProcessOutcome::LaunchFailed("x".to_string()));
    assert_eq!(translator.conclude(&reply), Err(EngineError::MalformedEngineOutput("收到了未请求的回复".to_string())));
}

#[test]
fn local_engine_is_run_with_both_languages() {
    let expected = Dispatch::Run(Invocation {
        program: "/opt/translate_engine.exe".to_string(),
        args: vec![
            "--text".to_string(),
            "good morning".to_string(),
            "--source".to_string(),
            "en".to_string(),
            "--target".to_string(),
            "zh".to_string(),
        ],
        working_dir: None,
    });
    assert_eq!(local().prepare("good morning", "zh"), expected);
}

#[test]
fn local_engine_reads_its_output() {
    let ok = Reply::Process(ProcessOutcome::Exited {
        success: true,
        stdout: "{\"code\":200,\"translated_text\":\"早上好\"}".as_bytes().to_vec(),
        stderr: vec![],
    });
    assert_eq!(local().conclude(&ok), Ok("早上好".to_string()));
    let busy = Reply::Process(ProcessOutcome::Exited {
        success: true,
        stdout: "{\"code\":500,\"error_message\":\"engine busy\"}".as_bytes().to_vec(),
        stderr: vec![],
    });
    assert_eq!(local().conclude(&busy), Err(EngineError::EngineReportedError("engine busy".to_string())));
}

#[test]
fn local_engine_cannot_read_an_http_reply() {
    let reply = Reply::Http(HttpReply::Translations(vec!["x".to_string()]));
    assert_eq!(local().conclude(&reply), Err(EngineError::MalformedEngineOutput("收到了未请求的回复".to_string())));
}

#[test]
fn configured_key_chooses_the_online_service() {
    let settings = AppSettings { api_key: "k:fx".to_string(), ..AppSettings::default() };
    let chosen = choose_translator(&settings, "/opt/translate_engine.exe".to_string());
    assert_eq!(chosen, ChosenTranslator::Online(DeepLTranslator::new("k:fx".to_string())));
    assert_eq!(
        chosen.prepare("hello", "ZH"),
        call("https://api-free.deepl.com/v2/translate", "k:fx", "hello", "ZH")
    );
}

#[test]
fn no_key_chooses_the_local_engine_between_its_two_languages() {
    let chosen = choose_translator(&AppSettings::default(), "/opt/translate_engine.exe".to_string());
    let expected = ChosenTranslator::Local(LocalTranslator {
        exe_path: "/opt/translate_engine.exe".to_string(),
        languages: LanguagePair { first: "ZH".to_string(), second: "EN".to_string() },
    });
    assert_eq!(chosen, expected);
}

#[test]
fn default_target_is_served_from_the_other_language() {
    let settings = AppSettings::default();
    let chosen = choose_translator(&settings, "/opt/t.exe".to_string());
    match chosen.prepare("hello", &settings.target_lang) {
        Dispatch::Run(command) => assert_eq!(command.args, vec!["--text", "hello", "--source", "EN", "--target", "ZH"]),
        other => panic!("unexpected dispatch {:?}", other),
    }
    match chosen.prepare("你好", "EN") {
        Dispatch::Run(command) => assert_eq!(command.args, vec!["--text", "你好", "--source", "ZH", "--target", "EN"]),
        other => panic!("unexpected dispatch {:?}", other),
    }
}

#[test]
fn chosen_translator_reads_replies_like_the_one_it_holds() {
    let online = choose_translator(&AppSettings { api_key: "k".to_string(), ..AppSettings::default() }, "".to_string());
    let reply = Reply::Http(HttpReply::Translations(vec!["好".to_string()]));
    assert_eq!(online.conclude(&reply), Ok("好".to_string()));
    let local_choice = choose_translator(&AppSettings::default(), "/opt/t.exe".to_string());
    assert_eq!(local_choice.conclude(&reply), Err(EngineError::MalformedEngineOutput("收到了未请求的回复".to_string())));
}
