//! Translation services: what each one is asked, and what its reply means.

use crate::engine::{
    reading_of, read_translation_run, source_language, translation_command, translation_invocation,
    translation_run_reading, EngineError, EngineErrorView, Invocation, InvocationView, LanguagePair,
    ProcessOutcome, Reading,
};
use crate::settings::AppSettings;
use crate::text::texts;
use vstd::prelude::*;
use vstd::string::StringExecFns;

verus! {

/// Endpoint for keys of the free plan.
pub const FREE_ENDPOINT: &'static str = "https://api-free.deepl.com/v2/translate";

/// Endpoint for all other keys.
pub const PAID_ENDPOINT: &'static str = "https://api.deepl.com/v2/translate";

/// What precedes the reason for which a request could not be sent.
pub const SEND_FAILED_PREFIX: &'static str = "发送翻译请求失败: ";

/// What precedes status and body of an answer that is no success.
pub const API_ERROR_PREFIX: &'static str = "翻译API返回错误: ";

/// What precedes the reason for which an answer could not be read.
pub const UNREADABLE_PREFIX: &'static str = "解析翻译结果失败: ";

/// The reason given for a reply to something that was never asked for.
pub const UNEXPECTED_REPLY_TEXT: &'static str = "收到了未请求的回复";

/// First language of the local engine: the one translated into by default.
pub const LOCAL_FIRST_LANGUAGE: &'static str = "ZH";

/// Second language of the local engine.
pub const LOCAL_SECOND_LANGUAGE: &'static str = "EN";

/// Body of a translation request to the online service.
#[derive(Debug, PartialEq, Eq)]
pub struct DeepLRequest {
    pub text: Vec<String>,
    pub target_lang: String,
    pub source_lang: Option<String>,
}

/// An HTTP POST: where it goes, how it is authorised, what it carries.
#[derive(Debug, PartialEq, Eq)]
pub struct HttpCall {
    pub url: String,
    pub authorization: String,
    pub body: DeepLRequest,
}

/// An `HttpCall` with its texts as character sequences.
pub struct HttpCallView {
    pub url: Seq<char>,
    pub authorization: Seq<char>,
    pub text: Seq<Seq<char>>,
    pub target_lang: Seq<char>,
    pub source_lang: Option<Seq<char>>,
}

impl View for HttpCall {
    type V = HttpCallView;

    open spec fn view(&self) -> HttpCallView {
        HttpCallView {
            url: self.url@,
            authorization: self.authorization@,
            text: texts(self.body.text@),
            target_lang: self.body.target_lang@,
            source_lang: match self.body.source_lang {
                Some(lang) => Some(lang@),
                None => None,
            },
        }
    }
}

/// How an HTTP call ended.
#[derive(Debug, PartialEq, Eq)]
pub enum HttpReply {
    /// The request could not be sent; the text says why.
    Unsent(String),
    /// The service answered with a status that is no success.
    Refused { status: String, body: String },
    /// The service answered with success, but its body could not be read.
    Unreadable(String),
    /// The service answered with these translations.
    Translations(Vec<String>),
}

/// What a translator wants done on its behalf.
#[derive(Debug, PartialEq, Eq)]
pub enum Dispatch {
    /// Send this HTTP request.
    Post(HttpCall),
    /// Run this program.
    Run(Invocation),
}

/// A `Dispatch` with its texts as character sequences.
pub enum DispatchView {
    Post(HttpCallView),
    Run(InvocationView),
}

impl View for Dispatch {
    type V = DispatchView;

    open spec fn view(&self) -> DispatchView {
        match self {
            Dispatch::Post(call) => DispatchView::Post(call@),
            Dispatch::Run(command) => DispatchView::Run(command@),
        }
    }
}

/// What came back from the work a translator asked for.
#[derive(Debug, PartialEq, Eq)]
pub enum Reply {
    Http(HttpReply),
    Process(ProcessOutcome),
}

/// A service that turns a text into its translation. The work itself is
/// done elsewhere: a translator says what is to be done, and what the reply
/// that comes back amounts to.
pub trait Translator: Send + Sync {
    /// The work that `prepare` asks for.
    spec fn dispatch_for(&self, text: Seq<char>, target_lang: Seq<char>) -> DispatchView;

    /// The meaning of a reply.
    spec fn reading(&self, reply: Reply) -> Reading;

    /// Says what is to be done to have `text` translated into `target_lang`.
    fn prepare(&self, text: &str, target_lang: &str) -> (dispatch: Dispatch)
        ensures
            dispatch@ == self.dispatch_for(text@, target_lang@),
    ;

    /// Interprets the reply to the work that `prepare` asked for.
    fn conclude(&self, reply: &Reply) -> (answer: Result<String, EngineError>)
        ensures
            reading_of(answer) == self.reading(*reply),
    ;
}

/// The online translation service, reached with an API key.
#[derive(Debug, PartialEq, Eq)]
pub struct DeepLTranslator {
    api_key: String,
}

/// Keys of the free plan end in `:fx`.
pub open spec fn is_free_key(key: Seq<char>) -> bool {
    key.len() >= 3 && key[key.len() - 3] == ':' && key[key.len() - 2] == 'f' && key[key.len() - 1] == 'x'
}

impl DeepLTranslator {
    /// The key this translator authorises itself with.
    pub closed spec fn key(&self) -> Seq<char> {
        self.api_key@
    }

    /// A translator that authorises itself with the given key.
    pub fn new(api_key: String) -> (translator: DeepLTranslator)
        ensures
            translator.key() == api_key@,
    {
        DeepLTranslator { api_key }
    }

    /// Whether the key belongs to the free plan.
    pub fn uses_free_plan(&self) -> (free: bool)
        ensures
            free == is_free_key(self.key()),
    {
        let key = self.api_key.as_str();
        let n = key.unicode_len();
        n >= 3 && key.get_char(n - 3) == ':' && key.get_char(n - 2) == 'f' && key.get_char(n - 1) == 'x'
    }
}

/// The request that the online service is sent for a text: to the endpoint
/// of the key's plan, authorised by the key, with the text as the only one to
/// translate and the source language left to the service.
pub open spec fn deepl_call(key: Seq<char>, text: Seq<char>, target_lang: Seq<char>) -> HttpCallView {
    HttpCallView {
        url: if is_free_key(key) {
            FREE_ENDPOINT@
        } else {
            PAID_ENDPOINT@
        },
        authorization: "DeepL-Auth-Key "@ + key,
        text: seq![text],
        target_lang: target_lang,
        source_lang: None,
    }
}

/// The meaning of the online service's reply: the first translation, or the
/// reason why there is none. A reply to something that was never asked for
/// cannot be read.
pub open spec fn deepl_reading(reply: Reply) -> Reading {
    match reply {
        Reply::Http(HttpReply::Unsent(reason)) => Err(
            EngineErrorView::EngineProcessError { launched: false, text: SEND_FAILED_PREFIX@ + reason@ },
        ),
        Reply::Http(HttpReply::Refused { status, body }) => Err(
            EngineErrorView::EngineReportedError(API_ERROR_PREFIX@ + status@ + " - "@ + body@),
        ),
        Reply::Http(HttpReply::Unreadable(reason)) => Err(
            EngineErrorView::MalformedEngineOutput(UNREADABLE_PREFIX@ + reason@),
        ),
        Reply::Http(HttpReply::Translations(translations)) => if translations@.len() > 0 {
            Ok(translations@[0]@)
        } else {
            Err(EngineErrorView::EmptyTranslation)
        },
        Reply::Process(_) => Err(EngineErrorView::MalformedEngineOutput(UNEXPECTED_REPLY_TEXT@)),
    }
}

impl Translator for DeepLTranslator {
    open spec fn dispatch_for(&self, text: Seq<char>, target_lang: Seq<char>) -> DispatchView {
        DispatchView::Post(deepl_call(self.key(), text, target_lang))
    }

    open spec fn reading(&self, reply: Reply) -> Reading {
        deepl_reading(reply)
    }

    fn prepare(&self, text: &str, target_lang: &str) -> (dispatch: Dispatch) {
        let url = if self.uses_free_plan() {
            String::from_str(FREE_ENDPOINT)
        } else {
            String::from_str(PAID_ENDPOINT)
        };
        let mut authorization = String::from_str("DeepL-Auth-Key ");
        authorization.append(self.api_key.as_str());
        let mut texts_to_send: Vec<String> = Vec::new();
        texts_to_send.push(String::from_str(text));
        let call = HttpCall {
            url,
            authorization,
            body: DeepLRequest { text: texts_to_send, target_lang: String::from_str(target_lang), source_lang: None },
        };
        assert(call@.text == seq![text@]);
        Dispatch::Post(call)
    }

    fn conclude(&self, reply: &Reply) -> (answer: Result<String, EngineError>) {
        match reply {
            Reply::Http(HttpReply::Unsent(reason)) => {
                let mut message = String::from_str(SEND_FAILED_PREFIX);
                message.append(reason.as_str());
                Err(EngineError::EngineProcessError { launched: false, text: message })
            },
            Reply::Http(HttpReply::Refused { status, body }) => {
                let mut message = String::from_str(API_ERROR_PREFIX);
                message.append(status.as_str());
                message.append(" - ");
                message.append(body.as_str());
                Err(EngineError::EngineReportedError(message))
            },
            Reply::Http(HttpReply::Unreadable(reason)) => {
                let mut message = String::from_str(UNREADABLE_PREFIX);
                message.append(reason.as_str());
                Err(EngineError::MalformedEngineOutput(message))
            },
            Reply::Http(HttpReply::Translations(translations)) => {
                if translations.len() > 0 {
                    Ok(translations[0].clone())
                } else {
                    Err(EngineError::EmptyTranslation)
                }
            },
            Reply::Process(_) => Err(EngineError::MalformedEngineOutput(String::from_str(UNEXPECTED_REPLY_TEXT))),
        }
    }
}

/// The translation engine installed beside the application: a program that
/// works between two languages.
#[derive(Debug, PartialEq, Eq)]
pub struct LocalTranslator {
    pub exe_path: String,
    pub languages: LanguagePair,
}

/// The meaning of what came back from the local engine. A reply to
/// something that was never asked for cannot be read.
pub open spec fn local_reading(reply: Reply) -> Reading {
    match reply {
        Reply::Process(outcome) => translation_run_reading(outcome),
        Reply::Http(_) => Err(EngineErrorView::MalformedEngineOutput(UNEXPECTED_REPLY_TEXT@)),
    }
}

impl Translator for LocalTranslator {
    open spec fn dispatch_for(&self, text: Seq<char>, target_lang: Seq<char>) -> DispatchView {
        DispatchView::Run(
            translation_invocation(
                self.exe_path@,
                text,
                source_language(self.languages.first@, self.languages.second@, target_lang),
                target_lang,
            ),
        )
    }

    open spec fn reading(&self, reply: Reply) -> Reading {
        local_reading(reply)
    }

    fn prepare(&self, text: &str, target_lang: &str) -> (dispatch: Dispatch) {
        let source = self.languages.source_for(target_lang);
        Dispatch::Run(translation_command(self.exe_path.as_str(), text, source, target_lang))
    }

    fn conclude(&self, reply: &Reply) -> (answer: Result<String, EngineError>) {
        match reply {
            Reply::Process(outcome) => read_translation_run(outcome),
            Reply::Http(_) => Err(EngineError::MalformedEngineOutput(String::from_str(UNEXPECTED_REPLY_TEXT))),
        }
    }
}

/// The translator a job is served by.
#[derive(Debug, PartialEq, Eq)]
pub enum ChosenTranslator {
    /// The online service.
    Online(DeepLTranslator),
    /// The engine installed beside the application.
    Local(LocalTranslator),
}

impl Translator for ChosenTranslator {
    open spec fn dispatch_for(&self, text: Seq<char>, target_lang: Seq<char>) -> DispatchView {
        match self {
            ChosenTranslator::Online(translator) => translator.dispatch_for(text, target_lang),
            ChosenTranslator::Local(translator) => translator.dispatch_for(text, target_lang),
        }
    }

    open spec fn reading(&self, reply: Reply) -> Reading {
        match self {
            ChosenTranslator::Online(translator) => translator.reading(reply),
            ChosenTranslator::Local(translator) => translator.reading(reply),
        }
    }

    fn prepare(&self, text: &str, target_lang: &str) -> (dispatch: Dispatch) {
        match self {
            ChosenTranslator::Online(translator) => translator.prepare(text, target_lang),
            ChosenTranslator::Local(translator) => translator.prepare(text, target_lang),
        }
    }

    fn conclude(&self, reply: &Reply) -> (answer: Result<String, EngineError>) {
        match self {
            ChosenTranslator::Online(translator) => translator.conclude(reply),
            ChosenTranslator::Local(translator) => translator.conclude(reply),
        }
    }
}

/// `chosen` is the translator that serves under the given settings: the
/// online service, with the configured key, where a key is configured; the
/// local engine at the given path, between its two languages, where none is.
pub open spec fn is_choice_for(chosen: ChosenTranslator, api_key: Seq<char>, local_exe_path: Seq<char>) -> bool {
    match chosen {
        ChosenTranslator::Online(translator) => api_key.len() > 0 && translator.key() == api_key,
        ChosenTranslator::Local(translator) => {
            &&& api_key.len() == 0
            &&& translator.exe_path@ == local_exe_path
            &&& translator.languages.first@ == LOCAL_FIRST_LANGUAGE@
            &&& translator.languages.second@ == LOCAL_SECOND_LANGUAGE@
        },
    }
}

/// Chooses the translator that serves under the given settings.
pub fn choose_translator(settings: &AppSettings, local_exe_path: String) -> (chosen: ChosenTranslator)
    ensures
        is_choice_for(chosen, settings@.api_key, local_exe_path@),
{
    if settings.api_key.as_str().is_empty() {
        ChosenTranslator::Local(
            LocalTranslator {
                exe_path: local_exe_path,
                languages: LanguagePair {
                    first: String::from_str(LOCAL_FIRST_LANGUAGE),
                    second: String::from_str(LOCAL_SECOND_LANGUAGE),
                },
            },
        )
    } else {
        ChosenTranslator::Online(get_translator(settings.api_key.clone()))
    }
}

/// The translator for the given API key: the online service.
pub fn get_translator(api_key: String) -> (translator: DeepLTranslator)
    ensures
        translator.key() == api_key@,
{
    DeepLTranslator::new(api_key)
}

} // verus!
