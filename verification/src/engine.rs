//! The bridge to the external engines: how each one is invoked, and what its
//! output means.

use crate::json::{json_document, parse, JsonValue};
use crate::text::{
    decode_lossy, find_payload_line, is_blank, join, joined, lemma_trimmed_empty_iff_blank, lossy_text,
    payload_line, texts,
};
use vstd::prelude::*;
use vstd::string::StringExecFns;

verus! {

/// Code with which the extraction engine reports recognised text.
pub const EXTRACTION_OK: i64 = 100;

/// Code with which the extraction engine reports that it detected nothing.
pub const EXTRACTION_NOTHING: i64 = 101;

/// Code with which the translation engine reports a translation.
pub const TRANSLATION_OK: i64 = 200;

/// Message used where the extraction engine reports a failure without words.
pub const UNKNOWN_EXTRACTION_ERROR: &'static str = "未知OCR错误";

/// Message used where the translation engine reports a failure without words.
pub const UNKNOWN_TRANSLATION_ERROR: &'static str = "未知翻译错误";

/// What the user is told when the extraction engine is not installed.
pub const NOT_INSTALLED_TEXT: &'static str = "未找到OCR引擎，请在设置页面下载。";

/// What precedes the words of an extraction process that exited with a
/// failure.
pub const PROCESS_ERROR_PREFIX: &'static str = "OCR进程返回错误: ";

/// What precedes the reason for which the extraction process could not be
/// started.
pub const LAUNCH_ERROR_PREFIX: &'static str = "执行OCR进程失败: ";

/// What precedes the reason for which the extraction engine's output
/// cannot be read.
pub const MALFORMED_PREFIX: &'static str = "解析OCR结果JSON失败: ";

/// The reason given where the output holds no payload line at all.
pub const NO_PAYLOAD_TEXT: &'static str = "输出中没有以 { 开头的行";

/// What the user is told when no text was recognised.
pub const NO_TEXT: &'static str = "未识别到文字";

/// What the user is told when a translation came back empty.
pub const EMPTY_TRANSLATION_TEXT: &'static str = "API响应中未找到翻译结果";

/// Why an engine produced no text.
#[derive(Debug, PartialEq, Eq)]
pub enum EngineError {
    /// The executable is not where it is expected; nothing was launched.
    EngineNotInstalled,
    /// The process could not be launched, and the text is the system's
    /// reason; or it ran and exited with a failure, and the text is what it
    /// wrote to standard error.
    EngineProcessError { launched: bool, text: String },
    /// The output holds no payload that can be read; the text says why.
    MalformedEngineOutput(String),
    /// The engine ran and recognised nothing.
    NoTextFound,
    /// The engine answered with a failure code and this message.
    EngineReportedError(String),
    /// The translation engine reported success without a translation.
    EmptyTranslation,
}

/// An `EngineError` with its texts as character sequences.
pub enum EngineErrorView {
    EngineNotInstalled,
    EngineProcessError { launched: bool, text: Seq<char> },
    MalformedEngineOutput(Seq<char>),
    NoTextFound,
    EngineReportedError(Seq<char>),
    EmptyTranslation,
}

impl View for EngineError {
    type V = EngineErrorView;

    open spec fn view(&self) -> EngineErrorView {
        match self {
            EngineError::EngineNotInstalled => EngineErrorView::EngineNotInstalled,
            EngineError::EngineProcessError { launched, text } => EngineErrorView::EngineProcessError {
                launched: *launched,
                text: text@,
            },
            EngineError::MalformedEngineOutput(text) => EngineErrorView::MalformedEngineOutput(text@),
            EngineError::NoTextFound => EngineErrorView::NoTextFound,
            EngineError::EngineReportedError(text) => EngineErrorView::EngineReportedError(text@),
            EngineError::EmptyTranslation => EngineErrorView::EmptyTranslation,
        }
    }
}

/// The words in which a failure of the extraction engine is put to the
/// user.
pub open spec fn description(error: EngineErrorView) -> Seq<char> {
    match error {
        EngineErrorView::EngineNotInstalled => NOT_INSTALLED_TEXT@,
        EngineErrorView::EngineProcessError { launched, text } => if launched {
            PROCESS_ERROR_PREFIX@ + text
        } else {
            LAUNCH_ERROR_PREFIX@ + text
        },
        EngineErrorView::MalformedEngineOutput(text) => MALFORMED_PREFIX@ + text,
        EngineErrorView::NoTextFound => NO_TEXT@,
        EngineErrorView::EngineReportedError(text) => text,
        EngineErrorView::EmptyTranslation => EMPTY_TRANSLATION_TEXT@,
    }
}

/// The reason an error carries, in its own words: the text it holds, or
/// the stock text of an error that holds none.
pub open spec fn reason(error: EngineErrorView) -> Seq<char> {
    match error {
        EngineErrorView::EngineNotInstalled => NOT_INSTALLED_TEXT@,
        EngineErrorView::EngineProcessError { launched, text } => text,
        EngineErrorView::MalformedEngineOutput(text) => text,
        EngineErrorView::NoTextFound => NO_TEXT@,
        EngineErrorView::EngineReportedError(text) => text,
        EngineErrorView::EmptyTranslation => EMPTY_TRANSLATION_TEXT@,
    }
}

/// The mathematical reading of an engine's answer.
pub type Reading = Result<Seq<char>, EngineErrorView>;

/// The reading that an executable answer stands for.
pub open spec fn reading_of(answer: Result<String, EngineError>) -> Reading {
    match answer {
        Ok(text) => Ok(text@),
        Err(error) => Err(error@),
    }
}

impl Clone for EngineError {
    fn clone(&self) -> (copy: EngineError)
        ensures
            copy@ == self@,
    {
        self.duplicate()
    }
}

impl EngineError {
    /// Puts a failure of the extraction engine in words for the user.
    pub fn describe(&self) -> (words: String)
        ensures
            words@ == description(self@),
    {
        match self {
            EngineError::EngineProcessError { launched, text } => {
                let mut words = if *launched {
                    String::from_str(PROCESS_ERROR_PREFIX)
                } else {
                    String::from_str(LAUNCH_ERROR_PREFIX)
                };
                words.append(text.as_str());
                words
            },
            EngineError::MalformedEngineOutput(text) => {
                let mut words = String::from_str(MALFORMED_PREFIX);
                words.append(text.as_str());
                words
            },
            _ => self.reason(),
        }
    }

    /// The reason the error carries, in its own words.
    pub fn reason(&self) -> (words: String)
        ensures
            words@ == reason(self@),
    {
        match self {
            EngineError::EngineNotInstalled => String::from_str(NOT_INSTALLED_TEXT),
            EngineError::EngineProcessError { launched, text } => text.clone(),
            EngineError::MalformedEngineOutput(text) => text.clone(),
            EngineError::NoTextFound => String::from_str(NO_TEXT),
            EngineError::EngineReportedError(text) => text.clone(),
            EngineError::EmptyTranslation => String::from_str(EMPTY_TRANSLATION_TEXT),
        }
    }

    /// A copy of the error.
    pub fn duplicate(&self) -> (copy: EngineError)
        ensures
            copy@ == self@,
    {
        match self {
            EngineError::EngineNotInstalled => EngineError::EngineNotInstalled,
            EngineError::EngineProcessError { launched, text } => EngineError::EngineProcessError {
                launched: *launched,
                text: text.clone(),
            },
            EngineError::MalformedEngineOutput(text) => EngineError::MalformedEngineOutput(text.clone()),
            EngineError::NoTextFound => EngineError::NoTextFound,
            EngineError::EngineReportedError(text) => EngineError::EngineReportedError(text.clone()),
            EngineError::EmptyTranslation => EngineError::EmptyTranslation,
        }
    }
}

/// What running an engine came to, as the code that ran it saw it.
#[derive(Debug, PartialEq, Eq)]
pub enum ProcessOutcome {
    /// The system refused to start the process and gave this reason.
    LaunchFailed(String),
    /// The process ran and exited.
    Exited { success: bool, stdout: Vec<u8>, stderr: Vec<u8> },
}

/// The integer under `code`, or 0 where the payload has none.
pub open spec fn code_of(payload: JsonValue) -> int {
    match payload.member("code"@) {
        Some(value) => match value.as_int() {
            Some(n) => n as int,
            None => 0,
        },
        None => 0,
    }
}

/// The text under `name`, where the payload has a string there.
pub open spec fn text_under(payload: JsonValue, name: Seq<char>) -> Option<Seq<char>> {
    match payload.member(name) {
        Some(value) => value.as_text(),
        None => None,
    }
}

/// The `text` of each item that has one, in order.
pub open spec fn item_texts(items: Seq<JsonValue>) -> Seq<Seq<char>>
    decreases items.len(),
{
    if items.len() == 0 {
        Seq::empty()
    } else {
        let before = item_texts(items.drop_last());
        match text_under(items.last(), "text"@) {
            Some(text) => before.push(text),
            None => before,
        }
    }
}

/// The recognised pieces of text that an extraction payload lists under
/// `data`; none where `data` is no array.
pub open spec fn recognised(payload: JsonValue) -> Seq<Seq<char>> {
    match payload.member("data"@) {
        Some(data) => match data.as_items() {
            Some(items) => item_texts(items),
            None => Seq::empty(),
        },
        None => Seq::empty(),
    }
}

/// What goes between two recognised pieces.
pub open spec fn separator(preserve_line_breaks: bool) -> Seq<char> {
    if preserve_line_breaks {
        "\n"@
    } else {
        " "@
    }
}

/// The text under `name`, or the fallback.
pub open spec fn text_or(payload: JsonValue, name: Seq<char>, fallback: Seq<char>) -> Seq<char> {
    match text_under(payload, name) {
        Some(text) => text,
        None => fallback,
    }
}

/// The meaning of an extraction payload.
pub open spec fn extraction_reading(payload: JsonValue, preserve_line_breaks: bool) -> Reading {
    if code_of(payload) == EXTRACTION_OK {
        let text = joined(recognised(payload), separator(preserve_line_breaks));
        if is_blank(text) {
            Err(EngineErrorView::NoTextFound)
        } else {
            Ok(text)
        }
    } else if code_of(payload) == EXTRACTION_NOTHING {
        Err(EngineErrorView::NoTextFound)
    } else {
        Err(EngineErrorView::EngineReportedError(text_or(payload, "data"@, UNKNOWN_EXTRACTION_ERROR@)))
    }
}

/// The meaning of a translation payload.
pub open spec fn translation_reading(payload: JsonValue) -> Reading {
    if code_of(payload) == TRANSLATION_OK {
        match text_under(payload, "translated_text"@) {
            Some(text) => Ok(text),
            None => Err(EngineErrorView::EmptyTranslation),
        }
    } else {
        Err(
            EngineErrorView::EngineReportedError(
                text_or(payload, "error_message"@, UNKNOWN_TRANSLATION_ERROR@),
            ),
        )
    }
}

/// The meaning of the extraction engine's standard output: that of the first
/// line that begins with `{`, read as JSON.
pub open spec fn extraction_output_reading(stdout: Seq<char>, preserve_line_breaks: bool) -> Reading {
    match payload_line(stdout) {
        Some(line) => match json_document(line) {
            Ok(payload) => extraction_reading(payload, preserve_line_breaks),
            Err(message) => Err(EngineErrorView::MalformedEngineOutput(message)),
        },
        None => Err(EngineErrorView::MalformedEngineOutput(NO_PAYLOAD_TEXT@)),
    }
}

/// The meaning of the translation engine's standard output: that of the
/// whole output, read as JSON.
pub open spec fn translation_output_reading(stdout: Seq<char>) -> Reading {
    match json_document(stdout) {
        Ok(payload) => translation_reading(payload),
        Err(message) => Err(EngineErrorView::MalformedEngineOutput(message)),
    }
}

/// The text that a finished process hands on: its decoded standard output,
/// or the process error that stands in its way.
pub open spec fn process_text(outcome: ProcessOutcome) -> Reading {
    match outcome {
        ProcessOutcome::LaunchFailed(reason) => Err(
            EngineErrorView::EngineProcessError { launched: false, text: reason@ },
        ),
        ProcessOutcome::Exited { success, stdout, stderr } => if success {
            Ok(lossy_text(stdout@))
        } else {
            Err(EngineErrorView::EngineProcessError { launched: true, text: lossy_text(stderr@) })
        },
    }
}

/// The meaning of a run of the extraction engine.
pub open spec fn extraction_run_reading(outcome: ProcessOutcome, preserve_line_breaks: bool) -> Reading {
    match process_text(outcome) {
        Ok(stdout) => extraction_output_reading(stdout, preserve_line_breaks),
        Err(error) => Err(error),
    }
}

/// The meaning of a run of the translation engine.
pub open spec fn translation_run_reading(outcome: ProcessOutcome) -> Reading {
    match process_text(outcome) {
        Ok(stdout) => translation_output_reading(stdout),
        Err(error) => Err(error),
    }
}

/// Reads the integer under `code`.
fn read_code(payload: &JsonValue) -> (code: i64)
    ensures
        code == code_of(*payload),
{
    match payload.get("code") {
        Some(value) => match value.int_value() {
            Some(n) => n,
            None => 0,
        },
        None => 0,
    }
}

/// Reads the string under `name`.
fn read_text<'a>(payload: &'a JsonValue, name: &str) -> (text: Option<&'a str>)
    ensures
        match text {
            Some(t) => text_under(*payload, name@) == Some(t@),
            None => text_under(*payload, name@) is None,
        },
{
    match payload.get(name) {
        Some(value) => value.text_value(),
        None => None,
    }
}

/// Collects the `text` of every item that has one.
fn collect_texts(items: &Vec<JsonValue>) -> (pieces: Vec<String>)
    ensures
        texts(pieces@) == item_texts(items@),
{
    let mut pieces: Vec<String> = Vec::new();
    let mut i: usize = 0;
    while i < items.len()
        invariant
            i <= items.len(),
            texts(pieces@) == item_texts(items@.take(i as int)),
        decreases items.len() - i,
    {
        proof {
            assert(items@.take(i + 1).drop_last() == items@.take(i as int));
            assert(items@.take(i + 1).last() == items@[i as int]);
        }
        let ghost before = pieces@;
        match read_text(&items[i], "text") {
            Some(text) => {
                let owned = String::from_str(text);
                pieces.push(owned);
                assert(texts(pieces@) == texts(before).push(text@));
            },
            None => {},
        }
        i = i + 1;
    }
    proof {
        assert(items@.take(items.len() as int) == items@);
    }
    pieces
}

/// Collects the recognised pieces of an extraction payload.
fn read_recognised(payload: &JsonValue) -> (pieces: Vec<String>)
    ensures
        texts(pieces@) == recognised(*payload),
{
    match payload.get("data") {
        Some(data) => match data.items() {
            Some(items) => collect_texts(items),
            None => Vec::new(),
        },
        None => Vec::new(),
    }
}

/// Interprets an extraction payload. With the success code the recognised
/// pieces are joined, by a newline where line breaks are to be preserved and
/// by a space otherwise; a result that is blank counts as no text. A payload
/// that lists no piece at all therefore never yields text.
pub fn extraction_text(payload: &JsonValue, preserve_line_breaks: bool) -> (answer: Result<
    String,
    EngineError,
>)
    ensures
        reading_of(answer) == extraction_reading(*payload, preserve_line_breaks),
        code_of(*payload) == EXTRACTION_OK && recognised(*payload).len() == 0 ==> reading_of(answer)
            == Err::<Seq<char>, EngineErrorView>(EngineErrorView::NoTextFound),
{
    let code = read_code(payload);
    if code == EXTRACTION_OK {
        let pieces = read_recognised(payload);
        let separator = if preserve_line_breaks {
            "\n"
        } else {
            " "
        };
        let text = join(&pieces, separator);
        proof {
            lemma_trimmed_empty_iff_blank(text@);
        }
        if text.as_str().trim().is_empty() {
            Err(EngineError::NoTextFound)
        } else {
            Ok(text)
        }
    } else if code == EXTRACTION_NOTHING {
        Err(EngineError::NoTextFound)
    } else {
        let message = match read_text(payload, "data") {
            Some(text) => String::from_str(text),
            None => String::from_str(UNKNOWN_EXTRACTION_ERROR),
        };
        Err(EngineError::EngineReportedError(message))
    }
}

/// Interprets a translation payload: the translation under the success code
/// (its absence is an error of its own), the engine's message under any other.
pub fn translation_text(payload: &JsonValue) -> (answer: Result<String, EngineError>)
    ensures
        reading_of(answer) == translation_reading(*payload),
{
    let code = read_code(payload);
    if code == TRANSLATION_OK {
        match read_text(payload, "translated_text") {
            Some(text) => Ok(String::from_str(text)),
            None => Err(EngineError::EmptyTranslation),
        }
    } else {
        let message = match read_text(payload, "error_message") {
            Some(text) => String::from_str(text),
            None => String::from_str(UNKNOWN_TRANSLATION_ERROR),
        };
        Err(EngineError::EngineReportedError(message))
    }
}

/// Interprets the decoded standard output of the extraction engine. Lines
/// before the payload are skipped; output without a readable payload line is
/// malformed.
pub fn read_extraction_output(stdout: &str, preserve_line_breaks: bool) -> (answer: Result<
    String,
    EngineError,
>)
    ensures
        reading_of(answer) == extraction_output_reading(stdout@, preserve_line_breaks),
{
    match find_payload_line(stdout) {
        Some(line) => match parse(line) {
            Ok(payload) => extraction_text(&payload, preserve_line_breaks),
            Err(invalid) => Err(EngineError::MalformedEngineOutput(invalid.message)),
        },
        None => Err(EngineError::MalformedEngineOutput(String::from_str(NO_PAYLOAD_TEXT))),
    }
}

/// Interprets the decoded standard output of the translation engine, which
/// is one JSON object and nothing else.
pub fn read_translation_output(stdout: &str) -> (answer: Result<String, EngineError>)
    ensures
        reading_of(answer) == translation_output_reading(stdout@),
{
    match parse(stdout) {
        Ok(payload) => translation_text(&payload),
        Err(invalid) => Err(EngineError::MalformedEngineOutput(invalid.message)),
    }
}

/// Decodes what a finished process printed, or says why there is nothing to
/// decode: a failed launch, or an exit with failure, whose standard error is
/// then the message.
pub fn read_process(outcome: &ProcessOutcome) -> (answer: Result<String, EngineError>)
    ensures
        reading_of(answer) == process_text(*outcome),
{
    match outcome {
        ProcessOutcome::LaunchFailed(reason) => Err(
            EngineError::EngineProcessError { launched: false, text: reason.clone() },
        ),
        ProcessOutcome::Exited { success, stdout, stderr } => {
            if *success {
                Ok(decode_lossy(stdout.as_slice()))
            } else {
                Err(EngineError::EngineProcessError { launched: true, text: decode_lossy(stderr.as_slice()) })
            }
        },
    }
}

/// Interprets a run of the extraction engine.
pub fn read_extraction_run(outcome: &ProcessOutcome, preserve_line_breaks: bool) -> (answer: Result<
    String,
    EngineError,
>)
    ensures
        reading_of(answer) == extraction_run_reading(*outcome, preserve_line_breaks),
{
    match read_process(outcome) {
        Ok(stdout) => read_extraction_output(stdout.as_str(), preserve_line_breaks),
        Err(error) => Err(error),
    }
}

/// Interprets a run of the translation engine.
pub fn read_translation_run(outcome: &ProcessOutcome) -> (answer: Result<String, EngineError>)
    ensures
        reading_of(answer) == translation_run_reading(*outcome),
{
    match read_process(outcome) {
        Ok(stdout) => read_translation_output(stdout.as_str()),
        Err(error) => Err(error),
    }
}

/// A command line: the program, its arguments, and the directory to run it in.
#[derive(Debug, PartialEq, Eq)]
pub struct Invocation {
    pub program: String,
    pub args: Vec<String>,
    pub working_dir: Option<String>,
}

/// An `Invocation` with its texts as character sequences.
pub struct InvocationView {
    pub program: Seq<char>,
    pub args: Seq<Seq<char>>,
    pub working_dir: Option<Seq<char>>,
}

impl View for Invocation {
    type V = InvocationView;

    open spec fn view(&self) -> InvocationView {
        InvocationView {
            program: self.program@,
            args: texts(self.args@),
            working_dir: match self.working_dir {
                Some(dir) => Some(dir@),
                None => None,
            },
        }
    }
}

/// The command line of the extraction engine: the executable, run in its own
/// directory so that it finds the resources beside it, with the image path
/// as its single argument.
pub open spec fn extraction_invocation(exe_path: Seq<char>, exe_dir: Seq<char>, image_path: Seq<char>) -> InvocationView {
    InvocationView {
        program: exe_path,
        args: seq!["--image_path="@ + image_path],
        working_dir: Some(exe_dir),
    }
}

/// The command line of the translation engine: the text and the two
/// language codes, each behind its flag.
pub open spec fn translation_invocation(
    exe_path: Seq<char>,
    text: Seq<char>,
    source: Seq<char>,
    target: Seq<char>,
) -> InvocationView {
    InvocationView {
        program: exe_path,
        args: seq!["--text"@, text, "--source"@, source, "--target"@, target],
        working_dir: None,
    }
}

/// Builds the command line of the extraction engine.
pub fn extraction_command(exe_path: &str, exe_dir: &str, image_path: &str) -> (command: Invocation)
    ensures
        command@ == extraction_invocation(exe_path@, exe_dir@, image_path@),
{
    let mut argument = String::from_str("--image_path=");
    argument.append(image_path);
    let mut args: Vec<String> = Vec::new();
    args.push(argument);
    let command = Invocation {
        program: String::from_str(exe_path),
        args,
        working_dir: Some(String::from_str(exe_dir)),
    };
    assert(command@.args == extraction_invocation(exe_path@, exe_dir@, image_path@).args);
    command
}

/// Builds the command line of the translation engine.
pub fn translation_command(exe_path: &str, text: &str, source: &str, target: &str) -> (command: Invocation)
    ensures
        command@ == translation_invocation(exe_path@, text@, source@, target@),
{
    let mut args: Vec<String> = Vec::new();
    args.push(String::from_str("--text"));
    args.push(String::from_str(text));
    args.push(String::from_str("--source"));
    args.push(String::from_str(source));
    args.push(String::from_str("--target"));
    args.push(String::from_str(target));
    let command = Invocation { program: String::from_str(exe_path), args, working_dir: None };
    assert(command@.args == translation_invocation(exe_path@, text@, source@, target@).args);
    command
}

/// The two languages between which the translation engine works.
#[derive(Debug, PartialEq, Eq)]
pub struct LanguagePair {
    pub first: String,
    pub second: String,
}

/// The language the text is taken to be in, given the language wanted: the
/// other one of the pair. Where the wanted language is outside the pair, the
/// text is taken to be in the first.
pub open spec fn source_language(first: Seq<char>, second: Seq<char>, target: Seq<char>) -> Seq<char> {
    if target == first {
        second
    } else {
        first
    }
}

impl LanguagePair {
    /// The language the text is taken to be in when `target` is wanted.
    pub fn source_for(&self, target: &str) -> (source: &str)
        ensures
            source@ == source_language(self.first@, self.second@, target@),
    {
        if target.eq(self.first.as_str()) {
            self.second.as_str()
        } else {
            self.first.as_str()
        }
    }
}

/// Decides whether an engine may be launched: only an executable that is
/// present is. Nothing is to be started for one that is missing.
pub fn admit_launch(installed: bool, command: Invocation) -> (admitted: Result<Invocation, EngineError>)
    ensures
        admitted.is_ok() == installed,
        admitted matches Ok(c) ==> c == command,
        admitted matches Err(e) ==> e@ == EngineErrorView::EngineNotInstalled,
{
    if installed {
        Ok(command)
    } else {
        Err(EngineError::EngineNotInstalled)
    }
}

} // verus!
