//! The messages in which outcomes are put to the user.

use crate::directive::{Notice, NoticeView};
use crate::engine::{description, reason, EngineError, EngineErrorView};
use vstd::prelude::*;
use vstd::string::StringExecFns;

verus! {

/// What the user is told when the translation engine is not installed.
pub const TRANSLATOR_MISSING_TEXT: &'static str = "未安装翻译引擎，请在设置中下载";

/// What precedes the reason of a translation that failed after the text had
/// been recognised.
pub const TRANSLATION_FAILED_PREFIX: &'static str = "OCR成功但翻译出错: ";

/// Builds a notice from its two texts.
pub fn notice(title: &str, body: &str) -> (made: Notice)
    ensures
        made@ == (NoticeView { title: title@, body: body@ }),
{
    Notice { title: String::from_str(title), body: String::from_str(body) }
}

/// Text was recognised and is on the clipboard.
pub open spec fn recognised_notice() -> NoticeView {
    NoticeView { title: "✅ 文字识别成功"@, body: "内容已复制到剪贴板。"@ }
}

/// Recognition failed for the given reason.
pub open spec fn recognition_failed_notice(error: EngineErrorView) -> NoticeView {
    NoticeView { title: "❌ 识别失败"@, body: description(error) }
}

/// The translation was made and is on the clipboard.
pub open spec fn translated_notice() -> NoticeView {
    NoticeView { title: "✅ 翻译完成"@, body: "译文已复制。按 Win+V 查看原文。"@ }
}

/// The words for a translation that failed: a hint where the engine is
/// missing, the translator's own reason otherwise.
pub open spec fn translation_failure_text(error: EngineErrorView) -> Seq<char> {
    if error is EngineNotInstalled {
        TRANSLATOR_MISSING_TEXT@
    } else {
        TRANSLATION_FAILED_PREFIX@ + reason(error)
    }
}

/// Translation failed, in the given words.
pub open spec fn translation_failed_notice(words: Seq<char>) -> NoticeView {
    NoticeView { title: "⚠️ 翻译失败"@, body: words }
}

/// The image is on the clipboard.
pub open spec fn copied_notice() -> NoticeView {
    NoticeView { title: "✅ 复制成功"@, body: "截图已复制到剪贴板。"@ }
}

/// The image could not be put on the clipboard.
pub open spec fn copy_failed_notice(reason: Seq<char>) -> NoticeView {
    NoticeView { title: "❌ 复制失败"@, body: reason }
}

/// The image is saved on the desktop.
pub open spec fn saved_notice() -> NoticeView {
    NoticeView { title: "✅ 保存成功"@, body: "截图已保存到桌面。"@ }
}

/// The image could not be saved.
pub open spec fn save_failed_notice(reason: Seq<char>) -> NoticeView {
    NoticeView { title: "❌ 保存失败"@, body: reason }
}

/// The image could not be read back for showing it.
pub open spec fn preview_failed_notice() -> NoticeView {
    NoticeView { title: "❌ 错误"@, body: "无法读取截图文件进行预览。"@ }
}

/// The capture came to nothing, for the given reason.
pub open spec fn capture_failed_notice(reason: Seq<char>) -> NoticeView {
    NoticeView { title: "❌ 截图失败"@, body: reason }
}

/// Says that text was recognised.
pub(crate) fn make_recognised_notice() -> (made: Notice)
    ensures
        made@ == recognised_notice(),
{
    notice("✅ 文字识别成功", "内容已复制到剪贴板。")
}

/// Says why recognition failed.
pub(crate) fn make_recognition_failed_notice(error: &EngineError) -> (made: Notice)
    ensures
        made@ == recognition_failed_notice(error@),
{
    Notice { title: String::from_str("❌ 识别失败"), body: error.describe() }
}

/// Says that the translation was made.
pub(crate) fn make_translated_notice() -> (made: Notice)
    ensures
        made@ == translated_notice(),
{
    notice("✅ 翻译完成", "译文已复制。按 Win+V 查看原文。")
}

/// Puts the failure of a translation in words.
pub(crate) fn translation_failure_words(error: &EngineError) -> (words: String)
    ensures
        words@ == translation_failure_text(error@),
{
    match error {
        EngineError::EngineNotInstalled => String::from_str(TRANSLATOR_MISSING_TEXT),
        _ => {
            let mut words = String::from_str(TRANSLATION_FAILED_PREFIX);
            let why = error.reason();
            words.append(why.as_str());
            words
        },
    }
}

/// Says, in the given words, that translation failed.
pub(crate) fn make_translation_failed_notice(words: &str) -> (made: Notice)
    ensures
        made@ == translation_failed_notice(words@),
{
    notice("⚠️ 翻译失败", words)
}

/// Says that the image is on the clipboard.
pub(crate) fn make_copied_notice() -> (made: Notice)
    ensures
        made@ == copied_notice(),
{
    notice("✅ 复制成功", "截图已复制到剪贴板。")
}

/// Says why the image is not on the clipboard.
pub(crate) fn make_copy_failed_notice(reason: &str) -> (made: Notice)
    ensures
        made@ == copy_failed_notice(reason@),
{
    notice("❌ 复制失败", reason)
}

/// Says that the image was saved.
pub(crate) fn make_saved_notice() -> (made: Notice)
    ensures
        made@ == saved_notice(),
{
    notice("✅ 保存成功", "截图已保存到桌面。")
}

/// Says why the image was not saved.
pub(crate) fn make_save_failed_notice(reason: &str) -> (made: Notice)
    ensures
        made@ == save_failed_notice(reason@),
{
    notice("❌ 保存失败", reason)
}

/// Says that the image could not be read back.
pub(crate) fn make_preview_failed_notice() -> (made: Notice)
    ensures
        made@ == preview_failed_notice(),
{
    notice("❌ 错误", "无法读取截图文件进行预览。")
}

/// Says why the capture came to nothing.
pub(crate) fn make_capture_failed_notice(reason: &str) -> (made: Notice)
    ensures
        made@ == capture_failed_notice(reason@),
{
    notice("❌ 截图失败", reason)
}

} // verus!
