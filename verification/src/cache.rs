//! The outcome of the last recognition, kept for showing it again.

use vstd::prelude::*;

verus! {

/// What a recognition came to: the recognised text and its translation, as
/// far as each stage succeeded, and the image they were read from.
#[derive(Debug, PartialEq, Eq)]
pub struct OcrResult {
    pub original_text: Option<String>,
    pub translated_text: Option<String>,
    pub image_path: String,
}

/// An `OcrResult` with its texts as character sequences.
pub struct OcrResultView {
    pub original_text: Option<Seq<char>>,
    pub translated_text: Option<Seq<char>>,
    pub image_path: Seq<char>,
}

/// The characters of a text that may be absent.
pub open spec fn optional_text(text: Option<String>) -> Option<Seq<char>> {
    match text {
        Some(t) => Some(t@),
        None => None,
    }
}

impl View for OcrResult {
    type V = OcrResultView;

    open spec fn view(&self) -> OcrResultView {
        OcrResultView {
            original_text: optional_text(self.original_text),
            translated_text: optional_text(self.translated_text),
            image_path: self.image_path@,
        }
    }
}

/// Copies a text that may be absent.
pub fn copy_optional(text: &Option<String>) -> (copy: Option<String>)
    ensures
        optional_text(copy) == optional_text(*text),
{
    match text {
        Some(t) => Some(t.clone()),
        None => None,
    }
}

impl Clone for OcrResult {
    fn clone(&self) -> (copy: OcrResult)
        ensures
            copy@ == self@,
    {
        self.duplicate()
    }
}

impl OcrResult {
    /// An independent copy.
    pub fn duplicate(&self) -> (copy: OcrResult)
        ensures
            copy@ == self@,
    {
        OcrResult {
            original_text: copy_optional(&self.original_text),
            translated_text: copy_optional(&self.translated_text),
            image_path: self.image_path.clone(),
        }
    }
}

/// Holds the most recent result, and only that.
#[derive(Debug)]
pub struct ResultCache {
    last: Option<OcrResult>,
}

impl View for ResultCache {
    type V = Option<OcrResultView>;

    closed spec fn view(&self) -> Option<OcrResultView> {
        match self.last {
            Some(result) => Some(result@),
            None => None,
        }
    }
}

impl ResultCache {
    /// A cache with nothing in it.
    pub fn new() -> (cache: ResultCache)
        ensures
            cache@ is None,
    {
        ResultCache { last: None }
    }

    /// Replaces whatever is cached by `result`.
    pub fn store(&mut self, result: OcrResult)
        ensures
            final(self)@ == Some(result@),
    {
        self.last = Some(result);
    }

    /// The cached result, if there is one. Reading leaves it in place.
    pub fn latest(&self) -> (result: Option<&OcrResult>)
        ensures
            match result {
                Some(r) => self@ == Some(r@),
                None => self@ is None,
            },
    {
        self.last.as_ref()
    }
}

} // verus!
