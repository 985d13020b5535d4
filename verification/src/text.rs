//! Text handling shared by the engine bridge: decoding process output,
//! finding the payload line in it, joining and trimming recognised text.

use vstd::prelude::*;

verus! {

/// `PartialEq::eq` of `str`: two string slices are equal exactly when they
/// hold the same characters in the same order.
pub assume_specification[ <str as PartialEq>::eq ](a: &str, b: &str) -> (same: bool)
    ensures
        same == (a@ == b@),
;

/// The characters that count as white space: those with the Unicode
/// property `White_Space`, by which `str::trim` and `char::is_whitespace` go.
pub open spec fn is_white_space(c: char) -> bool {
    let code = c as u32;
    ||| 0x09 <= code <= 0x0D
    ||| code == 0x20
    ||| code == 0x85
    ||| code == 0xA0
    ||| code == 0x1680
    ||| 0x2000 <= code <= 0x200A
    ||| code == 0x2028
    ||| code == 0x2029
    ||| code == 0x202F
    ||| code == 0x205F
    ||| code == 0x3000
}

/// A text without the white space it begins with.
pub open spec fn without_leading(text: Seq<char>) -> Seq<char>
    decreases text.len(),
{
    if text.len() > 0 && is_white_space(text[0]) {
        without_leading(text.drop_first())
    } else {
        text
    }
}

/// A text without the white space it ends with.
pub open spec fn without_trailing(text: Seq<char>) -> Seq<char>
    decreases text.len(),
{
    if text.len() > 0 && is_white_space(text.last()) {
        without_trailing(text.drop_last())
    } else {
        text
    }
}

/// A text without the white space at either end.
pub open spec fn trimmed(text: Seq<char>) -> Seq<char> {
    without_trailing(without_leading(text))
}

/// A text of nothing but white space; the empty text is one.
pub open spec fn is_blank(text: Seq<char>) -> bool {
    forall|i: int| 0 <= i < text.len() ==> is_white_space(#[trigger] text[i])
}

/// `str::trim`: the slice of the text that is left when the white space at
/// both ends is taken away.
pub assume_specification[ str::trim ](text: &str) -> (rest: &str)
    ensures
        rest@ == trimmed(text@),
;

/// What is left of a text after its leading white space is empty exactly
/// for a blank text, and otherwise begins with a character that is none.
proof fn lemma_without_leading(text: Seq<char>)
    ensures
        (without_leading(text).len() == 0) == is_blank(text),
        without_leading(text).len() > 0 ==> !is_white_space(without_leading(text)[0]),
    decreases text.len(),
{
    if text.len() > 0 && is_white_space(text[0]) {
        let rest = text.drop_first();
        lemma_without_leading(rest);
        if is_blank(rest) {
            assert forall|i: int| 0 <= i < text.len() implies is_white_space(#[trigger] text[i]) by {
                if i > 0 {
                    assert(text[i] == rest[i - 1]);
                }
            }
        } else {
            let i = choose|i: int| 0 <= i < rest.len() && !is_white_space(#[trigger] rest[i]);
            assert(text[i + 1] == rest[i]);
        }
    } else if text.len() > 0 {
        assert(!is_white_space(text[0]));
    }
}

/// Taking trailing white space away never empties a text that begins with
/// a character that is none.
proof fn lemma_without_trailing(text: Seq<char>)
    requires
        text.len() > 0,
        !is_white_space(text[0]),
    ensures
        without_trailing(text).len() > 0,
    decreases text.len(),
{
    if is_white_space(text.last()) {
        assert(text.len() > 1);
        lemma_without_trailing(text.drop_last());
    }
}

/// Nothing is left of a text after trimming exactly when the text is blank.
pub proof fn lemma_trimmed_empty_iff_blank(text: Seq<char>)
    ensures
        (trimmed(text).len() == 0) == is_blank(text),
{
    lemma_without_leading(text);
    let rest = without_leading(text);
    if rest.len() > 0 {
        lemma_without_trailing(rest);
    }
}

/// The text that `String::from_utf8_lossy` reads out of a run of bytes.
pub uninterp spec fn lossy_text(bytes: Seq<u8>) -> Seq<char>;

/// `String::from_utf8_lossy`, with the result moved into an owned string.
/// What it returns depends on the bytes alone.
#[verifier::external_body]
pub(crate) fn decode_lossy(bytes: &[u8]) -> (text: String)
    ensures
        text@ == lossy_text(bytes@),
{
    String::from_utf8_lossy(bytes).into_owned()
}

/// Position `i` is the first character of a line.
pub open spec fn starts_line(s: Seq<char>, i: int) -> bool {
    0 <= i < s.len() && (i == 0 || s[i - 1] == '\n')
}

/// A line starts at `i`, and it starts with an opening brace.
pub open spec fn opens_payload(s: Seq<char>, i: int) -> bool {
    starts_line(s, i) && s[i] == '{'
}

/// `i` is where the first line that starts with a brace begins.
pub open spec fn is_first_payload(s: Seq<char>, i: int) -> bool {
    opens_payload(s, i) && forall|j: int| 0 <= j < i ==> !opens_payload(s, j)
}

/// The line that starts at `start` stops before `stop`: at the next newline,
/// or at the end of the text.
pub open spec fn is_line_stop(s: Seq<char>, start: int, stop: int) -> bool {
    &&& start <= stop <= s.len()
    &&& stop == s.len() || s[stop] == '\n'
    &&& forall|k: int| start <= k < stop ==> s[k] != '\n'
}

/// The characters of the line between `start` and `stop`, without the
/// carriage return of a `\r\n` line ending.
pub open spec fn line_between(s: Seq<char>, start: int, stop: int) -> Seq<char> {
    if stop < s.len() && start < stop && s[stop - 1] == '\r' {
        s.subrange(start, stop - 1)
    } else {
        s.subrange(start, stop)
    }
}

/// The first line of `s` that begins with `{`, if there is one. Lines end at
/// `\n` or `\r\n`; the last line needs no ending.
pub open spec fn payload_line(s: Seq<char>) -> Option<Seq<char>> {
    if exists|i: int| opens_payload(s, i) {
        let start = choose|i: int| is_first_payload(s, i);
        let stop = choose|e: int| is_line_stop(s, start, e);
        Some(line_between(s, start, stop))
    } else {
        None
    }
}

/// Only one position is the first payload start, and a line stops in one place.
proof fn lemma_payload_line_unique(s: Seq<char>, start: int, stop: int)
    requires
        is_first_payload(s, start),
        is_line_stop(s, start, stop),
    ensures
        payload_line(s) == Some(line_between(s, start, stop)),
{
    let chosen_start = choose|i: int| is_first_payload(s, i);
    assert(is_first_payload(s, chosen_start));
    assert(chosen_start == start) by {
        if chosen_start < start {
            assert(!opens_payload(s, chosen_start));
        } else if start < chosen_start {
            assert(!opens_payload(s, start));
        }
    }
    let chosen_stop = choose|e: int| is_line_stop(s, start, e);
    assert(is_line_stop(s, start, chosen_stop));
    assert(chosen_stop == stop) by {
        if chosen_stop < stop {
            assert(s[chosen_stop] != '\n');
        } else if stop < chosen_stop {
            assert(s[stop] != '\n');
        }
    }
}

/// Scans the text line by line for the first line that begins with `{` and
/// returns that line. Whatever is printed before it is skipped.
pub fn find_payload_line(text: &str) -> (found: Option<&str>)
    ensures
        match found {
            Some(line) => payload_line(text@) == Some(line@),
            None => payload_line(text@) is None,
        },
{
    let total = text.unicode_len();
    let mut idx: usize = 0;
    let mut at_line_start = true;
    let mut after_cr = false;
    let mut start: Option<usize> = None;
    let mut stop: Option<(usize, bool)> = None;
    for c in it: text.chars()
        invariant
            idx == it.index(),
            it.seq() == text@,
            total == text@.len(),
            idx <= total,
            at_line_start == (idx == 0 || text@[idx - 1] == '\n'),
            after_cr == (idx > 0 && text@[idx - 1] == '\r'),
            start is None ==> stop is None && forall|j: int| 0 <= j < idx ==> !opens_payload(text@, j),
            start matches Some(a) ==> a < idx && is_first_payload(text@, a as int),
            start matches Some(a) ==> (stop is None ==> forall|k: int| a <= k < idx ==> text@[k] != '\n'),
            (start, stop) matches (Some(a), Some((e, cr))) ==> {
                &&& e < idx
                &&& is_line_stop(text@, a as int, e as int)
                &&& cr == (a < e && text@[e - 1] == '\r')
            },
    {
        if start.is_none() {
            if at_line_start && c == '{' {
                start = Some(idx);
            }
        } else if stop.is_none() {
            if c == '\n' {
                stop = Some((idx, after_cr));
            }
        }
        at_line_start = c == '\n';
        after_cr = c == '\r';
        idx = idx + 1;
    }
    match start {
        None => {
            assert(!exists|i: int| opens_payload(text@, i));
            None
        },
        Some(a) => {
            let (e, cr) = match stop {
                Some(pair) => pair,
                None => (total, false),
            };
            proof {
                lemma_payload_line_unique(text@, a as int, e as int);
            }
            let end: usize = if cr { e - 1 } else { e };
            Some(text.substring_char(a, end))
        },
    }
}

/// The pieces of `parts` written one after another with `separator` between
/// each two neighbours.
pub open spec fn joined(parts: Seq<Seq<char>>, separator: Seq<char>) -> Seq<char>
    decreases parts.len(),
{
    if parts.len() == 0 {
        Seq::empty()
    } else if parts.len() == 1 {
        parts[0]
    } else {
        joined(parts.drop_last(), separator) + separator + parts.last()
    }
}

/// The views of a vector of strings, in order.
pub open spec fn texts(parts: Seq<String>) -> Seq<Seq<char>> {
    parts.map_values(|part: String| part@)
}

/// Joins the pieces with the separator between them.
pub fn join(parts: &Vec<String>, separator: &str) -> (whole: String)
    ensures
        whole@ == joined(texts(parts@), separator@),
{
    let mut whole = String::new();
    let mut i: usize = 0;
    while i < parts.len()
        invariant
            i <= parts.len(),
            whole@ == joined(texts(parts@).take(i as int), separator@),
        decreases parts.len() - i,
    {
        let ghost before = texts(parts@).take(i as int);
        let ghost after = texts(parts@).take(i + 1);
        proof {
            assert(after.drop_last() == before);
            assert(after.last() == parts@[i as int]@);
        }
        if i > 0 {
            whole.append(separator);
        }
        whole.append(parts[i].as_str());
        i = i + 1;
    }
    proof {
        assert(texts(parts@).take(parts.len() as int) == texts(parts@));
    }
    whole
}

} // verus!
