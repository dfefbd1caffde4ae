//! Guard against a polish model that answers a dictated question instead of
//! cleaning it up.
use vstd::prelude::*;

use crate::text::{
    chars_of, has_char, seq_contains, seq_starts_with, str_contains, str_starts_with, to_lowercase,
    trim_start_by, trim_start_vec, unicode_lowercase, vec_has_char, CharClass,
};

verus! {

/// Words that mark a question.
pub open spec fn question_markers() -> Seq<&'static str> {
    seq![
        "吗", "是不是", "是否", "哪些", "哪个", "哪里", "哪儿", "为什么", "怎么", "如何", "有没有",
        "能不能", "可不可以", "what", "why", "how", "should", "could", "would",
    ]
}

/// Openings that mark an answer.
pub open spec fn answer_openings() -> Seq<&'static str> {
    seq!["我觉得", "我认为", "是的", "不是", "可以", "不可以", "不能", "还不", "还没", "需要", "不需要"]
}

/// Phrases that mark an answer anywhere in the text.
pub open spec fn answer_phrases() -> Seq<&'static str> {
    seq![
        "不够完整", "还没到", "还不是", "不是所有", "not ready", "is ready", "is not ready",
        "i think", "i believe",
    ]
}

/// Some needle occurs in the text.
pub open spec fn contains_any_spec(text: Seq<char>, needles: Seq<&str>) -> bool {
    exists|i: int| 0 <= i < needles.len() && seq_contains(text, (#[trigger] needles[i])@)
}

/// The text begins with some prefix.
pub open spec fn starts_with_any_spec(text: Seq<char>, prefixes: Seq<&str>) -> bool {
    exists|i: int| 0 <= i < prefixes.len() && seq_starts_with(text, (#[trigger] prefixes[i])@)
}

/// Whether any needle occurs in the text.
pub fn contains_any(text: &Vec<char>, needles: &Vec<&str>) -> (b: bool)
    ensures
        b == contains_any_spec(text@, needles@),
{
    let mut i: usize = 0;
    while i < needles.len()
        invariant
            i <= needles.len(),
            forall|j: int| 0 <= j < i ==> !seq_contains(text@, (#[trigger] needles@[j])@),
        decreases needles.len() - i,
    {
        if str_contains(text, needles[i]) {
            return true;
        }
        i = i + 1;
    }
    false
}

/// Whether the text begins with any prefix.
fn starts_with_any(text: &Vec<char>, prefixes: &Vec<&str>) -> (b: bool)
    ensures
        b == starts_with_any_spec(text@, prefixes@),
{
    let mut i: usize = 0;
    while i < prefixes.len()
        invariant
            i <= prefixes.len(),
            forall|j: int| 0 <= j < i ==> !seq_starts_with(text@, (#[trigger] prefixes@[j])@),
        decreases prefixes.len() - i,
    {
        if str_starts_with(text, prefixes[i]) {
            return true;
        }
        i = i + 1;
    }
    false
}

/// The text holds an ASCII or full-width question mark.
pub open spec fn has_question_mark_spec(text: Seq<char>) -> bool {
    has_char(text, '?') || has_char(text, '？')
}

/// Whether the text holds a question mark.
pub fn has_question_mark(text: &str) -> (b: bool)
    ensures
        b == has_question_mark_spec(text@),
{
    let v = chars_of(text);
    vec_has_char(&v, '?') || vec_has_char(&v, '？')
}

/// The text asks something: a question mark, or a question word in its
/// lowercase form.
pub open spec fn is_question_like_spec(text: Seq<char>) -> bool {
    has_question_mark_spec(text) || contains_any_spec(unicode_lowercase(text), question_markers())
}

/// Whether the text reads as a question.
pub fn is_question_like_text(text: &str) -> (b: bool)
    ensures
        b == is_question_like_spec(text@),
{
    let lower = to_lowercase(text);
    let l = chars_of(lower.as_str());
    let markers: Vec<&str> = vec![
        "吗", "是不是", "是否", "哪些", "哪个", "哪里", "哪儿", "为什么", "怎么", "如何", "有没有",
        "能不能", "可不可以", "what", "why", "how", "should", "could", "would",
    ];
    assert(markers@ == question_markers());
    has_question_mark(text) || contains_any(&l, &markers)
}

/// The text reads as an answer: once leading white space and pauses are
/// dropped and it is lowercased, it opens like an answer or holds an
/// answering phrase.
pub open spec fn is_answer_like_spec(text: Seq<char>) -> bool {
    let lower = unicode_lowercase(trim_start_by(text, CharClass::WhitespaceOrPause));
    starts_with_any_spec(lower, answer_openings()) || contains_any_spec(lower, answer_phrases())
}

/// Whether the text reads as an answer.
pub fn is_answer_like_text(text: &str) -> (b: bool)
    ensures
        b == is_answer_like_spec(text@),
{
    let v = chars_of(text);
    let trimmed = trim_start_vec(&v, CharClass::WhitespaceOrPause);
    let trimmed_text = crate::text::string_from_chars(&trimmed);
    let lower = to_lowercase(trimmed_text.as_str());
    let l = chars_of(lower.as_str());
    let openings: Vec<&str> = vec![
        "我觉得", "我认为", "是的", "不是", "可以", "不可以", "不能", "还不", "还没", "需要", "不需要",
    ];
    assert(openings@ == answer_openings());
    let phrases: Vec<&str> = vec![
        "不够完整", "还没到", "还不是", "不是所有", "not ready", "is ready", "is not ready",
        "i think", "i believe",
    ];
    assert(phrases@ == answer_phrases());
    starts_with_any(&l, &openings) || contains_any(&l, &phrases)
}

/// A polish output is rejected when the input asked a question and the
/// output, without a question mark, reads as an answer to it.
pub open spec fn reject_spec(input: Seq<char>, output: Seq<char>) -> bool {
    is_question_like_spec(input) && !has_question_mark_spec(output) && is_answer_like_spec(output)
}

/// Whether the polished output answers a dictated question.
pub fn should_reject_question_answer_polish(input: &str, output: &str) -> (b: bool)
    ensures
        b == reject_spec(input@, output@),
{
    is_question_like_text(input) && !has_question_mark(output) && is_answer_like_text(output)
}

/// The text to deliver and the polish time to record: the raw text with no
/// polish time when the polished text answers the question, otherwise the
/// polished text and its time.
pub fn accept_polish_result(
    task_id: u64,
    accumulated_text: String,
    result_text: String,
    polish_ms: u64,
    context: &str,
) -> (r: (String, u64))
    ensures
        if reject_spec(accumulated_text@, result_text@) {
            r.0 == accumulated_text && r.1 == 0
        } else {
            r.0 == result_text && r.1 == polish_ms
        },
{
    if should_reject_question_answer_polish(accumulated_text.as_str(), result_text.as_str()) {
        (accumulated_text, 0)
    } else {
        (result_text, polish_ms)
    }
}

} // verus!
