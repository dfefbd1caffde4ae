//! Logic shared by the local engines: language detection, the chat prompt
//! handed to the model, and the clean-up of what the model wrote.
use vstd::prelude::*;

use crate::text::{
    occurs_at, seq_starts_with, append_str, chars_of, find_vec, first_occurrence_from, owned, slice_vec, str_eq,
    string_from_chars, trim_vec, trim_ws, vec_contains, seq_contains, CharClass,
};

verus! {

/// Engine-specific behaviour of the shared polishing code.
#[derive(Debug)]
pub struct EngineConfig {
    pub log_prefix: &'static str,
    pub strip_think_tags: bool,
}

/// Character classes that language detection counts.
#[derive(Clone, Copy, PartialEq, Eq, Debug)]
pub enum ScriptClass {
    /// CJK unified ideographs, kana and Hangul.
    Cjk,
    /// Hiragana and katakana.
    Kana,
    /// Hangul syllables.
    Hangul,
}

/// Membership of a character in a script class.
pub open spec fn in_script(c: char, k: ScriptClass) -> bool {
    let u = c as u32;
    let kana = 0x3040 <= u && u <= 0x30FF;
    let hangul = 0xAC00 <= u && u <= 0xD7AF;
    match k {
        ScriptClass::Cjk => (0x4E00 <= u && u <= 0x9FFF) || kana || hangul,
        ScriptClass::Kana => kana,
        ScriptClass::Hangul => hangul,
    }
}

/// Executable form of [`in_script`].
fn char_in_script(c: char, k: ScriptClass) -> (b: bool)
    ensures
        b == in_script(c, k),
{
    let u = c as u32;
    let kana = 0x3040 <= u && u <= 0x30FF;
    let hangul = 0xAC00 <= u && u <= 0xD7AF;
    match k {
        ScriptClass::Cjk => (0x4E00 <= u && u <= 0x9FFF) || kana || hangul,
        ScriptClass::Kana => kana,
        ScriptClass::Hangul => hangul,
    }
}

/// Characters of class `k` among the first `n` of `s`.
pub open spec fn count_script(s: Seq<char>, k: ScriptClass, n: int) -> int
    decreases n,
{
    if n <= 0 {
        0
    } else {
        count_script(s, k, n - 1) + if in_script(s[n - 1], k) {
            1int
        } else {
            0int
        }
    }
}

/// Counts the characters of class `k`.
fn count_in_script(s: &Vec<char>, k: ScriptClass) -> (n: usize)
    ensures
        n == count_script(s@, k, s@.len() as int),
        n <= s.len(),
{
    let mut n: usize = 0;
    let mut i: usize = 0;
    while i < s.len()
        invariant
            i <= s.len(),
            n == count_script(s@, k, i as int),
            n <= i,
        decreases s.len() - i,
    {
        if char_in_script(s[i], k) {
            n = n + 1;
        }
        i = i + 1;
    }
    n
}

/// The language a text is written in: English unless more than a third of
/// its characters are CJK, then Japanese when kana outnumber Hangul, Korean
/// when there is Hangul, Chinese otherwise.
pub open spec fn detected_language(s: Seq<char>) -> Seq<char> {
    let total = s.len() as int;
    if total == 0 {
        "English"@
    } else if count_script(s, ScriptClass::Cjk, total) * 3 > total {
        let kana = count_script(s, ScriptClass::Kana, total);
        let hangul = count_script(s, ScriptClass::Hangul, total);
        if kana > hangul && kana > 0 {
            "Japanese"@
        } else if hangul > 0 {
            "Korean"@
        } else {
            "Chinese"@
        }
    } else {
        "English"@
    }
}

/// Guesses the language of a text from its scripts.
pub fn detect_language(text: &str) -> (r: &'static str)
    ensures
        r@ == detected_language(text@),
{
    let s = chars_of(text);
    let total = s.len();
    if total == 0 {
        return "English";
    }
    let cjk = count_in_script(&s, ScriptClass::Cjk);
    if cjk as u128 * 3 > total as u128 {
        let kana = count_in_script(&s, ScriptClass::Kana);
        let hangul = count_in_script(&s, ScriptClass::Hangul);
        if kana > hangul && kana > 0 {
            "Japanese"
        } else if hangul > 0 {
            "Korean"
        } else {
            "Chinese"
        }
    } else {
        "English"
    }
}

/// The language names of the supported language codes; other codes have none.
pub open spec fn language_name_spec(code: Seq<char>) -> Seq<char> {
    if code == "en"@ {
        "English"@
    } else if code == "zh"@ {
        "Chinese"@
    } else if code == "ja"@ {
        "Japanese"@
    } else if code == "ko"@ {
        "Korean"@
    } else if code == "fr"@ {
        "French"@
    } else if code == "de"@ {
        "German"@
    } else if code == "es"@ {
        "Spanish"@
    } else if code == "pt"@ {
        "Portuguese"@
    } else if code == "ru"@ {
        "Russian"@
    } else if code == "ar"@ {
        "Arabic"@
    } else {
        ""@
    }
}

/// The full name of a language code, or the empty string.
pub fn language_name(code: &str) -> (r: &'static str)
    ensures
        r@ == language_name_spec(code@),
{
    if str_eq(code, "en") {
        "English"
    } else if str_eq(code, "zh") {
        "Chinese"
    } else if str_eq(code, "ja") {
        "Japanese"
    } else if str_eq(code, "ko") {
        "Korean"
    } else if str_eq(code, "fr") {
        "French"
    } else if str_eq(code, "de") {
        "German"
    } else if str_eq(code, "es") {
        "Spanish"
    } else if str_eq(code, "pt") {
        "Portuguese"
    } else if str_eq(code, "ru") {
        "Russian"
    } else if str_eq(code, "ar") {
        "Arabic"
    } else {
        ""
    }
}

/// The language the model is told to write in: the named language of the
/// setting, or the language detected in the text.
pub open spec fn language_hint_spec(language: Seq<char>, text: Seq<char>) -> Seq<char> {
    if language_name_spec(language).len() == 0 {
        detected_language(text)
    } else {
        language_name_spec(language)
    }
}

/// The extra instruction added to the default prompt.
pub open spec fn extra_instruction_spec(
    system_prompt: Seq<char>,
    default_prompt: Seq<char>,
    hint: Seq<char>,
) -> Seq<char> {
    if system_prompt == default_prompt {
        "\nCRITICAL: Your output MUST be in "@ + hint
            + ". ONLY fix grammar mistakes and punctuation errors. Do NOT add or remove words. Preserve the original text exactly as it is, including any mix of multiple languages."@
    } else {
        ""@
    }
}

/// The ChatML conversation handed to a local model.
pub open spec fn chatml_prompt_spec(
    text: Seq<char>,
    system_prompt: Seq<char>,
    language: Seq<char>,
    default_prompt: Seq<char>,
) -> Seq<char> {
    "<|im_start|>system\n"@ + system_prompt + extra_instruction_spec(
        system_prompt,
        default_prompt,
        language_hint_spec(language, text),
    ) + "<|im_end|>\n<|im_start|>user\n"@ + text + "<|im_end|>\n<|im_start|>assistant\n"@
}

/// Builds the ChatML prompt: the system prompt (with an instruction to keep
/// the language when it is the engine's default prompt), then the text.
pub fn chatml_prompt(text: &str, system_prompt: &str, language: &str, default_prompt: &str) -> (p:
    String)
    ensures
        p@ == chatml_prompt_spec(text@, system_prompt@, language@, default_prompt@),
{
    let name = language_name(language);
    let hint = if name.unicode_len() == 0 {
        detect_language(text)
    } else {
        name
    };
    let mut extra = owned("");
    if str_eq(system_prompt, default_prompt) {
        extra = owned("\nCRITICAL: Your output MUST be in ");
        append_str(&mut extra, hint);
        append_str(
            &mut extra,
            ". ONLY fix grammar mistakes and punctuation errors. Do NOT add or remove words. Preserve the original text exactly as it is, including any mix of multiple languages.",
        );
    }
    assert(hint@ == language_hint_spec(language@, text@));
    assert(extra@ == extra_instruction_spec(system_prompt@, default_prompt@, hint@));
    let mut p = owned("<|im_start|>system\n");
    append_str(&mut p, system_prompt);
    append_str(&mut p, extra.as_str());
    append_str(&mut p, "<|im_end|>\n<|im_start|>user\n");
    append_str(&mut p, text);
    append_str(&mut p, "<|im_end|>\n<|im_start|>assistant\n");
    p
}

/// The model's output, trimmed; with think tags stripped, only what follows
/// the first `</think>`, or nothing when a `<think>` block was cut off.
pub open spec fn finished_output_spec(output: Seq<char>, strip_think_tags: bool) -> Seq<char> {
    let result = trim_ws(output);
    if !strip_think_tags {
        result
    } else {
        match first_occurrence_from(result, "</think>"@, 0) {
            Some(k) => trim_ws(result.subrange(k + "</think>"@.len(), result.len() as int)),
            None => if seq_contains(result, "<think>"@) {
                ""@
            } else {
                result
            },
        }
    }
}

/// Cleans the text a local model produced.
pub fn finish_polish_output(output: &str, strip_think_tags: bool) -> (r: String)
    ensures
        r@ == finished_output_spec(output@, strip_think_tags),
{
    let raw = chars_of(output);
    let result = trim_vec(&raw, CharClass::Whitespace);
    if !strip_think_tags {
        return string_from_chars(&result);
    }
    let close = chars_of("</think>");
    match find_vec(&result, &close) {
        Some(end_idx) => {
            let clen = close.len();
            assert(crate::text::occurs_at(result@, close@, end_idx as int));
            assert(end_idx + clen <= result.len());
            let rest = slice_vec(&result, end_idx + clen, result.len());
            let t = trim_vec(&rest, CharClass::Whitespace);
            string_from_chars(&t)
        },
        None => {
            let open = chars_of("<think>");
            if vec_contains(&result, &open) {
                owned("")
            } else {
                string_from_chars(&result)
            }
        },
    }
}


/// The prompt a local model is run on, once its file is known to be there:
/// a model that is not downloaded is refused before anything is loaded;
/// otherwise the ChatML prompt of the text.
pub fn local_polish_prompt(
    text: &str,
    system_prompt: &str,
    language: &str,
    default_prompt: &str,
    model_exists: bool,
) -> (r: Result<String, String>)
    ensures
        !model_exists ==> (r matches Err(e) && e@ == "Polish model not downloaded"@),
        model_exists ==> (r matches Ok(p) && p@ == chatml_prompt_spec(text@, system_prompt@, language@, default_prompt@)),
{
    if !model_exists {
        return Err(owned("Polish model not downloaded"));
    }
    Ok(chatml_prompt(text, system_prompt, language, default_prompt))
}


/// The first occurrence of `t` at or after `i` is at `k` when `t` occurs at
/// `k` and nowhere between `i` and `k`.
proof fn lemma_first_occurrence_at(s: Seq<char>, t: Seq<char>, i: int, k: int)
    requires
        0 <= i <= k,
        occurs_at(s, t, k),
        forall|j: int| i <= j < k ==> !occurs_at(s, t, j),
    ensures
        first_occurrence_from(s, t, i) == Some(k),
    decreases k - i,
{
    if i < k {
        lemma_first_occurrence_at(s, t, i + 1, k);
    }
}

/// The closing tag cannot begin inside a text that holds no closing tag
/// and end inside a closing tag that follows it: its `>` comes last.
proof fn lemma_no_straddling_close_tag(reasoning: Seq<char>, rest: Seq<char>, j: int)
    requires
        !seq_contains(reasoning, "</think>"@),
        0 <= j < reasoning.len(),
        seq_starts_with(rest, "</think>"@),
    ensures
        !occurs_at(reasoning + rest, "</think>"@, j),
{
    reveal_strlit("</think>");
    let tag = "</think>"@;
    let r = reasoning + rest;
    let k = reasoning.len() as int;
    if occurs_at(r, tag, j) {
        if j + tag.len() <= k {
            assert(reasoning.subrange(j, j + tag.len()) =~= r.subrange(j, j + tag.len()));
            assert(occurs_at(reasoning, tag, j));
        } else {
            assert(r[j + 7] == r.subrange(j, j + 8)[7]);
            assert(r[j + 7] == rest[j + 7 - k]);
            assert(rest[j + 7 - k] == rest.subrange(0, 8)[j + 7 - k]);
        }
    }
}

/// In some reasoning without a closing tag, followed by the closing tag and
/// an answer, the first closing tag is the one after the reasoning.
proof fn lemma_first_close_tag(reasoning: Seq<char>, answer: Seq<char>)
    requires
        !seq_contains(reasoning, "</think>"@),
    ensures
        first_occurrence_from(reasoning + "</think>"@ + answer, "</think>"@, 0) == Some(reasoning.len() as int),
{
    let tag = "</think>"@;
    let rest = tag + answer;
    let r = reasoning + tag + answer;
    assert(r =~= reasoning + rest);
    assert(rest.subrange(0, tag.len() as int) =~= tag);
    assert(r.subrange(reasoning.len() as int, (reasoning.len() + tag.len()) as int) =~= tag);
    assert forall|j: int| 0 <= j < reasoning.len() implies !occurs_at(r, tag, j) by {
        lemma_no_straddling_close_tag(reasoning, rest, j);
    }
    lemma_first_occurrence_at(r, tag, 0, reasoning.len() as int);
}

/// Law: with think tags stripped, a model's reasoning is dropped and its
/// answer kept: when the trimmed output is some reasoning (with no closing
/// `</think>` in it), the closing tag, and an answer, the result is the
/// trimmed answer.
pub proof fn lemma_think_block_is_dropped(output: Seq<char>, reasoning: Seq<char>, answer: Seq<char>)
    requires
        trim_ws(output) == reasoning + "</think>"@ + answer,
        !seq_contains(reasoning, "</think>"@),
    ensures
        finished_output_spec(output, true) == trim_ws(answer),
{
    let r = reasoning + "</think>"@ + answer;
    lemma_first_close_tag(reasoning, answer);
    assert(r.subrange((reasoning.len() + "</think>"@.len()) as int, r.len() as int) =~= answer);
}

} // verus!
