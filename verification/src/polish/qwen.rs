//! The Qwen family of local polish models.
use vstd::prelude::*;

use super::model_table::{find_by_filename, find_by_id, model_urls, model_urls_spec, ModelRow};
use crate::text::{chars_of, seq_starts_with, str_eq, str_starts_with};

verus! {

/// Default polish prompt of the Qwen engine.
pub const DEFAULT_POLISH_PROMPT: &'static str = r#"Polish text minimally. Keep the SAME language as input.

RULES:
1. SAME LANGUAGE: Chinese → Chinese, English → English
2. Remove filler words: um, uh, 嗯, 那个
3. Fix context-inconsistent homophones and phonetic errors caused by Speech-to-Text (STT) misrecognition. Deduce the correct word based on the semantic context.
4. Fix obvious typos and grammar
5. Keep original meaning
6. If already correct, output unchanged

Examples:
- "Um, I think this is good" → "I think this is good"
- "嗯，我觉得这个挺好的" → "我觉得这个挺好的"
- "这个分析错误可能是由于标点符号引起的" → "这个分词错误可能是由于标点符号引起的"
- "The function works" → "The function works" (no change)

Output ONLY the polished text."#;

/// The Qwen models, in display order.
pub open spec fn qwen_models() -> Seq<ModelRow> {
    seq![
        ("qwen3.5-0.8b"@, "unsloth/Qwen3.5-0.8B-GGUF"@, "Qwen3.5-0.8B-Q5_K_M.gguf"@, "Qwen3.5-0.8B"@, "~600MB"@),
        ("qwen3.5-2b"@, "unsloth/Qwen3.5-2B-GGUF"@, "Qwen3.5-2B-Q5_K_M.gguf"@, "Qwen3.5-2B"@, "~1.4GB"@),
        ("qwen3-4b"@, "Qwen/Qwen3-4B-GGUF"@, "Qwen3-4B-Q4_K_M.gguf"@, "Qwen3-4B"@, "~2.6GB"@),
    ]
}

/// A Qwen model definition.
#[derive(Debug, Clone, Copy)]
pub struct QwenModelDef {
    pub id: &'static str,
    pub repo: &'static str,
    pub filename: &'static str,
    pub display_name: &'static str,
    pub size_display: &'static str,
}

impl View for QwenModelDef {
    type V = ModelRow;

    open spec fn view(&self) -> ModelRow {
        (self.id@, self.repo@, self.filename@, self.display_name@, self.size_display@)
    }
}

/// A definition as its row, if any.
pub open spec fn def_view(d: Option<QwenModelDef>) -> Option<ModelRow> {
    match d {
        Some(x) => Some(x@),
        None => None,
    }
}

/// The `i`-th Qwen model.
fn model_at(i: usize) -> (d: QwenModelDef)
    requires
        i < 3,
    ensures
        d@ == qwen_models()[i as int],
{
    if i == 0 {
        QwenModelDef {
            id: "qwen3.5-0.8b",
            repo: "unsloth/Qwen3.5-0.8B-GGUF",
            filename: "Qwen3.5-0.8B-Q5_K_M.gguf",
            display_name: "Qwen3.5-0.8B",
            size_display: "~600MB",
        }
    } else if i == 1 {
        QwenModelDef {
            id: "qwen3.5-2b",
            repo: "unsloth/Qwen3.5-2B-GGUF",
            filename: "Qwen3.5-2B-Q5_K_M.gguf",
            display_name: "Qwen3.5-2B",
            size_display: "~1.4GB",
        }
    } else {
        QwenModelDef {
            id: "qwen3-4b",
            repo: "Qwen/Qwen3-4B-GGUF",
            filename: "Qwen3-4B-Q4_K_M.gguf",
            display_name: "Qwen3-4B",
            size_display: "~2.6GB",
        }
    }
}

impl QwenModelDef {
    /// The model with this id.
    pub fn from_id(id: &str) -> (d: Option<Self>)
        ensures
            def_view(d) == find_by_id(qwen_models(), id@),
    {
        assert(qwen_models().subrange(0, 3) =~= qwen_models());
        let mut i: usize = 0;
        while i < 3
            invariant
                i <= 3,
                find_by_id(qwen_models(), id@) == find_by_id(
                    qwen_models().subrange(i as int, 3),
                    id@,
                ),
            decreases 3 - i,
        {
            let d = model_at(i);
            assert(qwen_models().subrange(i as int, 3)[0] == qwen_models()[i as int]);
            assert(qwen_models().subrange(i as int, 3).drop_first() == qwen_models().subrange(
                i + 1,
                3,
            ));
            if str_eq(d.id, id) {
                return Some(d);
            }
            i = i + 1;
        }
        None
    }

    /// The model stored in this file.
    pub fn from_filename(filename: &str) -> (d: Option<Self>)
        ensures
            def_view(d) == find_by_filename(qwen_models(), filename@),
    {
        assert(qwen_models().subrange(0, 3) =~= qwen_models());
        let mut i: usize = 0;
        while i < 3
            invariant
                i <= 3,
                find_by_filename(qwen_models(), filename@) == find_by_filename(
                    qwen_models().subrange(i as int, 3),
                    filename@,
                ),
            decreases 3 - i,
        {
            let d = model_at(i);
            assert(qwen_models().subrange(i as int, 3)[0] == qwen_models()[i as int]);
            assert(qwen_models().subrange(i as int, 3).drop_first() == qwen_models().subrange(
                i + 1,
                3,
            ));
            if str_eq(d.filename, filename) {
                return Some(d);
            }
            i = i + 1;
        }
        None
    }

    /// Where the model file can be downloaded.
    pub fn urls(&self) -> (v: Vec<String>)
        ensures
            v@.len() == 2,
            forall|i: int|
                0 <= i < 2 ==> #[trigger] v@[i]@ == model_urls_spec(self.repo@, self.filename@)[i],
    {
        model_urls(self.repo, self.filename)
    }
}

/// Every Qwen model, in display order.
pub fn get_all_models() -> (v: Vec<QwenModelDef>)
    ensures
        v@.len() == qwen_models().len(),
        forall|i: int| 0 <= i < v@.len() ==> #[trigger] v@[i]@ == qwen_models()[i],
{
    let mut v: Vec<QwenModelDef> = Vec::new();
    let mut i: usize = 0;
    while i < 3
        invariant
            i <= 3,
            v@.len() == i,
            forall|j: int| 0 <= j < i ==> #[trigger] v@[j]@ == qwen_models()[j],
        decreases 3 - i,
    {
        v.push(model_at(i));
        i = i + 1;
    }
    v
}

/// Whether a model id belongs to the Qwen engine.
pub fn is_qwen_model(model_id: &str) -> (b: bool)
    ensures
        b == seq_starts_with(model_id@, "qwen"@),
{
    let v = chars_of(model_id);
    str_starts_with(&v, "qwen")
}

} // verus!
