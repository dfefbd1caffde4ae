//! The Lfm family of local polish models.
use vstd::prelude::*;

use super::model_table::{find_by_filename, find_by_id, model_urls, model_urls_spec, ModelRow};
use crate::text::{chars_of, seq_starts_with, str_eq, str_starts_with};

verus! {

/// The Lfm models, in display order.
pub open spec fn lfm_models() -> Seq<ModelRow> {
    seq![
        ("lfm2.5-1.2b"@, "LiquidAI/LFM2.5-1.2B-Instruct-GGUF"@, "LFM2.5-1.2B-Instruct-Q4_K_M.gguf"@, "LFM2.5-1.2B"@, "~770MB"@),
        ("lfm2-2.6b"@, "LiquidAI/LFM2-2.6B-GGUF"@, "LFM2-2.6B-Q4_K_M.gguf"@, "LFM2-2.6B"@, "~1.6GB"@),
    ]
}

/// A Lfm model definition.
#[derive(Debug, Clone, Copy)]
pub struct LfmModelDef {
    pub id: &'static str,
    pub repo: &'static str,
    pub filename: &'static str,
    pub display_name: &'static str,
    pub size_display: &'static str,
}

impl View for LfmModelDef {
    type V = ModelRow;

    open spec fn view(&self) -> ModelRow {
        (self.id@, self.repo@, self.filename@, self.display_name@, self.size_display@)
    }
}

/// A definition as its row, if any.
pub open spec fn def_view(d: Option<LfmModelDef>) -> Option<ModelRow> {
    match d {
        Some(x) => Some(x@),
        None => None,
    }
}

/// The `i`-th Lfm model.
fn model_at(i: usize) -> (d: LfmModelDef)
    requires
        i < 2,
    ensures
        d@ == lfm_models()[i as int],
{
    if i == 0 {
        LfmModelDef {
            id: "lfm2.5-1.2b",
            repo: "LiquidAI/LFM2.5-1.2B-Instruct-GGUF",
            filename: "LFM2.5-1.2B-Instruct-Q4_K_M.gguf",
            display_name: "LFM2.5-1.2B",
            size_display: "~770MB",
        }
    } else {
        LfmModelDef {
            id: "lfm2-2.6b",
            repo: "LiquidAI/LFM2-2.6B-GGUF",
            filename: "LFM2-2.6B-Q4_K_M.gguf",
            display_name: "LFM2-2.6B",
            size_display: "~1.6GB",
        }
    }
}

impl LfmModelDef {
    /// The model with this id.
    pub fn from_id(id: &str) -> (d: Option<Self>)
        ensures
            def_view(d) == find_by_id(lfm_models(), id@),
    {
        assert(lfm_models().subrange(0, 2) =~= lfm_models());
        let mut i: usize = 0;
        while i < 2
            invariant
                i <= 2,
                find_by_id(lfm_models(), id@) == find_by_id(
                    lfm_models().subrange(i as int, 2),
                    id@,
                ),
            decreases 2 - i,
        {
            let d = model_at(i);
            assert(lfm_models().subrange(i as int, 2)[0] == lfm_models()[i as int]);
            assert(lfm_models().subrange(i as int, 2).drop_first() == lfm_models().subrange(
                i + 1,
                2,
            ));
            if str_eq(d.id, id) {
                return Some(d);
            }
            i = i + 1;
        }
        None
    }

    /// The model stored in this file.
    pub fn from_filename(filename: &str) -> (d: Option<Self>)
        ensures
            def_view(d) == find_by_filename(lfm_models(), filename@),
    {
        assert(lfm_models().subrange(0, 2) =~= lfm_models());
        let mut i: usize = 0;
        while i < 2
            invariant
                i <= 2,
                find_by_filename(lfm_models(), filename@) == find_by_filename(
                    lfm_models().subrange(i as int, 2),
                    filename@,
                ),
            decreases 2 - i,
        {
            let d = model_at(i);
            assert(lfm_models().subrange(i as int, 2)[0] == lfm_models()[i as int]);
            assert(lfm_models().subrange(i as int, 2).drop_first() == lfm_models().subrange(
                i + 1,
                2,
            ));
            if str_eq(d.filename, filename) {
                return Some(d);
            }
            i = i + 1;
        }
        None
    }

    /// Where the model file can be downloaded.
    pub fn urls(&self) -> (v: Vec<String>)
        ensures
            v@.len() == 2,
            forall|i: int|
                0 <= i < 2 ==> #[trigger] v@[i]@ == model_urls_spec(self.repo@, self.filename@)[i],
    {
        model_urls(self.repo, self.filename)
    }
}

/// Every Lfm model, in display order.
pub fn get_all_models() -> (v: Vec<LfmModelDef>)
    ensures
        v@.len() == lfm_models().len(),
        forall|i: int| 0 <= i < v@.len() ==> #[trigger] v@[i]@ == lfm_models()[i],
{
    let mut v: Vec<LfmModelDef> = Vec::new();
    let mut i: usize = 0;
    while i < 2
        invariant
            i <= 2,
            v@.len() == i,
            forall|j: int| 0 <= j < i ==> #[trigger] v@[j]@ == lfm_models()[j],
        decreases 2 - i,
    {
        v.push(model_at(i));
        i = i + 1;
    }
    v
}

/// Whether a model id belongs to the Lfm engine.
pub fn is_lfm_model(model_id: &str) -> (b: bool)
    ensures
        b == seq_starts_with(model_id@, "lfm"@),
{
    let v = chars_of(model_id);
    str_starts_with(&v, "lfm")
}

} // verus!
