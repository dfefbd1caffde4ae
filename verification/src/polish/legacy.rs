//! The older single-enum view of the local polish models.
use vstd::prelude::*;

use super::gemma::{self, gemma_models, GemmaModelDef};
use super::lfm::{lfm_models, LfmModelDef};
use super::manager::{all_polish_model_rows, get_all_polish_models};
use super::model_table::{find_by_id, model_urls_spec, ModelRow};
use super::qwen::{qwen_models, QwenModelDef};
use crate::text::{copy_string, str_eq};

verus! {

/// The local polish models by name.
#[allow(non_camel_case_types)]
#[derive(Debug, Clone, Copy, PartialEq, Eq, Structural)]
pub enum PolishModel {
    Qwen3_5_0_8B,
    LFM2_5_1_2B,
    Qwen3_5_2B,
    LFM2_2_6B,
    Qwen3_4B,
    Gemma2B_IT,
}

/// The id of a model.
pub open spec fn model_id_spec(m: PolishModel) -> Seq<char> {
    match m {
        PolishModel::Qwen3_5_0_8B => "qwen3.5-0.8b"@,
        PolishModel::LFM2_5_1_2B => "lfm2.5-1.2b"@,
        PolishModel::Qwen3_5_2B => "qwen3.5-2b"@,
        PolishModel::LFM2_2_6B => "lfm2-2.6b"@,
        PolishModel::Qwen3_4B => "qwen3-4b"@,
        PolishModel::Gemma2B_IT => "gemma-2b-it"@,
    }
}

/// The model an id names (the legacy Gemma id included).
pub open spec fn model_of_id(id: Seq<char>) -> Option<PolishModel> {
    if id == "qwen3.5-0.8b"@ {
        Some(PolishModel::Qwen3_5_0_8B)
    } else if id == "lfm2.5-1.2b"@ {
        Some(PolishModel::LFM2_5_1_2B)
    } else if id == "qwen3.5-2b"@ {
        Some(PolishModel::Qwen3_5_2B)
    } else if id == "lfm2-2.6b"@ {
        Some(PolishModel::LFM2_2_6B)
    } else if id == "qwen3-4b"@ {
        Some(PolishModel::Qwen3_4B)
    } else if id == "gemma-2b-it"@ || id == "gemma-4-e2b"@ {
        Some(PolishModel::Gemma2B_IT)
    } else {
        None
    }
}

/// The table row of a model, looked up by its id in its family's table.
pub open spec fn model_row(m: PolishModel) -> Option<ModelRow> {
    match m {
        PolishModel::Qwen3_5_0_8B | PolishModel::Qwen3_5_2B | PolishModel::Qwen3_4B => find_by_id(
            qwen_models(),
            model_id_spec(m),
        ),
        PolishModel::LFM2_5_1_2B | PolishModel::LFM2_2_6B => find_by_id(lfm_models(), model_id_spec(m)),
        PolishModel::Gemma2B_IT => find_by_id(gemma_models(), gemma::canonical_id_spec(model_id_spec(m))),
    }
}

impl PolishModel {
    /// The model an id names.
    pub fn from_id(id: &str) -> (m: Option<Self>)
        ensures
            m == model_of_id(id@),
    {
        if str_eq(id, "qwen3.5-0.8b") {
            Some(PolishModel::Qwen3_5_0_8B)
        } else if str_eq(id, "lfm2.5-1.2b") {
            Some(PolishModel::LFM2_5_1_2B)
        } else if str_eq(id, "qwen3.5-2b") {
            Some(PolishModel::Qwen3_5_2B)
        } else if str_eq(id, "lfm2-2.6b") {
            Some(PolishModel::LFM2_2_6B)
        } else if str_eq(id, "qwen3-4b") {
            Some(PolishModel::Qwen3_4B)
        } else if str_eq(id, "gemma-2b-it") || str_eq(id, "gemma-4-e2b") {
            Some(PolishModel::Gemma2B_IT)
        } else {
            None
        }
    }

    /// The id of the model.
    pub fn id(&self) -> (s: &'static str)
        ensures
            s@ == model_id_spec(*self),
    {
        match self {
            PolishModel::Qwen3_5_0_8B => "qwen3.5-0.8b",
            PolishModel::LFM2_5_1_2B => "lfm2.5-1.2b",
            PolishModel::Qwen3_5_2B => "qwen3.5-2b",
            PolishModel::LFM2_2_6B => "lfm2-2.6b",
            PolishModel::Qwen3_4B => "qwen3-4b",
            PolishModel::Gemma2B_IT => "gemma-2b-it",
        }
    }

    /// The model's file name, from its family's table (empty if missing).
    pub fn filename(&self) -> (s: &'static str)
        ensures
            s@ == (match model_row(*self) {
                Some(r) => r.2,
                None => ""@,
            }),
    {
        let id = self.id();
        match self {
            PolishModel::Qwen3_5_0_8B | PolishModel::Qwen3_5_2B | PolishModel::Qwen3_4B => {
                match QwenModelDef::from_id(id) {
                    Some(m) => m.filename,
                    None => "",
                }
            },
            PolishModel::LFM2_5_1_2B | PolishModel::LFM2_2_6B => match LfmModelDef::from_id(id) {
                Some(m) => m.filename,
                None => "",
            },
            PolishModel::Gemma2B_IT => match GemmaModelDef::from_id(id) {
                Some(m) => m.filename,
                None => "",
            },
        }
    }

    /// The model's download URLs (none if it is missing from its table).
    pub fn urls(&self) -> (v: Vec<String>)
        ensures
            match model_row(*self) {
                Some(r) => v@.len() == 2 && forall|i: int|
                    0 <= i < 2 ==> #[trigger] v@[i]@ == model_urls_spec(r.1, r.2)[i],
                None => v@.len() == 0,
            },
    {
        let id = self.id();
        match self {
            PolishModel::Qwen3_5_0_8B | PolishModel::Qwen3_5_2B | PolishModel::Qwen3_4B => {
                match QwenModelDef::from_id(id) {
                    Some(m) => m.urls(),
                    None => Vec::new(),
                }
            },
            PolishModel::LFM2_5_1_2B | PolishModel::LFM2_2_6B => match LfmModelDef::from_id(id) {
                Some(m) => m.urls(),
                None => Vec::new(),
            },
            PolishModel::Gemma2B_IT => match GemmaModelDef::from_id(id) {
                Some(m) => m.urls(),
                None => Vec::new(),
            },
        }
    }
}

/// Id, display name and size of every local model.
pub fn get_all_models() -> (v: Vec<(String, String, String)>)
    ensures
        v@.len() == all_polish_model_rows().len(),
        forall|i: int|
            0 <= i < v@.len() ==> (#[trigger] v@[i]).0@ == all_polish_model_rows()[i].0 && v@[i].1@
                == all_polish_model_rows()[i].1 && v@[i].2@ == all_polish_model_rows()[i].2,
{
    let all = get_all_polish_models();
    let mut v: Vec<(String, String, String)> = Vec::new();
    let mut i: usize = 0;
    while i < all.len()
        invariant
            all@.len() == all_polish_model_rows().len(),
            forall|j: int|
                0 <= j < all@.len() ==> super::manager::info_view(#[trigger] all@[j])
                    == all_polish_model_rows()[j],
            i <= all.len(),
            v@.len() == i,
            forall|j: int|
                0 <= j < i ==> (#[trigger] v@[j]).0@ == all_polish_model_rows()[j].0 && v@[j].1@
                    == all_polish_model_rows()[j].1 && v@[j].2@ == all_polish_model_rows()[j].2,
        decreases all.len() - i,
    {
        let m = &all[i];
        assert(super::manager::info_view(all@[i as int]) == all_polish_model_rows()[i as int]);
        v.push((copy_string(&m.id), copy_string(&m.display_name), copy_string(&m.size_display)));
        i = i + 1;
    }
    v
}

/// The model used when none is chosen.
pub fn get_current_model() -> (m: PolishModel)
    ensures
        m == PolishModel::Qwen3_5_0_8B,
{
    PolishModel::Qwen3_5_0_8B
}

} // verus!
