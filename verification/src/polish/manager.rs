//! The manager that picks a polish engine for a model and keeps a cache of
//! loaded engine instances.
use vstd::prelude::*;

use super::gemma::{self, gemma_models, GemmaModelDef};
use super::lfm::{self, lfm_models, LfmModelDef};
use super::model_table::{find_by_id, ModelRow};
use super::qwen::{self, qwen_models, QwenModelDef};
use super::traits::PolishEngineType;
use crate::text::{append_str, owned, seq_starts_with, str_eq};

verus! {

/// The engine kind a model id belongs to, by its prefix.
pub open spec fn engine_for_model_spec(model_id: Seq<char>) -> Option<PolishEngineType> {
    if seq_starts_with(model_id, "qwen"@) {
        Some(PolishEngineType::Qwen)
    } else if seq_starts_with(model_id, "lfm"@) {
        Some(PolishEngineType::Lfm)
    } else if seq_starts_with(model_id, "gemma"@) {
        Some(PolishEngineType::Gemma)
    } else {
        None
    }
}

/// File name of a model row, if there is a row.
pub open spec fn row_filename(r: Option<ModelRow>) -> Option<Seq<char>> {
    match r {
        Some(x) => Some(x.2),
        None => None,
    }
}

/// The model file an engine uses for a model id; the cloud engine takes the
/// id itself as the model name.
pub open spec fn model_filename_spec(t: PolishEngineType, model_id: Seq<char>) -> Option<Seq<char>> {
    match t {
        PolishEngineType::Qwen => row_filename(find_by_id(qwen_models(), model_id)),
        PolishEngineType::Lfm => row_filename(find_by_id(lfm_models(), model_id)),
        PolishEngineType::Gemma => row_filename(
            find_by_id(gemma_models(), gemma::canonical_id_spec(model_id)),
        ),
        PolishEngineType::Cloud => Some(model_id),
    }
}

/// The local model file of a model id: none for the cloud engine.
pub open spec fn local_model_file_spec(t: PolishEngineType, model_id: Seq<char>) -> Option<Seq<char>> {
    match t {
        PolishEngineType::Cloud => None,
        _ => model_filename_spec(t, model_id),
    }
}

/// A cached, loaded engine instance.
#[derive(Debug)]
pub struct PolishEngineInstance {}

impl PolishEngineInstance {
    /// An instance for a model file; it fails unless the file exists.
    pub fn new(engine_type: PolishEngineType, model_filename: &str, file_exists: bool) -> (r: Result<
        Self,
        String,
    >)
        ensures
            file_exists <==> r is Ok,
            r matches Err(e) ==> e@ == "Model file not found: "@ + model_filename@,
    {
        if !file_exists {
            let mut e = owned("Model file not found: ");
            append_str(&mut e, model_filename);
            return Err(e);
        }
        Ok(PolishEngineInstance {})
    }
}

/// Information shown for a model.
#[derive(Debug)]
pub struct PolishModelInfo {
    pub id: String,
    pub display_name: String,
    pub size_display: String,
    pub engine_type: PolishEngineType,
}

/// An optional string slice as an optional sequence.
pub open spec fn opt_str_view(o: Option<&str>) -> Option<Seq<char>> {
    match o {
        Some(m) => Some(m@),
        None => None,
    }
}

/// Clearing engine `engine_type` (one model file, or all of them when
/// `which` is `None`) removes the entry `(t, f)`.
pub open spec fn entry_removed(
    engine_type: PolishEngineType,
    which: Option<Seq<char>>,
    t: PolishEngineType,
    f: Seq<char>,
) -> bool {
    t == engine_type && match which {
        Some(m) => f == m,
        None => true,
    }
}

/// Some entry of `s` is engine `t` with model file `f`.
pub open spec fn has_entry(s: Seq<(PolishEngineType, String)>, t: PolishEngineType, f: Seq<char>) -> bool {
    exists|j: int| 0 <= j < s.len() && #[trigger] s[j].0 == t && s[j].1@ == f
}

proof fn lemma_has_entry_push(
    s: Seq<(PolishEngineType, String)>,
    x: (PolishEngineType, String),
    t: PolishEngineType,
    f: Seq<char>,
)
    ensures
        has_entry(s.push(x), t, f) == (has_entry(s, t, f) || (x.0 == t && x.1@ == f)),
{
    let p = s.push(x);
    if has_entry(s, t, f) {
        let j = choose|j: int| 0 <= j < s.len() && #[trigger] s[j].0 == t && s[j].1@ == f;
        assert(p[j] == s[j]);
    }
    if x.0 == t && x.1@ == f {
        assert(p[s.len() as int] == x);
    }
    if has_entry(p, t, f) {
        let j = choose|j: int| 0 <= j < p.len() && #[trigger] p[j].0 == t && p[j].1@ == f;
        if j < s.len() {
            assert(s[j] == p[j]);
        }
    }
}

/// Registered engines and the cache of loaded instances, keyed by engine and
/// model file.
#[derive(Debug)]
pub struct UnifiedPolishManager {
    engines: Vec<PolishEngineType>,
    engine_cache: Vec<(PolishEngineType, String)>,
}

impl UnifiedPolishManager {
    /// The registered engine kinds.
    pub closed spec fn engines_view(&self) -> Seq<PolishEngineType> {
        self.engines@
    }

    /// An instance of engine `t` for model file `f` is cached.
    pub closed spec fn cached(&self, t: PolishEngineType, f: Seq<char>) -> bool {
        has_entry(self.engine_cache@, t, f)
    }

    /// A manager with the three local engines registered and nothing cached.
    pub fn new() -> (m: Self)
        ensures
            m.engines_view() == seq![
                PolishEngineType::Qwen,
                PolishEngineType::Lfm,
                PolishEngineType::Gemma,
            ],
            forall|t: PolishEngineType, f: Seq<char>| !m.cached(t, f),
    {
        let mut engines: Vec<PolishEngineType> = Vec::new();
        engines.push(PolishEngineType::Qwen);
        engines.push(PolishEngineType::Lfm);
        engines.push(PolishEngineType::Gemma);
        UnifiedPolishManager { engines, engine_cache: Vec::new() }
    }

    /// The engine kind of a model id, found by its prefix.
    pub fn get_engine_by_model_id(model_id: &str) -> (r: Option<PolishEngineType>)
        ensures
            r == engine_for_model_spec(model_id@),
    {
        if qwen::is_qwen_model(model_id) {
            Some(PolishEngineType::Qwen)
        } else if lfm::is_lfm_model(model_id) {
            Some(PolishEngineType::Lfm)
        } else if gemma::is_gemma_model(model_id) {
            Some(PolishEngineType::Gemma)
        } else {
            None
        }
    }

    /// Whether an instance is cached (executable).
    fn is_cached(&self, engine_type: PolishEngineType, model_filename: &str) -> (b: bool)
        ensures
            b == self.cached(engine_type, model_filename@),
    {
        let mut i: usize = 0;
        while i < self.engine_cache.len()
            invariant
                i <= self.engine_cache.len(),
                forall|j: int|
                    0 <= j < i ==> !(#[trigger] self.engine_cache@[j].0 == engine_type
                        && self.engine_cache@[j].1@ == model_filename@),
            decreases self.engine_cache.len() - i,
        {
            if self.engine_cache[i].0 == engine_type && str_eq(
                self.engine_cache[i].1.as_str(),
                model_filename,
            ) {
                return true;
            }
            i = i + 1;
        }
        false
    }

    /// The cached instance for a model file, created and cached when the file
    /// exists.
    pub fn get_or_create_engine_instance(
        &mut self,
        engine_type: PolishEngineType,
        model_filename: &str,
        file_exists: bool,
    ) -> (r: Result<PolishEngineInstance, String>)
        ensures
            r is Ok <==> (old(self).cached(engine_type, model_filename@) || file_exists),
            r matches Err(e) ==> e@ == "Model file not found: "@ + model_filename@,
            final(self).engines_view() == old(self).engines_view(),
            forall|t: PolishEngineType, f: Seq<char>|
                final(self).cached(t, f) == (old(self).cached(t, f) || (r is Ok && t
                    == engine_type && f == model_filename@)),
    {
        if self.is_cached(engine_type, model_filename) {
            return Ok(PolishEngineInstance {});
        }
        let instance = PolishEngineInstance::new(engine_type, model_filename, file_exists)?;
        let ghost prev = self.engine_cache@;
        let entry = (engine_type, owned(model_filename));
        let ghost e = entry;
        self.engine_cache.push(entry);
        assert forall|t: PolishEngineType, f: Seq<char>|
            self.cached(t, f) == (old(self).cached(t, f) || (t == engine_type && f
                == model_filename@)) by {
            lemma_has_entry_push(prev, e, t, f);
        }
        Ok(instance)
    }

    /// Keeps only the cache entries for which `keep` holds (`None` for the
    /// file means every file of the engine).
    fn retain_cache(&mut self, engine_type: PolishEngineType, model_filename: Option<&str>)
        ensures
            final(self).engines_view() == old(self).engines_view(),
            forall|t: PolishEngineType, f: Seq<char>|
                final(self).cached(t, f) == (old(self).cached(t, f) && !(t == engine_type && match model_filename {
                    Some(m) => f == m@,
                    None => true,
                })),
    {
        let ghost which = opt_str_view(model_filename);
        let mut kept: Vec<(PolishEngineType, String)> = Vec::new();
        let mut i: usize = 0;
        while i < self.engine_cache.len()
            invariant
                i <= self.engine_cache.len(),
                which == opt_str_view(model_filename),
                forall|t: PolishEngineType, f: Seq<char>|
                    has_entry(kept@, t, f) == (has_entry(self.engine_cache@.subrange(0, i as int), t, f)
                        && !entry_removed(engine_type, which, t, f)),
            decreases self.engine_cache.len() - i,
        {
            let t = self.engine_cache[i].0;
            let is_removed = t == engine_type && match model_filename {
                Some(m) => str_eq(self.engine_cache[i].1.as_str(), m),
                None => true,
            };
            let ghost x = self.engine_cache@[i as int];
            let ghost prefix = self.engine_cache@.subrange(0, i as int);
            assert(self.engine_cache@.subrange(0, i + 1) == prefix.push(x));
            let ghost kept0 = kept@;
            if !is_removed {
                let entry = (t, owned(self.engine_cache[i].1.as_str()));
                let ghost y = entry;
                assert(y.0 == x.0 && y.1@ == x.1@);
                assert(!entry_removed(engine_type, which, x.0, x.1@));
                kept.push(entry);
                assert forall|u: PolishEngineType, g: Seq<char>|
                    has_entry(kept@, u, g) == (has_entry(self.engine_cache@.subrange(0, i + 1), u, g)
                        && !entry_removed(engine_type, which, u, g)) by {
                    lemma_has_entry_push(kept0, y, u, g);
                    lemma_has_entry_push(prefix, x, u, g);
                }
            } else {
                assert(entry_removed(engine_type, which, x.0, x.1@));
                assert forall|u: PolishEngineType, g: Seq<char>|
                    has_entry(kept@, u, g) == (has_entry(self.engine_cache@.subrange(0, i + 1), u, g)
                        && !entry_removed(engine_type, which, u, g)) by {
                    lemma_has_entry_push(prefix, x, u, g);
                }
            }
            i = i + 1;
        }
        assert(self.engine_cache@.subrange(0, self.engine_cache@.len() as int) == self.engine_cache@);
        self.engine_cache = kept;
    }

    /// Empties the cache.
    pub fn clear_cache(&mut self)
        ensures
            final(self).engines_view() == old(self).engines_view(),
            forall|t: PolishEngineType, f: Seq<char>| !final(self).cached(t, f),
    {
        self.engine_cache = Vec::new();
    }

    /// Removes the cached instance of one model file of an engine, or, with
    /// no file, every cached instance of the engine.
    pub fn clear_engine_cache(&mut self, engine_type: PolishEngineType, model_filename: Option<&str>)
        ensures
            final(self).engines_view() == old(self).engines_view(),
            forall|t: PolishEngineType, f: Seq<char>|
                final(self).cached(t, f) == (old(self).cached(t, f) && !(t == engine_type && match model_filename {
                    Some(m) => f == m@,
                    None => true,
                })),
    {
        self.retain_cache(engine_type, model_filename);
    }

    /// The model file an engine uses for a model id.
    pub fn get_model_filename(&self, engine_type: PolishEngineType, model_id: &str) -> (r: Option<
        String,
    >)
        ensures
            match r {
                Some(f) => model_filename_spec(engine_type, model_id@) == Some(f@),
                None => model_filename_spec(engine_type, model_id@) is None,
            },
    {
        match engine_type {
            PolishEngineType::Qwen => match QwenModelDef::from_id(model_id) {
                Some(m) => Some(owned(m.filename)),
                None => None,
            },
            PolishEngineType::Lfm => match LfmModelDef::from_id(model_id) {
                Some(m) => Some(owned(m.filename)),
                None => None,
            },
            PolishEngineType::Gemma => match GemmaModelDef::from_id(model_id) {
                Some(m) => Some(owned(m.filename)),
                None => None,
            },
            PolishEngineType::Cloud => Some(owned(model_id)),
        }
    }

    /// Whether the local model file of a model id is among the files present
    /// in the models directory; never for the cloud engine.
    pub fn is_model_downloaded(
        &self,
        engine_type: PolishEngineType,
        model_id: &str,
        present_files: &Vec<String>,
    ) -> (b: bool)
        ensures
            b == (match local_model_file_spec(engine_type, model_id@) {
                Some(f) => exists|i: int| 0 <= i < present_files@.len() && #[trigger] present_files@[i]@ == f,
                None => false,
            }),
    {
        if engine_type == PolishEngineType::Cloud {
            return false;
        }
        match self.get_model_filename(engine_type, model_id) {
            None => false,
            Some(f) => {
                assert(local_model_file_spec(engine_type, model_id@) == Some(f@));
                let mut i: usize = 0;
                while i < present_files.len()
                    invariant
                        local_model_file_spec(engine_type, model_id@) == Some(f@),
                        i <= present_files.len(),
                        forall|j: int| 0 <= j < i ==> #[trigger] present_files@[j]@ != f@,
                    decreases present_files.len() - i,
                {
                    if str_eq(present_files[i].as_str(), f.as_str()) {
                        assert(present_files@[i as int]@ == f@);
                        assert(exists|j: int|
                            0 <= j < present_files@.len() && #[trigger] present_files@[j]@ == f@);
                        return true;
                    }
                    i = i + 1;
                }
                false
            },
        }
    }

    /// Caches an instance for a model, failing when the model is unknown or
    /// its file is missing.
    pub fn load_model(&mut self, engine_type: PolishEngineType, model_id: &str, file_exists: bool) -> (r:
        Result<(), String>)
        ensures
            final(self).engines_view() == old(self).engines_view(),
            match model_filename_spec(engine_type, model_id@) {
                None => r matches Err(e) && e@ == "Model not found: "@ + model_id@ && forall|
                    t: PolishEngineType,
                    f: Seq<char>,
                | final(self).cached(t, f) == old(self).cached(t, f),
                Some(file) => if file_exists {
                    r is Ok && forall|t: PolishEngineType, f: Seq<char>|
                        final(self).cached(t, f) == (old(self).cached(t, f) || (t == engine_type
                            && f == file))
                } else {
                    r matches Err(e) && e@ == "Model file not found: "@ + file && forall|
                        t: PolishEngineType,
                        f: Seq<char>,
                    | final(self).cached(t, f) == old(self).cached(t, f)
                },
            },
    {
        let model_filename = match self.get_model_filename(engine_type, model_id) {
            Some(f) => f,
            None => {
                let mut e = owned("Model not found: ");
                append_str(&mut e, model_id);
                return Err(e);
            },
        };
        if !file_exists {
            let mut e = owned("Model file not found: ");
            append_str(&mut e, model_filename.as_str());
            return Err(e);
        }
        let _instance = self.get_or_create_engine_instance(
            engine_type,
            model_filename.as_str(),
            file_exists,
        )?;
        Ok(())
    }

    /// Drops the cached instance of a model.
    pub fn unload_model(&mut self, engine_type: PolishEngineType, model_id: &str)
        ensures
            final(self).engines_view() == old(self).engines_view(),
            forall|t: PolishEngineType, f: Seq<char>|
                final(self).cached(t, f) == (old(self).cached(t, f) && !(t == engine_type && Some(f)
                    == model_filename_spec(engine_type, model_id@))),
    {
        match self.get_model_filename(engine_type, model_id) {
            Some(f) => self.clear_engine_cache(engine_type, Some(f.as_str())),
            None => {},
        }
    }

    /// The registered engine kinds.
    pub fn available_engines(&self) -> (v: Vec<PolishEngineType>)
        ensures
            v@ == self.engines_view(),
    {
        let mut v: Vec<PolishEngineType> = Vec::new();
        let mut i: usize = 0;
        while i < self.engines.len()
            invariant
                i <= self.engines.len(),
                v@ == self.engines@.subrange(0, i as int),
            decreases self.engines.len() - i,
        {
            v.push(self.engines[i]);
            assert(self.engines@.subrange(0, i + 1) == self.engines@.subrange(0, i as int).push(
                self.engines@[i as int],
            ));
            i = i + 1;
        }
        assert(self.engines@.subrange(0, self.engines@.len() as int) == self.engines@);
        v
    }
}

/// Law: a model loaded into the cache is no longer cached once unloaded, and
/// unloading leaves every other cache entry as it was.
pub proof fn lemma_unload_undoes_load(
    loaded: UnifiedPolishManager,
    unloaded: UnifiedPolishManager,
    engine_type: PolishEngineType,
    model_id: Seq<char>,
    file: Seq<char>,
)
    requires
        model_filename_spec(engine_type, model_id) == Some(file),
        loaded.cached(engine_type, file),
        forall|t: PolishEngineType, f: Seq<char>|
            unloaded.cached(t, f) == (loaded.cached(t, f) && !(t == engine_type && Some(f)
                == model_filename_spec(engine_type, model_id))),
    ensures
        !unloaded.cached(engine_type, file),
        forall|t: PolishEngineType, f: Seq<char>|
            !(t == engine_type && f == file) ==> unloaded.cached(t, f) == loaded.cached(t, f),
{
}

impl Default for UnifiedPolishManager {
    fn default() -> (m: Self)
        ensures
            m.engines_view() == seq![
                PolishEngineType::Qwen,
                PolishEngineType::Lfm,
                PolishEngineType::Gemma,
            ],
            forall|t: PolishEngineType, f: Seq<char>| !m.cached(t, f),
    {
        UnifiedPolishManager::new()
    }
}

/// A row of the model table as the information shown for it.
pub open spec fn info_row(r: ModelRow, t: PolishEngineType) -> (Seq<char>, Seq<char>, Seq<char>, PolishEngineType) {
    (r.0, r.3, r.4, t)
}

/// Every model of every local engine: Qwen, then LFM, then Gemma.
pub open spec fn all_polish_model_rows() -> Seq<(Seq<char>, Seq<char>, Seq<char>, PolishEngineType)> {
    qwen_models().map_values(|r: ModelRow| info_row(r, PolishEngineType::Qwen)) + lfm_models().map_values(
        |r: ModelRow| info_row(r, PolishEngineType::Lfm),
    ) + gemma_models().map_values(|r: ModelRow| info_row(r, PolishEngineType::Gemma))
}

/// The information of a model as a row.
pub open spec fn info_view(m: PolishModelInfo) -> (Seq<char>, Seq<char>, Seq<char>, PolishEngineType) {
    (m.id@, m.display_name@, m.size_display@, m.engine_type)
}

/// Every model of every local engine, with its engine.
pub fn get_all_polish_models() -> (v: Vec<PolishModelInfo>)
    ensures
        v@.len() == all_polish_model_rows().len(),
        forall|i: int| 0 <= i < v@.len() ==> info_view(#[trigger] v@[i]) == all_polish_model_rows()[i],
{
    let mut models: Vec<PolishModelInfo> = Vec::new();
    let ghost target = all_polish_model_rows();
    let q = qwen::get_all_models();
    let l = lfm::get_all_models();
    let g = gemma::get_all_models();
    let mut i: usize = 0;
    while i < q.len()
        invariant
            q@.len() == qwen_models().len(),
            forall|j: int| 0 <= j < q@.len() ==> #[trigger] q@[j]@ == qwen_models()[j],
            target == all_polish_model_rows(),
            i <= q.len(),
            models@.len() == i,
            forall|j: int| 0 <= j < i ==> info_view(#[trigger] models@[j]) == target[j],
        decreases q.len() - i,
    {
        let m = q[i];
        models.push(
            PolishModelInfo {
                id: owned(m.id),
                display_name: owned(m.display_name),
                size_display: owned(m.size_display),
                engine_type: PolishEngineType::Qwen,
            },
        );
        assert(m@ == qwen_models()[i as int]);
        assert(info_view(models@[i as int]) == info_row(qwen_models()[i as int], PolishEngineType::Qwen));
        assert(target[i as int] == info_row(qwen_models()[i as int], PolishEngineType::Qwen));
        i = i + 1;
    }
    let mut i: usize = 0;
    while i < l.len()
        invariant
            l@.len() == lfm_models().len(),
            forall|j: int| 0 <= j < l@.len() ==> #[trigger] l@[j]@ == lfm_models()[j],
            target == all_polish_model_rows(),
            i <= l.len(),
            models@.len() == qwen_models().len() + i,
            forall|j: int| 0 <= j < models@.len() ==> info_view(#[trigger] models@[j]) == target[j],
        decreases l.len() - i,
    {
        let m = l[i];
        models.push(
            PolishModelInfo {
                id: owned(m.id),
                display_name: owned(m.display_name),
                size_display: owned(m.size_display),
                engine_type: PolishEngineType::Lfm,
            },
        );
        assert(m@ == lfm_models()[i as int]);
        assert(info_view(models@[qwen_models().len() + i]) == info_row(lfm_models()[i as int], PolishEngineType::Lfm));
        assert(target[qwen_models().len() + i] == info_row(lfm_models()[i as int], PolishEngineType::Lfm));
        i = i + 1;
    }
    let mut i: usize = 0;
    while i < g.len()
        invariant
            g@.len() == gemma_models().len(),
            forall|j: int| 0 <= j < g@.len() ==> #[trigger] g@[j]@ == gemma_models()[j],
            target == all_polish_model_rows(),
            i <= g.len(),
            models@.len() == qwen_models().len() + lfm_models().len() + i,
            forall|j: int| 0 <= j < models@.len() ==> info_view(#[trigger] models@[j]) == target[j],
        decreases g.len() - i,
    {
        let m = g[i];
        models.push(
            PolishModelInfo {
                id: owned(m.id),
                display_name: owned(m.display_name),
                size_display: owned(m.size_display),
                engine_type: PolishEngineType::Gemma,
            },
        );
        assert(m@ == gemma_models()[i as int]);
        assert(info_view(models@[qwen_models().len() + lfm_models().len() + i]) == info_row(gemma_models()[i as int], PolishEngineType::Gemma));
        assert(target[qwen_models().len() + lfm_models().len() + i] == info_row(gemma_models()[i as int], PolishEngineType::Gemma));
        i = i + 1;
    }
    models
}

} // verus!
