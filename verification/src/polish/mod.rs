//! Polishing of transcribed text by local or cloud language models.
pub mod cloud;
pub mod common;
pub mod gemma;
pub mod gemma_engine;
pub mod legacy;
pub mod lfm;
pub mod manager;
pub mod model_table;
pub mod qwen;
pub mod templates;
pub mod traits;

pub use legacy::{get_all_models, get_current_model, PolishModel};
pub use qwen::DEFAULT_POLISH_PROMPT;
