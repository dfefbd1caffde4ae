//! Tables of downloadable GGUF models and the URLs they are fetched from.
use vstd::prelude::*;

use crate::text::{append_str, owned};

verus! {

/// A model row: id, Hugging Face repository, file name, display name, size.
pub type ModelRow = (Seq<char>, Seq<char>, Seq<char>, Seq<char>, Seq<char>);

/// The first row whose id is `id`.
pub open spec fn find_by_id(t: Seq<ModelRow>, id: Seq<char>) -> Option<ModelRow>
    decreases t.len(),
{
    if t.len() == 0 {
        None
    } else if t[0].0 == id {
        Some(t[0])
    } else {
        find_by_id(t.drop_first(), id)
    }
}

/// The first row whose file name is `filename`.
pub open spec fn find_by_filename(t: Seq<ModelRow>, filename: Seq<char>) -> Option<ModelRow>
    decreases t.len(),
{
    if t.len() == 0 {
        None
    } else if t[0].2 == filename {
        Some(t[0])
    } else {
        find_by_filename(t.drop_first(), filename)
    }
}

/// The download URLs of a file of a Hugging Face repository: the hub itself,
/// then its mirror.
pub open spec fn model_urls_spec(repo: Seq<char>, filename: Seq<char>) -> Seq<Seq<char>> {
    seq![
        "https://huggingface.co/"@ + repo + "/resolve/main/"@ + filename,
        "https://hf-mirror.com/"@ + repo + "/resolve/main/"@ + filename,
    ]
}

/// Builds the download URLs of a file of a Hugging Face repository.
pub fn model_urls(repo: &str, filename: &str) -> (v: Vec<String>)
    ensures
        v@.len() == 2,
        forall|i: int| 0 <= i < 2 ==> #[trigger] v@[i]@ == model_urls_spec(repo@, filename@)[i],
{
    let mut hub = owned("https://huggingface.co/");
    append_str(&mut hub, repo);
    append_str(&mut hub, "/resolve/main/");
    append_str(&mut hub, filename);
    let mut mirror = owned("https://hf-mirror.com/");
    append_str(&mut mirror, repo);
    append_str(&mut mirror, "/resolve/main/");
    append_str(&mut mirror, filename);
    let mut v: Vec<String> = Vec::new();
    v.push(hub);
    v.push(mirror);
    v
}

} // verus!
