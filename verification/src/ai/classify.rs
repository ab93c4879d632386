//! Telling the category of a model from the words in its identifier.

use crate::ai::models::ModelCategory;
use crate::text::{chars_of, contains, occurs_in};
use crate::views::views;
use vstd::prelude::*;

verus! {

/// The words that mark an identifier as a language model.
pub open spec fn llm_keywords() -> Seq<Seq<char>> {
    seq![
        "llama"@,
        "mistral"@,
        "qwen"@,
        "gemma"@,
        "deepseek"@,
        "gpt"@,
        "phi"@,
        "falcon"@,
        "hermes"@,
        "openchat"@,
        "sqlcoder"@,
        "neural-chat"@,
        "openhermes"@,
        "zephyr"@,
        "starling"@,
        "cybertron"@,
        "chat"@,
        "instruct"@,
        "granite"@,
    ]
}

/// The words that mark an identifier as an embedding model.
pub open spec fn embedding_keywords() -> Seq<Seq<char>> {
    seq!["bge"@, "embedding"@, "embed"@]
}

/// The words that mark an identifier as an image model.
pub open spec fn image_keywords() -> Seq<Seq<char>> {
    seq!["stable-diffusion"@, "flux"@, "dreamshaper"@, "lucid"@, "phoenix"@]
}

/// The words that mark an identifier as an audio model.
pub open spec fn audio_keywords() -> Seq<Seq<char>> {
    seq!["whisper"@, "nova"@, "asr"@]
}

/// One of `keywords` is a contiguous run of `id`.
pub open spec fn mentions_any(id: Seq<char>, keywords: Seq<Seq<char>>) -> bool {
    exists|k: int| 0 <= k < keywords.len() && occurs_in(id, #[trigger] keywords[k])
}

/// The category whose keywords `id` mentions; of several, the first in the
/// order language, embedding, image, audio. `None` where it mentions none.
pub open spec fn detected(id: Seq<char>) -> Option<ModelCategory> {
    if mentions_any(id, llm_keywords()) {
        Some(ModelCategory::Llm)
    } else if mentions_any(id, embedding_keywords()) {
        Some(ModelCategory::Embedding)
    } else if mentions_any(id, image_keywords()) {
        Some(ModelCategory::Image)
    } else if mentions_any(id, audio_keywords()) {
        Some(ModelCategory::Audio)
    } else {
        None
    }
}

/// The category of an identifier outside the catalog: the detected one, and
/// language model where none is detected.
pub open spec fn inferred_category(id: Seq<char>) -> ModelCategory {
    match detected(id) {
        Some(c) => c,
        None => ModelCategory::Llm,
    }
}

/// Whether one of `keywords` is a contiguous run of `id`.
fn mentions_any_of(id: &Vec<char>, keywords: &Vec<&'static str>) -> (r: bool)
    ensures
        r == mentions_any(id@, views(keywords@)),
{
    let mut k: usize = 0;
    while k < keywords.len()
        invariant
            k <= keywords.len(),
            forall|j: int| 0 <= j < k ==> !occurs_in(id@, #[trigger] views(keywords@)[j]),
        decreases keywords.len() - k,
    {
        let word = chars_of(keywords[k]);
        assert(views(keywords@)[k as int] == word@);
        if contains(id, &word) {
            return true;
        }
        k += 1;
    }
    false
}

/// The category whose keywords `id` mentions, if any.
pub fn detect(id: &str) -> (r: Option<ModelCategory>)
    ensures
        r == detected(id@),
{
    let chars = chars_of(id);
    let llm: Vec<&'static str> = vec![
        "llama",
        "mistral",
        "qwen",
        "gemma",
        "deepseek",
        "gpt",
        "phi",
        "falcon",
        "hermes",
        "openchat",
        "sqlcoder",
        "neural-chat",
        "openhermes",
        "zephyr",
        "starling",
        "cybertron",
        "chat",
        "instruct",
        "granite",
    ];
    assert(views(llm@) =~= llm_keywords());
    if mentions_any_of(&chars, &llm) {
        return Some(ModelCategory::Llm);
    }
    let embedding: Vec<&'static str> = vec!["bge", "embedding", "embed"];
    assert(views(embedding@) =~= embedding_keywords());
    if mentions_any_of(&chars, &embedding) {
        return Some(ModelCategory::Embedding);
    }
    let image: Vec<&'static str> = vec![
        "stable-diffusion",
        "flux",
        "dreamshaper",
        "lucid",
        "phoenix",
    ];
    assert(views(image@) =~= image_keywords());
    if mentions_any_of(&chars, &image) {
        return Some(ModelCategory::Image);
    }
    let audio: Vec<&'static str> = vec!["whisper", "nova", "asr"];
    assert(views(audio@) =~= audio_keywords());
    if mentions_any_of(&chars, &audio) {
        return Some(ModelCategory::Audio);
    }
    None
}

} // verus!
