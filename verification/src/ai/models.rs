//! The model catalog: the curated descriptors, the classifier that stands in
//! for every other identifier, and the advisory cost estimate.

use crate::ai::classify::{detect, detected, inferred_category};
use crate::ai::schema::{
    audio_schema, build_audio_schema, build_prompt_schema, build_text_schema, prompt_schema,
    text_schema, IntegerOption,
};
use crate::json::{Json, JsonValue};
use crate::text::{last_segment, last_segment_replaced, replaced, str_eq};
use crate::views::views;
use vstd::prelude::*;
use vstd::string::StringExecFns;

verus! {

/// The family a model belongs to.
#[derive(Debug, Clone, Copy, PartialEq, Eq, Structural)]
pub enum ModelCategory {
    Llm,
    Embedding,
    Image,
    Audio,
}

impl ModelCategory {
    /// The name under which a category is written in documents.
    pub open spec fn name(self) -> Seq<char> {
        match self {
            ModelCategory::Llm => "llm"@,
            ModelCategory::Embedding => "embedding"@,
            ModelCategory::Image => "image"@,
            ModelCategory::Audio => "audio"@,
        }
    }

    /// The name under which this category is written in documents.
    pub fn as_str(&self) -> (s: &'static str)
        ensures
            s@ == self.name(),
    {
        match self {
            ModelCategory::Llm => "llm",
            ModelCategory::Embedding => "embedding",
            ModelCategory::Image => "image",
            ModelCategory::Audio => "audio",
        }
    }
}

/// A model descriptor, as a mathematical value.
pub struct ModelInfoView {
    pub id: Seq<char>,
    pub name: Seq<char>,
    pub description: Seq<char>,
    pub category: ModelCategory,
    pub base_neurons: u32,
    pub input_schema: JsonValue,
}

/// A model descriptor.
#[derive(Debug, Clone, PartialEq)]
pub struct ModelInfo {
    pub id: String,
    pub name: String,
    pub description: String,
    pub category: ModelCategory,
    pub base_neurons: u32,
    pub input_schema: Json,
}

impl View for ModelInfo {
    type V = ModelInfoView;

    open spec fn view(&self) -> ModelInfoView {
        ModelInfoView {
            id: self.id@,
            name: self.name@,
            description: self.description@,
            category: self.category,
            base_neurons: self.base_neurons,
            input_schema: self.input_schema@,
        }
    }
}

// ---------------------------------------------------------------------------
// Cost estimate
// ---------------------------------------------------------------------------

/// The number of bytes that the UTF-8 encoding of `text` takes.
pub open spec fn utf8_len(text: Seq<char>) -> nat {
    vstd::utf8::encode_utf8(text).len()
}

/// The larger of 1 and the whole quotient of the byte length of `text` by
/// `per`.
pub open spec fn units(text: Seq<char>, per: nat) -> nat {
    let whole = utf8_len(text) / per;
    if whole < 1 {
        1
    } else {
        whole
    }
}

/// The text under `key`, or the empty text where `input` has no string
/// there.
pub open spec fn text_or_empty(input: JsonValue, key: Seq<char>) -> Seq<char> {
    match input.text_field(key) {
        Some(s) => s,
        None => Seq::empty(),
    }
}

/// The advisory cost of running a model of `category` on `input`.
pub open spec fn estimate(category: ModelCategory, input: JsonValue) -> nat {
    match category {
        ModelCategory::Llm => units(text_or_empty(input, "prompt"@), 4) + 100,
        ModelCategory::Embedding => units(text_or_empty(input, "text"@), 4) / 10,
        ModelCategory::Image => 5000,
        ModelCategory::Audio => match input.text_field("audio"@) {
            Some(audio) => units(audio, 1000) * 10,
            None => 100,
        },
    }
}

/// `n`, or the largest `u32` where `n` is beyond it.
pub open spec fn capped(n: nat) -> u32 {
    if n > u32::MAX {
        u32::MAX
    } else {
        n as u32
    }
}

/// The larger of 1 and the whole quotient of the byte length of `text` by
/// `per`.
fn units_of(text: &str, per: usize) -> (n: u64)
    requires
        per > 0,
    ensures
        n == units(text@, per as nat),
        n <= usize::MAX / per + 1,
{
    let len: usize = text.as_bytes().len();
    let whole: usize = len / per;
    proof {
        vstd::arithmetic::div_mod::lemma_div_is_ordered(len as int, usize::MAX as int, per as int);
    }
    if whole < 1 {
        1
    } else {
        whole as u64
    }
}

/// The text under `key`, where `input` has a string there.
fn text_under<'a>(input: &'a Json, key: &str) -> (r: Option<&'a str>)
    ensures
        match r {
            Some(s) => input@.text_field(key@) == Some(s@),
            None => input@.text_field(key@) is None,
        },
{
    match input.get(key) {
        Some(v) => v.as_str(),
        None => None,
    }
}

/// The units of the text under `key`, taking the empty text where `input`
/// has no string there.
fn units_under(input: &Json, key: &str, per: usize) -> (n: u64)
    requires
        per > 0,
    ensures
        n == units(text_or_empty(input@, key@), per as nat),
        n <= usize::MAX / per + 1,
{
    match text_under(input, key) {
        Some(s) => units_of(s, per),
        None => {
            assert(vstd::utf8::encode_utf8(Seq::<char>::empty()).len() == 0) by {
                reveal_with_fuel(vstd::utf8::encode_utf8, 1);
            }
            1
        },
    }
}

/// `n` as a `u32`, or the largest `u32` where `n` is beyond it.
fn cap(n: u64) -> (r: u32)
    ensures
        r == capped(n as nat),
{
    if n > 0xffff_ffff {
        0xffff_ffff
    } else {
        n as u32
    }
}

/// A text of ASCII characters takes one byte for each character.
pub proof fn ascii_text_takes_a_byte_for_each_character(text: Seq<char>)
    requires
        vstd::utf8::is_ascii_chars(text),
    ensures
        utf8_len(text) == text.len(),
{
    vstd::utf8::is_ascii_chars_encode_utf8(text);
}

/// A language model is never estimated below 101: one unit at the least,
/// and the fixed hundred.
pub proof fn language_estimate_has_a_floor(input: JsonValue)
    ensures
        estimate(ModelCategory::Llm, input) >= 101,
{
}

/// An embedding of a text of fewer than 40 bytes is estimated at nothing:
/// its units, fewer than ten, do not make one tenth.
pub proof fn embedding_estimate_of_a_short_text_is_zero(input: JsonValue)
    requires
        utf8_len(text_or_empty(input, "text"@)) < 40,
    ensures
        estimate(ModelCategory::Embedding, input) == 0,
{
}

impl ModelInfo {
    /// The advisory cost of running this model on `input`, by the formula of
    /// its category; the largest `u32` where the formula gives more.
    pub fn estimate_neurons(&self, input: &Json) -> (neurons: u32)
        ensures
            neurons == capped(estimate(self.category, input@)),
    {
        match self.category {
            ModelCategory::Llm => cap(units_under(input, "prompt", 4) + 100),
            ModelCategory::Embedding => cap(units_under(input, "text", 4) / 10),
            ModelCategory::Image => 5000,
            ModelCategory::Audio => match text_under(input, "audio") {
                Some(audio) => {
                    let n: u64 = units_of(audio, 1000);
                    cap(n * 10)
                },
                None => 100,
            },
        }
    }
}

// ---------------------------------------------------------------------------
// The curated catalog
// ---------------------------------------------------------------------------

/// The curated descriptors, in their fixed order.
pub open spec fn catalog() -> Seq<ModelInfoView> {
    seq![
        ModelInfoView {
            id: "@cf/meta/llama-3.1-8b-instruct"@,
            name: "Llama 3.1 8B Instruct"@,
            description: "Meta's Llama 3.1 8B instruction-tuned model for text generation"@,
            category: ModelCategory::Llm,
            base_neurons: 100,
            input_schema: prompt_schema(
                Some("The text prompt to generate from"@),
                Some(
                    IntegerOption {
                        name: "max_tokens",
                        description: Some("Maximum tokens to generate"),
                        default: 256,
                    },
                ),
            ),
        },
        ModelInfoView {
            id: "@cf/mistral/mistral-7b-instruct-v0.1"@,
            name: "Mistral 7B Instruct"@,
            description: "Mistral's 7B instruction-tuned model for text generation"@,
            category: ModelCategory::Llm,
            base_neurons: 90,
            input_schema: prompt_schema(
                Some("The text prompt to generate from"@),
                Some(
                    IntegerOption {
                        name: "max_tokens",
                        description: Some("Maximum tokens to generate"),
                        default: 256,
                    },
                ),
            ),
        },
        ModelInfoView {
            id: "@cf/baai/bge-base-en-v1.5"@,
            name: "BGE Base English v1.5"@,
            description: "BAAI's text embedding model for semantic search and similarity"@,
            category: ModelCategory::Embedding,
            base_neurons: 10,
            input_schema: text_schema("The text to generate embeddings for"@),
        },
        ModelInfoView {
            id: "@cf/stabilityai/stable-diffusion-xl-base-1.0"@,
            name: "Stable Diffusion XL"@,
            description: "Stability AI's SDXL model for high-quality image generation"@,
            category: ModelCategory::Image,
            base_neurons: 5000,
            input_schema: prompt_schema(
                Some("The text prompt describing the image to generate"@),
                Some(
                    IntegerOption {
                        name: "num_steps",
                        description: Some("Number of denoising steps"),
                        default: 20,
                    },
                ),
            ),
        },
        ModelInfoView {
            id: "@cf/openai/whisper"@,
            name: "Whisper"@,
            description: "OpenAI's Whisper model for speech recognition and transcription"@,
            category: ModelCategory::Audio,
            base_neurons: 100,
            input_schema: audio_schema(
                "Base64-encoded audio data"@,
                Some("Language code (e.g., 'en' for English)"@),
            ),
        },
        ModelInfoView {
            id: "@cf/meta/llama-3.1-70b-instruct"@,
            name: "Llama 3.1 70B Instruct"@,
            description: "Meta's Llama 3.1 70B large-scale multilingual instruction model"@,
            category: ModelCategory::Llm,
            base_neurons: 300,
            input_schema: prompt_schema(
                Some("The text prompt"@),
                Some(
                    IntegerOption {
                        name: "max_tokens",
                        description: None,
                        default: 256,
                    },
                ),
            ),
        },
        ModelInfoView {
            id: "@cf/meta/llama-3.2-1b-instruct"@,
            name: "Llama 3.2 1B Instruct"@,
            description: "Meta's Llama 3.2 1B small multilingual dialogue model"@,
            category: ModelCategory::Llm,
            base_neurons: 50,
            input_schema: prompt_schema(
                Some("The text prompt"@),
                Some(
                    IntegerOption {
                        name: "max_tokens",
                        description: None,
                        default: 256,
                    },
                ),
            ),
        },
        ModelInfoView {
            id: "@cf/qwen/qwen2.5-coder-32b-instruct"@,
            name: "Qwen 2.5 Coder 32B"@,
            description: "Qwen's code-specific model for programming tasks"@,
            category: ModelCategory::Llm,
            base_neurons: 200,
            input_schema: prompt_schema(
                Some("The code prompt"@),
                Some(
                    IntegerOption {
                        name: "max_tokens",
                        description: None,
                        default: 512,
                    },
                ),
            ),
        },
        ModelInfoView {
            id: "@cf/baai/bge-large-en-v1.5"@,
            name: "BGE Large English v1.5"@,
            description: "BAAI's large 1024-dimensional English embeddings"@,
            category: ModelCategory::Embedding,
            base_neurons: 15,
            input_schema: text_schema("Text to embed"@),
        },
        ModelInfoView {
            id: "@cf/baai/bge-m3"@,
            name: "BGE M3"@,
            description: "BAAI's multi-functional, multilingual, multi-granular embeddings"@,
            category: ModelCategory::Embedding,
            base_neurons: 20,
            input_schema: text_schema("Text to embed"@),
        },
        ModelInfoView {
            id: "@cf/black-forest-labs/flux-1-schnell"@,
            name: "Flux 1 Schnell"@,
            description: "Black Forest Labs' fast 12B parameter image generation model"@,
            category: ModelCategory::Image,
            base_neurons: 4000,
            input_schema: prompt_schema(
                Some("Image description"@),
                Some(
                    IntegerOption {
                        name: "num_steps",
                        description: None,
                        default: 4,
                    },
                ),
            ),
        },
        ModelInfoView {
            id: "@cf/bytedance/stable-diffusion-xl-lightning"@,
            name: "Stable Diffusion XL Lightning"@,
            description: "ByteDance's high-quality 1024px image generation in few steps"@,
            category: ModelCategory::Image,
            base_neurons: 3500,
            input_schema: prompt_schema(
                Some("Image description"@),
                Some(
                    IntegerOption {
                        name: "num_steps",
                        description: None,
                        default: 8,
                    },
                ),
            ),
        },
    ]
}

fn describe(
    id: &str,
    name: &str,
    description: &str,
    category: ModelCategory,
    base_neurons: u32,
    input_schema: Json,
) -> (m: ModelInfo)
    ensures
        m@ == (ModelInfoView {
            id: id@,
            name: name@,
            description: description@,
            category,
            base_neurons,
            input_schema: input_schema@,
        }),
{
    ModelInfo {
        id: id.to_owned(),
        name: name.to_owned(),
        description: description.to_owned(),
        category,
        base_neurons,
        input_schema,
    }
}

// ---------------------------------------------------------------------------
// Identifiers outside the catalog
// ---------------------------------------------------------------------------

/// The descriptor that stands in for an identifier outside the catalog.
pub open spec fn synthesized(id: Seq<char>) -> ModelInfoView {
    ModelInfoView {
        id,
        name: replaced(last_segment(id, '/'), '-', ' '),
        description: "Auto-detected model: "@ + id,
        category: inferred_category(id),
        base_neurons: match detected(id) {
            Some(ModelCategory::Embedding) => 10,
            Some(ModelCategory::Image) => 5000,
            _ => 100,
        },
        input_schema: match detected(id) {
            Some(ModelCategory::Llm) => prompt_schema(Some("Text prompt"@), None),
            Some(ModelCategory::Embedding) => text_schema("Text to embed"@),
            Some(ModelCategory::Image) => prompt_schema(Some("Image description"@), None),
            Some(ModelCategory::Audio) => audio_schema("Base64 audio"@, None),
            None => prompt_schema(None, None),
        },
    }
}

/// The first of `models` whose identifier is `id`.
pub open spec fn first_with_id(models: Seq<ModelInfoView>, id: Seq<char>) -> Option<
    ModelInfoView,
>
    decreases models.len(),
{
    if models.len() == 0 {
        None
    } else if models[0].id == id {
        Some(models[0])
    } else {
        first_with_id(models.drop_first(), id)
    }
}

/// The descriptor of `id`: the curated one where the catalog has it, the
/// synthesized one otherwise.
pub open spec fn resolved(id: Seq<char>) -> ModelInfoView {
    match first_with_id(catalog(), id) {
        Some(m) => m,
        None => synthesized(id),
    }
}

/// Where `models[at]` has the identifier and none before it has, it is the
/// first with that identifier.
pub proof fn lemma_first_with_id_found(models: Seq<ModelInfoView>, id: Seq<char>, at: int)
    requires
        0 <= at < models.len(),
        models[at].id == id,
        forall|j: int| 0 <= j < at ==> models[j].id != id,
    ensures
        first_with_id(models, id) == Some(models[at]),
    decreases at,
{
    if at > 0 {
        let rest = models.drop_first();
        assert forall|j: int| 0 <= j < at - 1 implies rest[j].id != id by {
            assert(rest[j] == models[j + 1]);
        }
        lemma_first_with_id_found(rest, id, at - 1);
    }
}

/// Where none of `models` has the identifier, none is the first with it.
pub proof fn lemma_first_with_id_absent(models: Seq<ModelInfoView>, id: Seq<char>)
    requires
        forall|j: int| 0 <= j < models.len() ==> models[j].id != id,
    ensures
        first_with_id(models, id) is None,
    decreases models.len(),
{
    if models.len() > 0 {
        let rest = models.drop_first();
        assert forall|j: int| 0 <= j < rest.len() implies rest[j].id != id by {
            assert(rest[j] == models[j + 1]);
        }
        lemma_first_with_id_absent(rest, id);
    }
}

/// No two descriptors of the catalog share an identifier.
pub proof fn catalog_identifiers_are_distinct()
    ensures
        catalog().len() == 12,
        forall|i: int, j: int|
            0 <= i < j < catalog().len() ==> catalog()[i].id != catalog()[j].id,
{
    reveal_strlit("@cf/meta/llama-3.1-8b-instruct");
    reveal_strlit("@cf/mistral/mistral-7b-instruct-v0.1");
    reveal_strlit("@cf/baai/bge-base-en-v1.5");
    reveal_strlit("@cf/stabilityai/stable-diffusion-xl-base-1.0");
    reveal_strlit("@cf/openai/whisper");
    reveal_strlit("@cf/meta/llama-3.1-70b-instruct");
    reveal_strlit("@cf/meta/llama-3.2-1b-instruct");
    reveal_strlit("@cf/qwen/qwen2.5-coder-32b-instruct");
    reveal_strlit("@cf/baai/bge-large-en-v1.5");
    reveal_strlit("@cf/baai/bge-m3");
    reveal_strlit("@cf/black-forest-labs/flux-1-schnell");
    reveal_strlit("@cf/bytedance/stable-diffusion-xl-lightning");
    let ids = Seq::new(catalog().len(), |i: int| catalog()[i].id);
    assert(ids[0][17] != ids[6][17]);
    assert(ids[1][4] != ids[10][4]);
    assert forall|i: int, j: int| 0 <= i < j < catalog().len() implies catalog()[i].id
        != catalog()[j].id by {
        assert(ids[i] == catalog()[i].id);
        assert(ids[j] == catalog()[j].id);
        if ids[i].len() == ids[j].len() {
            assert((i == 0 && j == 6) || (i == 1 && j == 10));
        }
    }
}

/// Each identifier of the catalog resolves to its own descriptor.
pub proof fn lemma_catalog_resolves_itself(i: int)
    requires
        0 <= i < catalog().len(),
    ensures
        resolved(catalog()[i].id) == catalog()[i],
{
    catalog_identifiers_are_distinct();
    lemma_first_with_id_found(catalog(), catalog()[i].id, i);
}

/// The catalog of models and the rule that stands in for the rest.
pub struct ModelRegistry;

impl ModelRegistry {
    /// The curated descriptors, in their fixed order.
    pub fn get_all_models() -> (models: Vec<ModelInfo>)
        ensures
            views(models@) == catalog(),
    {
        let mut models: Vec<ModelInfo> = Vec::new();
        models.push(
            describe(
                "@cf/meta/llama-3.1-8b-instruct",
                "Llama 3.1 8B Instruct",
                "Meta's Llama 3.1 8B instruction-tuned model for text generation",
                ModelCategory::Llm,
                100,
                build_prompt_schema(
                    Some("The text prompt to generate from"),
                    Some(
                        IntegerOption {
                            name: "max_tokens",
                            description: Some("Maximum tokens to generate"),
                            default: 256,
                        },
                    ),
                ),
            ),
        );
        models.push(
            describe(
                "@cf/mistral/mistral-7b-instruct-v0.1",
                "Mistral 7B Instruct",
                "Mistral's 7B instruction-tuned model for text generation",
                ModelCategory::Llm,
                90,
                build_prompt_schema(
                    Some("The text prompt to generate from"),
                    Some(
                        IntegerOption {
                            name: "max_tokens",
                            description: Some("Maximum tokens to generate"),
                            default: 256,
                        },
                    ),
                ),
            ),
        );
        models.push(
            describe(
                "@cf/baai/bge-base-en-v1.5",
                "BGE Base English v1.5",
                "BAAI's text embedding model for semantic search and similarity",
                ModelCategory::Embedding,
                10,
                build_text_schema("The text to generate embeddings for"),
            ),
        );
        models.push(
            describe(
                "@cf/stabilityai/stable-diffusion-xl-base-1.0",
                "Stable Diffusion XL",
                "Stability AI's SDXL model for high-quality image generation",
                ModelCategory::Image,
                5000,
                build_prompt_schema(
                    Some("The text prompt describing the image to generate"),
                    Some(
                        IntegerOption {
                            name: "num_steps",
                            description: Some("Number of denoising steps"),
                            default: 20,
                        },
                    ),
                ),
            ),
        );
        models.push(
            describe(
                "@cf/openai/whisper",
                "Whisper",
                "OpenAI's Whisper model for speech recognition and transcription",
                ModelCategory::Audio,
                100,
                build_audio_schema(
                    "Base64-encoded audio data",
                    Some("Language code (e.g., 'en' for English)"),
                ),
            ),
        );
        models.push(
            describe(
                "@cf/meta/llama-3.1-70b-instruct",
                "Llama 3.1 70B Instruct",
                "Meta's Llama 3.1 70B large-scale multilingual instruction model",
                ModelCategory::Llm,
                300,
                build_prompt_schema(
                    Some("The text prompt"),
                    Some(
                        IntegerOption {
                            name: "max_tokens",
                            description: None,
                            default: 256,
                        },
                    ),
                ),
            ),
        );
        models.push(
            describe(
                "@cf/meta/llama-3.2-1b-instruct",
                "Llama 3.2 1B Instruct",
                "Meta's Llama 3.2 1B small multilingual dialogue model",
                ModelCategory::Llm,
                50,
                build_prompt_schema(
                    Some("The text prompt"),
                    Some(
                        IntegerOption {
                            name: "max_tokens",
                            description: None,
                            default: 256,
                        },
                    ),
                ),
            ),
        );
        models.push(
            describe(
                "@cf/qwen/qwen2.5-coder-32b-instruct",
                "Qwen 2.5 Coder 32B",
                "Qwen's code-specific model for programming tasks",
                ModelCategory::Llm,
                200,
                build_prompt_schema(
                    Some("The code prompt"),
                    Some(
                        IntegerOption {
                            name: "max_tokens",
                            description: None,
                            default: 512,
                        },
                    ),
                ),
            ),
        );
        models.push(
            describe(
                "@cf/baai/bge-large-en-v1.5",
                "BGE Large English v1.5",
                "BAAI's large 1024-dimensional English embeddings",
                ModelCategory::Embedding,
                15,
                build_text_schema("Text to embed"),
            ),
        );
        models.push(
            describe(
                "@cf/baai/bge-m3",
                "BGE M3",
                "BAAI's multi-functional, multilingual, multi-granular embeddings",
                ModelCategory::Embedding,
                20,
                build_text_schema("Text to embed"),
            ),
        );
        models.push(
            describe(
                "@cf/black-forest-labs/flux-1-schnell",
                "Flux 1 Schnell",
                "Black Forest Labs' fast 12B parameter image generation model",
                ModelCategory::Image,
                4000,
                build_prompt_schema(
                    Some("Image description"),
                    Some(
                        IntegerOption {
                            name: "num_steps",
                            description: None,
                            default: 4,
                        },
                    ),
                ),
            ),
        );
        models.push(
            describe(
                "@cf/bytedance/stable-diffusion-xl-lightning",
                "Stable Diffusion XL Lightning",
                "ByteDance's high-quality 1024px image generation in few steps",
                ModelCategory::Image,
                3500,
                build_prompt_schema(
                    Some("Image description"),
                    Some(
                        IntegerOption {
                            name: "num_steps",
                            description: None,
                            default: 8,
                        },
                    ),
                ),
            ),
        );
        assert(views(models@) =~= catalog());
        models
    }

    /// The descriptor of `id`. Every identifier has one: the curated
    /// descriptor where the catalog holds the identifier, and otherwise one
    /// made up from the words in it.
    pub fn get_model(id: &str) -> (model: Option<ModelInfo>)
        ensures
            model is Some,
            model->0@ == resolved(id@),
    {
        let mut models = Self::get_all_models();
        let mut i: usize = 0;
        while i < models.len()
            invariant
                i <= models.len(),
                views(models@) == catalog(),
                forall|j: int| 0 <= j < i ==> catalog()[j].id != id@,
            decreases models.len() - i,
        {
            assert(catalog()[i as int] == models@[i as int]@);
            if str_eq(models[i].id.as_str(), id) {
                proof {
                    lemma_first_with_id_found(catalog(), id@, i as int);
                }
                return Some(models.swap_remove(i));
            }
            i += 1;
        }
        proof {
            lemma_first_with_id_absent(catalog(), id@);
        }
        Self::create_dynamic_model(id)
    }

    /// The descriptor that stands in for an identifier outside the catalog.
    fn create_dynamic_model(id: &str) -> (model: Option<ModelInfo>)
        ensures
            model is Some,
            model->0@ == synthesized(id@),
    {
        let found = detect(id);
        let (category, base_neurons, input_schema) = match found {
            Some(ModelCategory::Llm) => (
                ModelCategory::Llm,
                100u32,
                build_prompt_schema(Some("Text prompt"), None),
            ),
            Some(ModelCategory::Embedding) => (
                ModelCategory::Embedding,
                10u32,
                build_text_schema("Text to embed"),
            ),
            Some(ModelCategory::Image) => (
                ModelCategory::Image,
                5000u32,
                build_prompt_schema(Some("Image description"), None),
            ),
            Some(ModelCategory::Audio) => (
                ModelCategory::Audio,
                100u32,
                build_audio_schema("Base64 audio", None),
            ),
            None => (ModelCategory::Llm, 100u32, build_prompt_schema(None, None)),
        };
        let mut description = "Auto-detected model: ".to_owned();
        description.append(id);
        Some(
            ModelInfo {
                id: id.to_owned(),
                name: last_segment_replaced(id, '/', '-', ' '),
                description,
                category,
                base_neurons,
                input_schema,
            },
        )
    }
}

} // verus!
