//! Model-file metadata: the backend named for a platform, the model family
//! read from a file name, the size class read from a file size, and the
//! GGUF magic number.

use vstd::prelude::*;

verus! {

/// Metadata information about a model file.
#[derive(Debug, Clone, PartialEq)]
pub struct ModelMetadata {
    /// Family of the model (`llama`, `phi`, `mistral`, `gemma` or `unknown`).
    pub model_type: String,
    /// Size of the model vocabulary.
    pub vocab_size: u32,
    /// Maximum context length in tokens.
    pub context_length: u32,
    /// Dimensionality of the model embeddings.
    pub embedding_dimensions: u32,
    /// Approximate parameter count (`7B`, `13B`, ...).
    pub parameter_count: String,
    /// File size in bytes.
    pub file_size_bytes: u64,
}

/// Vocabulary size assumed for a GGUF file whose header is not parsed.
pub const DEFAULT_VOCAB_SIZE: u32 = 32000;

/// Context length assumed for a GGUF file whose header is not parsed.
pub const DEFAULT_CONTEXT_LENGTH: u32 = 2048;

/// Embedding width assumed for a GGUF file whose header is not parsed.
pub const DEFAULT_EMBEDDING_DIMENSIONS: u32 = 4096;

/// Whether two texts are equal.
fn same_text(a: &str, b: &str) -> (r: bool)
    ensures
        r == (a@ == b@),
{
    a.to_owned() == b.to_owned()
}

/// The compute backend used on a platform, named by its operating system
/// and architecture as Rust's target constants name them.
pub open spec fn backend_for(os: Seq<char>, arch: Seq<char>) -> Seq<char> {
    if os == "macos"@ {
        "Metal (Apple Silicon)"@
    } else if os == "ios"@ {
        "Metal (iOS)"@
    } else if os == "android"@ && arch == "aarch64"@ {
        "CPU (Android ARM64)"@
    } else if os == "android"@ {
        "CPU (Android)"@
    } else {
        "CPU"@
    }
}

/// Names the compute backend available on a platform.
pub fn detect_backend(os: &str, arch: &str) -> (r: &'static str)
    ensures
        r@ == backend_for(os@, arch@),
{
    if same_text(os, "macos") {
        "Metal (Apple Silicon)"
    } else if same_text(os, "ios") {
        "Metal (iOS)"
    } else if same_text(os, "android") && same_text(arch, "aarch64") {
        "CPU (Android ARM64)"
    } else if same_text(os, "android") {
        "CPU (Android)"
    } else {
        "CPU"
    }
}

/// Whether `needle` occurs in `hay` as a contiguous run of characters.
pub open spec fn has_substring(hay: Seq<char>, needle: Seq<char>) -> bool {
    exists|i: int|
        0 <= i && i + needle.len() <= hay.len() && #[trigger] hay.subrange(i, i + needle.len())
            == needle
}

/// Relies on `str::contains` with a `&str` pattern: whether the pattern
/// occurs in the text.
#[verifier::external_body]
fn text_contains(hay: &str, needle: &str) -> (r: bool)
    ensures
        r == has_substring(hay@, needle@),
{
    hay.contains(needle)
}

/// The lower-case form of a text, as Unicode defines it.
pub uninterp spec fn lower_of(s: Seq<char>) -> Seq<char>;

/// Relies on `str::to_lowercase`: the result depends on the characters
/// alone.
#[verifier::external_body]
fn lowercase(s: &str) -> (r: String)
    ensures
        r@ == lower_of(s@),
{
    s.to_lowercase()
}

/// The model family that a lower-case file name mentions, checked in a
/// fixed order.
pub open spec fn model_type_of(name: Seq<char>) -> Seq<char> {
    if has_substring(name, "llama"@) {
        "llama"@
    } else if has_substring(name, "phi"@) {
        "phi"@
    } else if has_substring(name, "mistral"@) {
        "mistral"@
    } else if has_substring(name, "gemma"@) {
        "gemma"@
    } else {
        "unknown"@
    }
}

/// Names the model family that a file name, already in lower case,
/// mentions.
pub fn model_type_of_lowercase(name: &str) -> (r: &'static str)
    ensures
        r@ == model_type_of(name@),
{
    if text_contains(name, "llama") {
        "llama"
    } else if text_contains(name, "phi") {
        "phi"
    } else if text_contains(name, "mistral") {
        "mistral"
    } else if text_contains(name, "gemma") {
        "gemma"
    } else {
        "unknown"
    }
}

/// Infers the model family from a file name, ignoring case.
pub fn infer_model_type(file_name: &str) -> (r: String)
    ensures
        r@ == model_type_of(lower_of(file_name@)),
{
    let lower = lowercase(file_name);
    model_type_of_lowercase(lower.as_str()).to_owned()
}

/// The parameter-count class of a quantized model file of `size` bytes,
/// by whole mebibytes.
pub open spec fn parameter_class(size: u64) -> Seq<char> {
    let mb = size as nat / 1048576;
    if mb <= 100 {
        "< 1B"@
    } else if mb <= 500 {
        "1B"@
    } else if mb <= 1000 {
        "3B"@
    } else if mb <= 2000 {
        "7B"@
    } else if mb <= 5000 {
        "13B"@
    } else if mb <= 15000 {
        "30B"@
    } else {
        "70B+"@
    }
}

/// Estimates the parameter count from the file size, when it is known.
pub fn estimate_parameter_count(file_size: Option<u64>) -> (r: &'static str)
    ensures
        file_size is None ==> r@ == "unknown"@,
        file_size is Some ==> r@ == parameter_class(file_size->Some_0),
{
    match file_size {
        None => "unknown",
        Some(size) => {
            let mb = size / (1024 * 1024);
            if mb <= 100 {
                "< 1B"
            } else if mb <= 500 {
                "1B"
            } else if mb <= 1000 {
                "3B"
            } else if mb <= 2000 {
                "7B"
            } else if mb <= 5000 {
                "13B"
            } else if mb <= 15000 {
                "30B"
            } else {
                "70B+"
            }
        },
    }
}

/// Whether a file header starts with the GGUF magic number, `GGUF` in ASCII.
pub open spec fn is_gguf_header(header: Seq<u8>) -> bool {
    header.len() >= 4 && header.subrange(0, 4) == seq![0x47u8, 0x47u8, 0x55u8, 0x46u8]
}

/// Checks the GGUF magic number at the start of a file header.
pub fn has_gguf_magic(header: &[u8]) -> (r: bool)
    ensures
        r == is_gguf_header(header@),
{
    if header.len() < 4 {
        return false;
    }
    let r = header[0] == 0x47 && header[1] == 0x47 && header[2] == 0x55 && header[3] == 0x46;
    assert(r ==> header@.subrange(0, 4) =~= seq![0x47u8, 0x47u8, 0x55u8, 0x46u8]);
    r
}

/// Builds the metadata of a model file from its name, the first bytes of
/// its contents and its size, when the bytes carry the GGUF magic number;
/// the fields that a full header parse would give take common defaults.
pub fn gguf_metadata(file_name: &str, header: &[u8], file_size: u64) -> (r: Option<
    ModelMetadata,
>)
    ensures
        r is Some <==> is_gguf_header(header@),
        r is Some ==> r->Some_0.model_type@ == model_type_of(lower_of(file_name@)),
        r is Some ==> r->Some_0.vocab_size == DEFAULT_VOCAB_SIZE,
        r is Some ==> r->Some_0.context_length == DEFAULT_CONTEXT_LENGTH,
        r is Some ==> r->Some_0.embedding_dimensions == DEFAULT_EMBEDDING_DIMENSIONS,
        r is Some ==> r->Some_0.parameter_count@ == parameter_class(file_size),
        r is Some ==> r->Some_0.file_size_bytes == file_size,
{
    if !has_gguf_magic(header) {
        return None;
    }
    Some(
        ModelMetadata {
            model_type: infer_model_type(file_name),
            vocab_size: DEFAULT_VOCAB_SIZE,
            context_length: DEFAULT_CONTEXT_LENGTH,
            embedding_dimensions: DEFAULT_EMBEDDING_DIMENSIONS,
            parameter_count: estimate_parameter_count(Some(file_size)).to_owned(),
            file_size_bytes: file_size,
        },
    )
}

} // verus!
