//! Error taxonomy of the echo pipeline, and the diagnostic data its
//! variants carry.

use std::collections::hash_map::DefaultHasher;
use std::hash::Hasher;
use vstd::prelude::*;
use vstd::std_specs::hash::DefaultHasherAdditionalSpecFns;
use vstd::string::{StrSliceExecFns, StringExecFns};
use vstd::utf8::encode_utf8;

verus! {

/// Maximum allowed input size of the library-wide echo (1 MB).
pub const MAX_INPUT_SIZE: usize = 1_000_000;

/// Default maximum size of a configuration.
pub const DEFAULT_MAX_SIZE: usize = 1_000_000;

/// Number of characters kept in the preview of a rejected input.
pub const PREVIEW_CHARS: usize = 50;

/// Result type for template operations.
pub type TemplateResult<T> = Result<T, TemplateError>;

/// Errors that can occur when running the echo pipeline.
#[derive(Debug, Clone, PartialEq)]
pub enum TemplateError {
    /// Input string exceeds the maximum allowed size.
    InputTooLarge {
        /// The byte size of the input that was provided.
        size: u64,
        /// The maximum allowed size.
        max: u64,
        /// Hash of the input, for debugging without keeping the input.
        hash: String,
    },
    /// Input validation failed.
    InvalidInput {
        /// What was wrong with the input.
        error_message: String,
        /// The first characters of the input.
        input_preview: Option<String>,
    },
    /// The operation was cancelled through its signal.
    OperationCancelled {
        /// Name of the operation that was cancelled.
        operation: String,
    },
}

/// The abstract value of a [`TemplateError`]: its variant and the text of
/// its fields.
pub enum TemplateErrorView {
    TooLarge { size: u64, max: u64, hash: Seq<char> },
    Malformed { message: Seq<char>, preview: Option<Seq<char>> },
    Cancelled { operation: Seq<char> },
}

/// The text of an optional string.
pub open spec fn option_text(o: Option<String>) -> Option<Seq<char>> {
    match o {
        Some(s) => Some(s@),
        None => None,
    }
}

impl View for TemplateError {
    type V = TemplateErrorView;

    open spec fn view(&self) -> TemplateErrorView {
        match self {
            TemplateError::InputTooLarge { size, max, hash } => TemplateErrorView::TooLarge {
                size: *size,
                max: *max,
                hash: hash@,
            },
            TemplateError::InvalidInput { error_message, input_preview } =>
                TemplateErrorView::Malformed {
                message: error_message@,
                preview: option_text(*input_preview),
            },
            TemplateError::OperationCancelled { operation } => TemplateErrorView::Cancelled {
                operation: operation@,
            },
        }
    }
}

/// The character of a hexadecimal digit, lower case.
pub open spec fn hex_digit(d: nat) -> char {
    if d < 10 {
        (('0' as u8) + d) as char
    } else {
        (('a' as u8) + (d - 10)) as char
    }
}

/// `n` written in lower-case hexadecimal, without prefix or leading zeros.
pub open spec fn lower_hex(n: nat) -> Seq<char>
    decreases n,
{
    if n < 16 {
        seq![hex_digit(n)]
    } else {
        lower_hex(n / 16).push(hex_digit(n % 16))
    }
}

/// Every number has at least one hexadecimal digit.
pub proof fn lemma_lower_hex_nonempty(n: nat)
    ensures
        lower_hex(n).len() > 0,
{
}

/// The 64-bit diagnostic hash of a text: the standard hasher fed the text's
/// bytes and the `0xff` terminator that `str`'s `Hash` adds.
pub open spec fn diagnostic_hash(s: Seq<char>) -> u64 {
    DefaultHasher::spec_finish(seq![encode_utf8(s), seq![0xffu8]])
}

/// The hash recorded for an oversized input.
pub open spec fn hash_text(s: Seq<char>) -> Seq<char> {
    lower_hex(diagnostic_hash(s) as nat)
}

/// The preview kept for a malformed input: the whole text when it is short,
/// else its first characters followed by an ellipsis.
pub open spec fn preview_of(s: Seq<char>) -> Seq<char> {
    if s.len() > PREVIEW_CHARS {
        s.subrange(0, PREVIEW_CHARS as int) + seq!['.', '.', '.']
    } else {
        s
    }
}

/// Relies on the `{:x}` format of `u64`: lower-case hexadecimal digits,
/// without prefix and without leading zeros.
#[verifier::external_body]
fn to_lower_hex(n: u64) -> (r: String)
    ensures
        r@ == lower_hex(n as nat),
{
    format!("{:x}", n)
}

/// Hashes a text deterministically, as `str`'s `Hash` feeds the standard
/// hasher.
fn calculate_hash(input: &str) -> (r: u64)
    ensures
        r == diagnostic_hash(input@),
{
    let mut hasher = DefaultHasher::new();
    hasher.write(input.as_bytes());
    let terminator: Vec<u8> = vec![0xff];
    assert(terminator@ =~= seq![0xffu8]);
    hasher.write(terminator.as_slice());
    assert(hasher@ =~= seq![encode_utf8(input@), seq![0xffu8]]);
    hasher.finish()
}

/// The preview of a text: at most the first `PREVIEW_CHARS` characters,
/// followed by `...` when some were left out.
fn preview(s: &str) -> (r: String)
    ensures
        r@ == preview_of(s@),
{
    if s.unicode_len() > PREVIEW_CHARS {
        let head = s.substring_char(0, PREVIEW_CHARS);
        let r = head.to_owned().concat("...");
        proof {
            reveal_strlit("...");
        }
        assert(r@ =~= preview_of(s@));
        r
    } else {
        s.to_owned()
    }
}

impl TemplateError {
    /// Creates an `InputTooLarge` error, with the hash of the input.
    pub fn input_too_large(size: usize, max: usize, input: &str) -> (r: Self)
        ensures
            r@ == (TemplateErrorView::TooLarge {
                size: size as u64,
                max: max as u64,
                hash: hash_text(input@),
            }),
    {
        let hash = calculate_hash(input);
        TemplateError::InputTooLarge { size: size as u64, max: max as u64, hash: to_lower_hex(hash) }
    }

    /// Creates an `InvalidInput` error, with a preview of the input if any.
    pub fn invalid_input(error_message: String, input: Option<&str>) -> (r: Self)
        ensures
            r@ == (TemplateErrorView::Malformed {
                message: error_message@,
                preview: match input {
                    Some(s) => Some(preview_of(s@)),
                    None => None,
                },
            }),
    {
        let input_preview = match input {
            Some(s) => Some(preview(s)),
            None => None,
        };
        TemplateError::InvalidInput { error_message, input_preview }
    }

    /// Creates an `OperationCancelled` error.
    pub fn operation_cancelled(operation: &str) -> (r: Self)
        ensures
            r@ == (TemplateErrorView::Cancelled { operation: operation@ }),
    {
        TemplateError::OperationCancelled { operation: operation.to_owned() }
    }
}

} // verus!
