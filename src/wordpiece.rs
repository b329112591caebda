use std::collections::HashMap;
use std::sync::RwLock;

use tokenizers::models::wordpiece::{WordPiece, WordPieceBuilder};
use tokenizers::models::ModelWrapper;
use vstd::prelude::*;

use crate::error::ModelError;
use crate::model::{dropout_set_of, empty_vocab, kind_of, wordpiece_max_of, wordpiece_prefix_of, wordpiece_unk_of, same_entries, vocab_of, ModelKind, RbModel};
use crate::options::{
    count_of, given_wordpiece, parse_wordpiece_options, text_of, wordpiece_options_ok, Kwargs,
};

verus! {

#[verifier::external_type_specification]
#[verifier::external_body]
pub struct ExWordPieceBuilder(WordPieceBuilder);

/// The vocabulary a WordPiece builder holds.
pub uninterp spec fn wordpiece_builder_vocab(b: WordPieceBuilder) -> Map<Seq<char>, u32>;

/// Whether a WordPiece builder is set to read its vocabulary from a file.
pub uninterp spec fn wordpiece_builder_reads_files(b: WordPieceBuilder) -> bool;

/// The unknown token a WordPiece builder holds.
pub uninterp spec fn wordpiece_builder_unk(b: WordPieceBuilder) -> Seq<char>;

/// The continuing-subword prefix a WordPiece builder holds.
pub uninterp spec fn wordpiece_builder_prefix(b: WordPieceBuilder) -> Seq<char>;

/// The word length limit, in characters, a WordPiece builder holds.
pub uninterp spec fn wordpiece_builder_max(b: WordPieceBuilder) -> usize;

/// The two builders hold the same vocabulary and files setting.
pub open spec fn wordpiece_builder_same_vocab(a: WordPieceBuilder, b: WordPieceBuilder) -> bool {
    &&& wordpiece_builder_vocab(a) == wordpiece_builder_vocab(b)
    &&& wordpiece_builder_reads_files(a) == wordpiece_builder_reads_files(b)
}

/// The value an option asks for, or the builder's own where it is not given.
pub open spec fn or_else<T>(given: Option<T>, kept: T) -> T {
    match given {
        Some(x) => x,
        None => kept,
    }
}

/// Relies on tokenizers' `WordPiece::builder`: an empty vocabulary, no files,
/// and the default unknown token, prefix and length limit.
#[verifier::external_body]
fn wordpiece_builder() -> (r: WordPieceBuilder)
    ensures
        wordpiece_builder_vocab(r) == empty_vocab(),
        !wordpiece_builder_reads_files(r),
        wordpiece_builder_unk(r) == "[UNK]"@,
        wordpiece_builder_prefix(r) == "##"@,
        wordpiece_builder_max(r) == 100,
{
    WordPiece::builder()
}

/// Relies on tokenizers' `WordPieceBuilder::vocab`: it stores the vocabulary.
#[verifier::external_body]
fn set_vocab(b: WordPieceBuilder, vocab: HashMap<String, u32>) -> (r: WordPieceBuilder)
    ensures
        same_entries(vocab@, wordpiece_builder_vocab(r)),
        wordpiece_builder_reads_files(r) == wordpiece_builder_reads_files(b),
        wordpiece_builder_unk(r) == wordpiece_builder_unk(b),
        wordpiece_builder_prefix(r) == wordpiece_builder_prefix(b),
        wordpiece_builder_max(r) == wordpiece_builder_max(b),
{
    b.vocab(vocab)
}

/// Relies on tokenizers' `WordPieceBuilder::unk_token`: it stores the token.
#[verifier::external_body]
fn set_unk_token(b: WordPieceBuilder, unk: String) -> (r: WordPieceBuilder)
    ensures
        wordpiece_builder_same_vocab(r, b),
        wordpiece_builder_unk(r) == unk@,
        wordpiece_builder_prefix(r) == wordpiece_builder_prefix(b),
        wordpiece_builder_max(r) == wordpiece_builder_max(b),
{
    b.unk_token(unk)
}

/// Relies on tokenizers' `WordPieceBuilder::max_input_chars_per_word`: it stores the limit.
#[verifier::external_body]
fn set_max_input_chars_per_word(b: WordPieceBuilder, max: usize) -> (r: WordPieceBuilder)
    ensures
        wordpiece_builder_same_vocab(r, b),
        wordpiece_builder_unk(r) == wordpiece_builder_unk(b),
        wordpiece_builder_prefix(r) == wordpiece_builder_prefix(b),
        wordpiece_builder_max(r) == max,
{
    b.max_input_chars_per_word(max)
}

/// Relies on tokenizers' `WordPieceBuilder::continuing_subword_prefix`: it stores the prefix.
#[verifier::external_body]
fn set_continuing_subword_prefix(b: WordPieceBuilder, prefix: String) -> (r: WordPieceBuilder)
    ensures
        wordpiece_builder_same_vocab(r, b),
        wordpiece_builder_unk(r) == wordpiece_builder_unk(b),
        wordpiece_builder_prefix(r) == prefix@,
        wordpiece_builder_max(r) == wordpiece_builder_max(b),
{
    b.continuing_subword_prefix(prefix)
}

/// Relies on tokenizers' `WordPieceBuilder::build`, and on `RwLock::new` to hold
/// the model: without files to read it succeeds, and the model keeps the
/// builder's vocabulary, unknown token, prefix and length limit; these models
/// have no dropout.
#[verifier::external_body]
fn build_wordpiece(b: WordPieceBuilder) -> (r: Result<RwLock<ModelWrapper>, String>)
    requires
        !wordpiece_builder_reads_files(b),
    ensures
        r matches Ok(h) ==> !dropout_set_of(h) && vocab_of(h) == wordpiece_builder_vocab(b) && kind_of(h)
            == ModelKind::WordPiece,
        r matches Ok(h) ==> wordpiece_unk_of(h) == wordpiece_builder_unk(b) && wordpiece_prefix_of(h)
            == wordpiece_builder_prefix(b) && wordpiece_max_of(h) == wordpiece_builder_max(b),
        r is Ok,
{
    b.build().map(|m| RwLock::new(ModelWrapper::from(m))).map_err(|e| e.to_string())
}

/// Construction of wordpiece models.
pub struct RbWordPiece {}

impl RbWordPiece {
    fn with_builder(builder: WordPieceBuilder, kwargs: Kwargs) -> (r: Result<RbModel, ModelError>)
        requires
            !wordpiece_builder_reads_files(builder),
        ensures
            r is Ok <==> wordpiece_options_ok(kwargs@),
            r matches Err(e) ==> e is Argument,
            r matches Ok(m) ==> m.kind() == ModelKind::WordPiece && !m.dropout_set() && m.vocab()
                == wordpiece_builder_vocab(builder),
            r matches Ok(m) ==> m.wordpiece_config() == (
                or_else(text_of(given_wordpiece(kwargs@, 0)), wordpiece_builder_unk(builder)),
                or_else(text_of(given_wordpiece(kwargs@, 2)), wordpiece_builder_prefix(builder)),
                or_else(count_of(given_wordpiece(kwargs@, 1)), wordpiece_builder_max(builder)),
            ),
    {
        let settings = match parse_wordpiece_options(&kwargs) {
            Ok(s) => s,
            Err(e) => return Err(e),
        };
        let mut b = builder;
        if let Some(u) = settings.unk_token {
            b = set_unk_token(b, u);
        }
        if let Some(n) = settings.max_input_chars_per_word {
            b = set_max_input_chars_per_word(b, n);
        }
        if let Some(p) = settings.continuing_subword_prefix {
            b = set_continuing_subword_prefix(b, p);
        }
        match build_wordpiece(b) {
            Ok(h) => Ok(RbModel::from_shared(h)),
            Err(e) => Err(ModelError::Build(e)),
        }
    }

    /// Builds a wordpiece model from an optional vocabulary and keyword options
    /// (`unk_token`, `max_input_chars_per_word`, `continuing_subword_prefix`;
    /// by default `[UNK]`, 100 and `##`).
    pub fn new(vocab: Option<HashMap<String, u32>>, kwargs: Kwargs) -> (r: Result<RbModel, ModelError>)
        ensures
            r is Ok <==> wordpiece_options_ok(kwargs@),
            r matches Err(e) ==> e is Argument,
            r matches Ok(m) ==> m.kind() == ModelKind::WordPiece && !m.dropout_set(),
            r matches Ok(m) ==> match vocab {
                Some(v) => same_entries(v@, m.vocab()),
                None => m.vocab() == empty_vocab(),
            },
            r matches Ok(m) ==> m.wordpiece_config() == (
                or_else(text_of(given_wordpiece(kwargs@, 0)), "[UNK]"@),
                or_else(text_of(given_wordpiece(kwargs@, 2)), "##"@),
                or_else(count_of(given_wordpiece(kwargs@, 1)), 100usize),
            ),
    {
        let mut b = wordpiece_builder();
        if let Some(v) = vocab {
            b = set_vocab(b, v);
        }
        RbWordPiece::with_builder(b, kwargs)
    }
}

} // verus!
