use std::collections::HashMap;
use std::sync::RwLock;

use tokenizers::models::wordlevel::{WordLevel, WordLevelBuilder};
use tokenizers::models::ModelWrapper;
use vstd::prelude::*;

use crate::error::ModelError;
use crate::options::opt_view;
use crate::wordpiece::or_else;
use crate::model::{dropout_set_of, empty_vocab, kind_of, wordlevel_unk_of, same_entries, vocab_of, ModelKind, RbModel};

verus! {

#[verifier::external_type_specification]
#[verifier::external_body]
pub struct ExWordLevelBuilder(WordLevelBuilder);

/// The vocabulary a WordLevel builder holds.
pub uninterp spec fn wordlevel_builder_vocab(b: WordLevelBuilder) -> Map<Seq<char>, u32>;

/// Whether a WordLevel builder is set to read its vocabulary from a file.
pub uninterp spec fn wordlevel_builder_reads_files(b: WordLevelBuilder) -> bool;

/// The unknown token a WordLevel builder holds.
pub uninterp spec fn wordlevel_builder_unk(b: WordLevelBuilder) -> Seq<char>;

/// Relies on tokenizers' `WordLevel::builder`: an empty vocabulary, no files,
/// and the default unknown token.
#[verifier::external_body]
fn wordlevel_builder() -> (r: WordLevelBuilder)
    ensures
        wordlevel_builder_vocab(r) == empty_vocab(),
        !wordlevel_builder_reads_files(r),
        wordlevel_builder_unk(r) == "<unk>"@,
{
    WordLevel::builder()
}

/// Relies on tokenizers' `WordLevelBuilder::vocab`: it stores the vocabulary.
#[verifier::external_body]
fn set_vocab(b: WordLevelBuilder, vocab: HashMap<String, u32>) -> (r: WordLevelBuilder)
    ensures
        same_entries(vocab@, wordlevel_builder_vocab(r)),
        wordlevel_builder_reads_files(r) == wordlevel_builder_reads_files(b),
        wordlevel_builder_unk(r) == wordlevel_builder_unk(b),
{
    b.vocab(vocab)
}

/// Relies on tokenizers' `WordLevelBuilder::unk_token`: it stores the token.
#[verifier::external_body]
fn set_unk_token(b: WordLevelBuilder, unk: String) -> (r: WordLevelBuilder)
    ensures
        wordlevel_builder_vocab(r) == wordlevel_builder_vocab(b),
        wordlevel_builder_reads_files(r) == wordlevel_builder_reads_files(b),
        wordlevel_builder_unk(r) == unk@,
{
    b.unk_token(unk)
}

/// Relies on tokenizers' `WordLevelBuilder::build`, and on `RwLock::new` to hold
/// the model: without files to read it succeeds, and the model keeps the
/// builder's vocabulary and unknown token; these models have no dropout.
#[verifier::external_body]
fn build_wordlevel(b: WordLevelBuilder) -> (r: Result<RwLock<ModelWrapper>, String>)
    requires
        !wordlevel_builder_reads_files(b),
    ensures
        r matches Ok(h) ==> !dropout_set_of(h) && vocab_of(h) == wordlevel_builder_vocab(b) && kind_of(h)
            == ModelKind::WordLevel,
        r matches Ok(h) ==> wordlevel_unk_of(h) == wordlevel_builder_unk(b),
        r is Ok,
{
    b.build().map(|m| RwLock::new(ModelWrapper::from(m))).map_err(|e| e.to_string())
}

/// Construction of word-level models.
pub struct RbWordLevel {}

impl RbWordLevel {
    /// Builds a word-level model; both the vocabulary and the unknown token
    /// (by default `<unk>`) are optional, and construction always succeeds.
    pub fn new(vocab: Option<HashMap<String, u32>>, unk_token: Option<String>) -> (r: Result<
        RbModel,
        ModelError,
    >)
        ensures
            r is Ok,
            r matches Ok(m) ==> m.kind() == ModelKind::WordLevel && !m.dropout_set(),
            r matches Ok(m) ==> match vocab {
                Some(v) => same_entries(v@, m.vocab()),
                None => m.vocab() == empty_vocab(),
            },
            r matches Ok(m) ==> m.wordlevel_unk() == or_else(opt_view(unk_token), "<unk>"@),
    {
        let mut b = wordlevel_builder();
        if let Some(v) = vocab {
            b = set_vocab(b, v);
        }
        if let Some(u) = unk_token {
            b = set_unk_token(b, u);
        }
        match build_wordlevel(b) {
            Ok(h) => Ok(RbModel::from_shared(h)),
            Err(e) => Err(ModelError::Build(e)),
        }
    }
}

} // verus!
