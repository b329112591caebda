use std::collections::HashMap;
use std::sync::{Arc, RwLock};

use tokenizers::models::{ModelWrapper, TrainerWrapper};
use tokenizers::Model;
use vstd::prelude::*;
use vstd::utf8::encode_utf8;

use crate::error::ModelError;

verus! {

#[verifier::external_type_specification]
#[verifier::external_body]
pub struct ExModelWrapper(ModelWrapper);

#[verifier::external_type_specification]
#[verifier::external_body]
pub struct ExTrainerWrapper(TrainerWrapper);

#[verifier::external_type_specification]
#[verifier::external_body]
#[verifier::reject_recursive_types(T)]
pub struct ExRwLock<T: ?Sized>(RwLock<T>);

/// The four tokenization algorithms.
#[derive(Debug, Clone, Copy, PartialEq, Eq, Structural)]
pub enum ModelKind {
    Bpe,
    Unigram,
    WordLevel,
    WordPiece,
}

/// The vocabulary, token to id, of the model under a lock.
pub uninterp spec fn vocab_of(m: RwLock<ModelWrapper>) -> Map<Seq<char>, u32>;

/// Which algorithm the model under a lock runs.
pub uninterp spec fn kind_of(m: RwLock<ModelWrapper>) -> ModelKind;

/// The unknown token of a BPE model under a lock.
pub uninterp spec fn bpe_unk_of(m: RwLock<ModelWrapper>) -> Option<Seq<char>>;

/// Whether the model under a lock drops merges at random (a BPE dropout is set).
pub uninterp spec fn dropout_set_of(m: RwLock<ModelWrapper>) -> bool;

/// What tokenizing `text` with the model under a lock gives, as text, id and
/// byte span of each token, where no dropout makes it random.
pub uninterp spec fn tokens_of(m: RwLock<ModelWrapper>, text: Seq<char>) -> Seq<
    (Seq<char>, u32, (usize, usize)),
>;

/// The vocabulary of a model not yet shared.
pub uninterp spec fn wrapper_vocab(m: ModelWrapper) -> Map<Seq<char>, u32>;

/// The algorithm of a model not yet shared.
pub uninterp spec fn wrapper_kind(m: ModelWrapper) -> ModelKind;

/// The unknown token of a BPE model not yet shared.
pub uninterp spec fn wrapper_bpe_unk(m: ModelWrapper) -> Option<Seq<char>>;

/// Whether a model not yet shared has a BPE dropout set.
pub uninterp spec fn wrapper_dropout_set(m: ModelWrapper) -> bool;

/// The continuing-subword prefix, end-of-word suffix and unknown-fusing flag of
/// a BPE model under a lock.
pub uninterp spec fn bpe_affixes_of(m: RwLock<ModelWrapper>) -> (Option<Seq<char>>, Option<Seq<char>>, bool);

/// The unknown token of a WordPiece model under a lock.
pub uninterp spec fn wordpiece_unk_of(m: RwLock<ModelWrapper>) -> Seq<char>;

/// The continuing-subword prefix of a WordPiece model under a lock.
pub uninterp spec fn wordpiece_prefix_of(m: RwLock<ModelWrapper>) -> Seq<char>;

/// The longest word, in characters, that a WordPiece model under a lock splits.
pub uninterp spec fn wordpiece_max_of(m: RwLock<ModelWrapper>) -> usize;

/// The unknown token of a WordLevel model under a lock.
pub uninterp spec fn wordlevel_unk_of(m: RwLock<ModelWrapper>) -> Seq<char>;

/// What a reverse lookup of `id` in the model under a lock answers.
pub uninterp spec fn id_token_of(m: RwLock<ModelWrapper>, id: u32) -> Option<Seq<char>>;

/// The tokens of a unigram model's scored list, in order.
pub uninterp spec fn unigram_pieces_of(m: RwLock<ModelWrapper>) -> Seq<Seq<char>>;

/// Which algorithm a trainer configuration trains.
pub uninterp spec fn trainer_kind(t: TrainerWrapper) -> ModelKind;

/// The id that the vocabulary gives a token, if any.
pub open spec fn lookup(v: Map<Seq<char>, u32>, t: Seq<char>) -> Option<u32> {
    if v.contains_key(t) {
        Some(v[t])
    } else {
        None
    }
}

/// The vocabulary with no entries.
pub open spec fn empty_vocab() -> Map<Seq<char>, u32> {
    Map::empty()
}

/// No two tokens share an id.
pub open spec fn ids_unique(v: Map<Seq<char>, u32>) -> bool {
    forall|a: Seq<char>, b: Seq<char>|
        v.contains_key(a) && v.contains_key(b) && #[trigger] v[a] == #[trigger] v[b] ==> a == b
}

/// Some token has the id.
pub open spec fn has_id(v: Map<Seq<char>, u32>, id: u32) -> bool {
    exists|t: Seq<char>| v.contains_key(t) && v[t] == id
}

/// What a reverse lookup of `id` may answer: a token of the vocabulary; the
/// one token with that id where ids are unique; and something whenever a
/// token has the id.
pub open spec fn reverse_lookup_ok(v: Map<Seq<char>, u32>, id: u32, r: Option<Seq<char>>) -> bool {
    &&& (r matches Some(s) ==> v.contains_key(s))
    &&& (has_id(v, id) ==> r is Some)
    &&& (ids_unique(v) ==> forall|t: Seq<char>|
        v.contains_key(t) && v[t] == id ==> r == Some(t))
}

/// A map keyed by strings holds the same entries as a vocabulary.
pub open spec fn same_entries(m: Map<String, u32>, v: Map<Seq<char>, u32>) -> bool {
    &&& forall|k: String| #[trigger] m.contains_key(k) ==> v.contains_key(k@) && v[k@] == m[k]
    &&& forall|t: Seq<char>| #[trigger] v.contains_key(t) ==> exists|k: String|
        m.contains_key(k) && k@ == t
    &&& m.len() == v.len()
}

/// One output unit of tokenization: its text, its id and its byte span in the input.
#[derive(Debug)]
pub struct Token {
    pub value: String,
    pub id: u32,
    pub offsets: (usize, usize),
}

/// Each token as its text, id and byte span.
pub open spec fn token_views(ts: Seq<Token>) -> Seq<(Seq<char>, u32, (usize, usize))> {
    ts.map_values(|t: Token| (t.value@, t.id, t.offsets))
}

/// Each span starts no later than it ends, and the spans follow one another.
pub open spec fn spans_ordered(ts: Seq<Token>) -> bool {
    &&& forall|i: int| 0 <= i < ts.len() ==> #[trigger] ts[i].offsets.0 <= ts[i].offsets.1
    &&& forall|i: int| 0 <= i < ts.len() - 1 ==> #[trigger] ts[i].offsets.1 <= ts[i + 1].offsets.0
}

/// The byte span of the whole text.
pub open spec fn whole_span(text: Seq<char>) -> (usize, usize) {
    (0usize, encode_utf8(text).len() as usize)
}

/// Word-level tokenization: the word itself if the vocabulary has it, else the
/// unknown token if the vocabulary has that, else nothing (an error).
pub open spec fn wordlevel_tokens(v: Map<Seq<char>, u32>, unk: Seq<char>, text: Seq<char>) -> Option<
    Seq<(Seq<char>, u32, (usize, usize))>,
> {
    if v.contains_key(text) {
        Some(seq![(text, v[text], whole_span(text))])
    } else if v.contains_key(unk) {
        Some(seq![(unk, v[unk], whole_span(text))])
    } else {
        None
    }
}

/// The piece of `text` from character `st` to `e`, with the continuing-subword
/// prefix in front of any piece but the first.
pub open spec fn wordpiece_piece(prefix: Seq<char>, text: Seq<char>, st: int, e: int) -> Seq<char> {
    if st > 0 {
        prefix + text.subrange(st, e)
    } else {
        text.subrange(st, e)
    }
}

/// The byte offset of character `i` of `text`.
pub open spec fn byte_at(text: Seq<char>, i: int) -> usize {
    encode_utf8(text.take(i)).len() as usize
}

/// The largest end, down from `e`, of a piece starting at `st` that the
/// vocabulary has.
pub open spec fn wordpiece_longest(
    v: Map<Seq<char>, u32>,
    prefix: Seq<char>,
    text: Seq<char>,
    st: int,
    e: int,
) -> Option<int>
    decreases e - st,
{
    if e <= st {
        None
    } else if v.contains_key(wordpiece_piece(prefix, text, st, e)) {
        Some(e)
    } else {
        wordpiece_longest(v, prefix, text, st, e - 1)
    }
}

/// Greedy longest-match split of `text` from character `st` on; nothing where
/// some position matches no piece.
pub open spec fn wordpiece_split(
    v: Map<Seq<char>, u32>,
    prefix: Seq<char>,
    text: Seq<char>,
    st: int,
) -> Option<Seq<(Seq<char>, u32, (usize, usize))>>
    decreases text.len() - st,
{
    if st >= text.len() {
        Some(Seq::empty())
    } else {
        match wordpiece_longest(v, prefix, text, st, text.len() as int) {
            None => None,
            Some(e) => if e <= st || e > text.len() {
                None
            } else {
                match wordpiece_split(v, prefix, text, e) {
                    None => None,
                    Some(rest) => {
                        let piece = wordpiece_piece(prefix, text, st, e);
                        Some(seq![(piece, v[piece], (byte_at(text, st), byte_at(text, e)))] + rest)
                    },
                }
            },
        }
    }
}

/// Wordpiece tokenization: a word over the limit, or one that does not split
/// into vocabulary pieces, becomes the unknown token alone.
pub open spec fn wordpiece_tokens(
    v: Map<Seq<char>, u32>,
    unk: Seq<char>,
    prefix: Seq<char>,
    max: usize,
    text: Seq<char>,
) -> Option<Seq<(Seq<char>, u32, (usize, usize))>> {
    if text.len() > max {
        wordpiece_long_tokens(v, unk, text)
    } else {
        match wordpiece_split(v, prefix, text, 0) {
            Some(ts) => Some(ts),
            None => wordpiece_long_tokens(v, unk, text),
        }
    }
}

/// A wordpiece model maps a word longer than its limit to the unknown token
/// alone, or fails where the vocabulary lacks that token.
pub open spec fn wordpiece_long_tokens(v: Map<Seq<char>, u32>, unk: Seq<char>, text: Seq<char>) -> Option<
    Seq<(Seq<char>, u32, (usize, usize))>,
> {
    if v.contains_key(unk) {
        Some(seq![(unk, v[unk], whole_span(text))])
    } else {
        None
    }
}

/// Every token whose text is in the vocabulary carries that text's id.
pub open spec fn tokens_agree(v: Map<Seq<char>, u32>, ts: Seq<Token>) -> bool {
    forall|i: int|
        0 <= i < ts.len() && v.contains_key(#[trigger] ts[i].value@) ==> v[ts[i].value@]
            == ts[i].id
}

/// Relies on `RwLock::new`: the lock holds the model unchanged.
#[verifier::external_body]
fn share(m: ModelWrapper) -> (r: RwLock<ModelWrapper>)
    ensures
        vocab_of(r) == wrapper_vocab(m),
        kind_of(r) == wrapper_kind(m),
        bpe_unk_of(r) == wrapper_bpe_unk(m),
        dropout_set_of(r) == wrapper_dropout_set(m),
{
    RwLock::new(m)
}

/// Relies on `RwLock::read`, which fails only when a writer panicked holding
/// the lock, and on tokenizers' `Model::token_to_id` for `ModelWrapper`, a
/// lookup in the vocabulary.
#[verifier::external_body]
fn locked_token_to_id(h: &Arc<RwLock<ModelWrapper>>, token: &str) -> (r: Option<Option<u32>>)
    ensures
        r matches Some(x) ==> x == lookup(vocab_of(**h), token@),
{
    match h.read() {
        Ok(m) => Some(m.token_to_id(token)),
        Err(_) => None,
    }
}

/// Relies on `RwLock::read` and on tokenizers' `Model::id_to_token` for
/// `ModelWrapper`: a lookup in the reverse table built from the vocabulary
/// (for a unigram model, the entry at that index of its scored list).
#[verifier::external_body]
fn locked_id_to_token(h: &Arc<RwLock<ModelWrapper>>, id: u32) -> (r: Option<Option<String>>)
    ensures
        r matches Some(x) ==> reverse_lookup_ok(
            vocab_of(**h),
            id,
            match x {
                Some(s) => Some(s@),
                None => None,
            },
        ),
        r matches Some(x) ==> (kind_of(**h) != ModelKind::Unigram && !has_id(vocab_of(**h), id)
            ==> x is None),
        r matches Some(x) ==> id_token_of(**h, id) == match x {
            Some(s) => Some(s@),
            None => None,
        },
        r matches Some(x) ==> (kind_of(**h) == ModelKind::Unigram ==> id_token_of(**h, id) == (
        if id < unigram_pieces_of(**h).len() {
            Some(unigram_pieces_of(**h)[id as int])
        } else {
            None
        })),
{
    match h.read() {
        Ok(m) => Some(m.id_to_token(id)),
        Err(_) => None,
    }
}

/// Relies on `RwLock::read` and on tokenizers' `Model::get_vocab` for
/// `ModelWrapper`: a copy of the vocabulary.
#[verifier::external_body]
fn locked_vocab(h: &Arc<RwLock<ModelWrapper>>) -> (r: Option<HashMap<String, u32>>)
    ensures
        r matches Some(m) ==> same_entries(m@, vocab_of(**h)),
{
    match h.read() {
        Ok(m) => Some(m.get_vocab()),
        Err(_) => None,
    }
}

/// Relies on `RwLock::read` and on tokenizers' `Model::tokenize` for
/// `ModelWrapper`: a token whose text is in the vocabulary carries the id the
/// vocabulary gives that text (BPE, WordLevel and WordPiece take each token's
/// text from the vocabulary; a unigram model looks the text up). Without a
/// dropout the tokens depend on the model and the text alone; with one, the
/// spans are still running sums of piece lengths, in order. A word-level model
/// looks the whole word up, falling back on its unknown token; a wordpiece
/// model splits greedily by longest match from the front, and gives its
/// unknown token alone for a word over its limit or one that does not split.
#[verifier::external_body]
fn locked_tokenize(h: &Arc<RwLock<ModelWrapper>>, text: &str) -> (r: Option<
    Result<Vec<Token>, String>,
>)
    ensures
        r matches Some(Ok(ts)) ==> tokens_agree(vocab_of(**h), ts@),
        r matches Some(Ok(ts)) ==> (!dropout_set_of(**h) ==> token_views(ts@) == tokens_of(
            **h,
            text@,
        )),
        r matches Some(Ok(ts)) ==> (dropout_set_of(**h) ==> spans_ordered(ts@)),
        r matches Some(res) ==> (kind_of(**h) == ModelKind::WordLevel ==> (res is Ok
            <==> wordlevel_tokens(vocab_of(**h), wordlevel_unk_of(**h), text@) is Some)),
        r matches Some(Ok(ts)) ==> (kind_of(**h) == ModelKind::WordLevel ==> Some(token_views(ts@))
            == wordlevel_tokens(vocab_of(**h), wordlevel_unk_of(**h), text@)),
        r matches Some(res) ==> (kind_of(**h) == ModelKind::WordPiece ==> (res is Ok
            <==> wordpiece_tokens(
            vocab_of(**h),
            wordpiece_unk_of(**h),
            wordpiece_prefix_of(**h),
            wordpiece_max_of(**h),
            text@,
        ) is Some)),
        r matches Some(Ok(ts)) ==> (kind_of(**h) == ModelKind::WordPiece ==> Some(token_views(ts@))
            == wordpiece_tokens(
            vocab_of(**h),
            wordpiece_unk_of(**h),
            wordpiece_prefix_of(**h),
            wordpiece_max_of(**h),
            text@,
        )),
{
    match h.read() {
        Ok(m) => Some(
            m.tokenize(text).map(
                |ts| ts.into_iter().map(|t| Token { value: t.value, id: t.id, offsets: t.offsets }).collect(),
            ).map_err(|e| e.to_string()),
        ),
        Err(_) => None,
    }
}

/// Relies on `RwLock::read` and on telling the variants of tokenizers'
/// `ModelWrapper` apart.
#[verifier::external_body]
fn locked_kind(h: &Arc<RwLock<ModelWrapper>>) -> (r: Option<ModelKind>)
    ensures
        r matches Some(k) ==> k == kind_of(**h),
{
    match h.read() {
        Ok(m) => Some(match &*m {
            ModelWrapper::BPE(_) => ModelKind::Bpe,
            ModelWrapper::Unigram(_) => ModelKind::Unigram,
            ModelWrapper::WordLevel(_) => ModelKind::WordLevel,
            ModelWrapper::WordPiece(_) => ModelKind::WordPiece,
        }),
        Err(_) => None,
    }
}

/// Relies on `RwLock::read` and on tokenizers' `BPE::get_unk_token`.
#[verifier::external_body]
fn locked_bpe_unk(h: &Arc<RwLock<ModelWrapper>>) -> (r: Option<Option<Option<String>>>)
    ensures
        r matches Some(x) ==> (x is Some <==> kind_of(**h) == ModelKind::Bpe),
        r matches Some(Some(u)) ==> bpe_unk_of(**h) == match u {
            Some(s) => Some(s@),
            None => None,
        },
{
    match h.read() {
        Ok(m) => Some(match &*m {
            ModelWrapper::BPE(b) => Some(b.get_unk_token().clone()),
            _ => None,
        }),
        Err(_) => None,
    }
}

/// Relies on `RwLock::read` and on `Clone` for tokenizers' `ModelWrapper`: the
/// copy has the same vocabulary and algorithm.
#[verifier::external_body]
fn locked_copy(h: &Arc<RwLock<ModelWrapper>>) -> (r: Option<ModelWrapper>)
    ensures
        r matches Some(w) ==> wrapper_vocab(w) == vocab_of(**h) && wrapper_kind(w) == kind_of(**h),
{
    match h.read() {
        Ok(m) => Some(m.clone()),
        Err(_) => None,
    }
}

/// Relies on `RwLock::read` and on tokenizers' `Model::get_trainer` for
/// `ModelWrapper`: the trainer that fits the model's algorithm.
#[verifier::external_body]
fn locked_trainer(h: &Arc<RwLock<ModelWrapper>>) -> (r: Option<TrainerWrapper>)
    ensures
        r matches Some(t) ==> trainer_kind(t) == kind_of(**h),
{
    match h.read() {
        Ok(m) => Some(m.get_trainer()),
        Err(_) => None,
    }
}

/// Relies on `HashMap::len`: the number of entries in the map.
#[verifier::external_body]
fn entry_count(m: &HashMap<String, u32>) -> (r: usize)
    ensures
        r == m@.len(),
{
    m.len()
}

/// A model shared between callers: any number read it at once, and nothing in
/// this library ever writes it after construction.
#[derive(Clone)]
pub struct RbModel {
    model: Arc<RwLock<ModelWrapper>>,
}

impl RbModel {
    /// The model's vocabulary.
    pub closed spec fn vocab(&self) -> Map<Seq<char>, u32> {
        vocab_of(*self.model)
    }

    /// The model's algorithm.
    pub closed spec fn kind(&self) -> ModelKind {
        kind_of(*self.model)
    }

    /// The unknown token, for a BPE model.
    pub closed spec fn bpe_unk(&self) -> Option<Seq<char>> {
        bpe_unk_of(*self.model)
    }

    /// The unknown token, continuing-subword prefix and word length limit of a
    /// WordPiece model.
    pub closed spec fn wordpiece_config(&self) -> (Seq<char>, Seq<char>, usize) {
        (wordpiece_unk_of(*self.model), wordpiece_prefix_of(*self.model), wordpiece_max_of(*self.model))
    }

    /// The continuing-subword prefix, end-of-word suffix and unknown-fusing flag
    /// of a BPE model.
    pub closed spec fn bpe_affixes(&self) -> (Option<Seq<char>>, Option<Seq<char>>, bool) {
        bpe_affixes_of(*self.model)
    }

    /// The unknown token of a WordLevel model.
    pub closed spec fn wordlevel_unk(&self) -> Seq<char> {
        wordlevel_unk_of(*self.model)
    }

    /// What a reverse lookup of `id` answers.
    pub closed spec fn id_token(&self, id: u32) -> Option<Seq<char>> {
        id_token_of(*self.model, id)
    }

    /// The tokens of a unigram model's scored list, in order.
    pub closed spec fn unigram_pieces(&self) -> Seq<Seq<char>> {
        unigram_pieces_of(*self.model)
    }

    /// Whether tokenization drops merges at random.
    pub closed spec fn dropout_set(&self) -> bool {
        dropout_set_of(*self.model)
    }

    /// What tokenizing `text` gives where no dropout is set.
    pub closed spec fn tokens(&self, text: Seq<char>) -> Seq<(Seq<char>, u32, (usize, usize))> {
        tokens_of(*self.model, text)
    }

    pub(crate) fn from_shared(model: RwLock<ModelWrapper>) -> (r: RbModel)
        ensures
            r.vocab() == vocab_of(model),
            r.kind() == kind_of(model),
            r.bpe_unk() == bpe_unk_of(model),
            r.dropout_set() == dropout_set_of(model),
            r.wordpiece_config() == (wordpiece_unk_of(model), wordpiece_prefix_of(model), wordpiece_max_of(model)),
            r.wordlevel_unk() == wordlevel_unk_of(model),
            r.bpe_affixes() == bpe_affixes_of(model),
            forall|t: Seq<char>| #[trigger] r.tokens(t) == tokens_of(model, t),
    {
        RbModel { model: Arc::new(model) }
    }

    /// Shares a model that was built elsewhere.
    pub fn from_wrapper(m: ModelWrapper) -> (r: RbModel)
        ensures
            r.vocab() == wrapper_vocab(m),
            r.kind() == wrapper_kind(m),
            r.bpe_unk() == wrapper_bpe_unk(m),
            r.dropout_set() == wrapper_dropout_set(m),
    {
        RbModel::from_shared(share(m))
    }

    /// Splits a word into tokens with the model's algorithm.
    pub fn tokenize(&self, text: &str) -> (r: Result<Vec<Token>, ModelError>)
        ensures
            r matches Ok(ts) ==> tokens_agree(self.vocab(), ts@),
            r matches Ok(ts) ==> (!self.dropout_set() ==> token_views(ts@) == self.tokens(text@)),
            r matches Ok(ts) ==> (self.dropout_set() ==> spans_ordered(ts@)),
            r matches Ok(ts) ==> (self.kind() == ModelKind::WordLevel ==> Some(token_views(ts@))
                == wordlevel_tokens(self.vocab(), self.wordlevel_unk(), text@)),
            r matches Err(e) ==> (self.kind() == ModelKind::WordLevel && e is Algorithm ==> wordlevel_tokens(
                self.vocab(),
                self.wordlevel_unk(),
                text@,
            ) is None),
            r matches Ok(ts) ==> (self.kind() == ModelKind::WordPiece ==> Some(token_views(ts@))
                == wordpiece_tokens(
                self.vocab(),
                self.wordpiece_config().0,
                self.wordpiece_config().1,
                self.wordpiece_config().2,
                text@,
            )),
            r matches Err(e) ==> (self.kind() == ModelKind::WordPiece && e is Algorithm
                ==> wordpiece_tokens(
                self.vocab(),
                self.wordpiece_config().0,
                self.wordpiece_config().1,
                self.wordpiece_config().2,
                text@,
            ) is None),
            r matches Err(e) ==> e is Algorithm || e is LockCorruption,
    {
        match locked_tokenize(&self.model, text) {
            Some(Ok(ts)) => Ok(ts),
            Some(Err(m)) => Err(ModelError::Algorithm(m)),
            None => Err(ModelError::LockCorruption),
        }
    }

    /// The id of a token, found by exact match.
    pub fn token_to_id(&self, token: &str) -> (r: Result<Option<u32>, ModelError>)
        ensures
            r matches Ok(x) ==> x == lookup(self.vocab(), token@),
            r matches Err(e) ==> e is LockCorruption,
    {
        match locked_token_to_id(&self.model, token) {
            Some(x) => Ok(x),
            None => Err(ModelError::LockCorruption),
        }
    }

    /// The token that has an id.
    pub fn id_to_token(&self, id: u32) -> (r: Result<Option<String>, ModelError>)
        ensures
            r matches Ok(x) ==> reverse_lookup_ok(
                self.vocab(),
                id,
                match x {
                    Some(s) => Some(s@),
                    None => None,
                },
            ),
            r matches Ok(x) ==> (self.kind() != ModelKind::Unigram && !has_id(self.vocab(), id)
                ==> x is None),
            r matches Ok(x) ==> self.id_token(id) == match x {
                Some(s) => Some(s@),
                None => None,
            },
            r matches Ok(x) ==> (self.kind() == ModelKind::Unigram ==> self.id_token(id) == (
            if id < self.unigram_pieces().len() {
                Some(self.unigram_pieces()[id as int])
            } else {
                None
            })),
            r matches Err(e) ==> e is LockCorruption,
    {
        match locked_id_to_token(&self.model, id) {
            Some(x) => Ok(x),
            None => Err(ModelError::LockCorruption),
        }
    }

    /// A copy of the vocabulary, which the caller may change freely.
    pub fn get_vocab(&self) -> (r: Result<HashMap<String, u32>, ModelError>)
        ensures
            r matches Ok(m) ==> same_entries(m@, self.vocab()),
            r matches Err(e) ==> e is LockCorruption,
    {
        match locked_vocab(&self.model) {
            Some(m) => Ok(m),
            None => Err(ModelError::LockCorruption),
        }
    }

    /// The number of entries in the vocabulary.
    pub fn get_vocab_size(&self) -> (r: Result<usize, ModelError>)
        ensures
            r matches Ok(n) ==> n == self.vocab().len(),
            r matches Err(e) ==> e is LockCorruption,
    {
        let m = self.get_vocab()?;
        Ok(entry_count(&m))
    }

    /// Which algorithm the model runs.
    pub fn model_kind(&self) -> (r: Result<ModelKind, ModelError>)
        ensures
            r matches Ok(k) ==> k == self.kind(),
            r matches Err(e) ==> e is LockCorruption,
    {
        match locked_kind(&self.model) {
            Some(k) => Ok(k),
            None => Err(ModelError::LockCorruption),
        }
    }

    /// The unknown token of a BPE model; an argument error for another model.
    pub fn bpe_unk_token(&self) -> (r: Result<Option<String>, ModelError>)
        ensures
            r is Ok ==> self.kind() == ModelKind::Bpe,
            r matches Ok(u) ==> self.bpe_unk() == match u {
                Some(s) => Some(s@),
                None => None,
            },
            r matches Err(e) ==> (e is Argument && self.kind() != ModelKind::Bpe)
                || e is LockCorruption,
    {
        match locked_bpe_unk(&self.model) {
            Some(Some(u)) => Ok(u),
            Some(None) => Err(ModelError::Argument(String::from_str("not a BPE model"))),
            None => Err(ModelError::LockCorruption),
        }
    }

    /// A copy of the model as it stands, for saving it.
    pub fn snapshot(&self) -> (r: Result<ModelWrapper, ModelError>)
        ensures
            r matches Ok(w) ==> wrapper_vocab(w) == self.vocab() && wrapper_kind(w) == self.kind(),
            r matches Err(e) ==> e is LockCorruption,
    {
        match locked_copy(&self.model) {
            Some(m) => Ok(m),
            None => Err(ModelError::LockCorruption),
        }
    }

    /// The trainer configuration that fits the model's algorithm.
    pub fn get_trainer(&self) -> (r: Result<TrainerWrapper, ModelError>)
        ensures
            r matches Ok(t) ==> trainer_kind(t) == self.kind(),
            r matches Err(e) ==> e is LockCorruption,
    {
        match locked_trainer(&self.model) {
            Some(t) => Ok(t),
            None => Err(ModelError::LockCorruption),
        }
    }
}

/// Where no two tokens share an id, looking up a token of the vocabulary and
/// then the id found gives the token back.
pub proof fn lemma_token_id_token(m: RbModel, t: Seq<char>, back: Option<Seq<char>>)
    requires
        m.vocab().contains_key(t),
        ids_unique(m.vocab()),
        lookup(m.vocab(), t) matches Some(id) && reverse_lookup_ok(m.vocab(), id, back),
    ensures
        back == Some(t),
{
}

/// Where no two tokens share an id, looking up an id that some token has, and
/// then the token found, gives the id back.
pub proof fn lemma_id_token_id(m: RbModel, id: u32, found: Option<Seq<char>>)
    requires
        has_id(m.vocab(), id),
        ids_unique(m.vocab()),
        reverse_lookup_ok(m.vocab(), id, found),
    ensures
        found matches Some(s) && lookup(m.vocab(), s) == Some(id),
{
    let t = choose|t: Seq<char>| m.vocab().contains_key(t) && m.vocab()[t] == id;
    assert(found == Some(t));
}

/// For BPE, WordLevel and WordPiece models whose ids are unique, whatever token
/// a reverse lookup finds looks up to that id again.
pub proof fn lemma_found_token_id(m: RbModel, id: u32, found: Option<Seq<char>>)
    requires
        m.kind() != ModelKind::Unigram,
        ids_unique(m.vocab()),
        reverse_lookup_ok(m.vocab(), id, found),
        !has_id(m.vocab(), id) ==> found is None,
        found is Some,
    ensures
        found matches Some(s) && lookup(m.vocab(), s) == Some(id),
{
    lemma_id_token_id(m, id, found);
}

/// Two reverse lookups of the same id on one shared model answer alike.
pub proof fn lemma_reverse_reads_agree(m: RbModel, id: u32, x: Option<Seq<char>>, y: Option<Seq<char>>)
    requires
        x == m.id_token(id),
        y == m.id_token(id),
    ensures
        x == y,
{
}

/// Readers of one shared model agree: two lookups of the same token, made by
/// any callers in any order, answer alike, since every read is a function of
/// the vocabulary and no operation of the handle writes it.
pub proof fn lemma_reads_agree(m: RbModel, t: Seq<char>, x: Option<u32>, y: Option<u32>)
    requires
        x == lookup(m.vocab(), t),
        y == lookup(m.vocab(), t),
    ensures
        x == y,
{
}

/// Without a dropout, two tokenizations of the same text by any readers of one
/// shared model, in any order, give the same tokens.
pub proof fn lemma_tokenize_agrees(m: RbModel, text: Seq<char>, a: Seq<Token>, b: Seq<Token>)
    requires
        !m.dropout_set(),
        token_views(a) == m.tokens(text),
        token_views(b) == m.tokens(text),
    ensures
        token_views(a) == token_views(b),
{
}

/// The vocabulary size equals the number of entries in a copy of the vocabulary.
pub proof fn lemma_vocab_size(m: RbModel, copy: Map<String, u32>, size: usize)
    requires
        same_entries(copy, m.vocab()),
        size == m.vocab().len(),
    ensures
        size == copy.len(),
{
}

} // verus!
