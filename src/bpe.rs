use std::collections::HashMap;
use std::sync::RwLock;

use tokenizers::models::bpe::{BpeBuilder, BPE};
use tokenizers::models::ModelWrapper;
use vstd::prelude::*;
use vstd::utf8::{decode_utf8, encode_utf8, is_char_boundary};

use crate::error::ModelError;
use crate::model::{bpe_affixes_of, bpe_unk_of, ids_unique, tokens_of, dropout_set_of, empty_vocab, kind_of, same_entries, vocab_of, ModelKind, RbModel};
use crate::options::{
    bpe_options_ok, flag_of, given_bpe, parse_bpe_options, text_of, Kwargs, OptionValue,
};
use crate::wordpiece::or_else;

verus! {

#[verifier::external_type_specification]
#[verifier::external_body]
pub struct ExBpeBuilder(BpeBuilder);

/// The vocabulary a BPE builder holds.
pub uninterp spec fn bpe_builder_vocab(b: BpeBuilder) -> Map<Seq<char>, u32>;

/// The right-hand parts of the merge rules a BPE builder holds, in rank order.
pub uninterp spec fn bpe_builder_rights(b: BpeBuilder) -> Seq<Seq<char>>;

/// The left-hand parts of the merge rules a BPE builder holds, in rank order.
pub uninterp spec fn bpe_builder_lefts(b: BpeBuilder) -> Seq<Seq<char>>;

/// Whether a BPE builder's dropout passes the check of `build`: none is set,
/// or it is neither at most 0 nor above 1.
pub uninterp spec fn bpe_builder_dropout_ok(b: BpeBuilder) -> bool;

/// The end-of-word suffix a BPE builder holds.
pub uninterp spec fn bpe_builder_suffix(b: BpeBuilder) -> Option<Seq<char>>;

/// Whether a BPE builder fuses consecutive unknown tokens.
pub uninterp spec fn bpe_builder_fuse(b: BpeBuilder) -> bool;

/// Whether a BPE builder falls back on byte tokens for unknown characters.
pub uninterp spec fn bpe_builder_byte_fallback(b: BpeBuilder) -> bool;

/// What a BPE model without dropout or byte fallback, whose ids are unique,
/// gives for `text`, as a function of its vocabulary, merge rules (left and
/// right parts in rank order), unknown token, prefix, suffix and fusing flag.
pub uninterp spec fn bpe_tokens(
    vocab: Map<Seq<char>, u32>,
    lefts: Seq<Seq<char>>,
    rights: Seq<Seq<char>>,
    unk: Option<Seq<char>>,
    affixes: (Option<Seq<char>>, Option<Seq<char>>, bool),
    text: Seq<char>,
) -> Seq<(Seq<char>, u32, (usize, usize))>;

/// The left parts of the merge rules given, in rank order.
pub open spec fn merge_lefts(merges: Option<Vec<(String, String)>>) -> Seq<Seq<char>> {
    match merges {
        Some(m) => m@.map_values(|p: (String, String)| p.0@),
        None => Seq::empty(),
    }
}

/// The right parts of the merge rules given, in rank order.
pub open spec fn merge_rights(merges: Option<Vec<(String, String)>>) -> Seq<Seq<char>> {
    match merges {
        Some(m) => m@.map_values(|p: (String, String)| p.1@),
        None => Seq::empty(),
    }
}

/// Whether a BPE builder has a dropout set.
pub uninterp spec fn bpe_builder_dropout_set(b: BpeBuilder) -> bool;

/// The continuing-subword prefix a BPE builder holds.
pub uninterp spec fn bpe_builder_prefix(b: BpeBuilder) -> Option<Seq<char>>;

/// The unknown token a BPE builder holds.
pub uninterp spec fn bpe_builder_unk(b: BpeBuilder) -> Option<Seq<char>>;

/// Whether a BPE builder is set to read its tables from files.
pub uninterp spec fn bpe_builder_reads_files(b: BpeBuilder) -> bool;

/// A builder as it comes new: nothing set that the contracts speak of.
pub open spec fn bpe_builder_fresh(b: BpeBuilder) -> bool {
    &&& bpe_builder_vocab(b) == empty_vocab()
    &&& bpe_builder_rights(b) == Seq::<Seq<char>>::empty()
    &&& bpe_builder_lefts(b) == Seq::<Seq<char>>::empty()
    &&& bpe_builder_prefix(b) is None
    &&& bpe_builder_unk(b) is None
    &&& bpe_builder_suffix(b) is None
    &&& !bpe_builder_fuse(b)
    &&& !bpe_builder_byte_fallback(b)
    &&& !bpe_builder_reads_files(b)
}

/// Two builders agree on what the setters of the other options leave alone.
pub open spec fn bpe_builder_keeps(a: BpeBuilder, b: BpeBuilder) -> bool {
    &&& bpe_builder_vocab(a) == bpe_builder_vocab(b)
    &&& bpe_builder_rights(a) == bpe_builder_rights(b)
    &&& bpe_builder_lefts(a) == bpe_builder_lefts(b)
    &&& bpe_builder_dropout_ok(a) == bpe_builder_dropout_ok(b)
    &&& bpe_builder_dropout_set(a) == bpe_builder_dropout_set(b)
    &&& bpe_builder_byte_fallback(a) == bpe_builder_byte_fallback(b)
    &&& bpe_builder_reads_files(a) == bpe_builder_reads_files(b)
}

pub open spec fn bpe_builder_same(a: BpeBuilder, b: BpeBuilder) -> bool {
    &&& bpe_builder_vocab(a) == bpe_builder_vocab(b)
    &&& bpe_builder_rights(a) == bpe_builder_rights(b)
    &&& bpe_builder_lefts(a) == bpe_builder_lefts(b)
    &&& bpe_builder_dropout_ok(a) == bpe_builder_dropout_ok(b)
    &&& bpe_builder_dropout_set(a) == bpe_builder_dropout_set(b)
    &&& bpe_builder_prefix(a) == bpe_builder_prefix(b)
    &&& bpe_builder_unk(a) == bpe_builder_unk(b)
    &&& bpe_builder_suffix(a) == bpe_builder_suffix(b)
    &&& bpe_builder_fuse(a) == bpe_builder_fuse(b)
    &&& bpe_builder_byte_fallback(a) == bpe_builder_byte_fallback(b)
    &&& bpe_builder_reads_files(a) == bpe_builder_reads_files(b)
}

/// Cutting `prefix` off the front of `right`, counted in bytes, ends on a
/// character boundary of `right`.
pub open spec fn cuts_cleanly(right: Seq<char>, prefix: Seq<char>) -> bool {
    is_char_boundary(encode_utf8(right), (encode_utf8(prefix).len() as usize) as int)
}

/// What a merge rule's right part adds to the merged token: all of it, or
/// what follows the prefix's byte length.
pub open spec fn merge_tail(right: Seq<char>, prefix: Option<Seq<char>>) -> Seq<char> {
    match prefix {
        Some(p) => decode_utf8(encode_utf8(right).skip((encode_utf8(p).len() as usize) as int)),
        None => right,
    }
}

/// Both parts of a merge rule and the token they merge into are in the vocabulary.
pub open spec fn merge_known(
    v: Map<Seq<char>, u32>,
    left: Seq<char>,
    right: Seq<char>,
    prefix: Option<Seq<char>>,
) -> bool {
    v.contains_key(left) && v.contains_key(right) && v.contains_key(left + merge_tail(right, prefix))
}

/// Some key of the map views as `t`.
pub open spec fn has_token(m: Map<String, u32>, t: Seq<char>) -> bool {
    exists|k: String| m.contains_key(k) && k@ == t
}

/// Every merge rule given is known to the vocabulary given.
pub open spec fn merges_known(
    vocab: Option<HashMap<String, u32>>,
    merges: Option<Vec<(String, String)>>,
    prefix: Option<Seq<char>>,
) -> bool {
    match (vocab, merges) {
        (Some(v), Some(m)) => forall|i: int|
            0 <= i < m@.len() ==> {
                let l = #[trigger] m@[i].0@;
                let r = m@[i].1@;
                has_token(v@, l) && has_token(v@, r) && has_token(v@, l + merge_tail(r, prefix))
            },
        _ => true,
    }
}

proof fn lemma_merges_known(
    vocab: Option<HashMap<String, u32>>,
    merges: Option<Vec<(String, String)>>,
    v: Map<Seq<char>, u32>,
    lefts: Seq<Seq<char>>,
    rights: Seq<Seq<char>>,
    prefix: Option<Seq<char>>,
)
    requires
        vocab is Some,
        merges is Some,
        same_entries(vocab->Some_0@, v),
        lefts == merges->Some_0@.map_values(|p: (String, String)| p.0@),
        rights == merges->Some_0@.map_values(|p: (String, String)| p.1@),
    ensures
        merges_known(vocab, merges, prefix) <==> forall|i: int|
            0 <= i < rights.len() ==> #[trigger] merge_known(v, lefts[i], rights[i], prefix),
{
    let vm = vocab->Some_0@;
    let m = merges->Some_0@;
    assert forall|t: Seq<char>| v.contains_key(t) <==> has_token(vm, t) by {
        if has_token(vm, t) {
            let k = choose|k: String| vm.contains_key(k) && k@ == t;
            assert(vm.contains_key(k));
        }
    }
    if merges_known(vocab, merges, prefix) {
        assert forall|i: int| 0 <= i < rights.len() implies #[trigger] merge_known(
            v,
            lefts[i],
            rights[i],
            prefix,
        ) by {
            let l = m[i].0@;
        }
    }
    if forall|i: int|
        0 <= i < rights.len() ==> #[trigger] merge_known(v, lefts[i], rights[i], prefix) {
        assert forall|i: int| 0 <= i < m.len() implies {
            let l = #[trigger] m[i].0@;
            let r = m[i].1@;
            has_token(vm, l) && has_token(vm, r) && has_token(vm, l + merge_tail(r, prefix))
        } by {
            assert(merge_known(v, lefts[i], rights[i], prefix));
        }
    }
}

/// Every merge rule's right part can lose the prefix's length cleanly.
pub open spec fn merges_fit_prefix(merges: Seq<(String, String)>, prefix: Seq<char>) -> bool {
    forall|i: int| 0 <= i < merges.len() ==> #[trigger] cuts_cleanly(merges[i].1@, prefix)
}

/// Relies on tokenizers' `BPE::builder`: a builder with nothing set.
#[verifier::external_body]
fn bpe_builder() -> (r: BpeBuilder)
    ensures
        bpe_builder_fresh(r),
        bpe_builder_dropout_ok(r),
        !bpe_builder_dropout_set(r),
{
    BPE::builder()
}

/// Relies on tokenizers' `BpeBuilder::vocab_and_merges`: it stores both tables.
#[verifier::external_body]
fn set_vocab_and_merges(b: BpeBuilder, vocab: HashMap<String, u32>, merges: Vec<(String, String)>) -> (r: BpeBuilder)
    ensures
        same_entries(vocab@, bpe_builder_vocab(r)),
        bpe_builder_rights(r) == merges@.map_values(|p: (String, String)| p.1@),
        bpe_builder_lefts(r) == merges@.map_values(|p: (String, String)| p.0@),
        bpe_builder_dropout_ok(r) == bpe_builder_dropout_ok(b),
        bpe_builder_dropout_set(r) == bpe_builder_dropout_set(b),
        bpe_builder_byte_fallback(r) == bpe_builder_byte_fallback(b),
        bpe_builder_prefix(r) == bpe_builder_prefix(b),
        bpe_builder_unk(r) == bpe_builder_unk(b),
        bpe_builder_suffix(r) == bpe_builder_suffix(b),
        bpe_builder_fuse(r) == bpe_builder_fuse(b),
        bpe_builder_reads_files(r) == bpe_builder_reads_files(b),
{
    b.vocab_and_merges(vocab, merges)
}

/// Relies on tokenizers' `BpeBuilder::cache_capacity`: it stores the capacity.
#[verifier::external_body]
fn set_cache_capacity(b: BpeBuilder, capacity: usize) -> (r: BpeBuilder)
    ensures
        bpe_builder_same(r, b),
{
    b.cache_capacity(capacity)
}

/// Relies on tokenizers' `BpeBuilder::unk_token`: it stores the token.
#[verifier::external_body]
fn set_unk_token(b: BpeBuilder, unk: String) -> (r: BpeBuilder)
    ensures
        bpe_builder_unk(r) == Some(unk@),
        bpe_builder_suffix(r) == bpe_builder_suffix(b),
        bpe_builder_fuse(r) == bpe_builder_fuse(b),
        bpe_builder_vocab(r) == bpe_builder_vocab(b),
        bpe_builder_rights(r) == bpe_builder_rights(b),
        bpe_builder_lefts(r) == bpe_builder_lefts(b),
        bpe_builder_dropout_ok(r) == bpe_builder_dropout_ok(b),
        bpe_builder_dropout_set(r) == bpe_builder_dropout_set(b),
        bpe_builder_byte_fallback(r) == bpe_builder_byte_fallback(b),
        bpe_builder_prefix(r) == bpe_builder_prefix(b),
        bpe_builder_reads_files(r) == bpe_builder_reads_files(b),
{
    b.unk_token(unk)
}

/// Relies on tokenizers' `BpeBuilder::continuing_subword_prefix`: it stores the prefix.
#[verifier::external_body]
fn set_continuing_subword_prefix(b: BpeBuilder, prefix: String) -> (r: BpeBuilder)
    ensures
        bpe_builder_prefix(r) == Some(prefix@),
        bpe_builder_suffix(r) == bpe_builder_suffix(b),
        bpe_builder_fuse(r) == bpe_builder_fuse(b),
        bpe_builder_vocab(r) == bpe_builder_vocab(b),
        bpe_builder_rights(r) == bpe_builder_rights(b),
        bpe_builder_lefts(r) == bpe_builder_lefts(b),
        bpe_builder_dropout_ok(r) == bpe_builder_dropout_ok(b),
        bpe_builder_dropout_set(r) == bpe_builder_dropout_set(b),
        bpe_builder_byte_fallback(r) == bpe_builder_byte_fallback(b),
        bpe_builder_unk(r) == bpe_builder_unk(b),
        bpe_builder_reads_files(r) == bpe_builder_reads_files(b),
{
    b.continuing_subword_prefix(prefix)
}

/// Relies on tokenizers' `BpeBuilder::end_of_word_suffix`: it stores the suffix.
#[verifier::external_body]
fn set_end_of_word_suffix(b: BpeBuilder, suffix: String) -> (r: BpeBuilder)
    ensures
        bpe_builder_keeps(r, b),
        bpe_builder_prefix(r) == bpe_builder_prefix(b),
        bpe_builder_unk(r) == bpe_builder_unk(b),
        bpe_builder_suffix(r) == Some(suffix@),
        bpe_builder_fuse(r) == bpe_builder_fuse(b),
{
    b.end_of_word_suffix(suffix)
}

/// Relies on tokenizers' `BpeBuilder::fuse_unk`: it stores the flag.
#[verifier::external_body]
fn set_fuse_unk(b: BpeBuilder, fuse: bool) -> (r: BpeBuilder)
    ensures
        bpe_builder_keeps(r, b),
        bpe_builder_prefix(r) == bpe_builder_prefix(b),
        bpe_builder_unk(r) == bpe_builder_unk(b),
        bpe_builder_suffix(r) == bpe_builder_suffix(b),
        bpe_builder_fuse(r) == fuse,
{
    b.fuse_unk(fuse)
}

/// Relies on tokenizers' `BpeBuilder::build`, and on `RwLock::new` to hold the
/// model: the model keeps the builder's dropout setting, vocabulary, unknown
/// token, prefix, suffix and unknown-fusing flag; without dropout or byte
/// fallback, and with unique ids (the reverse table is built by walking a hash
/// map), its tokens depend on these alone. It cuts the prefix's byte length off each
/// merge rule's right part, which panics off a character boundary, so
/// `requires` leaves that out. It fails exactly on a dropout that its check
/// refuses and on a merge whose parts or result are not in the vocabulary.
#[verifier::external_body]
fn build_bpe(b: BpeBuilder) -> (r: Result<RwLock<ModelWrapper>, String>)
    requires
        !bpe_builder_reads_files(b),
        bpe_builder_prefix(b) matches Some(p) ==> forall|i: int|
            0 <= i < bpe_builder_rights(b).len() ==> #[trigger] cuts_cleanly(
                bpe_builder_rights(b)[i],
                p,
            ),
    ensures
        r matches Ok(h) ==> vocab_of(h) == bpe_builder_vocab(b) && kind_of(h) == ModelKind::Bpe
            && bpe_unk_of(h) == bpe_builder_unk(b) && dropout_set_of(h) == bpe_builder_dropout_set(b)
            && bpe_affixes_of(h) == (bpe_builder_prefix(b), bpe_builder_suffix(b), bpe_builder_fuse(b)),
        r matches Ok(h) ==> (!bpe_builder_dropout_set(b) && !bpe_builder_byte_fallback(b)
            && ids_unique(bpe_builder_vocab(b)) ==> forall|t: Seq<char>|
            #[trigger] tokens_of(h, t) == bpe_tokens(
                bpe_builder_vocab(b),
                bpe_builder_lefts(b),
                bpe_builder_rights(b),
                bpe_builder_unk(b),
                (bpe_builder_prefix(b), bpe_builder_suffix(b), bpe_builder_fuse(b)),
                t,
            )),
        r is Ok <==> bpe_builder_dropout_ok(b) && forall|i: int|
            0 <= i < bpe_builder_rights(b).len() ==> #[trigger] merge_known(
                bpe_builder_vocab(b),
                bpe_builder_lefts(b)[i],
                bpe_builder_rights(b)[i],
                bpe_builder_prefix(b),
            ),
{
    b.build().map(|m| RwLock::new(ModelWrapper::from(m))).map_err(|e| e.to_string())
}

fn check_merges_fit(merges: &Vec<(String, String)>, prefix: &String) -> (r: bool)
    ensures
        r == merges_fit_prefix(merges@, prefix@),
{
    let plen = prefix.as_str().len();
    let mut i: usize = 0;
    while i < merges.len()
        invariant
            i <= merges.len(),
            plen == encode_utf8(prefix@).len() as usize,
            forall|j: int| 0 <= j < i ==> #[trigger] cuts_cleanly(merges@[j].1@, prefix@),
        decreases merges.len() - i,
    {
        if !merges[i].1.as_str().is_char_boundary(plen) {
            assert(!cuts_cleanly(merges@[i as int].1@, prefix@));
            return false;
        }
        i = i + 1;
    }
    true
}

/// Construction of byte-pair-encoding models.
pub struct RbBPE {}

/// When BPE construction is refused as an argument error: bad options, a
/// vocabulary without merges or merges without a vocabulary, or merge rules
/// whose right parts the continuing-subword prefix cannot be cut from.
pub open spec fn bpe_arguments_refused(
    vocab_given: bool,
    merges: Option<Vec<(String, String)>>,
    kw: Seq<(String, OptionValue)>,
) -> bool {
    ||| !bpe_options_ok(kw)
    ||| vocab_given != merges is Some
    ||| (merges matches Some(m) && text_of(given_bpe(kw, 3)) matches Some(p) && !merges_fit_prefix(
        m@,
        p,
    ))
}

impl RbBPE {
    /// Builds a BPE model on `builder`, which comes as `BPE::builder()` makes it
    /// (a dropout probability may be set on it), from an optional vocabulary with
    /// its merge rules and keyword options.
    pub fn with_builder(
        builder: BpeBuilder,
        vocab: Option<HashMap<String, u32>>,
        merges: Option<Vec<(String, String)>>,
        kwargs: Kwargs,
    ) -> (r: Result<RbModel, ModelError>)
        requires
            bpe_builder_fresh(builder),
        ensures
            (r matches Err(e) && e is Argument) <==> bpe_arguments_refused(
                vocab is Some,
                merges,
                kwargs@,
            ),
            r matches Err(e) ==> e is Argument || e is Build,
            r matches Ok(m) ==> m.kind() == ModelKind::Bpe,
            r matches Ok(m) ==> match vocab {
                Some(v) => same_entries(v@, m.vocab()),
                None => m.vocab() == empty_vocab(),
            },
            r matches Ok(m) ==> m.bpe_unk() == text_of(given_bpe(kwargs@, 2)),
            r matches Ok(m) ==> m.dropout_set() == bpe_builder_dropout_set(builder),
            r matches Ok(m) ==> (!bpe_builder_dropout_set(builder) && !bpe_builder_byte_fallback(builder)
                && ids_unique(m.vocab()) ==> forall|t: Seq<char>|
                #[trigger] m.tokens(t) == bpe_tokens(
                    m.vocab(),
                    merge_lefts(merges),
                    merge_rights(merges),
                    m.bpe_unk(),
                    m.bpe_affixes(),
                    t,
                )),
            r matches Ok(m) ==> m.bpe_affixes() == (
                text_of(given_bpe(kwargs@, 3)),
                text_of(given_bpe(kwargs@, 4)),
                or_else(flag_of(given_bpe(kwargs@, 5)), false),
            ),
            r is Ok <==> !bpe_arguments_refused(vocab is Some, merges, kwargs@)
                && bpe_builder_dropout_ok(builder) && merges_known(
                vocab,
                merges,
                text_of(given_bpe(kwargs@, 3)),
            ),
    {
        let settings = match parse_bpe_options(&kwargs) {
            Ok(s) => s,
            Err(e) => return Err(e),
        };
        let ghost gv = vocab;
        let ghost gm = merges;
        let mut builder = builder;
        match (vocab, merges) {
            (Some(v), Some(m)) => {
                if let Some(p) = &settings.continuing_subword_prefix {
                    if !check_merges_fit(&m, p) {
                        return Err(ModelError::Argument(
                            String::from_str("a merge rule is too short for the continuing subword prefix"),
                        ));
                    }
                }
                builder = set_vocab_and_merges(builder, v, m);
            },
            (None, None) => {},
            _ => {
                return Err(ModelError::Argument(
                    String::from_str("`vocab` and `merges` must be both specified"),
                ));
            },
        }
        if let Some(c) = settings.cache_capacity {
            builder = set_cache_capacity(builder, c);
        }
        if let Some(u) = settings.unk_token {
            builder = set_unk_token(builder, u);
        }
        if let Some(p) = settings.continuing_subword_prefix {
            builder = set_continuing_subword_prefix(builder, p);
        }
        if let Some(s) = settings.end_of_word_suffix {
            builder = set_end_of_word_suffix(builder, s);
        }
        if let Some(f) = settings.fuse_unk {
            builder = set_fuse_unk(builder, f);
        }
        proof {
            if gv is Some && gm is Some {
                lemma_merges_known(
                    gv,
                    gm,
                    bpe_builder_vocab(builder),
                    bpe_builder_lefts(builder),
                    bpe_builder_rights(builder),
                    bpe_builder_prefix(builder),
                );
            }
        }
        match build_bpe(builder) {
            Ok(h) => Ok(RbModel::from_shared(h)),
            Err(e) => Err(ModelError::Build(e)),
        }
    }

    /// Builds a BPE model from an optional vocabulary with its merge rules and
    /// keyword options.
    pub fn new(vocab: Option<HashMap<String, u32>>, merges: Option<Vec<(String, String)>>, kwargs: Kwargs) -> (r: Result<
        RbModel,
        ModelError,
    >)
        ensures
            (r matches Err(e) && e is Argument) <==> bpe_arguments_refused(
                vocab is Some,
                merges,
                kwargs@,
            ),
            r matches Err(e) ==> e is Argument || e is Build,
            r matches Ok(m) ==> m.kind() == ModelKind::Bpe,
            r matches Ok(m) ==> match vocab {
                Some(v) => same_entries(v@, m.vocab()),
                None => m.vocab() == empty_vocab(),
            },
            r matches Ok(m) ==> m.bpe_unk() == text_of(given_bpe(kwargs@, 2)),
            r matches Ok(m) ==> !m.dropout_set(),
            r matches Ok(m) ==> (ids_unique(m.vocab()) ==> forall|t: Seq<char>|
                #[trigger] m.tokens(t) == bpe_tokens(
                    m.vocab(),
                    merge_lefts(merges),
                    merge_rights(merges),
                    m.bpe_unk(),
                    m.bpe_affixes(),
                    t,
                )),
            r matches Ok(m) ==> m.bpe_affixes() == (
                text_of(given_bpe(kwargs@, 3)),
                text_of(given_bpe(kwargs@, 4)),
                or_else(flag_of(given_bpe(kwargs@, 5)), false),
            ),
            r is Ok <==> !bpe_arguments_refused(vocab is Some, merges, kwargs@) && merges_known(
                vocab,
                merges,
                text_of(given_bpe(kwargs@, 3)),
            ),
    {
        RbBPE::with_builder(bpe_builder(), vocab, merges, kwargs)
    }
}

} // verus!
