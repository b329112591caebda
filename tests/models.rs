use std::collections::HashMap;

use tokenizers::models::{ModelWrapper, TrainerWrapper};

use tokenizer_models::{
    ModelError, ModelKind, OptionValue, RbBPE, RbModel, RbUnigram, RbWordLevel, RbWordPiece,
};

fn vocab(entries: &[(&str, u32)]) -> HashMap<String, u32> {
    entries.iter().map(|(t, i)| (t.to_string(), *i)).collect()
}

fn kw(entries: Vec<(&str, OptionValue)>) -> Vec<(String, OptionValue)> {
    entries.into_iter().map(|(k, v)| (k.to_string(), v)).collect()
}

fn merges(entries: &[(&str, &str)]) -> Vec<(String, String)> {
    entries.iter().map(|(a, b)| (a.to_string(), b.to_string())).collect()
}

fn values(m: &RbModel, text: &str) -> Vec<String> {
    m.tokenize(text).unwrap().into_iter().map(|t| t.value).collect()
}

fn is_argument<T>(r: Result<T, ModelError>) -> bool {
    matches!(r, Err(ModelError::Argument(_)))
}

fn unigram(entries: Vec<(&str, f64)>, unk_id: Option<usize>) -> RbModel {
    let v: Vec<(String, f64)> = entries.into_iter().map(|(t, s)| (t.to_string(), s)).collect();
    RbUnigram::check_args(Some(v.len()), unk_id).unwrap();
    let m = tokenizers::models::unigram::Unigram::from(v, unk_id, false).unwrap();
    RbModel::from_wrapper(m.into())
}

fn all_models() -> Vec<RbModel> {
    vec![
        RbBPE::new(
            Some(vocab(&[("a", 0), ("b", 1), ("ab", 2)])),
            Some(merges(&[("a", "b")])),
            vec![],
        )
        .unwrap(),
        unigram(vec![("a", -1.0), ("b", -2.0), ("ab", -0.5)], Some(0)),
        RbWordLevel::new(Some(vocab(&[("hello", 0), ("world", 1), ("<unk>", 2)])), None).unwrap(),
        RbWordPiece::new(Some(vocab(&[("un", 0), ("##able", 1), ("[UNK]", 2)])), vec![]).unwrap(),
    ]
}

#[test]
fn bpe_vocab_without_merges_is_argument_error() {
    let r = RbBPE::new(Some(vocab(&[("a", 0)])), None, vec![]);
    assert!(is_argument(r));
}

#[test]
fn bpe_merges_without_vocab_is_argument_error() {
    let r = RbBPE::new(None, Some(merges(&[("a", "b")])), vec![]);
    assert!(is_argument(r));
}

#[test]
fn bpe_without_tables_is_empty() {
    let m = RbBPE::new(None, None, vec![]).unwrap();
    assert_eq!(m.get_vocab_size().unwrap(), 0);
    assert_eq!(m.model_kind().unwrap(), ModelKind::Bpe);
}

#[test]
fn bpe_applies_merges() {
    let m = RbBPE::new(
        Some(vocab(&[("a", 0), ("b", 1), ("ab", 2)])),
        Some(merges(&[("a", "b")])),
        vec![],
    )
    .unwrap();
    let ts = m.tokenize("ab").unwrap();
    assert_eq!(ts.len(), 1);
    assert_eq!(ts[0].value, "ab");
    assert_eq!(ts[0].id, 2);
    assert_eq!(ts[0].offsets, (0, 2));
    assert_eq!(values(&m, "ba"), vec!["b", "a"]);
}

#[test]
fn bpe_unknown_keyword_is_argument_error() {
    let r = RbBPE::new(None, None, kw(vec![("colour", OptionValue::Str("red".to_string()))]));
    assert!(is_argument(r));
}

#[test]
fn bpe_nil_unknown_keyword_is_still_unknown() {
    let r = RbBPE::new(None, None, kw(vec![("colour", OptionValue::Nil)]));
    assert!(is_argument(r));
}

#[test]
fn bpe_option_of_wrong_kind_is_argument_error() {
    let r = RbBPE::new(None, None, kw(vec![("cache_capacity", OptionValue::Str("x".to_string()))]));
    assert!(is_argument(r));
    let r = RbBPE::new(None, None, kw(vec![("cache_capacity", OptionValue::Int(-1))]));
    assert!(is_argument(r));
    let r = RbBPE::new(None, None, kw(vec![("unk_token", OptionValue::Int(3))]));
    assert!(is_argument(r));
}

#[test]
fn bpe_dropout_entry_must_be_absent() {
    assert!(is_argument(RbBPE::new(None, None, kw(vec![("dropout", OptionValue::Int(1))]))));
    assert!(RbBPE::new(None, None, kw(vec![("dropout", OptionValue::Nil)])).is_ok());
}

#[test]
fn bpe_dropout_on_builder() {
    let b = tokenizers::models::bpe::BPE::builder().dropout(0.5);
    let m = RbBPE::with_builder(b, None, None, vec![]).unwrap();
    assert_eq!(m.get_vocab_size().unwrap(), 0);
    let b = tokenizers::models::bpe::BPE::builder().dropout(1.5);
    let r = RbBPE::with_builder(b, None, None, vec![]);
    assert!(matches!(r, Err(ModelError::Build(_))));
}

#[test]
fn bpe_keeps_unk_token() {
    let m = RbBPE::new(
        Some(vocab(&[("a", 0), ("[UNK]", 1)])),
        Some(vec![]),
        kw(vec![
            ("unk_token", OptionValue::Str("[UNK]".to_string())),
            ("cache_capacity", OptionValue::Int(10)),
            ("fuse_unk", OptionValue::Bool(true)),
            ("end_of_word_suffix", OptionValue::Nil),
        ]),
    )
    .unwrap();
    assert_eq!(m.bpe_unk_token().unwrap(), Some("[UNK]".to_string()));
    let ts = m.tokenize("axx").unwrap();
    let ids: Vec<u32> = ts.iter().map(|t| t.id).collect();
    assert_eq!(ids, vec![0, 1]);
}

#[test]
fn bpe_without_unk_token_reports_none() {
    let m = RbBPE::new(None, None, vec![]).unwrap();
    assert_eq!(m.bpe_unk_token().unwrap(), None);
}

#[test]
fn bpe_unk_token_of_other_model_is_argument_error() {
    let m = RbWordLevel::new(None, None).unwrap();
    assert!(is_argument(m.bpe_unk_token()));
}

#[test]
fn bpe_merge_out_of_vocabulary_is_build_error() {
    let r = RbBPE::new(Some(vocab(&[("a", 0), ("b", 1)])), Some(merges(&[("a", "b")])), vec![]);
    assert!(matches!(r, Err(ModelError::Build(_))));
}

#[test]
fn bpe_merge_shorter_than_prefix_is_argument_error() {
    let r = RbBPE::new(
        Some(vocab(&[("a", 0), ("b", 1), ("ab", 2)])),
        Some(merges(&[("a", "b")])),
        kw(vec![("continuing_subword_prefix", OptionValue::Str("##".to_string()))]),
    );
    assert!(is_argument(r));
}

#[test]
fn bpe_merge_with_prefix() {
    let m = RbBPE::new(
        Some(vocab(&[("a", 0), ("##b", 1), ("ab", 2)])),
        Some(merges(&[("a", "##b")])),
        kw(vec![("continuing_subword_prefix", OptionValue::Str("##".to_string()))]),
    )
    .unwrap();
    assert_eq!(values(&m, "ab"), vec!["ab"]);
}

#[test]
fn unigram_unk_id_without_vocab_fails() {
    assert!(is_argument(RbUnigram::check_args(None, Some(5))));
}

#[test]
fn unigram_argument_messages() {
    match RbUnigram::check_args(None, Some(5)) {
        Err(ModelError::Argument(m)) => assert_eq!(m, "`vocab` and `unk_id` must be both specified"),
        _ => panic!("expected an argument error"),
    }
    match RbUnigram::check_args(Some(2), Some(2)) {
        Err(ModelError::Argument(m)) => assert_eq!(m, "`unk_id` is not in the vocabulary"),
        _ => panic!("expected an argument error"),
    }
}

#[test]
fn from_wrapper_keeps_kind_and_vocabulary() {
    let wl = tokenizers::models::wordlevel::WordLevel::builder()
        .vocab(vocab(&[("x", 0), ("y", 1)]))
        .build()
        .unwrap();
    let m = RbModel::from_wrapper(wl.into());
    assert_eq!(m.model_kind().unwrap(), ModelKind::WordLevel);
    assert_eq!(m.get_vocab().unwrap(), vocab(&[("x", 0), ("y", 1)]));
}

#[test]
fn trainer_and_snapshot_follow_every_variant() {
    for m in all_models() {
        let kind = m.model_kind().unwrap();
        let t = match m.get_trainer().unwrap() {
            TrainerWrapper::BpeTrainer(_) => ModelKind::Bpe,
            TrainerWrapper::UnigramTrainer(_) => ModelKind::Unigram,
            TrainerWrapper::WordLevelTrainer(_) => ModelKind::WordLevel,
            TrainerWrapper::WordPieceTrainer(_) => ModelKind::WordPiece,
        };
        assert_eq!(t, kind);
        let w = m.snapshot().unwrap();
        let s = match &w {
            ModelWrapper::BPE(_) => ModelKind::Bpe,
            ModelWrapper::Unigram(_) => ModelKind::Unigram,
            ModelWrapper::WordLevel(_) => ModelKind::WordLevel,
            ModelWrapper::WordPiece(_) => ModelKind::WordPiece,
        };
        assert_eq!(s, kind);
        let copy = RbModel::from_wrapper(w);
        assert_eq!(copy.get_vocab().unwrap(), m.get_vocab().unwrap());
    }
}

#[test]
fn tokenize_is_repeatable_without_dropout() {
    for m in all_models() {
        let first: Vec<(String, u32)> = m.tokenize("ab").unwrap_or_default().into_iter().map(|t| (t.value, t.id)).collect();
        let second: Vec<(String, u32)> = m.tokenize("ab").unwrap_or_default().into_iter().map(|t| (t.value, t.id)).collect();
        assert_eq!(first, second);
    }
}

#[test]
fn dropout_spans_stay_in_order() {
    let b = tokenizers::models::bpe::BPE::builder().dropout(0.5);
    let m = RbBPE::with_builder(
        b,
        Some(vocab(&[("a", 0), ("b", 1), ("ab", 2)])),
        Some(merges(&[("a", "b")])),
        vec![],
    )
    .unwrap();
    let ts = m.tokenize("abab").unwrap();
    let mut end = 0;
    for t in ts {
        assert!(t.offsets.0 >= end && t.offsets.0 <= t.offsets.1 && t.offsets.1 <= 4);
        end = t.offsets.1;
    }
}

#[test]
fn unigram_unk_id_in_range_succeeds() {
    assert!(RbUnigram::check_args(Some(2), Some(0)).is_ok());
    let m = unigram(vec![("a", -1.0), ("b", -2.0)], Some(0));
    assert_eq!(m.get_vocab_size().unwrap(), 2);
    assert_eq!(m.model_kind().unwrap(), ModelKind::Unigram);
}

#[test]
fn unigram_unk_id_out_of_range_fails() {
    assert!(is_argument(RbUnigram::check_args(Some(2), Some(2))));
    assert!(is_argument(RbUnigram::check_args(Some(0), Some(0))));
}

#[test]
fn unigram_without_arguments_is_default() {
    assert!(RbUnigram::check_args(None, None).is_ok());
    assert!(RbUnigram::check_args(Some(3), None).is_ok());
}

#[test]
fn wordpiece_splits_unable() {
    let m = RbWordPiece::new(
        Some(vocab(&[("un", 0), ("##able", 1), ("[UNK]", 2)])),
        kw(vec![
            ("max_input_chars_per_word", OptionValue::Int(100)),
            ("continuing_subword_prefix", OptionValue::Str("##".to_string())),
        ]),
    )
    .unwrap();
    let ts = m.tokenize("unable").unwrap();
    let vs: Vec<&str> = ts.iter().map(|t| t.value.as_str()).collect();
    assert_eq!(vs, vec!["un", "##able"]);
    assert_eq!(ts[0].id, 0);
    assert_eq!(ts[1].id, 1);
    assert_eq!(ts[1].offsets, (2, 6));
}

#[test]
fn wordpiece_long_word_is_unk() {
    let m = RbWordPiece::new(
        Some(vocab(&[("un", 0), ("##able", 1), ("[UNK]", 2)])),
        kw(vec![("max_input_chars_per_word", OptionValue::Int(100))]),
    )
    .unwrap();
    let long = "u".repeat(101);
    assert_eq!(values(&m, &long), vec!["[UNK]"]);
    let m = RbWordPiece::new(
        Some(vocab(&[("un", 0), ("##able", 1), ("[UNK]", 2)])),
        kw(vec![("max_input_chars_per_word", OptionValue::Int(3))]),
    )
    .unwrap();
    assert_eq!(values(&m, "unable"), vec!["[UNK]"]);
}

#[test]
fn wordpiece_unmatched_word_is_single_unk() {
    let m = RbWordPiece::new(Some(vocab(&[("un", 0), ("##able", 1), ("[UNK]", 2)])), vec![]).unwrap();
    assert_eq!(values(&m, "unxable"), vec!["[UNK]"]);
}

#[test]
fn wordpiece_custom_unk_and_prefix() {
    let m = RbWordPiece::new(
        Some(vocab(&[("un", 0), ("@@able", 1), ("<?>", 2)])),
        kw(vec![
            ("unk_token", OptionValue::Str("<?>".to_string())),
            ("continuing_subword_prefix", OptionValue::Str("@@".to_string())),
        ]),
    )
    .unwrap();
    assert_eq!(values(&m, "unable"), vec!["un", "@@able"]);
    assert_eq!(values(&m, "zzz"), vec!["<?>"]);
}

#[test]
fn wordpiece_unknown_keyword_is_argument_error() {
    let r = RbWordPiece::new(None, kw(vec![("dropout", OptionValue::Nil)]));
    assert!(is_argument(r));
}

#[test]
fn wordpiece_negative_limit_is_argument_error() {
    let r = RbWordPiece::new(None, kw(vec![("max_input_chars_per_word", OptionValue::Int(-1))]));
    assert!(is_argument(r));
    let r = RbWordPiece::new(None, kw(vec![("max_input_chars_per_word", OptionValue::Other)]));
    assert!(is_argument(r));
}

#[test]
fn wordlevel_unknown_word_without_unk_token_is_error() {
    let m = RbWordLevel::new(Some(vocab(&[("hello", 0)])), None).unwrap();
    assert!(matches!(m.tokenize("world"), Err(ModelError::Algorithm(_))));
}

#[test]
fn wordlevel_unknown_word_with_unk_token() {
    let m = RbWordLevel::new(Some(vocab(&[("hello", 0), ("[UNK]", 1)])), Some("[UNK]".to_string())).unwrap();
    let ts = m.tokenize("world").unwrap();
    assert_eq!(ts.len(), 1);
    assert_eq!(ts[0].value, "[UNK]");
    assert_eq!(ts[0].id, 1);
    assert_eq!(values(&m, "hello"), vec!["hello"]);
}

#[test]
fn wordlevel_without_vocabulary_is_empty() {
    let m = RbWordLevel::new(None, None).unwrap();
    assert_eq!(m.get_vocab_size().unwrap(), 0);
    assert!(m.get_vocab().unwrap().is_empty());
    assert_eq!(m.model_kind().unwrap(), ModelKind::WordLevel);
}

#[test]
fn lookups_invert_each_other_for_every_variant() {
    for m in all_models() {
        let v = m.get_vocab().unwrap();
        assert!(!v.is_empty());
        for (t, id) in v.iter() {
            assert_eq!(m.token_to_id(t).unwrap(), Some(*id));
            assert_eq!(m.id_to_token(*id).unwrap(), Some(t.clone()));
        }
        assert_eq!(m.token_to_id("not-a-token").unwrap(), None);
        assert_eq!(m.id_to_token(1000).unwrap(), None);
    }
}

#[test]
fn vocab_size_is_vocab_length_for_every_variant() {
    let sizes: Vec<usize> = all_models().iter().map(|m| m.get_vocab_size().unwrap()).collect();
    assert_eq!(sizes, vec![3, 3, 3, 3]);
    for m in all_models() {
        assert_eq!(m.get_vocab_size().unwrap(), m.get_vocab().unwrap().len());
    }
}

#[test]
fn unigram_duplicate_tokens_count_once() {
    let m = unigram(vec![("a", -1.0), ("a", -2.0)], None);
    assert_eq!(m.get_vocab().unwrap().len(), 1);
    assert_eq!(m.get_vocab_size().unwrap(), 1);
}

#[test]
fn shared_handles_read_the_same_model() {
    let m = RbWordLevel::new(Some(vocab(&[("hello", 0), ("world", 1)])), None).unwrap();
    let n = m.clone();
    assert_eq!(values(&m, "hello"), values(&n, "hello"));
    assert_eq!(n.token_to_id("world").unwrap(), Some(1));
}

#[test]
fn snapshot_and_trainer_follow_the_model() {
    let m = RbWordPiece::new(Some(vocab(&[("a", 0)])), vec![]).unwrap();
    assert!(matches!(m.snapshot().unwrap(), ModelWrapper::WordPiece(_)));
    assert!(matches!(
        m.get_trainer().unwrap(),
        TrainerWrapper::WordPieceTrainer(_)
    ));
}

#[test]
fn error_messages() {
    assert_eq!(ModelError::LockCorruption.message(), "model state corrupted");
    assert_eq!(ModelError::Argument("x".to_string()).message(), "x");
}

#[test]
fn wordpiece_defaults_match_explicit_options() {
    let v = vocab(&[("un", 0), ("##able", 1), ("[UNK]", 2)]);
    let plain = RbWordPiece::new(Some(v.clone()), vec![]).unwrap();
    let explicit = RbWordPiece::new(
        Some(v),
        kw(vec![
            ("unk_token", OptionValue::Str("[UNK]".to_string())),
            ("continuing_subword_prefix", OptionValue::Str("##".to_string())),
            ("max_input_chars_per_word", OptionValue::Int(100)),
        ]),
    )
    .unwrap();
    for w in ["unable", "un", "xyz", &"u".repeat(101)] {
        assert_eq!(values(&plain, w), values(&explicit, w));
    }
}

#[test]
fn bpe_nil_option_is_absent_option() {
    let v = vocab(&[("a", 0), ("b", 1), ("ab", 2)]);
    let m = merges(&[("a", "b")]);
    let absent = RbBPE::new(Some(v.clone()), Some(m.clone()), vec![]).unwrap();
    let nil = RbBPE::new(
        Some(v),
        Some(m),
        kw(vec![
            ("unk_token", OptionValue::Nil),
            ("end_of_word_suffix", OptionValue::Nil),
            ("fuse_unk", OptionValue::Nil),
            ("cache_capacity", OptionValue::Nil),
        ]),
    )
    .unwrap();
    for w in ["ab", "ba", "abab"] {
        assert_eq!(values(&absent, w), values(&nil, w));
    }
    assert_eq!(nil.bpe_unk_token().unwrap(), None);
}

#[test]
fn wordlevel_default_unk_token() {
    let m = RbWordLevel::new(Some(vocab(&[("hello", 0), ("<unk>", 1)])), None).unwrap();
    assert_eq!(values(&m, "world"), vec!["<unk>"]);
}
