use vstd::prelude::*;

use crate::error::ModelError;

verus! {

/// A keyword option's value as the caller gave it.
#[derive(Debug)]
pub enum OptionValue {
    /// No value: the option counts as not given.
    Nil,
    Int(i64),
    Bool(bool),
    Str(String),
    /// A value of any other kind, which no option here accepts as a number or a string.
    Other,
}

/// Keyword options in the order the caller gave them.
pub type Kwargs = Vec<(String, OptionValue)>;

/// Which BPE option a keyword names: its place in `cache_capacity`, `dropout`,
/// `unk_token`, `continuing_subword_prefix`, `end_of_word_suffix`, `fuse_unk`;
/// 6 for any other name.
pub open spec fn bpe_key(name: Seq<char>) -> int {
    if name == "cache_capacity"@ {
        0
    } else if name == "dropout"@ {
        1
    } else if name == "unk_token"@ {
        2
    } else if name == "continuing_subword_prefix"@ {
        3
    } else if name == "end_of_word_suffix"@ {
        4
    } else if name == "fuse_unk"@ {
        5
    } else {
        6
    }
}

/// Which WordPiece option a keyword names: its place in `unk_token`,
/// `max_input_chars_per_word`, `continuing_subword_prefix`; 3 for any other name.
pub open spec fn wordpiece_key(name: Seq<char>) -> int {
    if name == "unk_token"@ {
        0
    } else if name == "max_input_chars_per_word"@ {
        1
    } else if name == "continuing_subword_prefix"@ {
        2
    } else {
        3
    }
}

/// The value of the last entry that is not `Nil` and names the BPE option `key`.
pub open spec fn given_bpe(kw: Seq<(String, OptionValue)>, key: int) -> Option<OptionValue>
    decreases kw.len(),
{
    if kw.len() == 0 {
        None
    } else if bpe_key(kw.last().0@) == key && !(kw.last().1 is Nil) {
        Some(kw.last().1)
    } else {
        given_bpe(kw.drop_last(), key)
    }
}

/// The value of the last entry that is not `Nil` and names the WordPiece option `key`.
pub open spec fn given_wordpiece(kw: Seq<(String, OptionValue)>, key: int) -> Option<OptionValue>
    decreases kw.len(),
{
    if kw.len() == 0 {
        None
    } else if wordpiece_key(kw.last().0@) == key && !(kw.last().1 is Nil) {
        Some(kw.last().1)
    } else {
        given_wordpiece(kw.drop_last(), key)
    }
}

/// Absent, or an integer that fits a `usize`.
pub open spec fn is_count(v: OptionValue) -> bool {
    match v {
        OptionValue::Nil => true,
        OptionValue::Int(n) => 0 <= n && n <= usize::MAX,
        _ => false,
    }
}

/// Absent, or a string.
pub open spec fn is_text(v: OptionValue) -> bool {
    v is Nil || v is Str
}

/// Any value but `Nil` and `false` counts as true.
pub open spec fn truthy(v: OptionValue) -> bool {
    match v {
        OptionValue::Nil => false,
        OptionValue::Bool(b) => b,
        _ => true,
    }
}

pub open spec fn count_of(v: Option<OptionValue>) -> Option<usize> {
    match v {
        Some(OptionValue::Int(n)) => Some(n as usize),
        _ => None,
    }
}

pub open spec fn text_of(v: Option<OptionValue>) -> Option<Seq<char>> {
    match v {
        Some(OptionValue::Str(s)) => Some(s@),
        _ => None,
    }
}

pub open spec fn flag_of(v: Option<OptionValue>) -> Option<bool> {
    match v {
        Some(x) => Some(truthy(x)),
        None => None,
    }
}

pub open spec fn opt_view(s: Option<String>) -> Option<Seq<char>> {
    match s {
        Some(x) => Some(x@),
        None => None,
    }
}

/// Whether one entry is a known BPE option with a value of its kind. A dropout
/// probability is a float and never travels as an entry: it is set on the
/// builder beforehand, so here only an absent dropout is accepted.
pub open spec fn bpe_entry_ok(name: Seq<char>, v: OptionValue) -> bool {
    let k = bpe_key(name);
    if k == 0 {
        is_count(v)
    } else if k == 1 {
        v is Nil
    } else if k == 2 || k == 3 || k == 4 {
        is_text(v)
    } else {
        k == 5
    }
}

pub open spec fn bpe_options_ok(kw: Seq<(String, OptionValue)>) -> bool {
    forall|i: int| 0 <= i < kw.len() ==> #[trigger] bpe_entry_ok(kw[i].0@, kw[i].1)
}

/// Whether one entry is a known WordPiece option with a value of its kind.
pub open spec fn wordpiece_entry_ok(name: Seq<char>, v: OptionValue) -> bool {
    let k = wordpiece_key(name);
    if k == 0 || k == 2 {
        is_text(v)
    } else {
        k == 1 && is_count(v)
    }
}

pub open spec fn wordpiece_options_ok(kw: Seq<(String, OptionValue)>) -> bool {
    forall|i: int| 0 <= i < kw.len() ==> #[trigger] wordpiece_entry_ok(kw[i].0@, kw[i].1)
}

/// The BPE options that were given, each at most once.
pub struct BpeSettings {
    pub cache_capacity: Option<usize>,
    pub unk_token: Option<String>,
    pub continuing_subword_prefix: Option<String>,
    pub end_of_word_suffix: Option<String>,
    pub fuse_unk: Option<bool>,
}

impl BpeSettings {
    /// The settings that the options `kw` ask for.
    pub open spec fn from_options(self, kw: Seq<(String, OptionValue)>) -> bool {
        &&& self.cache_capacity == count_of(given_bpe(kw, 0))
        &&& opt_view(self.unk_token) == text_of(given_bpe(kw, 2))
        &&& opt_view(self.continuing_subword_prefix) == text_of(given_bpe(kw, 3))
        &&& opt_view(self.end_of_word_suffix) == text_of(given_bpe(kw, 4))
        &&& self.fuse_unk == flag_of(given_bpe(kw, 5))
    }
}

/// The WordPiece options that were given, each at most once.
pub struct WordPieceSettings {
    pub unk_token: Option<String>,
    pub max_input_chars_per_word: Option<usize>,
    pub continuing_subword_prefix: Option<String>,
}

impl WordPieceSettings {
    /// The settings that the options `kw` ask for.
    pub open spec fn from_options(self, kw: Seq<(String, OptionValue)>) -> bool {
        &&& opt_view(self.unk_token) == text_of(given_wordpiece(kw, 0))
        &&& self.max_input_chars_per_word == count_of(given_wordpiece(kw, 1))
        &&& opt_view(self.continuing_subword_prefix) == text_of(given_wordpiece(kw, 2))
    }
}

fn name_is(name: &String, lit: &str) -> (r: bool)
    ensures
        r == (name@ == lit@),
{
    let l = lit.to_owned();
    *name == l
}

fn bpe_key_of(name: &String) -> (r: u8)
    ensures
        r as int == bpe_key(name@),
{
    if name_is(name, "cache_capacity") {
        0
    } else if name_is(name, "dropout") {
        1
    } else if name_is(name, "unk_token") {
        2
    } else if name_is(name, "continuing_subword_prefix") {
        3
    } else if name_is(name, "end_of_word_suffix") {
        4
    } else if name_is(name, "fuse_unk") {
        5
    } else {
        6
    }
}

fn wordpiece_key_of(name: &String) -> (r: u8)
    ensures
        r as int == wordpiece_key(name@),
{
    if name_is(name, "unk_token") {
        0
    } else if name_is(name, "max_input_chars_per_word") {
        1
    } else if name_is(name, "continuing_subword_prefix") {
        2
    } else {
        3
    }
}

fn is_count_value(v: &OptionValue) -> (r: bool)
    ensures
        r == is_count(*v),
{
    match v {
        OptionValue::Nil => true,
        OptionValue::Int(n) => 0 <= *n && *n as i128 <= usize::MAX as i128,
        _ => false,
    }
}

fn count_value(v: &OptionValue) -> (r: Option<usize>)
    requires
        is_count(*v),
    ensures
        r == count_of(if *v is Nil { None } else { Some(*v) }),
{
    match v {
        OptionValue::Int(n) => Some(*n as usize),
        _ => None,
    }
}

fn text_value(v: &OptionValue) -> (r: Option<String>)
    ensures
        opt_view(r) == text_of(if *v is Nil { None } else { Some(*v) }),
{
    match v {
        OptionValue::Str(s) => Some(s.clone()),
        _ => None,
    }
}

fn flag_value(v: &OptionValue) -> (r: bool)
    ensures
        r == truthy(*v),
{
    match v {
        OptionValue::Nil => false,
        OptionValue::Bool(b) => *b,
        _ => true,
    }
}

/// Reads the BPE keyword options: every entry must name a BPE option and carry
/// a value of its kind, else the result is an argument error.
pub fn parse_bpe_options(kw: &Kwargs) -> (r: Result<BpeSettings, ModelError>)
    ensures
        r is Ok <==> bpe_options_ok(kw@),
        r matches Ok(s) ==> s.from_options(kw@),
        r matches Err(e) ==> e is Argument,
{
    let mut s = BpeSettings {
        cache_capacity: None,
        unk_token: None,
        continuing_subword_prefix: None,
        end_of_word_suffix: None,
        fuse_unk: None,
    };
    assert(kw@.subrange(0, 0) =~= Seq::<(String, OptionValue)>::empty());
    let mut i: usize = 0;
    while i < kw.len()
        invariant
            i <= kw.len(),
            forall|j: int| 0 <= j < i ==> #[trigger] bpe_entry_ok(kw@[j].0@, kw@[j].1),
            s.from_options(kw@.subrange(0, i as int)),
        decreases kw.len() - i,
    {
        let v = &kw[i].1;
        assert(*v == kw@[i as int].1);
        let k = bpe_key_of(&kw[i].0);
        let ghost pre = kw@.subrange(0, i as int);
        assert(kw@.subrange(0, i + 1).drop_last() =~= pre);
        let nil = match v {
            OptionValue::Nil => true,
            _ => false,
        };
        let text = text_value(v);
        if k == 0 {
            if !is_count_value(v) {
                assert(!bpe_entry_ok(kw@[i as int].0@, kw@[i as int].1));
                return Err(ModelError::Argument(String::from_str("cache_capacity: expected an integer")));
            }
            if !nil {
                s.cache_capacity = count_value(v);
            }
        } else if k == 1 {
            if !nil {
                assert(!bpe_entry_ok(kw@[i as int].0@, kw@[i as int].1));
                return Err(ModelError::Argument(String::from_str("dropout: expected a float")));
            }
        } else if k == 2 || k == 3 || k == 4 {
            if !nil {
                if text.is_none() {
                    assert(!bpe_entry_ok(kw@[i as int].0@, kw@[i as int].1));
                    return Err(ModelError::Argument(String::from_str("expected a string")));
                }
                if k == 2 {
                    s.unk_token = text;
                } else if k == 3 {
                    s.continuing_subword_prefix = text;
                } else {
                    s.end_of_word_suffix = text;
                }
            }
        } else if k == 5 {
            if !nil {
                s.fuse_unk = Some(flag_value(v));
            }
        } else {
            assert(!bpe_entry_ok(kw@[i as int].0@, kw@[i as int].1));
            return Err(ModelError::Argument(String::from_str("unknown keyword")));
        }
        i = i + 1;
    }
    assert(kw@.subrange(0, kw.len() as int) =~= kw@);
    Ok(s)
}

/// Reads the WordPiece keyword options: every entry must name a WordPiece
/// option and carry a value of its kind, else the result is an argument error.
pub fn parse_wordpiece_options(kw: &Kwargs) -> (r: Result<WordPieceSettings, ModelError>)
    ensures
        r is Ok <==> wordpiece_options_ok(kw@),
        r matches Ok(s) ==> s.from_options(kw@),
        r matches Err(e) ==> e is Argument,
{
    let mut s = WordPieceSettings {
        unk_token: None,
        max_input_chars_per_word: None,
        continuing_subword_prefix: None,
    };
    assert(kw@.subrange(0, 0) =~= Seq::<(String, OptionValue)>::empty());
    let mut i: usize = 0;
    while i < kw.len()
        invariant
            i <= kw.len(),
            forall|j: int| 0 <= j < i ==> #[trigger] wordpiece_entry_ok(kw@[j].0@, kw@[j].1),
            s.from_options(kw@.subrange(0, i as int)),
        decreases kw.len() - i,
    {
        let v = &kw[i].1;
        assert(*v == kw@[i as int].1);
        let k = wordpiece_key_of(&kw[i].0);
        let ghost pre = kw@.subrange(0, i as int);
        assert(kw@.subrange(0, i + 1).drop_last() =~= pre);
        let nil = match v {
            OptionValue::Nil => true,
            _ => false,
        };
        let text = text_value(v);
        if k == 0 || k == 2 {
            if !nil {
                if text.is_none() {
                    assert(!wordpiece_entry_ok(kw@[i as int].0@, kw@[i as int].1));
                    return Err(ModelError::Argument(String::from_str("expected a string")));
                }
                if k == 0 {
                    s.unk_token = text;
                } else {
                    s.continuing_subword_prefix = text;
                }
            }
        } else if k == 1 {
            if !is_count_value(v) {
                assert(!wordpiece_entry_ok(kw@[i as int].0@, kw@[i as int].1));
                return Err(ModelError::Argument(
                    String::from_str("max_input_chars_per_word: expected an integer"),
                ));
            }
            if !nil {
                s.max_input_chars_per_word = count_value(v);
            }
        } else {
            assert(!wordpiece_entry_ok(kw@[i as int].0@, kw@[i as int].1));
            return Err(ModelError::Argument(String::from_str("unknown keyword")));
        }
        i = i + 1;
    }
    assert(kw@.subrange(0, kw.len() as int) =~= kw@);
    Ok(s)
}

} // verus!
