//! Tokenization models behind one shared handle: byte-pair encoding, unigram,
//! word-level and wordpiece, each built from validated options.
pub mod bpe;
pub mod error;
pub mod model;
pub mod options;
pub mod unigram;
pub mod wordlevel;
pub mod wordpiece;

pub use bpe::RbBPE;
pub use error::ModelError;
pub use model::{ModelKind, RbModel, Token};
pub use options::OptionValue;
pub use unigram::RbUnigram;
pub use wordlevel::RbWordLevel;
pub use wordpiece::RbWordPiece;
