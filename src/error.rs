use vstd::prelude::*;

verus! {

/// What can go wrong while building or using a model.
#[derive(Debug, Clone, PartialEq, Eq)]
pub enum ModelError {
    /// Construction parameters that do not fit together, or an unknown option.
    Argument(String),
    /// The tokenizer library refused to build a model from valid arguments.
    Build(String),
    /// A vocabulary or merges file that does not parse.
    FileFormat(String),
    /// A file could not be read or written.
    Io(String),
    /// Tokenization failed inside the algorithm.
    Algorithm(String),
    /// A writer abandoned the model's lock: the handle is unusable.
    LockCorruption,
}

impl ModelError {
    /// A human-readable description of the error.
    pub fn message(&self) -> (r: String)
        ensures
            *self is LockCorruption ==> r@ == "model state corrupted"@,
            *self matches ModelError::Argument(m) ==> r@ == m@,
            *self matches ModelError::Build(m) ==> r@ == m@,
            *self matches ModelError::FileFormat(m) ==> r@ == m@,
            *self matches ModelError::Io(m) ==> r@ == m@,
            *self matches ModelError::Algorithm(m) ==> r@ == m@,
    {
        match self {
            ModelError::Argument(m) => m.clone(),
            ModelError::Build(m) => m.clone(),
            ModelError::FileFormat(m) => m.clone(),
            ModelError::Io(m) => m.clone(),
            ModelError::Algorithm(m) => m.clone(),
            ModelError::LockCorruption => String::from_str("model state corrupted"),
        }
    }
}

} // verus!
