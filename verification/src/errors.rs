//! The error taxonomy of the validation pipeline, one kind per stage.

use vstd::prelude::*;

verus! {

/// Fewer than two input paths were supplied.
#[derive(Clone, Copy, Debug, PartialEq, Eq, Structural)]
pub enum UsageError {
    TooFewFiles,
}

/// A path does not carry one of the accepted extensions.
#[derive(Clone, Copy, Debug, PartialEq, Eq, Structural)]
pub enum ExtensionError {
    InvalidExtension,
}

/// The filesystem check on one path failed.
#[derive(Debug, PartialEq, Eq)]
pub enum ExistenceError {
    /// The existence probe itself failed, for example for lack of
    /// permission; distinct from the path plainly not existing.
    ProbeFailed { cause: String },
    /// The path does not exist.
    NotFound,
    /// The path exists but is not a regular file.
    NotAFile,
}

/// One file could not be turned into a flat string map.
#[derive(Debug, PartialEq, Eq)]
pub enum ParseError {
    /// The file could not be opened or read.
    OpenFailed { cause: String },
    /// The bytes are not a JSON object with only string values.
    DecodeFailed { cause: String },
}

/// The entry counts of the parsed maps do not line up.
#[derive(Clone, Copy, Debug, PartialEq, Eq, Structural)]
pub enum LengthError {
    /// No maps were given at all.
    NoInput,
    /// At least one map has no entries.
    EmptyFile,
    /// The maps do not all have the same entry count.
    Mismatch,
}

/// The key sets of the parsed maps differ.
#[derive(Clone, Copy, Debug, PartialEq, Eq, Structural)]
pub enum EqualityError {
    /// No maps were given at all.
    NoInput,
    /// Some map's key set differs from the first map's.
    KeySetMismatch,
}

/// The first error that a whole pipeline run surfaces.
#[derive(Debug, PartialEq, Eq)]
pub enum PipelineError {
    Usage(UsageError),
    Extension(ExtensionError),
    Existence(ExistenceError),
    Parse(ParseError),
    Length(LengthError),
    Equality(EqualityError),
}

impl UsageError {
    pub open spec fn message_spec(&self) -> Seq<char> {
        "provide at least two files"@
    }

    pub fn message(&self) -> (r: String)
        ensures
            r@ == self.message_spec(),
    {
        "provide at least two files".to_owned()
    }
}

impl ExtensionError {
    pub open spec fn message_spec(&self) -> Seq<char> {
        "file name must end with .json or .arb"@
    }

    pub fn message(&self) -> (r: String)
        ensures
            r@ == self.message_spec(),
    {
        "file name must end with .json or .arb".to_owned()
    }
}

impl ExistenceError {
    pub open spec fn message_spec(&self) -> Seq<char> {
        match self {
            ExistenceError::ProbeFailed { .. } => "file permission related issue"@,
            ExistenceError::NotFound => "file does not exist"@,
            ExistenceError::NotAFile => "given path is not a file"@,
        }
    }

    pub fn message(&self) -> (r: String)
        ensures
            r@ == self.message_spec(),
    {
        match self {
            ExistenceError::ProbeFailed { .. } => "file permission related issue".to_owned(),
            ExistenceError::NotFound => "file does not exist".to_owned(),
            ExistenceError::NotAFile => "given path is not a file".to_owned(),
        }
    }
}

impl ParseError {
    pub open spec fn message_spec(&self) -> Seq<char> {
        match self {
            ParseError::OpenFailed { .. } => "could not open file"@,
            ParseError::DecodeFailed { .. } => "could not read json or arb file"@,
        }
    }

    pub fn message(&self) -> (r: String)
        ensures
            r@ == self.message_spec(),
    {
        match self {
            ParseError::OpenFailed { .. } => "could not open file".to_owned(),
            ParseError::DecodeFailed { .. } => "could not read json or arb file".to_owned(),
        }
    }
}

impl LengthError {
    pub open spec fn message_spec(&self) -> Seq<char> {
        match self {
            LengthError::NoInput => "no first item"@,
            LengthError::EmptyFile => "file is empty"@,
            LengthError::Mismatch => "files does not have the same key-value pair"@,
        }
    }

    pub fn message(&self) -> (r: String)
        ensures
            r@ == self.message_spec(),
    {
        match self {
            LengthError::NoInput => "no first item".to_owned(),
            LengthError::EmptyFile => "file is empty".to_owned(),
            LengthError::Mismatch => "files does not have the same key-value pair".to_owned(),
        }
    }
}

impl EqualityError {
    pub open spec fn message_spec(&self) -> Seq<char> {
        match self {
            EqualityError::NoInput => "could not get first item"@,
            EqualityError::KeySetMismatch => "files does not have the same keys"@,
        }
    }

    pub fn message(&self) -> (r: String)
        ensures
            r@ == self.message_spec(),
    {
        match self {
            EqualityError::NoInput => "could not get first item".to_owned(),
            EqualityError::KeySetMismatch => "files does not have the same keys".to_owned(),
        }
    }
}

impl PipelineError {
    pub open spec fn message_spec(&self) -> Seq<char> {
        match self {
            PipelineError::Usage(e) => e.message_spec(),
            PipelineError::Extension(e) => e.message_spec(),
            PipelineError::Existence(e) => e.message_spec(),
            PipelineError::Parse(e) => e.message_spec(),
            PipelineError::Length(e) => e.message_spec(),
            PipelineError::Equality(e) => e.message_spec(),
        }
    }

    pub fn message(&self) -> (r: String)
        ensures
            r@ == self.message_spec(),
    {
        match self {
            PipelineError::Usage(e) => e.message(),
            PipelineError::Extension(e) => e.message(),
            PipelineError::Existence(e) => e.message(),
            PipelineError::Parse(e) => e.message(),
            PipelineError::Length(e) => e.message(),
            PipelineError::Equality(e) => e.message(),
        }
    }
}

} // verus!
