//! What can go wrong while converting a record, and where.
use vstd::prelude::*;

verus! {

/// The kinds of failure of a conversion.
#[derive(Clone, Copy, Debug, PartialEq, Eq, Structural)]
pub enum ErrorKind {
    SourceUnavailable,
    ParseFailure,
    MissingRequiredField,
    TypeMismatch,
    InvalidEnumValue,
    InvalidNumericValue,
    EncodingFailure,
    SinkWriteFailure,
}

/// A failure of a conversion, with the path of the field it concerns.
#[derive(Clone, Debug)]
pub struct ConvertError {
    pub kind: ErrorKind,
    pub path: String,
}

/// A failure as a value: its kind and the field path it names.
pub type Fault = (ErrorKind, Seq<char>);

impl View for ConvertError {
    type V = Fault;

    open spec fn view(&self) -> Fault {
        (self.kind, self.path@)
    }
}

impl ConvertError {
    /// A failure of kind `kind` at `path`.
    pub fn new(kind: ErrorKind, path: &str) -> (r: ConvertError)
        ensures
            r@ == (kind, path@),
    {
        ConvertError { kind, path: String::from_str(path) }
    }

    /// A failure of kind `kind` at a path given as an owned string.
    pub fn at(kind: ErrorKind, path: String) -> (r: ConvertError)
        ensures
            r@ == (kind, path@),
    {
        ConvertError { kind, path }
    }
}

} // verus!
