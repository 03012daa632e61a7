use vstd::prelude::*;

verus! {

/// Classification of a pipeline failure: configuration, connection,
/// query execution, or the shape of the returned data.
#[derive(Clone, Copy, PartialEq, Eq, Structural, Debug)]
pub enum ErrorKind {
    Config,
    Connection,
    Query,
    DataShape,
}

/// A terminal error of one fetch-and-present cycle. Every failure aborts
/// the current operation; no partial result is ever returned.
#[derive(Debug)]
pub struct FetchError {
    pub kind: ErrorKind,
    pub message: String,
}

impl FetchError {
    /// Builds an error of the given kind carrying a descriptive message.
    pub fn new(kind: ErrorKind, message: String) -> (e: FetchError)
        ensures
            e.kind == kind,
            e.message@ == message@,
    {
        FetchError { kind, message }
    }
}

} // verus!
