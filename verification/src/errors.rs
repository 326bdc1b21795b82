use vstd::prelude::*;

verus! {

/// The failures the store, the sampler and the command layer can report.
///
/// `NotFound` is a missing stored file, `Decode` and `Encode` are format
/// mismatches, `Io` is a filesystem failure reported by the caller that
/// performs the actual file operation, `EmptyPool` is a weighted draw from a
/// pool whose weights sum to zero, and `Validation` is a malformed or missing
/// command option.
#[derive(Clone, Copy, Debug, PartialEq, Eq, Structural)]
pub enum Error {
    NotFound,
    Decode,
    Encode,
    Io,
    EmptyPool,
    Validation,
}

pub open spec fn error_label(e: Error) -> Seq<char> {
    match e {
        Error::NotFound => "not found"@,
        Error::Decode => "decode failure"@,
        Error::Encode => "encode failure"@,
        Error::Io => "io failure"@,
        Error::EmptyPool => "empty pool"@,
        Error::Validation => "invalid input"@,
    }
}

impl Error {
    /// A short human-readable description of the failure.
    pub fn describe(&self) -> (r: String)
        ensures
            r@ == error_label(*self),
    {
        match self {
            Error::NotFound => "not found".to_owned(),
            Error::Decode => "decode failure".to_owned(),
            Error::Encode => "encode failure".to_owned(),
            Error::Io => "io failure".to_owned(),
            Error::EmptyPool => "empty pool".to_owned(),
            Error::Validation => "invalid input".to_owned(),
        }
    }
}

} // verus!
