//! Compressing save files for remote storage and decompressing them again.
use vstd::prelude::*;

verus! {

/// Why compressing or decompressing failed, described.
#[derive(Debug, Clone, PartialEq)]
pub struct CompressionError(pub String);

/// Any outcome of a job (compressing or decompressing) from `from` to `to`:
/// what is left open of a compressor that does not say.
pub closed spec fn outcome_of_job(ok: bool, compressing: bool, from: Seq<char>, to: Seq<char>) -> bool {
    true
}

/// Compresses files and decompresses them again.
///
/// A compressor, as it is, succeeds or fails at each job it is given:
/// [`Compression::compresses`] and [`Compression::decompresses`] are those
/// answers, for the paths of the job.  Unless an implementation says what
/// they are, they are left open.
pub trait Compression {
    /// Whether compressing the file at `from` into `to` succeeds.
    closed spec fn compresses(&self, from: Seq<char>, to: Seq<char>) -> bool {
        choose|ok: bool| #[trigger] outcome_of_job(ok, true, from, to)
    }

    /// Whether decompressing the file at `from` into `to` succeeds.
    closed spec fn decompresses(&self, from: Seq<char>, to: Seq<char>) -> bool {
        choose|ok: bool| #[trigger] outcome_of_job(ok, false, from, to)
    }

    /// Compresses the file at `from` (a full path with file name and
    /// extension) into `to` (a file name without the extension, which the
    /// implementation adds).
    fn compress(&self, from: &str, to: &str) -> (r: Result<(), CompressionError>)
        ensures
            r is Ok == self.compresses(from@, to@),
    ;

    /// Decompresses the file at `from` (a full path with file name and
    /// extension) into `to`.
    fn decompress(&self, from: &str, to: &str) -> (r: Result<(), CompressionError>)
        ensures
            r is Ok == self.decompresses(from@, to@),
    ;
}

/// Compression that does nothing and always succeeds, for tests.
#[derive(Debug, Clone)]
pub struct MockCompression;

impl MockCompression {
    pub fn new() -> (r: MockCompression) {
        MockCompression
    }
}

impl Compression for MockCompression {
    /// Every job succeeds.
    open spec fn compresses(&self, from: Seq<char>, to: Seq<char>) -> bool {
        true
    }

    /// Every job succeeds.
    open spec fn decompresses(&self, from: Seq<char>, to: Seq<char>) -> bool {
        true
    }

    fn compress(&self, from: &str, to: &str) -> (r: Result<(), CompressionError>)
        ensures
            r is Ok,
    {
        Ok(())
    }

    fn decompress(&self, from: &str, to: &str) -> (r: Result<(), CompressionError>)
        ensures
            r is Ok,
    {
        Ok(())
    }
}

} // verus!
