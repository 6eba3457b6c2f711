//! What the library takes on trust of the directory scan.

use vstd::prelude::*;

verus! {

/// `glob::Paths`: a scan that has been started. The caller takes its entries.
#[verifier::external_type_specification]
#[verifier::external_body]
pub struct ExPaths(glob::Paths);

/// `glob::PatternError`: carried from the scan to its diagnostic.
#[verifier::external_type_specification]
#[verifier::external_body]
pub struct ExPatternError(glob::PatternError);

/// `glob::GlobError`: what a scan yields for an entry that it cannot read.
/// No function here takes or gives one; it is declared because the verifier
/// reads the `Iterator` impl of `glob::Paths`, whose items hold it.
#[verifier::external_type_specification]
#[verifier::external_body]
pub struct ExGlobError(glob::GlobError);

/// `std::path::PathBuf`: what a scan yields for an entry that it found.
/// Declared for the same reason.
#[verifier::external_type_specification]
#[verifier::external_body]
pub struct ExPathBuf(std::path::PathBuf);

/// The words in which an error of the scan describes itself.
pub uninterp spec fn pattern_error_words(error: glob::PatternError) -> Seq<char>;

/// What the scan objects to in a search pattern: the words of its error, or
/// `None` where it accepts the pattern.
pub uninterp spec fn pattern_fault(pattern: Seq<char>) -> Option<Seq<char>>;

/// `glob::glob`. Trusted: whether it accepts the pattern, and the error with
/// which it refuses it, depend on the pattern alone. It lists no directory
/// yet; of the file system it asks only whether the root of the scan is a
/// directory, and that only once it has accepted the pattern. Of the scan
/// that comes back nothing is claimed.
#[verifier::external_body]
pub(crate) fn open_scan(pattern: &str) -> (scan: Result<glob::Paths, glob::PatternError>)
    ensures
        match scan {
            Ok(_) => pattern_fault(pattern@) is None,
            Err(error) => pattern_fault(pattern@) == Some(pattern_error_words(error)),
        },
{
    glob::glob(pattern)
}

/// The `Display` text of a `glob::PatternError`. Trusted: it is made of the
/// error alone, so it is named by `pattern_error_words`.
#[verifier::external_body]
pub(crate) fn pattern_error_text(error: &glob::PatternError) -> (text: String)
    ensures
        text@ == pattern_error_words(*error),
{
    error.to_string()
}

} // verus!
