use glob::{GlobError, PatternError};
use libloading::Error as LibraryError;
use regex_syntax::ast::Error as RegexAstError;
use serde_json::Error as JsonError;
use tree_sitter_highlight::Error as HighlightError;
use tree_sitter_tags::Error as TagsError;
use vstd::prelude::*;
use walkdir::Error as WalkError;

use crate::decimal::decimal;

verus! {

#[verifier::external_type_specification]
pub struct ExQueryError(tree_sitter::QueryError);

#[verifier::external_type_specification]
pub struct ExQueryErrorKind(tree_sitter::QueryErrorKind);

#[verifier::external_type_specification]
pub struct ExHighlightError(HighlightError);

#[verifier::external_type_specification]
#[verifier::external_body]
pub struct ExTagsError(TagsError);

#[verifier::external_type_specification]
#[verifier::external_body]
pub struct ExJsonError(JsonError);

#[verifier::external_type_specification]
#[verifier::external_body]
pub struct ExIoError(std::io::Error);

#[verifier::external_type_specification]
pub struct ExIoErrorKind(std::io::ErrorKind);

#[verifier::external_type_specification]
pub struct ExPatternError(PatternError);

#[verifier::external_type_specification]
#[verifier::external_body]
pub struct ExGlobError(GlobError);

#[verifier::external_type_specification]
#[verifier::external_body]
pub struct ExLibraryError(LibraryError);

#[verifier::external_type_specification]
#[verifier::external_body]
pub struct ExRegexAstError(RegexAstError);

#[verifier::external_type_specification]
#[verifier::external_body]
pub struct ExWalkError(WalkError);

/// The category that `std::io::Error::kind` reports for an I/O failure.
pub uninterp spec fn io_kind_of(e: std::io::Error) -> std::io::ErrorKind;

/// Relies on `std::io::Error::kind`, which reports the category of an I/O
/// failure as a function of the error value alone.
pub assume_specification[ std::io::Error::kind ](e: &std::io::Error) -> (k: std::io::ErrorKind)
    ensures
        k == io_kind_of(*e),
;

/// Relies on the `Debug` impl that tree-sitter-highlight derives for its
/// `Error`: a unit variant prints as its own name.
#[verifier::external_body]
pub(crate) fn highlight_error_debug(e: &HighlightError) -> (r: String)
    ensures
        *e == HighlightError::Cancelled ==> r@ == "Cancelled"@,
        *e == HighlightError::InvalidLanguage ==> r@ == "InvalidLanguage"@,
        *e == HighlightError::Unknown ==> r@ == "Unknown"@,
{
    format!("{:?}", e)
}

/// Relies on glob's `Display` for `PatternError`, which writes
/// `Pattern syntax error near position {pos}: {msg}`.
#[verifier::external_body]
pub(crate) fn pattern_error_text(e: &PatternError) -> (r: String)
    ensures
        r@ == "Pattern syntax error near position "@ + decimal(e.pos as nat) + ": "@ + e.msg@,
{
    e.to_string()
}

} // verus!
