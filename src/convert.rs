use glob::{GlobError, PatternError};
use libloading::Error as LibraryError;
use regex_syntax::ast::Error as RegexAstError;
use serde_json::Error as JsonError;
use tree_sitter_highlight::Error as HighlightError;
use tree_sitter_tags::Error as TagsError;
use vstd::prelude::*;
use vstd::string::to_string_from_display_ensures;
use tree_sitter::{QueryError, QueryErrorKind};
use walkdir::Error as WalkError;

use crate::decimal::{append_decimal, decimal};
use crate::error::Error;
use crate::outside::{highlight_error_debug, io_kind_of, pattern_error_text};

verus! {

/// The clause that follows the location in a query-error headline. A query
/// written for another language has no clause of its own: its message
/// follows the location directly.
pub open spec fn query_clause(kind: QueryErrorKind, message: Seq<char>) -> Seq<char> {
    match kind {
        QueryErrorKind::Capture => "Invalid capture name "@ + message,
        QueryErrorKind::Field => "Invalid field name "@ + message,
        QueryErrorKind::NodeType => "Invalid node type "@ + message,
        QueryErrorKind::Syntax => "Invalid syntax:\n"@ + message,
        QueryErrorKind::Structure => "Impossible pattern:\n"@ + message,
        QueryErrorKind::Predicate => "Invalid predicate: "@ + message,
        QueryErrorKind::Language => message,
    }
}

/// The headline for a query that failed to compile at zero-based `row` of
/// the file at `path`: the row is shown one-based.
pub open spec fn query_headline(
    path: Seq<char>,
    row: nat,
    kind: QueryErrorKind,
    message: Seq<char>,
) -> Seq<char> {
    "Query error at "@ + path + ":"@ + decimal(row + 1) + ". "@ + query_clause(kind, message)
}

/// `frames` is a single frame holding what `Display` writes for `t`.
pub open spec fn displayed<T: core::fmt::Display>(t: &T, frames: Option<Seq<Seq<char>>>) -> bool {
    exists|s: String| to_string_from_display_ensures::<T>(t, s) && frames == Some(seq![s@])
}

/// The frame of a highlighting failure: the name of its kind.
pub open spec fn highlight_name(e: HighlightError) -> Seq<char> {
    match e {
        HighlightError::Cancelled => "Cancelled"@,
        HighlightError::InvalidLanguage => "InvalidLanguage"@,
        HighlightError::Unknown => "Unknown"@,
    }
}

impl Error {
    /// A query that failed to compile in the file at `path`.
    pub fn from_query(path: &str, error: QueryError) -> (r: Error)
        ensures
            r@ == Some(seq![query_headline(path@, error.row as nat, error.kind, error.message@)]),
    {
        let mut text = String::from_str("Query error at ");
        text.append(path);
        text.append(":");
        append_decimal(&mut text, error.row as u128 + 1);
        text.append(". ");
        match error.kind {
            QueryErrorKind::Capture => text.append("Invalid capture name "),
            QueryErrorKind::Field => text.append("Invalid field name "),
            QueryErrorKind::NodeType => text.append("Invalid node type "),
            QueryErrorKind::Syntax => text.append("Invalid syntax:\n"),
            QueryErrorKind::Structure => text.append("Impossible pattern:\n"),
            QueryErrorKind::Predicate => text.append("Invalid predicate: "),
            QueryErrorKind::Language => {},
        }
        text.append(error.message.as_str());
        assert(text@ =~= query_headline(path@, error.row as nat, error.kind, error.message@));
        Error::new(text)
    }

    /// An I/O failure of the given kind with the given description. A broken
    /// pipe means the reader of the output went away: it becomes the ignored
    /// sentinel.
    pub fn from_io_kind(kind: std::io::ErrorKind, message: String) -> (r: Error)
        ensures
            kind == std::io::ErrorKind::BrokenPipe ==> r@ is None,
            kind != std::io::ErrorKind::BrokenPipe ==> r@ == Some(seq![message@]),
    {
        match kind {
            std::io::ErrorKind::BrokenPipe => Error::new_ignored(),
            _ => Error::new(message),
        }
    }

    /// An I/O failure, with its own description as the frame; a broken pipe
    /// becomes the ignored sentinel (see `from_io_kind`).
    pub fn from_io(error: std::io::Error) -> (r: Error)
        ensures
            io_kind_of(error) == std::io::ErrorKind::BrokenPipe ==> r@ is None,
            io_kind_of(error) != std::io::ErrorKind::BrokenPipe ==> r@ is Some && displayed(
                &error,
                r@,
            ),
    {
        let kind = error.kind();
        Error::from_io_kind(kind, error.to_string())
    }

    /// A JSON failure, with its own description as the frame.
    pub fn from_json(error: JsonError) -> (r: Error)
        ensures
            displayed(&error, r@),
    {
        Error::new(error.to_string())
    }

    /// A highlighting failure, shown by the name of its kind.
    pub fn from_highlight(error: HighlightError) -> (r: Error)
        ensures
            r@ == Some(seq![highlight_name(error)]),
    {
        Error::new(highlight_error_debug(&error))
    }

    /// A tagging failure, with its own description as the frame.
    pub fn from_tags(error: TagsError) -> (r: Error)
        ensures
            displayed(&error, r@),
    {
        Error::new(error.to_string())
    }

    /// A malformed glob pattern: its frame names the position and the reason.
    pub fn from_pattern(error: PatternError) -> (r: Error)
        ensures
            r@ == Some(
                seq![
                    "Pattern syntax error near position "@ + decimal(error.pos as nat) + ": "@
                        + error.msg@,
                ],
            ),
    {
        Error::new(pattern_error_text(&error))
    }

    /// A failure while walking the paths of a glob, with its own description
    /// as the frame.
    pub fn from_glob(error: GlobError) -> (r: Error)
        ensures
            displayed(&error, r@),
    {
        Error::new(error.to_string())
    }

    /// A dynamic library that failed to load or resolve, with its own
    /// description as the frame.
    pub fn from_library(error: LibraryError) -> (r: Error)
        ensures
            displayed(&error, r@),
    {
        Error::new(error.to_string())
    }

    /// A malformed regular expression, with its own description as the frame.
    pub fn from_regex_syntax(error: RegexAstError) -> (r: Error)
        ensures
            displayed(&error, r@),
    {
        Error::new(error.to_string())
    }

    /// A failure while walking a directory tree, with its own description as
    /// the frame.
    pub fn from_walk(error: WalkError) -> (r: Error)
        ensures
            displayed(&error, r@),
    {
        Error::new(error.to_string())
    }
}

impl From<String> for Error {
    fn from(message: String) -> (r: Error)
        ensures
            r@ == Some(seq![message@]),
    {
        Error::new(message)
    }
}

impl vstd::std_specs::convert::FromSpecImpl<String> for Error {
    open spec fn obeys_from_spec() -> bool {
        false
    }

    open spec fn from_spec(v: String) -> Error {
        arbitrary()
    }
}

impl<'a> From<(&'a str, QueryError)> for Error {
    fn from(source: (&'a str, QueryError)) -> (r: Error)
        ensures
            r@ == Some(seq![query_headline(source.0@, source.1.row as nat, source.1.kind, source.1.message@)]),
    {
        Error::from_query(source.0, source.1)
    }
}

impl<'a> vstd::std_specs::convert::FromSpecImpl<(&'a str, QueryError)> for Error {
    open spec fn obeys_from_spec() -> bool {
        false
    }

    open spec fn from_spec(v: (&'a str, QueryError)) -> Error {
        arbitrary()
    }
}

impl From<HighlightError> for Error {
    fn from(error: HighlightError) -> (r: Error)
        ensures
            r@ == Some(seq![highlight_name(error)]),
    {
        Error::from_highlight(error)
    }
}

impl vstd::std_specs::convert::FromSpecImpl<HighlightError> for Error {
    open spec fn obeys_from_spec() -> bool {
        false
    }

    open spec fn from_spec(v: HighlightError) -> Error {
        arbitrary()
    }
}

impl From<TagsError> for Error {
    fn from(error: TagsError) -> (r: Error)
        ensures
            displayed(&error, r@),
    {
        Error::from_tags(error)
    }
}

impl vstd::std_specs::convert::FromSpecImpl<TagsError> for Error {
    open spec fn obeys_from_spec() -> bool {
        false
    }

    open spec fn from_spec(v: TagsError) -> Error {
        arbitrary()
    }
}

impl From<JsonError> for Error {
    fn from(error: JsonError) -> (r: Error)
        ensures
            displayed(&error, r@),
    {
        Error::from_json(error)
    }
}

impl vstd::std_specs::convert::FromSpecImpl<JsonError> for Error {
    open spec fn obeys_from_spec() -> bool {
        false
    }

    open spec fn from_spec(v: JsonError) -> Error {
        arbitrary()
    }
}

impl From<std::io::Error> for Error {
    fn from(error: std::io::Error) -> (r: Error)
        ensures
            io_kind_of(error) == std::io::ErrorKind::BrokenPipe ==> r@ is None,
            io_kind_of(error) != std::io::ErrorKind::BrokenPipe ==> r@ is Some && displayed(
                &error,
                r@,
            ),
    {
        Error::from_io(error)
    }
}

impl vstd::std_specs::convert::FromSpecImpl<std::io::Error> for Error {
    open spec fn obeys_from_spec() -> bool {
        false
    }

    open spec fn from_spec(v: std::io::Error) -> Error {
        arbitrary()
    }
}

impl From<PatternError> for Error {
    fn from(error: PatternError) -> (r: Error)
        ensures
            r@ == Some(seq!["Pattern syntax error near position "@ + decimal(error.pos as nat) + ": "@ + error.msg@]),
    {
        Error::from_pattern(error)
    }
}

impl vstd::std_specs::convert::FromSpecImpl<PatternError> for Error {
    open spec fn obeys_from_spec() -> bool {
        false
    }

    open spec fn from_spec(v: PatternError) -> Error {
        arbitrary()
    }
}

impl From<GlobError> for Error {
    fn from(error: GlobError) -> (r: Error)
        ensures
            displayed(&error, r@),
    {
        Error::from_glob(error)
    }
}

impl vstd::std_specs::convert::FromSpecImpl<GlobError> for Error {
    open spec fn obeys_from_spec() -> bool {
        false
    }

    open spec fn from_spec(v: GlobError) -> Error {
        arbitrary()
    }
}

impl From<LibraryError> for Error {
    fn from(error: LibraryError) -> (r: Error)
        ensures
            displayed(&error, r@),
    {
        Error::from_library(error)
    }
}

impl vstd::std_specs::convert::FromSpecImpl<LibraryError> for Error {
    open spec fn obeys_from_spec() -> bool {
        false
    }

    open spec fn from_spec(v: LibraryError) -> Error {
        arbitrary()
    }
}

impl From<RegexAstError> for Error {
    fn from(error: RegexAstError) -> (r: Error)
        ensures
            displayed(&error, r@),
    {
        Error::from_regex_syntax(error)
    }
}

impl vstd::std_specs::convert::FromSpecImpl<RegexAstError> for Error {
    open spec fn obeys_from_spec() -> bool {
        false
    }

    open spec fn from_spec(v: RegexAstError) -> Error {
        arbitrary()
    }
}

impl From<WalkError> for Error {
    fn from(error: WalkError) -> (r: Error)
        ensures
            displayed(&error, r@),
    {
        Error::from_walk(error)
    }
}

impl vstd::std_specs::convert::FromSpecImpl<WalkError> for Error {
    open spec fn obeys_from_spec() -> bool {
        false
    }

    open spec fn from_spec(v: WalkError) -> Error {
        arbitrary()
    }
}

} // verus!
