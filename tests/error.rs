use cli_error::Error;
use std::io;
use tree_sitter::{QueryError, QueryErrorKind};
use tree_sitter_highlight::Error as HighlightError;
use tree_sitter_tags::Error as TagsError;

fn query_error(row: usize, kind: QueryErrorKind, message: &str) -> QueryError {
    QueryError {
        row,
        column: 0,
        offset: 0,
        message: message.to_string(),
        kind,
    }
}

#[test]
fn single_frame_renders_verbatim() {
    assert_eq!(Error::new("something broke".to_string()).message(), "something broke");
    assert_eq!(Error::new(String::new()).message(), "");
    assert_eq!(Error::new("line one\nline two".to_string()).message(), "line one\nline two");
}

#[test]
fn wrap_once_adds_details_section() {
    let e = Error::new("m1".to_string()).wrap(|| "m2".to_string());
    assert_eq!(e.message(), "m2\nDetails:\n  m1\n");
}

#[test]
fn chain_of_wraps_lists_details_newest_first() {
    let e = Error::new("root".to_string())
        .wrap(|| "second".to_string())
        .wrap(|| "third".to_string())
        .wrap(|| "outermost".to_string());
    assert_eq!(
        e.message(),
        "outermost\nDetails:\n  third\n  second\n  root\n"
    );
}

#[test]
fn wrap_keeps_frames_verbatim() {
    let e = Error::new("root".to_string())
        .wrap(|| "same".to_string())
        .wrap(|| "same".to_string());
    assert_eq!(e.message(), "same\nDetails:\n  same\n  root\n");
}

#[test]
fn ignored_sentinel_is_ignored() {
    assert!(Error::new_ignored().is_ignored());
    assert_eq!(Error::new_ignored().message(), "Ignored error");
}

#[test]
fn reportable_errors_are_not_ignored() {
    assert!(!Error::new("anything".to_string()).is_ignored());
    assert!(!Error::new(String::new()).is_ignored());
    assert!(!Error::grammar("x").is_ignored());
}

#[test]
fn broken_pipe_io_error_is_ignored() {
    let e = Error::from(io::Error::new(io::ErrorKind::BrokenPipe, "pipe closed"));
    assert!(e.is_ignored());
    assert!(Error::from_io_kind(io::ErrorKind::BrokenPipe, "pipe closed".to_string()).is_ignored());
}

#[test]
fn other_io_error_keeps_its_message() {
    let e = Error::from(io::Error::new(io::ErrorKind::NotFound, "no such file"));
    assert!(!e.is_ignored());
    assert_eq!(e.message(), "no such file");
    let k = Error::from_io_kind(io::ErrorKind::PermissionDenied, "denied".to_string());
    assert_eq!(k.message(), "denied");
}

#[test]
fn grammar_error_renders_with_prefix() {
    assert_eq!(Error::grammar("bad rule").message(), "Grammar error: bad rule");
}

#[test]
fn undefined_symbol_renders_in_backticks() {
    assert_eq!(Error::undefined_symbol("foo").message(), "Undefined symbol `foo`");
}

#[test]
fn regex_error_prefix_is_prepended() {
    assert_eq!(
        Error::regex("unclosed group".to_string()).message(),
        "Regex error: unclosed group"
    );
}

#[test]
fn err_returns_reportable_failure() {
    let r: Result<u32, Error> = Error::err("failed".to_string());
    let e = r.unwrap_err();
    assert!(!e.is_ignored());
    assert_eq!(e.message(), "failed");
}

#[test]
fn string_converts_to_single_frame() {
    assert_eq!(Error::from("plain text".to_string()).message(), "plain text");
}

#[test]
fn query_syntax_error_then_wrapped() {
    let e = Error::from(("grammar.js", query_error(4, QueryErrorKind::Syntax, "unexpected token")));
    assert_eq!(
        e.message(),
        "Query error at grammar.js:5. Invalid syntax:\nunexpected token"
    );
    let w = e.wrap(|| "while loading queries".to_string());
    assert_eq!(
        w.message(),
        "while loading queries\nDetails:\n  Query error at grammar.js:5. Invalid syntax:\nunexpected token\n"
    );
}

#[test]
fn query_error_clauses_by_kind() {
    let cases = [
        (QueryErrorKind::Capture, "Query error at q.scm:1. Invalid capture name @x"),
        (QueryErrorKind::Field, "Query error at q.scm:1. Invalid field name @x"),
        (QueryErrorKind::NodeType, "Query error at q.scm:1. Invalid node type @x"),
        (QueryErrorKind::Syntax, "Query error at q.scm:1. Invalid syntax:\n@x"),
        (QueryErrorKind::Structure, "Query error at q.scm:1. Impossible pattern:\n@x"),
        (QueryErrorKind::Predicate, "Query error at q.scm:1. Invalid predicate: @x"),
        (QueryErrorKind::Language, "Query error at q.scm:1. @x"),
    ];
    for (kind, expected) in cases {
        assert_eq!(Error::from_query("q.scm", query_error(0, kind, "@x")).message(), expected);
    }
}

#[test]
fn query_error_row_is_one_based_decimal() {
    let e = Error::from_query("a/b.scm", query_error(99, QueryErrorKind::Field, "f"));
    assert_eq!(e.message(), "Query error at a/b.scm:100. Invalid field name f");
    let big = Error::from_query("x", query_error(usize::MAX, QueryErrorKind::Field, "f"));
    let expected = format!("Query error at x:{}. Invalid field name f", (usize::MAX as u128) + 1);
    assert_eq!(big.message(), expected);
}

#[test]
fn highlight_error_shows_variant_name() {
    assert_eq!(Error::from(HighlightError::Cancelled).message(), "Cancelled");
    assert_eq!(Error::from(HighlightError::InvalidLanguage).message(), "InvalidLanguage");
    assert_eq!(Error::from_highlight(HighlightError::Unknown).message(), "Unknown");
}

#[test]
fn tags_error_shows_its_display_text() {
    assert_eq!(Error::from(TagsError::Cancelled).message(), "Cancelled");
    let capture = TagsError::InvalidCapture("bogus".to_string());
    let expected = capture.to_string();
    assert!(expected.starts_with("Invalid capture @bogus."));
    assert_eq!(Error::from_tags(capture).message(), expected);
}

#[test]
fn glob_pattern_error_names_position() {
    let e = glob::PatternError { pos: 12, msg: "invalid range pattern" };
    assert_eq!(
        Error::from(e).message(),
        "Pattern syntax error near position 12: invalid range pattern"
    );
    let parsed = glob::Pattern::new("a[").unwrap_err();
    let expected = parsed.to_string();
    assert_eq!(Error::from_pattern(parsed).message(), expected);
}

#[test]
fn json_error_keeps_its_message() {
    let err = serde_json::from_str::<serde_json::Value>("{").unwrap_err();
    let expected = err.to_string();
    let e = Error::from(err);
    assert!(!e.is_ignored());
    assert_eq!(e.message(), expected);
}

#[test]
fn regex_syntax_error_keeps_its_message() {
    let err = regex_syntax::ast::parse::Parser::new().parse("(").unwrap_err();
    let expected = err.to_string();
    assert_eq!(Error::from(err).message(), expected);
}

#[test]
fn walk_error_keeps_its_message() {
    let mut walk = walkdir::WalkDir::new("/nonexistent/cli_error/walk/root").into_iter();
    let err = walk.next().unwrap().unwrap_err();
    let expected = err.to_string();
    assert_eq!(Error::from_walk(err).message(), expected);
}

#[test]
fn converted_error_accepts_context() {
    let err = serde_json::from_str::<serde_json::Value>("[1,").unwrap_err();
    let root = err.to_string();
    let e = Error::from(err).wrap(|| "while reading config.json".to_string());
    assert_eq!(
        e.message(),
        format!("while reading config.json\nDetails:\n  {}\n", root)
    );
}

#[test]
fn exit_status_policy() {
    assert_eq!(Error::new("x".to_string()).exit_status(), 1);
    assert_eq!(Error::new_ignored().exit_status(), 0);
    let piped = Error::from(io::Error::new(io::ErrorKind::BrokenPipe, "gone"));
    assert_eq!(piped.exit_status(), 0);
}

#[test]
fn result_alias_carries_the_error() {
    let r: cli_error::Result<()> = Error::err("stopped".to_string());
    assert_eq!(r.unwrap_err().message(), "stopped");
}
