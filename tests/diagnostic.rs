use thrush::diagnostic::Diagnostic;
use thrush::error::{ThrushError, ThrushErrorKind, TokenSpan};

fn lines(v: &[&str]) -> Vec<String> {
    v.iter().map(|s| s.to_string()).collect()
}

fn lex(kind: ThrushErrorKind, line: usize) -> ThrushError {
    ThrushError::Lex(
        kind,
        "bad token".to_string(),
        "remove it".to_string(),
        TokenSpan { start: 3, end: 5 },
        line,
    )
}

#[test]
fn single_line_file_renders_its_line() {
    let d = Diagnostic::new("main.th".to_string(), lines(&["  let x = 1;  "]));
    let r = d.report(lex(ThrushErrorKind::SyntaxError, 1)).unwrap();
    assert_eq!(r.source, "let x = 1;");
    assert_eq!(r.underline, "^".repeat(10 + 4));
    assert_eq!(r.file_name, "main.th");
    assert_eq!(r.line, 1);
    assert_eq!(r.span, TokenSpan { start: 3, end: 5 });
    assert_eq!(r.title, "bad token");
    assert_eq!(r.help, "remove it");
}

#[test]
fn line_before_last_clamps_to_last() {
    let d = Diagnostic::new("f".to_string(), lines(&["a", "bb", "ccc"]));
    let r = d.report(lex(ThrushErrorKind::UnknownChar, 2)).unwrap();
    assert_eq!(r.source, "ccc");
    assert_eq!(r.underline, "^^^^^^^");
}

#[test]
fn ordinary_line_is_indexed_from_one() {
    let d = Diagnostic::new("f".to_string(), lines(&["a", "bb", "ccc", "dddd"]));
    let r = d.report(lex(ThrushErrorKind::ParsedNumber, 1)).unwrap();
    assert_eq!(r.source, "a");
    let r = d.report(lex(ThrushErrorKind::ParsedNumber, 4)).unwrap();
    assert_eq!(r.source, "dddd");
}

#[test]
fn line_outside_the_file_is_not_rendered() {
    let d = Diagnostic::new("f".to_string(), lines(&["a", "bb", "ccc"]));
    assert!(d.report(lex(ThrushErrorKind::SyntaxError, 4)).is_none());
    assert!(d.report(lex(ThrushErrorKind::SyntaxError, 0)).is_none());
    let empty = Diagnostic::new("f".to_string(), vec![]);
    assert!(empty.report(lex(ThrushErrorKind::SyntaxError, 1)).is_none());
}

#[test]
fn unlisted_lex_kind_is_not_rendered() {
    let d = Diagnostic::new("f".to_string(), lines(&["a"]));
    assert!(d.report(lex(ThrushErrorKind::TooManyArguments, 1)).is_none());
    assert!(d.report(lex(ThrushErrorKind::VariableNotDefined, 1)).is_none());
}

#[test]
fn parse_kinds_follow_their_list() {
    let d = Diagnostic::new("f".to_string(), lines(&["x"]));
    let parse = |k| {
        ThrushError::Parse(k, "t".to_string(), "h".to_string(), TokenSpan { start: 0, end: 1 }, 1)
    };
    assert!(d.report(parse(ThrushErrorKind::VariableNotDefined)).is_some());
    assert!(d.report(parse(ThrushErrorKind::UnreachableVariable)).is_some());
    assert!(d.report(parse(ThrushErrorKind::UnknownChar)).is_none());
    assert!(d.report(parse(ThrushErrorKind::TooManyArguments)).is_none());
}

#[test]
fn scope_failures_are_rendered() {
    let d = Diagnostic::new("f".to_string(), lines(&["use y"]));
    let e = ThrushError::Scope(
        ThrushErrorKind::VariableNotDefined,
        "unknown".to_string(),
        "declare it".to_string(),
        TokenSpan { start: 4, end: 5 },
        1,
    );
    assert_eq!(d.report(e).unwrap().source, "use y");
}

#[test]
fn compile_failures_are_not_source_pinned() {
    let d = Diagnostic::new("f".to_string(), lines(&["x"]));
    assert!(d.report(ThrushError::Compile("boom".to_string())).is_none());
}

#[test]
fn underline_counts_characters_not_bytes() {
    let d = Diagnostic::new("f".to_string(), lines(&["\tédé\t"]));
    let r = d.report(lex(ThrushErrorKind::SyntaxError, 1)).unwrap();
    assert_eq!(r.source, "édé");
    assert_eq!(r.underline, "^^^^^^^");
}

#[test]
fn render_report_draws_underline_for_given_line() {
    let r = thrush::diagnostic::render_report(
        "f".to_string(),
        7,
        TokenSpan { start: 1, end: 2 },
        "t".to_string(),
        "h".to_string(),
        "ab".to_string(),
    );
    assert_eq!(r.underline, "^^^^^^");
    assert_eq!(r.source, "ab");
    assert_eq!(r.line, 7);
}
