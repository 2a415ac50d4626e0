//! Source-pinned rendering of error reports.

use vstd::prelude::*;
use vstd::string::{StrSliceExecFns, StringExecFns};

use crate::error::{ThrushError, ThrushErrorKind, TokenSpan};

verus! {

/// What `str::trim` leaves of a line.
pub uninterp spec fn trim_of(s: Seq<char>) -> Seq<char>;

/// Relies on `str::trim`: the line with leading and trailing whitespace removed.
#[verifier::external_body]
fn trim_line(s: &str) -> (r: &str)
    ensures
        r@ == trim_of(s@),
{
    s.trim()
}

/// The marker character of the underline.
pub open spec fn marker() -> char {
    '^'
}

/// The underline drawn below a source line of `n` characters: one marker per
/// character and four more.
pub open spec fn underline_of(n: nat) -> Seq<char> {
    Seq::new(n + 4, |_i: int| marker())
}

/// Which stored line a 1-based `line` renders, for a file of `n` lines: the
/// last line when `line` is one less than `n`, else line `line` itself.
pub open spec fn source_index(line: nat, n: nat) -> Option<nat> {
    if n > 0 && line == n - 1 {
        Some((n - 1) as nat)
    } else if 1 <= line <= n {
        Some((line - 1) as nat)
    } else {
        None
    }
}

/// Lexical failures that the reporter renders.
pub open spec fn lex_rendered(k: ThrushErrorKind) -> bool {
    matches!(k, ThrushErrorKind::SyntaxError | ThrushErrorKind::ParsedNumber
        | ThrushErrorKind::UnreachableNumber | ThrushErrorKind::UnknownChar)
}

/// Parse failures that the reporter renders.
pub open spec fn parse_rendered(k: ThrushErrorKind) -> bool {
    matches!(k, ThrushErrorKind::ParsedNumber | ThrushErrorKind::UnreachableNumber
        | ThrushErrorKind::SyntaxError | ThrushErrorKind::UnreachableVariable
        | ThrushErrorKind::VariableNotDefined)
}

/// Whether an error is of a category and sub-kind that the reporter renders:
/// the listed lexical and parse sub-kinds, and every scope failure.
pub open spec fn rendered(e: ThrushError) -> bool {
    match e {
        ThrushError::Lex(k, ..) => lex_rendered(k),
        ThrushError::Parse(k, ..) => parse_rendered(k),
        ThrushError::Scope(..) => true,
        ThrushError::Compile(_) => false,
    }
}

/// A rendered, source-pinned error report, ready to be printed.
#[derive(Debug)]
pub struct Report {
    pub file_name: String,
    pub line: usize,
    pub span: TokenSpan,
    pub title: String,
    /// The referenced source line, trimmed.
    pub source: String,
    pub underline: String,
    pub help: String,
}

/// Renders error reports against the lines of one source file.
pub struct Diagnostic {
    file_name: String,
    lines: Vec<String>,
}

impl Diagnostic {
    pub closed spec fn file_name(&self) -> Seq<char> {
        self.file_name@
    }

    pub closed spec fn lines(&self) -> Seq<String> {
        self.lines@
    }

    /// A reporter for the file `file_name` whose lines, in order, are `lines`.
    pub fn new(file_name: String, lines: Vec<String>) -> (r: Diagnostic)
        ensures
            r.file_name() == file_name@,
            r.lines() == lines@,
    {
        Diagnostic { file_name, lines }
    }

    /// The report for `error`, or `None` where the error is not of a rendered
    /// kind or its line is not in the file.
    pub fn report(&self, error: ThrushError) -> (r: Option<Report>)
        ensures
            r is Some <==> match error {
                ThrushError::Compile(_) => false,
                ThrushError::Lex(_, _, _, _, line) | ThrushError::Parse(_, _, _, _, line)
                | ThrushError::Scope(_, _, _, _, line) => rendered(error) && source_index(
                    line as nat,
                    self.lines().len(),
                ) is Some,
            },
            r is Some ==> match error {
                ThrushError::Compile(_) => false,
                ThrushError::Lex(_, title, help, span, line) | ThrushError::Parse(
                    _,
                    title,
                    help,
                    span,
                    line,
                )
                | ThrushError::Scope(_, title, help, span, line) => {
                    let rep = r->Some_0;
                    let idx = source_index(line as nat, self.lines().len())->Some_0;
                    &&& rep.file_name@ == self.file_name()
                    &&& rep.line == line
                    &&& rep.span == span
                    &&& rep.title@ == title@
                    &&& rep.help@ == help@
                    &&& rep.source@ == trim_of(self.lines()[idx as int]@)
                    &&& rep.underline@ == underline_of(rep.source@.len())
                },
            },
    {
        let rendered_kind = match &error {
            ThrushError::Lex(k, ..) => match k {
                ThrushErrorKind::SyntaxError | ThrushErrorKind::ParsedNumber
                | ThrushErrorKind::UnreachableNumber | ThrushErrorKind::UnknownChar => true,
                _ => false,
            },
            ThrushError::Parse(k, ..) => match k {
                ThrushErrorKind::ParsedNumber | ThrushErrorKind::UnreachableNumber
                | ThrushErrorKind::SyntaxError | ThrushErrorKind::UnreachableVariable
                | ThrushErrorKind::VariableNotDefined => true,
                _ => false,
            },
            ThrushError::Scope(..) => true,
            ThrushError::Compile(_) => false,
        };
        if !rendered_kind {
            return None;
        }
        match error {
            ThrushError::Lex(_, title, help, span, line) | ThrushError::Parse(
                _,
                title,
                help,
                span,
                line,
            )
            | ThrushError::Scope(_, title, help, span, line) => {
                self.print_report(title, help, span, line)
            },
            ThrushError::Compile(_) => None,
        }
    }

    fn print_report(&self, title: String, help: String, span: TokenSpan, line: usize) -> (r:
        Option<Report>)
        ensures
            r is Some <==> source_index(line as nat, self.lines().len()) is Some,
            r is Some ==> {
                let rep = r->Some_0;
                let idx = source_index(line as nat, self.lines().len())->Some_0;
                &&& rep.file_name@ == self.file_name()
                &&& rep.line == line
                &&& rep.span == span
                &&& rep.title@ == title@
                &&& rep.help@ == help@
                &&& rep.source@ == trim_of(self.lines()[idx as int]@)
                &&& rep.underline@ == underline_of(rep.source@.len())
            },
    {
        let n = self.lines.len();
        let idx: usize = if n > 0 && line == n - 1 {
            n - 1
        } else if 1 <= line && line <= n {
            line - 1
        } else {
            return None;
        };
        let source = String::from_str(trim_line(self.lines[idx].as_str()));
        Some(render_report(self.file_name.clone(), line, span, title, help, source))
    }
}

/// The report for an error on a source line that is already trimmed: the
/// fields as given, and an underline of one marker per character of the line
/// plus four.
pub fn render_report(
    file_name: String,
    line: usize,
    span: TokenSpan,
    title: String,
    help: String,
    source: String,
) -> (r: Report)
    ensures
        r.file_name@ == file_name@,
        r.line == line,
        r.span == span,
        r.title@ == title@,
        r.help@ == help@,
        r.source@ == source@,
        r.underline@ == underline_of(source@.len()),
{
    let underline = draw_underline(source.as_str().unicode_len());
    Report { file_name, line, span, title, source, underline, help }
}

/// The underline for a line of `n` characters.
fn draw_underline(n: usize) -> (r: String)
    ensures
        r@ == underline_of(n as nat),
{
    let mut out = String::new();
    let mut i: usize = 0;
    while i < n
        invariant
            i <= n,
            out@ == Seq::new(i as nat, |_j: int| marker()),
        decreases n - i,
    {
        out.append("^");
        proof {
            reveal_strlit("^");
        }
        assert(out@ =~= Seq::new((i + 1) as nat, |_j: int| marker()));
        i = i + 1;
    }
    out.append("^^^^");
    proof {
        reveal_strlit("^^^^");
    }
    assert(out@ =~= underline_of(n as nat));
    out
}

} // verus!
