use vstd::prelude::*;
use vstd::string::*;

use crate::render::{decimal, decimal_text};
use crate::token::{token_text, Token, TokenView};

verus! {

/// What went wrong during a parse.
#[derive(Debug, PartialEq)]
pub enum KzErr {
    /// The current token cannot begin any statement.
    Program(Token),
    /// A token in type position fails the legal-type predicate.
    Type(Token),
    /// A token the grammar requires is absent.
    Expected(Token),
    /// A name is required but missing.
    ExpectedName,
    /// No expression can start here, or a required symbol is missing.
    UnExpSymbol(Token),
    /// The token cannot continue an expression.
    UnOpSymbol(Token),
    /// A literal's text cannot be read as its declared kind.
    Value(String),
    /// A parameter needs a name but has none.
    ParamName,
}

/// The mathematical value of an error kind.
pub enum ErrView {
    Program(TokenView),
    Type(TokenView),
    Expected(TokenView),
    ExpectedName,
    UnExpSymbol(TokenView),
    UnOpSymbol(TokenView),
    Value(Seq<char>),
    ParamName,
}

impl View for KzErr {
    type V = ErrView;

    open spec fn view(&self) -> ErrView {
        match self {
            KzErr::Program(t) => ErrView::Program(t@),
            KzErr::Type(t) => ErrView::Type(t@),
            KzErr::Expected(t) => ErrView::Expected(t@),
            KzErr::ExpectedName => ErrView::ExpectedName,
            KzErr::UnExpSymbol(t) => ErrView::UnExpSymbol(t@),
            KzErr::UnOpSymbol(t) => ErrView::UnOpSymbol(t@),
            KzErr::Value(s) => ErrView::Value(s@),
            KzErr::ParamName => ErrView::ParamName,
        }
    }
}

/// The human-readable message of an error kind.
pub open spec fn message(e: KzErr) -> Seq<char> {
    match e {
        KzErr::Program(t) => "program unknown type error "@ + token_text(t@),
        KzErr::Type(t) => "'"@ + token_text(t@) + "' type is not legal"@,
        KzErr::Expected(t) => "expected symbol '"@ + token_text(t@) + "' does not exist"@,
        KzErr::ExpectedName => "expected name is missing"@,
        KzErr::UnExpSymbol(t) => "unknown expected symbol -> '"@ + token_text(t@) + "'"@,
        KzErr::UnOpSymbol(t) => "unknown operation symbol -> '"@ + token_text(t@) + "'"@,
        KzErr::Value(s) => "unknown value input -> "@ + s@,
        KzErr::ParamName => "Parameter name is not a valid value"@,
    }
}

/// Error kinds of the same value have the same message.
pub proof fn lemma_message_by_view(a: KzErr, b: KzErr)
    requires
        a@ == b@,
    ensures
        message(a) == message(b),
{
}

impl KzErr {
    /// The human-readable message of this error kind.
    pub fn echo(&self) -> (r: String)
        ensures
            r@ == message(*self),
    {
        match self {
            KzErr::Program(tok) => "program unknown type error ".to_owned().concat(tok.text().as_str()),
            KzErr::Type(tok) => "'".to_owned().concat(tok.text().as_str()).concat("' type is not legal"),
            KzErr::Expected(tok) => "expected symbol '".to_owned().concat(tok.text().as_str()).concat(
                "' does not exist",
            ),
            KzErr::ExpectedName => "expected name is missing".to_owned(),
            KzErr::UnExpSymbol(tok) => "unknown expected symbol -> '".to_owned().concat(
                tok.text().as_str(),
            ).concat("'"),
            KzErr::UnOpSymbol(tok) => "unknown operation symbol -> '".to_owned().concat(
                tok.text().as_str(),
            ).concat("'"),
            KzErr::Value(s) => "unknown value input -> ".to_owned().concat(s.as_str()),
            KzErr::ParamName => "Parameter name is not a valid value".to_owned(),
        }
    }
}

/// A parse error with the place it was found: file path, 1-based line, and
/// column within the line.
#[derive(Debug, PartialEq)]
pub struct KzError {
    path: String,
    line: usize,
    index: usize,
    err: KzErr,
}

/// The rendered diagnostic: `<path>  line-><line>:<column>`, a newline, two
/// tabs, and the message.
pub open spec fn diagnostic(path: Seq<char>, line: nat, index: nat, err: KzErr) -> Seq<char> {
    path + "  line->"@ + decimal_text(line) + ":"@ + decimal_text(index) + "\n\t\t"@ + message(err)
}

impl KzError {
    /// The path of the source unit the error was found in.
    pub closed spec fn path_text(&self) -> Seq<char> {
        self.path@
    }

    /// The 1-based line of the error.
    pub closed spec fn line_spec(&self) -> nat {
        self.line as nat
    }

    /// The column of the error within its line.
    pub closed spec fn index_spec(&self) -> nat {
        self.index as nat
    }

    /// What went wrong.
    pub closed spec fn kind_spec(&self) -> KzErr {
        self.err
    }

    pub fn new(path: &str, line: usize, index: usize, err: KzErr) -> (r: KzError)
        ensures
            r.path_text() == path@,
            r.line_spec() == line,
            r.index_spec() == index,
            r.kind_spec() == err,
    {
        KzError { path: path.to_owned(), line, index, err }
    }

    /// The rendered diagnostic.
    pub fn error(self) -> (r: String)
        ensures
            r@ == diagnostic(self.path_text(), self.line_spec(), self.index_spec(), self.kind_spec()),
    {
        let line = decimal(self.line as u64);
        let index = decimal(self.index as u64);
        let message = self.err.echo();
        self.path.concat("  line->").concat(line.as_str()).concat(":").concat(index.as_str()).concat(
            "\n\t\t",
        ).concat(message.as_str())
    }

    pub fn path(&self) -> (r: &str)
        ensures
            r@ == self.path_text(),
    {
        self.path.as_str()
    }

    pub fn line(&self) -> (r: usize)
        ensures
            r == self.line_spec(),
    {
        self.line
    }

    pub fn index(&self) -> (r: usize)
        ensures
            r == self.index_spec(),
    {
        self.index
    }

    pub fn kind(&self) -> (r: &KzErr)
        ensures
            *r == self.kind_spec(),
    {
        &self.err
    }
}

} // verus!
