use vstd::prelude::*;

use crate::ast::{
    expr_is, exprs_are, fun_is, stmt_is, stmts_are, ExprV, FunV, StmtV,
    expr_ok, fun_ok, params_ok, stmt_ok, stmts_ok, Expression, ForStatement, FunExpression,
    IfStatement, InfixExpression, LetStatement, Statement,
};
use crate::error::{diagnostic, lemma_message_by_view, ErrView, KzErr, KzError};
use crate::file::PaserFile;
use crate::grammar::{self, Window};
use crate::lexer::{column_at, line_at, same_text, scan, Lexer};
use crate::token::{is_type_token, Operation, Token, TokenView};

verus! {

/// The precedence class of a token standing after an expression.
pub open spec fn operation_of(t: TokenView) -> Operation {
    match t {
        TokenView::Add | TokenView::Sub | TokenView::SelfSub | TokenView::SelfAdd => Operation::AddAndSub,
        TokenView::Div | TokenView::Mul => Operation::MulAndDiv,
        TokenView::LT | TokenView::GT | TokenView::LTEqu | TokenView::GTEqu => Operation::LtAndGt,
        TokenView::Equ | TokenView::BangEqu => Operation::EquAls,
        TokenView::LeftBracket => Operation::Call,
        TokenView::LeftSquareBra => Operation::Index,
        _ => Operation::Lowest,
    }
}

/// A statement terminator: newline, `;` or the end.
pub open spec fn is_stem_end(t: TokenView) -> bool {
    t is N || t is Sem || t is Eof
}

/// A resynchronisation point: a terminator or a brace.
pub open spec fn is_boundary(t: TokenView) -> bool {
    is_stem_end(t) || t is LeftCurlyBracket || t is RightCurlyBracket
}

/// A token that opens a comment.
pub open spec fn is_comment_opener(t: TokenView) -> bool {
    t is Notes || t is NotesBlock
}

/// A token that can begin a statement.
pub open spec fn starts_statement(t: TokenView) -> bool {
    t is Let || t is If || t is Fun || t is Type || t is Ident || t is SelfSub || t is SelfAdd
        || t is For || t is Return || t is Break || t is Continue
}

/// Whether `t`, standing after an expression, extends it when the caller
/// binds at `op`.
pub open spec fn continues_expression(t: TokenView, op: Operation) -> bool {
    operation_of(t).rank() > op.rank() && !is_stem_end(t)
}

/// A token that can begin a primary expression.
pub open spec fn starts_primary(t: TokenView) -> bool {
    t is Basics || t is Ident || t is LeftSquareBra || t is Fun
}

/// The statement kind that each starting token leads to.
pub open spec fn dispatches(t: TokenView, s: Statement) -> bool {
    &&& (t is Let ==> s is Let)
    &&& (t is If ==> s is IF)
    &&& (t is Fun ==> s is Fun)
    &&& (t is Type ==> s is Type)
    &&& (t is Ident ==> s is Invoke)
    &&& (t is SelfAdd || t is SelfSub ==> (s matches Statement::Invoke(
        Expression::SelfOp(_, op, true),
    ) && op@ == t))
    &&& (t is For ==> s is For)
    &&& (t is Return ==> s is Return)
    &&& (t is Break ==> s is Break)
    &&& (t is Continue ==> s is Continue)
}

/// `r` is the outcome `s` describes: an expression of that value, or an
/// error of that kind.
pub open spec fn expr_outcome(r: Result<Expression, KzError>, s: Result<ExprV, ErrView>) -> bool {
    match r {
        Ok(e) => s matches Ok(v) && expr_is(e, v),
        Err(x) => s matches Err(v) && x.kind_spec()@ == v,
    }
}

/// `r` is the outcome `s` describes: success, or an error of that kind.
pub open spec fn unit_outcome(r: Result<(), KzError>, s: Result<(), ErrView>) -> bool {
    match r {
        Ok(_) => s is Ok,
        Err(x) => s matches Err(v) && x.kind_spec()@ == v,
    }
}

/// `r` is the outcome `s` describes, as `expr_outcome` says.
pub open spec fn exprs_outcome(r: Result<Vec<Expression>, KzError>, s: Result<Seq<ExprV>, ErrView>) -> bool {
    match r {
        Ok(e) => s matches Ok(v) && exprs_are(e@, v),
        Err(x) => s matches Err(v) && x.kind_spec()@ == v,
    }
}

/// `r` is the outcome `s` describes, as `expr_outcome` says.
pub open spec fn stmt_outcome(r: Result<Statement, KzError>, s: Result<StmtV, ErrView>) -> bool {
    match r {
        Ok(e) => s matches Ok(v) && stmt_is(e, v),
        Err(x) => s matches Err(v) && x.kind_spec()@ == v,
    }
}

/// `r` is the outcome `s` describes, as `expr_outcome` says.
pub open spec fn stmts_outcome(r: Result<Vec<Statement>, KzError>, s: Result<Seq<StmtV>, ErrView>) -> bool {
    match r {
        Ok(e) => s matches Ok(v) && stmts_are(e@, v),
        Err(x) => s matches Err(v) && x.kind_spec()@ == v,
    }
}

/// `r` is the outcome `s` describes, as `expr_outcome` says.
pub open spec fn fun_outcome(r: Result<FunExpression, KzError>, s: Result<FunV, ErrView>) -> bool {
    match r {
        Ok(e) => s matches Ok(v) && fun_is(e, v),
        Err(x) => s matches Err(v) && x.kind_spec()@ == v,
    }
}

/// What the grammar makes of the whole of `source`: the outcome of `program`
/// on a parser fresh from the start of it, and the window after.
pub open spec fn parse_of(source: Seq<u8>) -> grammar::Parsed<Seq<StmtV>> {
    grammar::program(source, grammar::initial_window(source, 0))
}

/// `r` is what parsing `source`, read from `path`, gives: the statements
/// the grammar makes of it, or an error of the kind the grammar gives, placed
/// at the line and column where the grammar stops.
pub open spec fn parse_result_is(
    r: Result<Vec<Statement>, KzError>,
    path: Seq<char>,
    source: Seq<u8>,
) -> bool {
    &&& stmts_outcome(r, parse_of(source).0)
    &&& r matches Err(e) ==> {
        &&& e.path_text() == path
        &&& e.line_spec() == line_at(source, parse_of(source).1.pos)
        &&& e.index_spec() == column_at(source, parse_of(source).1.pos)
    }
}

/// Two outcomes of parsing are the same: statements of the same value, or
/// errors of the same kind at the same place, whose rendered diagnostics are
/// equal.
pub open spec fn same_outcome(a: Result<Vec<Statement>, KzError>, b: Result<Vec<Statement>, KzError>) -> bool {
    match a {
        Ok(x) => match b {
            Ok(y) => exists|v: Seq<StmtV>| stmts_are(x@, v) && stmts_are(y@, v),
            Err(_) => false,
        },
        Err(x) => match b {
            Ok(_) => false,
            Err(y) => {
                &&& x.kind_spec()@ == y.kind_spec()@
                &&& x.path_text() == y.path_text()
                &&& x.line_spec() == y.line_spec()
                &&& x.index_spec() == y.index_spec()
                &&& diagnostic(x.path_text(), x.line_spec(), x.index_spec(), x.kind_spec())
                    == diagnostic(y.path_text(), y.line_spec(), y.index_spec(), y.kind_spec())
            },
        },
    }
}

/// Parsing is stable: two parses of the same bytes read from the same path
/// (by `parse_file`, or by `program` on a fresh parser) give the same
/// outcome, since each is what the grammar makes of those bytes.
pub proof fn lemma_parse_stable(
    path: Seq<char>,
    source: Seq<u8>,
    first: Result<Vec<Statement>, KzError>,
    second: Result<Vec<Statement>, KzError>,
)
    requires
        parse_result_is(first, path, source),
        parse_result_is(second, path, source),
    ensures
        same_outcome(first, second),
{
    match first {
        Ok(x) => {
            if let Ok(y) = second {
                let v = parse_of(source).0->Ok_0;
                assert(stmts_are(x@, v) && stmts_are(y@, v));
            }
        },
        Err(x) => {
            if let Err(y) = second {
                lemma_message_by_view(x.kind_spec(), y.kind_spec());
            }
        },
    }
}

/// The value of a run of decimal digits.
pub open spec fn digits_value(s: Seq<char>) -> int
    decreases s.len(),
{
    if s.len() == 0 {
        0
    } else {
        digits_value(s.drop_last()) * 10 + (s.last() as int - '0' as int)
    }
}

pub open spec fn all_digits(s: Seq<char>) -> bool {
    forall|k: int| 0 <= k < s.len() ==> '0' <= #[trigger] s[k] <= '9'
}

/// The integer a literal's text denotes, when it is one that fits in `i32`.
pub open spec fn int_value(s: Seq<char>) -> Option<i32> {
    if s.len() > 0 && all_digits(s) && digits_value(s) <= i32::MAX {
        Some(digits_value(s) as i32)
    } else {
        None
    }
}

proof fn lemma_digits_value_grows(s: Seq<char>, k: int)
    requires
        0 <= k <= s.len(),
        all_digits(s),
    ensures
        digits_value(s.subrange(0, k)) <= digits_value(s),
        0 <= digits_value(s.subrange(0, k)),
    decreases s.len() - k,
{
    if k < s.len() {
        lemma_digits_value_grows(s, k + 1);
        let p = s.subrange(0, k + 1);
        assert(p.drop_last() =~= s.subrange(0, k));
        assert('0' <= p.last() <= '9');
        lemma_digits_value_nonneg(s.subrange(0, k));
    } else {
        assert(s.subrange(0, k) =~= s);
        lemma_digits_value_nonneg(s);
    }
}

proof fn lemma_digits_value_nonneg(s: Seq<char>)
    requires
        all_digits(s),
    ensures
        0 <= digits_value(s),
    decreases s.len(),
{
    if s.len() > 0 {
        assert(all_digits(s.drop_last()));
        lemma_digits_value_nonneg(s.drop_last());
    }
}

/// Reads a run of decimal digits as an `i32`; `None` when the text is empty,
/// holds another character, or is too large.
pub fn parse_int(s: &str) -> (r: Option<i32>)
    ensures
        r == int_value(s@),
{
    let n = s.unicode_len();
    if n == 0 {
        return None;
    }
    let mut k: usize = 0;
    let mut acc: i32 = 0;
    while k < n
        invariant
            n == s@.len(),
            k <= n,
            all_digits(s@.subrange(0, k as int)),
            acc == digits_value(s@.subrange(0, k as int)),
            0 <= acc,
        decreases n - k,
    {
        let c = s.get_char(k);
        if c < '0' || c > '9' {
            assert(!all_digits(s@));
            return None;
        }
        let d = (c as u32 - '0' as u32) as i32;
        assert(s@.subrange(0, k + 1).drop_last() =~= s@.subrange(0, k as int));
        if acc > (i32::MAX - d) / 10 {
            proof {
                assert(all_digits(s@.subrange(0, k + 1)));
                assert(digits_value(s@.subrange(0, k + 1)) > i32::MAX);
                if all_digits(s@) {
                    lemma_digits_value_grows(s@, k + 1);
                }
            }
            return None;
        }
        assert(acc * 10 + d <= i32::MAX) by (nonlinear_arith)
            requires
                acc <= (i32::MAX - d) / 10,
                0 <= d <= 9,
        ;
        acc = acc * 10 + d;
        k = k + 1;
    }
    assert(s@.subrange(0, n as int) =~= s@);
    Some(acc)
}

/// Parses a whole source unit as a program: its statements, or the first
/// error, placed at the line and column where the lexer stood.
pub fn parse_file(f: PaserFile) -> (r: Result<Vec<Statement>, KzError>)
    requires
        f.content().len() < usize::MAX,
    ensures
        parse_result_is(r, f.path_text(), f.content()),
        r matches Ok(v) ==> stmts_ok(v@),
{
    let l = Lexer::new(f);
    let mut p = Parser::new(l);
    p.program()
}

/// A recursive-descent parser over a lexer, with a window of two tokens:
/// the current one and the one after it.
pub struct Parser {
    lex: Lexer,
    current_tok: Token,
    peek_tok: Token,
}

impl Parser {
    /// The current token.
    pub closed spec fn current_token(&self) -> Token {
        self.current_tok
    }

    /// The current token's value.
    pub closed spec fn current(&self) -> TokenView {
        self.current_tok@
    }

    /// The value of the token after the current one.

    pub closed spec fn lookahead(&self) -> TokenView {
        self.peek_tok@
    }

    /// The bytes being parsed.
    pub closed spec fn source(&self) -> Seq<u8> {
        self.lex.source()
    }

    /// The path of the source unit.
    pub closed spec fn path_text(&self) -> Seq<char> {
        self.lex.path_text()
    }

    /// How many bytes the lexer has consumed.
    pub closed spec fn cursor(&self) -> int {
        self.lex.cursor()
    }

    /// The window is consistent with the lexer: the end is seen only once the
    /// source is consumed, and never before the current token.
    pub closed spec fn window_ok(&self) -> bool {
        &&& self.lex.wf()
        &&& self.lex.cursor() <= self.lex.source().len()
        &&& !(self.peek_tok@ is Array)
        &&& (self.current_tok@ is Eof ==> self.peek_tok@ is Eof)
        &&& (self.peek_tok@ is Eof ==> self.lex.cursor() == self.lex.source().len())
        &&& !is_comment_opener(self.peek_tok@)
    }

    /// The window is consistent and comments are skipped.
    pub closed spec fn wf(&self) -> bool {
        &&& self.window_ok()
        &&& !is_comment_opener(self.current_tok@)
    }

    /// The lexer's position and the window of tokens.
    pub closed spec fn window(&self) -> Window {
        Window { pos: self.lex.cursor(), cur: self.current_tok@, peek: self.peek_tok@ }
    }

    /// What is left to read: two per byte, one per token in the window.
    pub closed spec fn size(&self) -> nat {
        grammar::size(self.lex.source(), self.window())
    }

    /// The program ahead begins with a token that cannot begin a statement
    /// and does not end the program.
    pub closed spec fn opens_badly(&self) -> bool {
        &&& !starts_statement(self.current_tok@)
        &&& !(self.current_tok@ is N)
        &&& !(self.current_tok@ is Sem)
        &&& !(self.current_tok@ is RightCurlyBracket)
        &&& !(self.current_tok@ is Eof)
    }

    /// `later` is a well-formed state of the same source, no further from the end.
    pub closed spec fn follows(&self, later: &Parser) -> bool {
        &&& later.wf()
        &&& later.source() == self.source()
        &&& later.path_text() == self.path_text()
        &&& later.size() <= self.size()
    }

    /// The error is placed at the lexer's position.
    pub closed spec fn located(&self, e: KzError) -> bool {
        &&& e.path_text() == self.lex.path_text()
        &&& e.line_spec() == line_at(self.lex.source(), self.lex.cursor())
        &&& e.index_spec() == column_at(self.lex.source(), self.lex.cursor())
    }

    /// A parser whose window holds the first two tokens of the lexer's source.
    pub fn new(l: Lexer) -> (r: Parser)
        requires
            l.wf(),
            l.cursor() <= l.source().len(),
        ensures
            r.wf(),
            r.source() == l.source(),
            r.path_text() == l.path_text(),
            r.window() == grammar::initial_window(l.source(), l.cursor()),
    {
        let mut p = Parser {
            lex: l,
            current_tok: Token::Error("parsing not started".to_owned()),
            peek_tok: Token::Error("parsing not started".to_owned()),
        };
        p.next_token();
        p.next_token();
        p
    }



    /// Moves the window one token on: the next token becomes current, and
    /// the next token that is not part of a comment is drawn behind it.
    fn next_token(&mut self)
        requires
            old(self).window_ok(),
        ensures
            final(self).wf(),
            final(self).source() == old(self).source(),
            final(self).path_text() == old(self).path_text(),
            old(self).size() > 0 ==> final(self).size() < old(self).size(),
            old(self).size() == 0 ==> *final(self) == *old(self),
            !(final(self).current_tok@ is Array),
            final(self).current_tok == old(self).peek_tok,
            final(self).window() == grammar::advance(old(self).source(), old(self).window()),
    {
        reveal(grammar::advance);
        let mut t = self.notes();
        std::mem::swap(&mut self.peek_tok, &mut t);
        self.current_tok = t;
    }

    /// Draws the next token from the lexer, passing over comments: a line
    /// comment up to and including its newline, a block comment up to and
    /// including its closer.
    fn notes(&mut self) -> (r: Token)
        requires
            old(self).lex.wf(),
            old(self).lex.cursor() <= old(self).lex.source().len(),
        ensures
            final(self).lex.wf(),
            final(self).lex.source() == old(self).lex.source(),
            final(self).lex.path_text() == old(self).lex.path_text(),
            final(self).current_tok == old(self).current_tok,
            final(self).peek_tok == old(self).peek_tok,
            (r@, final(self).lex.cursor()) == grammar::visible(old(self).lex.source(), old(self).lex.cursor()),
            final(self).lex.cursor() <= final(self).lex.source().len(),
            r@ is Eof ==> final(self).lex.cursor() == final(self).lex.source().len(),
            !(r@ is Eof) ==> final(self).lex.cursor() > old(self).lex.cursor(),
            old(self).lex.cursor() == old(self).lex.source().len() ==> r@ is Eof && *final(self)
                == *old(self),
            !(r@ is Array),
            !is_comment_opener(r@),
    {
        let ghost b = self.lex.source();
        let ghost mut p = self.lex.cursor();
        let mut t = self.lex.next();
        while matches!(t, Token::Notes) || matches!(t, Token::NotesBlock)
            invariant
                self.lex.wf(),
                self.lex.source() == b,
                self.lex.path_text() == old(self).lex.path_text(),
                self.current_tok == old(self).current_tok,
                self.peek_tok == old(self).peek_tok,
                old(self).lex.cursor() <= p <= b.len(),
                self.lex.cursor() <= b.len(),
                (t@, self.lex.cursor()) == scan(b, p),
                t@ is Eof ==> self.lex.cursor() == b.len(),
                !(t@ is Eof) ==> self.lex.cursor() > p,
                !(t@ is Array),
                grammar::visible(b, p) == grammar::visible(b, old(self).lex.cursor()),
                old(self).lex.cursor() == b.len() ==> t@ is Eof && *self == *old(self),
            decreases b.len() - p,
        {
            let line = matches!(t, Token::Notes);
            self.dump_notes_token(line);
            proof {
                p = self.lex.cursor();
            }
            t = self.lex.next();
        }
        t
    }

    /// Discards the rest of a comment: up to and including its closer (a
    /// newline when `line`, `**/` otherwise), or up to the end.
    fn dump_notes_token(&mut self, line: bool)
        requires
            old(self).lex.wf(),
            old(self).lex.cursor() <= old(self).lex.source().len(),
        ensures
            final(self).lex.wf(),
            final(self).lex.source() == old(self).lex.source(),
            final(self).lex.path_text() == old(self).lex.path_text(),
            final(self).current_tok == old(self).current_tok,
            final(self).peek_tok == old(self).peek_tok,
            final(self).lex.cursor() == grammar::comment_end(
                old(self).lex.source(),
                old(self).lex.cursor(),
                line,
            ),
            old(self).lex.cursor() <= final(self).lex.cursor() <= final(self).lex.source().len(),
    {
        let ghost b = self.lex.source();
        let ghost mut q = self.lex.cursor();
        let mut u = self.lex.next();
        while !(matches!(u, Token::Eof) || (line && matches!(u, Token::N)) || (!line && matches!(
            u,
            Token::NotesBlockEnd,
        )))
            invariant
                self.lex.wf(),
                self.lex.source() == b,
                self.lex.path_text() == old(self).lex.path_text(),
                self.current_tok == old(self).current_tok,
                self.peek_tok == old(self).peek_tok,
                old(self).lex.cursor() <= q <= b.len(),
                self.lex.cursor() <= b.len(),
                (u@, self.lex.cursor()) == scan(b, q),
                !(u@ is Eof) ==> self.lex.cursor() > q,
                u@ is Eof ==> self.lex.cursor() == b.len(),
                grammar::comment_end(b, q, line) == grammar::comment_end(b, old(self).lex.cursor(), line),
            decreases b.len() - q,
        {
            proof {
                q = self.lex.cursor();
            }
            u = self.lex.next();
        }
    }

    fn current_token_is(&self, tok: &Token) -> (r: bool)
        ensures
            r == (self.current_tok@ == tok@),
    {
        self.current_tok.same(tok)
    }

    fn peek_token_is(&self, tok: &Token) -> (r: bool)
        ensures
            r == (self.peek_tok@ == tok@),
    {
        self.peek_tok.same(tok)
    }

    /// Moves on when the next token is `tok`.
    fn expect_peek_token(&mut self, tok: &Token) -> (r: bool)
        requires
            old(self).wf(),
            !(tok@ is Eof),
            !is_comment_opener(tok@),
        ensures
            old(self).follows(final(self)),
            r == (old(self).peek_tok@ == tok@),
            r ==> final(self).size() < old(self).size() && final(self).current_tok@ == tok@,
            !r ==> *final(self) == *old(self),
            (r, final(self).window()) == grammar::expect_peek(old(self).source(), old(self).window(), tok@),
    {
        if self.peek_token_is(tok) {
            self.next_token();
            return true;
        }
        false
    }

    /// Moves on when the current token is `tok`.
    fn expect_curr_token(&mut self, tok: &Token) -> (r: bool)
        requires
            old(self).wf(),
            !(tok@ is Eof),
        ensures
            old(self).follows(final(self)),
            r == (old(self).current_tok@ == tok@),
            r ==> final(self).size() < old(self).size(),
            !r ==> *final(self) == *old(self),
            (r, final(self).window()) == grammar::expect_curr(old(self).source(), old(self).window(), tok@),
    {
        if self.current_token_is(tok) {
            self.next_token();
            return true;
        }
        false
    }

    /// An error placed at the lexer's position.
    fn error(&self, err: KzErr) -> (r: KzError)
        requires
            self.wf(),
        ensures
            self.located(r),
            r.kind_spec() == err,
    {
        KzError::new(self.lex.file_path(), self.lex.line(), self.lex.line_index(), err)
    }

    fn operation(tok: &Token) -> (r: Operation)
        ensures
            r == operation_of(tok@),
    {
        match tok {
            Token::Add | Token::Sub | Token::SelfSub | Token::SelfAdd => Operation::AddAndSub,
            Token::Div | Token::Mul => Operation::MulAndDiv,
            Token::LT | Token::GT | Token::LTEqu | Token::GTEqu => Operation::LtAndGt,
            Token::Equ | Token::BangEqu => Operation::EquAls,
            Token::LeftBracket => Operation::Call,
            Token::LeftSquareBra => Operation::Index,
            _ => Operation::Lowest,
        }
    }

    fn peek_operation(&self) -> (r: Operation)
        ensures
            r == operation_of(self.peek_tok@),
    {
        Self::operation(&self.peek_tok)
    }

    fn curr_operation(&self) -> (r: Operation)
        ensures
            r == operation_of(self.current_tok@),
    {
        Self::operation(&self.current_tok)
    }

    fn stem_end(tok: &Token) -> (r: bool)
        ensures
            r == is_stem_end(tok@),
    {
        match tok {
            Token::N | Token::Sem | Token::Eof => true,
            _ => false,
        }
    }

    fn peek_stem_end(&self) -> (r: bool)
        ensures
            r == is_stem_end(self.peek_tok@),
    {
        Self::stem_end(&self.peek_tok)
    }

    fn curr_stem_end(&self) -> (r: bool)
        ensures
            r == is_stem_end(self.current_tok@),
    {
        Self::stem_end(&self.current_tok)
    }

    /// Skips newlines that follow the current token.
    fn dump_n(&mut self)
        requires
            old(self).wf(),
        ensures
            old(self).follows(final(self)),
            !(final(self).peek_tok@ is N),
            final(self).window() == grammar::dump_n(old(self).source(), old(self).window()),
    {
        while self.expect_peek_token(&Token::N)
            invariant
                old(self).follows(self),
                grammar::dump_n(self.source(), self.window()) == grammar::dump_n(
                    old(self).source(),
                    old(self).window(),
                ),
            decreases self.size(),
        {
        }
    }

    /// Discards tokens up to and including `tok`, or up to the end; a
    /// lexical error token on the way is fatal.
    fn dump_token(&mut self, tok: &Token) -> (r: Result<(), KzError>)
        requires
            old(self).wf(),
        ensures
            old(self).follows(final(self)),
            r matches Err(e) ==> final(self).located(e),
            ({
                let (v, w) = grammar::dump_token(old(self).source(), old(self).window(), tok@);
                final(self).window() == w && unit_outcome(r, v)
            }),
    {
        while !(self.current_token_is(tok) || matches!(self.current_tok, Token::Eof))
            invariant
                old(self).follows(self),
                grammar::dump_token(self.source(), self.window(), tok@) == grammar::dump_token(
                    old(self).source(),
                    old(self).window(),
                    tok@,
                ),
            decreases self.size(),
        {
            if matches!(self.current_tok, Token::Error(_)) {
                return Err(self.error(KzErr::UnExpSymbol(self.current_tok.duplicate())));
            }
            self.next_token();
        }
        self.next_token();
        Ok(())
    }

    /// Discards tokens up to a terminator or a brace, which stays current; a
    /// lexical error token on the way is fatal.
    fn dump_boundary(&mut self) -> (r: Result<(), KzError>)
        requires
            old(self).wf(),
        ensures
            old(self).follows(final(self)),
            r matches Err(e) ==> final(self).located(e),
            r is Ok ==> is_boundary(final(self).current_tok@),
            r is Ok && !is_boundary(old(self).current_tok@) ==> final(self).size() < old(self).size(),
            ({
                let (v, w) = grammar::dump_boundary(old(self).source(), old(self).window());
                final(self).window() == w && unit_outcome(r, v)
            }),
    {
        while !(self.curr_stem_end() || matches!(self.current_tok, Token::LeftCurlyBracket)
            || matches!(self.current_tok, Token::RightCurlyBracket))
            invariant
                old(self).follows(self),
                !is_boundary(old(self).current_tok@) && is_boundary(self.current_tok@) ==> self.size()
                    < old(self).size(),
                !is_boundary(old(self).current_tok@) && *self != *old(self) ==> self.size() < old(self).size(),
                grammar::dump_boundary(self.source(), self.window()) == grammar::dump_boundary(
                    old(self).source(),
                    old(self).window(),
                ),
            decreases self.size(),
        {
            if matches!(self.current_tok, Token::Error(_)) {
                return Err(self.error(KzErr::UnExpSymbol(self.current_tok.duplicate())));
            }
            self.next_token();
        }
        Ok(())
    }

    /// At `[`, reads an array type `[N]T` and makes it the current token when
    /// `T` is a legal type and `N`, if present, fits in `i32`.
    fn array_token(&mut self)
        requires
            old(self).wf(),
            old(self).current_tok@ is LeftSquareBra,
        ensures
            old(self).follows(final(self)),
            final(self).current_tok@ matches TokenView::Array(_, k) ==> is_type_token(*k),
            final(self).window() == grammar::array_token(old(self).source(), old(self).window()),
    {
        let number: Option<i32> = match &self.peek_tok {
            Token::Basics(val, tok) => {
                assert((**tok)@ is Int <==> **tok is Int);
                if matches!(**tok, Token::Int) {
                    parse_int(val.as_str())
                } else {
                    Some(0)
                }
            },
            _ => Some(0),
        };
        if !matches!(self.peek_tok, Token::RightSquareBra) {
            self.next_token();
        }
        if self.expect_peek_token(&Token::RightSquareBra) {
            if Token::let_type(&self.peek_tok) && number.is_some() {
                self.next_token();
                let mut element = Token::Unknown;
                std::mem::swap(&mut self.current_tok, &mut element);
                self.current_tok = Token::Array(number.unwrap(), Box::new(element));
            }
        }
    }
    /// The name in the next token, if it is an identifier.
    fn ident(&self) -> (r: Option<String>)
        ensures
            self.peek_tok matches Token::Ident(n) ==> r == Some(n),
            !(self.peek_tok is Ident) ==> r is None,
    {
        match &self.peek_tok {
            Token::Ident(name) => Some(name.clone()),
            _ => None,
        }
    }

    /// The expression a classified literal stands for.
    fn basics(&self, val: &String, tok: &Token) -> (r: Result<Expression, KzError>)
        requires
            self.wf(),
        ensures
            grammar::literal_view(val@, tok@) matches Some(v) ==> (r matches Ok(e) && expr_is(e, v)),
            grammar::literal_view(val@, tok@) is None ==> (r matches Err(x) && self.located(x)
                && x.kind_spec() == KzErr::Value(*val)),
    {
        match tok {
            Token::Int => match parse_int(val.as_str()) {
                Some(n) => Ok(Expression::Int(n)),
                None => Err(self.error(KzErr::Value(val.clone()))),
            },
            Token::Float => Ok(Expression::Float(val.clone())),
            Token::Bool => if same_text(val.as_str(), "true") {
                Ok(Expression::Bool(true))
            } else if same_text(val.as_str(), "false") {
                Ok(Expression::Bool(false))
            } else {
                Err(self.error(KzErr::Value(val.clone())))
            },
            Token::String => Ok(Expression::String(val.clone())),
            _ => Err(self.error(KzErr::Value(val.clone()))),
        }
    }

    /// Parses statements until the current token is the end or `}`;
    /// newlines and `;` between statements are passed over.
    pub fn program(&mut self) -> (r: Result<Vec<Statement>, KzError>)
        requires
            old(self).wf(),
        ensures
            old(self).follows(final(self)),
            r matches Err(e) ==> final(self).located(e),
            r matches Ok(v) ==> stmts_ok(v@),
            r is Ok ==> final(self).current() is Eof || final(self).current() is RightCurlyBracket,
            old(self).opens_badly() ==> (r matches Err(e) && e.kind_spec() == KzErr::Program(
                old(self).current_token(),
            ) && *final(self) == *old(self)),
            ({
                let (v, w) = grammar::program(old(self).source(), old(self).window());
                &&& final(self).window() == w
                &&& stmts_outcome(r, v)
                &&& r matches Err(e) ==> {
                    &&& e.path_text() == old(self).path_text()
                    &&& e.line_spec() == line_at(old(self).source(), w.pos)
                    &&& e.index_spec() == column_at(old(self).source(), w.pos)
                }
            }),
        decreases old(self).size(), 9nat,
    {
        let mut v: Vec<Statement> = Vec::new();
        let ghost mut acc: Seq<StmtV> = seq![];
        while !matches!(self.current_tok, Token::Eof) && !matches!(
            self.current_tok,
            Token::RightCurlyBracket,
        )
            invariant
                old(self).follows(self),
                stmts_ok(v@),
                old(self).opens_badly() ==> *self == *old(self),
                stmts_are(v@, acc),
                grammar::program_rest(self.source(), self.window(), acc) == grammar::program(
                    old(self).source(),
                    old(self).window(),
                ),
            decreases self.size(),
        {
            if matches!(self.current_tok, Token::N) || matches!(self.current_tok, Token::Sem) {
                self.next_token();
            } else {
                let ghost w = self.window();
                let s = self.parser_statement()?;
                proof {
                    acc = acc.push(grammar::statement(self.source(), w).0->Ok_0);
                }
                v.push(s);
            }
        }
        Ok(v)
    }

    /// Parses the statement that the current token begins.
    fn parser_statement(&mut self) -> (r: Result<Statement, KzError>)
        requires
            old(self).wf(),
        ensures
            old(self).follows(final(self)),
            r matches Err(e) ==> final(self).located(e),
            r matches Ok(s) ==> stmt_ok(s) && final(self).size() < old(self).size() && dispatches(
                old(self).current_tok@,
                s,
            ),
            !starts_statement(old(self).current_tok@) ==> (r matches Err(e) && e.kind_spec()
                == KzErr::Program(old(self).current_tok) && *final(self) == *old(self)),
            ({
                let (v, w) = grammar::statement(old(self).source(), old(self).window());
                final(self).window() == w && stmt_outcome(r, v)
            }),
        decreases old(self).size(), 8nat,
    {
        match self.current_tok {
            Token::Let => self.let_statement(),
            Token::If => self.if_statement(),
            Token::Fun => {
                let f = self.fun_expression()?;
                Ok(Statement::Fun(f))
            },
            Token::Type => self.type_statement(),
            Token::Ident(_) => self.ident_statement(),
            Token::SelfSub | Token::SelfAdd => self.prefix_statement(),
            Token::For => self.for_statement(),
            Token::Return | Token::Break | Token::Continue => self.rbc_statement(),
            _ => Err(self.error(KzErr::Program(self.current_tok.duplicate()))),
        }
    }

    /// `let name [: type] = expression`.
    fn let_statement(&mut self) -> (r: Result<Statement, KzError>)
        requires
            old(self).wf(),
            old(self).current_tok@ is Let,
        ensures
            old(self).follows(final(self)),
            r matches Err(e) ==> final(self).located(e),
            r matches Ok(s) ==> stmt_ok(s) && final(self).size() < old(self).size() && s is Let,
            r matches Ok(Statement::Let(l)) ==> old(self).peek_tok == Token::Ident(l.ident),
            !(old(self).peek_tok is Ident) ==> (r matches Err(e) && e.kind_spec()
                == KzErr::ExpectedName && *final(self) == *old(self)),
            ({
                let (v, w) = grammar::let_statement(old(self).source(), old(self).window());
                final(self).window() == w && stmt_outcome(r, v)
            }),
        decreases old(self).size(), 7nat,
    {
        let ident = self.ident();
        match ident {
            None => Err(self.error(KzErr::ExpectedName)),
            Some(name) => {
                let mut let_stem = LetStatement::new(name);
                self.next_token();
                if self.expect_peek_token(&Token::Colon) {
                    self.next_token();
                    if matches!(self.current_tok, Token::LeftSquareBra) {
                        self.array_token();
                    }
                    if !Token::let_type(&self.current_tok) {
                        return Err(self.error(KzErr::Type(self.current_tok.duplicate())));
                    }
                    let_stem.token_type = self.current_tok.duplicate();
                }
                if !self.expect_peek_token(&Token::Assign) {
                    return Err(self.error(KzErr::Expected(Token::Assign)));
                }
                self.next_token();
                let e = self.expression(Operation::Lowest)?;
                let_stem.exp = Some(e);
                self.dump_boundary()?;
                Ok(Statement::Let(let_stem))
            },
        }
    }

    /// `[a, b, ...]`; the closing `]` stays current.
    fn list_value_expression(&mut self) -> (r: Result<Expression, KzError>)
        requires
            old(self).wf(),
            old(self).current_tok@ is LeftSquareBra,
        ensures
            old(self).follows(final(self)),
            r matches Err(e) ==> final(self).located(e),
            r matches Ok(e) ==> expr_ok(e) && final(self).size() < old(self).size() && e is ListValue,
            ({
                let (v, w) = grammar::list_value(old(self).source(), old(self).window());
                final(self).window() == w && expr_outcome(r, v)
            }),
        decreases old(self).size(), 5nat,
    {
        self.expect_curr_token(&Token::LeftSquareBra);
        let ghost start = self.window();
        let mut list: Vec<Box<Expression>> = Vec::new();
        let ghost mut acc: Seq<ExprV> = seq![];
        while !matches!(self.current_tok, Token::RightSquareBra)
            invariant
                old(self).follows(self),
                self.size() < old(self).size(),
                forall|k: int| 0 <= k < list.len() ==> expr_ok(*#[trigger] list[k]),
                list.len() == acc.len(),
                forall|k: int| 0 <= k < list.len() ==> expr_is(*#[trigger] list[k], acc[k]),
                start == grammar::expect_curr(
                    old(self).source(),
                    old(self).window(),
                    TokenView::LeftSquareBra,
                ).1,
                grammar::size(old(self).source(), start) < old(self).size(),
                grammar::list_rest(self.source(), self.window(), acc) == grammar::list_rest(
                    old(self).source(),
                    start,
                    seq![],
                ),
            decreases self.size(),
        {
            let ghost w = self.window();
            let e = self.expression(Operation::Lowest)?;
            proof {
                acc = acc.push(grammar::expression(self.source(), w, Operation::Lowest).0->Ok_0);
            }
            list.push(Box::new(e));
            self.next_token();
            self.expect_curr_token(&Token::Comma);
        }
        Ok(Expression::ListValue(list))
    }

    /// Parses a primary expression, then folds in operators, calls, indexes
    /// and postfix `++`/`--` while the next token binds tighter than `op`.
    fn expression(&mut self, op: Operation) -> (r: Result<Expression, KzError>)
        requires
            old(self).wf(),
        ensures
            old(self).follows(final(self)),
            r matches Err(e) ==> final(self).located(e),
            r matches Ok(e) ==> expr_ok(e) && starts_primary(old(self).current_tok@) && (final(self).size()
                < old(self).size() || *final(self) == *old(self)),
            r is Ok ==> !continues_expression(final(self).peek_tok@, op),
            !starts_primary(old(self).current_tok@) ==> (r matches Err(e) && e.kind_spec()
                == KzErr::UnExpSymbol(old(self).current_tok) && *final(self) == *old(self)),
            ({
                let (v, w) = grammar::expression(old(self).source(), old(self).window(), op);
                final(self).window() == w && expr_outcome(r, v)
            }),
        decreases old(self).size(), 6nat,
    {
        let ghost w0 = self.window();
        let ghost mut left_v: ExprV = ExprV::Unknown;
        let mut left = match &self.current_tok {
            Token::Basics(val, tok) => {
                assert(self.current_tok@ == TokenView::Basics(val@, Box::new((**tok)@)));
                let e = self.basics(val, &**tok)?;
                proof {
                    left_v = grammar::literal_view(val@, (**tok)@)->Some_0;
                }
                e
            },
            Token::Ident(val) => {
                proof {
                    left_v = ExprV::Ident(val@);
                }
                Expression::Ident(val.clone())
            },
            Token::LeftSquareBra => {
                let e = self.list_value_expression()?;
                proof {
                    left_v = grammar::list_value(self.source(), w0).0->Ok_0;
                }
                e
            },
            Token::Fun => {
                let f = self.fun_expression()?;
                proof {
                    left_v = ExprV::Fun(Box::new(grammar::fun_expression(self.source(), w0).0->Ok_0));
                }
                Expression::Fun(Box::new(f))
            },
            _ => {
                return Err(self.error(KzErr::UnExpSymbol(self.current_tok.duplicate())));
            },
        };
        while op.level() < self.peek_operation().level() && !self.peek_stem_end()
            invariant
                old(self).follows(self),
                expr_ok(left),
                starts_primary(old(self).current_tok@),
                self.size() < old(self).size() || *self == *old(self),
                expr_is(left, left_v),
                grammar::expression_rest(self.source(), self.window(), op, left_v)
                    == grammar::expression(old(self).source(), old(self).window(), op),
            decreases self.size(),
        {
            let ghost prior = left_v;
            match self.peek_tok {
                Token::Add
                | Token::Sub
                | Token::Div
                | Token::Mul
                | Token::LT
                | Token::GT
                | Token::LTEqu
                | Token::GTEqu
                | Token::BangEqu
                | Token::Equ => {
                    self.next_token();
                    let ghost w1 = self.window();
                    let e = self.infix_expression(left, Ghost(prior))?;
                    proof {
                        left_v = grammar::infix_expression(self.source(), w1, prior).0->Ok_0;
                    }
                    left = e;
                },
                Token::LeftBracket => {
                    self.next_token();
                    let ghost w1 = self.window();
                    let e = self.call_expression(left, Ghost(prior))?;
                    proof {
                        left_v = grammar::call_expression(self.source(), w1, prior).0->Ok_0;
                    }
                    left = e;
                },
                Token::LeftSquareBra => {
                    self.next_token();
                    let ghost w1 = self.window();
                    let e = self.index_expression(left, Ghost(prior))?;
                    proof {
                        left_v = grammar::index_expression(self.source(), w1, prior).0->Ok_0;
                    }
                    left = e;
                },
                Token::SelfAdd | Token::SelfSub => {
                    self.next_token();
                    proof {
                        left_v = ExprV::SelfOp(Box::new(prior), self.current_tok@, false);
                    }
                    left = self.self_operation_expression(left, false);
                },
                _ => {
                    return Err(self.error(KzErr::UnOpSymbol(self.peek_tok.duplicate())));
                },
            }
        }
        if matches!(self.peek_tok, Token::Error(_)) {
            return Err(self.error(KzErr::UnOpSymbol(self.peek_tok.duplicate())));
        }
        Ok(left)
    }

    /// `left <op> right`, with the operator current; the right operand binds
    /// at the operator's class.
    fn infix_expression(&mut self, left: Expression, Ghost(left_v): Ghost<ExprV>) -> (r: Result<
        Expression,
        KzError,
    >)
        requires
            old(self).wf(),
            expr_ok(left),
            expr_is(left, left_v),
            !(old(self).current_tok@ is Eof),
        ensures
            old(self).follows(final(self)),
            r matches Err(e) ==> final(self).located(e),
            r matches Ok(e) ==> expr_ok(e) && final(self).size() < old(self).size(),
            r matches Ok(e) ==> e matches Expression::Infix(i) && i.left == left && i.op_symbol
                == old(self).current_tok,
            r is Ok ==> !continues_expression(
                final(self).peek_tok@,
                operation_of(old(self).current_tok@),
            ),
            ({
                let (v, w) = grammar::infix_expression(old(self).source(), old(self).window(), left_v);
                final(self).window() == w && expr_outcome(r, v)
            }),
        decreases old(self).size(), 5nat,
    {
        let mut exp = InfixExpression::new(left);
        exp.op_symbol = self.current_tok.duplicate();
        let op = self.curr_operation();
        self.next_token();
        exp.right = self.expression(op)?;
        Ok(Expression::Infix(Box::new(exp)))
    }

    /// `if condition { ... } [else { ... }]`.
    fn if_statement(&mut self) -> (r: Result<Statement, KzError>)
        requires
            old(self).wf(),
            old(self).current_tok@ is If,
        ensures
            old(self).follows(final(self)),
            r matches Err(e) ==> final(self).located(e),
            r matches Ok(s) ==> stmt_ok(s) && final(self).size() < old(self).size() && s is IF,
            ({
                let (v, w) = grammar::if_statement(old(self).source(), old(self).window());
                final(self).window() == w && stmt_outcome(r, v)
            }),
        decreases old(self).size(), 7nat,
    {
        self.next_token();
        let exp = self.expression(Operation::Lowest)?;
        let mut if_stem = IfStatement::new(exp);
        if !self.expect_peek_token(&Token::LeftCurlyBracket) {
            return Err(self.error(KzErr::Expected(Token::LeftCurlyBracket)));
        }
        self.next_token();
        if_stem.consequence = self.program()?;
        if self.expect_peek_token(&Token::Else) {
            self.next_token();
            let ghost start = self.window();
            while self.peek_token_is(&Token::LeftCurlyBracket) || self.peek_token_is(&Token::N)
                || self.current_token_is(&Token::LeftCurlyBracket)
                invariant
                    old(self).follows(self),
                    self.size() < old(self).size(),
                    grammar::skip_else_open(self.source(), self.window()) == grammar::skip_else_open(
                        old(self).source(),
                        start,
                    ),
                decreases self.size(),
            {
                self.next_token();
            }
            if_stem.alternative = self.program()?;
        }
        self.dump_token(&Token::RightCurlyBracket)?;
        Ok(Statement::IF(if_stem))
    }

    /// A function head: optional name, `(parameters)`, then `-> type` when an
    /// arrow follows, whose type must be legal.
    fn fun_head_expression(&mut self, need_param_name: bool) -> (r: Result<FunExpression, KzError>)
        requires
            old(self).wf(),
            !(old(self).current_tok@ is Eof),
        ensures
            old(self).follows(final(self)),
            r matches Err(e) ==> final(self).located(e),
            r matches Ok(f) ==> fun_ok(f) && final(self).size() < old(self).size() && f.param_exp is Some,
            ({
                let (v, w) = grammar::fun_head(old(self).source(), old(self).window(), need_param_name);
                final(self).window() == w && fun_outcome(r, v)
            }),
    {
        let name = self.ident();
        let mut fn_exp = FunExpression::new();
        self.next_token();
        match name {
            Some(n) => {
                if !self.expect_peek_token(&Token::LeftBracket) {
                    return Err(self.error(KzErr::Expected(Token::LeftBracket)));
                }
                fn_exp.name = Some(Expression::Ident(n));
            },
            None => {},
        }
        self.next_token();
        let params = self.param_expression(&Token::RightBracket, false, need_param_name)?;
        fn_exp.param_number = params.len();
        fn_exp.param_exp = Some(params);
        if self.expect_peek_token(&Token::Arrow) {
            self.next_token();
            if !Token::let_type(&self.current_tok) {
                return Err(self.error(KzErr::Type(self.current_tok.duplicate())));
            }
            fn_exp.ret_type = Some(self.current_tok.duplicate());
        }
        Ok(fn_exp)
    }

    /// A function with its body.
    fn fun_expression(&mut self) -> (r: Result<FunExpression, KzError>)
        requires
            old(self).wf(),
            !(old(self).current_tok@ is Eof),
        ensures
            old(self).follows(final(self)),
            r matches Err(e) ==> final(self).located(e),
            r matches Ok(f) ==> fun_ok(f) && final(self).size() < old(self).size(),
            ({
                let (v, w) = grammar::fun_expression(old(self).source(), old(self).window());
                final(self).window() == w && fun_outcome(r, v)
            }),
        decreases old(self).size(), 5nat,
    {
        let mut fn_exp = self.fun_head_expression(true)?;
        if !self.expect_peek_token(&Token::LeftCurlyBracket) {
            return Err(self.error(KzErr::Expected(Token::LeftCurlyBracket)));
        }
        self.next_token();
        fn_exp.body = self.program()?;
        self.dump_token(&Token::RightCurlyBracket)?;
        Ok(fn_exp)
    }

    /// Parameters up to the token `tok`: `name: type` entries (an identifier
    /// followed by `:`), or, where names are not needed, bare types; where
    /// they are, any other entry is a `ParamName` error. `n` lets newlines
    /// stand between entries.
    fn param_expression(&mut self, tok: &Token, n: bool, need_name: bool) -> (r: Result<
        Vec<Expression>,
        KzError,
    >)
        requires
            old(self).wf(),
        ensures
            old(self).follows(final(self)),
            r matches Err(e) ==> final(self).located(e),
            r matches Ok(v) ==> params_ok(v@),
            ({
                let (sv, w) = grammar::params(
                    old(self).source(),
                    old(self).window(),
                    tok@,
                    n,
                    need_name,
                    seq![],
                );
                final(self).window() == w && exprs_outcome(r, sv)
            }),
    {
        let mut v: Vec<Expression> = Vec::new();
        let ghost mut acc: Seq<ExprV> = seq![];
        while !self.current_token_is(tok)
            invariant
                old(self).follows(self),
                params_ok(v@),
                exprs_are(v@, acc),
                grammar::params(self.source(), self.window(), tok@, n, need_name, acc)
                    == grammar::params(old(self).source(), old(self).window(), tok@, n, need_name, seq![]),
            decreases self.size(),
        {
            let name: Option<String> = if matches!(self.peek_tok, Token::Colon) {
                match &self.current_tok {
                    Token::Ident(val) => Some(val.clone()),
                    _ => None,
                }
            } else {
                None
            };
            if matches!(self.current_tok, Token::N) && n {
                self.next_token();
                continue ;
            }
            match name {
                Some(name) => {
                    self.expect_peek_token(&Token::Colon);
                    self.next_token();
                    if matches!(self.current_tok, Token::LeftSquareBra) {
                        self.array_token();
                    }
                    if !Token::let_type(&self.current_tok) {
                        return Err(self.error(KzErr::Type(self.current_tok.duplicate())));
                    }
                    let item = Expression::Param(name, self.current_tok.duplicate());
                    proof {
                        acc = acc.push(ExprV::Param(name@, self.current_tok@));
                    }
                    v.push(item);
                    self.expect_peek_token(&Token::Comma);
                    self.next_token();
                },
                None => {
                    if need_name {
                        return Err(self.error(KzErr::ParamName));
                    }
                    if matches!(self.current_tok, Token::LeftSquareBra) {
                        self.array_token();
                    }
                    if !Token::let_type(&self.current_tok) {
                        return Err(self.error(KzErr::Type(self.current_tok.duplicate())));
                    }
                    let item = Expression::Param("".to_owned(), self.current_tok.duplicate());
                    proof {
                        acc = acc.push(ExprV::Param(""@, self.current_tok@));
                    }
                    v.push(item);
                    self.expect_peek_token(&Token::Comma);
                    self.next_token();
                },
            }
        }
        Ok(v)
    }

    /// `type Name struct {...}`, `type Name fun (...) -> T`, or `type Name T`.
    fn type_statement(&mut self) -> (r: Result<Statement, KzError>)
        requires
            old(self).wf(),
            old(self).current_tok@ is Type,
        ensures
            old(self).follows(final(self)),
            r matches Err(e) ==> final(self).located(e),
            r matches Ok(s) ==> stmt_ok(s) && final(self).size() < old(self).size() && s is Type,
            ({
                let (v, w) = grammar::type_statement(old(self).source(), old(self).window());
                final(self).window() == w && stmt_outcome(r, v)
            }),
    {
        self.next_token();
        let name: Option<String> = match &self.current_tok {
            Token::Ident(n) => Some(n.clone()),
            _ => None,
        };
        match name {
            Some(name) => {
                if self.expect_peek_token(&Token::Struct) {
                    let e = self.struct_expression()?;
                    return Ok(Statement::Type(name, e));
                }
                if self.expect_peek_token(&Token::Fun) {
                    let e = self.type_fn_expression()?;
                    return Ok(Statement::Type(name, e));
                }
                if Token::let_type(&self.peek_tok) {
                    let basic = Expression::Basic(self.peek_tok.duplicate());
                    assert(expr_ok(basic));
                    assert(expr_is(basic, ExprV::Basic(self.peek_tok@)));
                    let stem = Statement::Type(name, basic);
                    self.next_token();
                    self.next_token();
                    return Ok(stem);
                }
            },
            None => {},
        }
        Err(self.error(KzErr::ExpectedName))
    }

    /// `struct { field: type, ... }`, with `struct` current.
    fn struct_expression(&mut self) -> (r: Result<Expression, KzError>)
        requires
            old(self).wf(),
        ensures
            old(self).follows(final(self)),
            r matches Err(e) ==> final(self).located(e),
            r matches Ok(e) ==> expr_ok(e) && e is Struct,
            ({
                let (v, w) = grammar::struct_expression(old(self).source(), old(self).window());
                final(self).window() == w && expr_outcome(r, v)
            }),
    {
        if !self.expect_peek_token(&Token::LeftCurlyBracket) {
            return Err(self.error(KzErr::UnExpSymbol(Token::LeftCurlyBracket)));
        }
        self.dump_n();
        self.next_token();
        let param = self.param_expression(&Token::RightCurlyBracket, true, true)?;
        self.dump_token(&Token::RightCurlyBracket)?;
        Ok(Expression::Struct(Box::new(param)))
    }

    /// A function type: a head whose parameters need no names.
    fn type_fn_expression(&mut self) -> (r: Result<Expression, KzError>)
        requires
            old(self).wf(),
            !(old(self).current_tok@ is Eof),
        ensures
            old(self).follows(final(self)),
            r matches Err(e) ==> final(self).located(e),
            r matches Ok(e) ==> expr_ok(e) && e is FunType,
            ({
                let (v, w) = grammar::type_fn_expression(old(self).source(), old(self).window());
                final(self).window() == w && expr_outcome(r, v)
            }),
    {
        let f = self.fun_head_expression(false)?;
        self.next_token();
        let p: Option<Box<Vec<Expression>>> = match f.param_exp {
            Some(ps) => Some(Box::new(ps)),
            None => None,
        };
        Ok(Expression::FunType(p, f.ret_type))
    }

    /// A statement that begins with an identifier: an expression.
    fn ident_statement(&mut self) -> (r: Result<Statement, KzError>)
        requires
            old(self).wf(),
            old(self).current_tok@ is Ident,
        ensures
            old(self).follows(final(self)),
            r matches Err(e) ==> final(self).located(e),
            r matches Ok(s) ==> stmt_ok(s) && final(self).size() < old(self).size() && s is Invoke,
            ({
                let (v, w) = grammar::ident_statement(old(self).source(), old(self).window());
                final(self).window() == w && stmt_outcome(r, v)
            }),
        decreases old(self).size(), 7nat,
    {
        let exp = self.expression(Operation::Lowest)?;
        self.dump_boundary()?;
        Ok(Statement::Invoke(exp))
    }

    /// `callee(arguments)`, with `(` current; the token after `)` ends up
    /// current.
    fn call_expression(&mut self, left: Expression, Ghost(left_v): Ghost<ExprV>) -> (r: Result<
        Expression,
        KzError,
    >)
        requires
            old(self).wf(),
            expr_ok(left),
            expr_is(left, left_v),
            !(old(self).current_tok@ is Eof),
        ensures
            old(self).follows(final(self)),
            r matches Err(e) ==> final(self).located(e),
            r matches Ok(e) ==> expr_ok(e) && final(self).size() < old(self).size() && e is Call,
            ({
                let (v, w) = grammar::call_expression(old(self).source(), old(self).window(), left_v);
                final(self).window() == w && expr_outcome(r, v)
            }),
        decreases old(self).size(), 5nat,
    {
        self.next_token();
        let ghost start = self.window();
        let mut list: Vec<Box<Expression>> = Vec::new();
        let ghost mut acc: Seq<ExprV> = seq![];
        while !matches!(self.current_tok, Token::RightBracket) && !self.curr_stem_end()
            invariant
                old(self).follows(self),
                self.size() < old(self).size(),
                forall|k: int| 0 <= k < list.len() ==> expr_ok(*#[trigger] list[k]),
                list.len() == acc.len(),
                forall|k: int| 0 <= k < list.len() ==> expr_is(*#[trigger] list[k], acc[k]),
                start == grammar::advance(old(self).source(), old(self).window()),
                grammar::size(old(self).source(), start) < old(self).size(),
                grammar::call_rest(self.source(), self.window(), acc) == grammar::call_rest(
                    old(self).source(),
                    start,
                    seq![],
                ),
            decreases self.size(),
        {
            let ghost w = self.window();
            let exp = self.expression(Operation::Lowest)?;
            proof {
                acc = acc.push(grammar::expression(self.source(), w, Operation::Lowest).0->Ok_0);
            }
            list.push(Box::new(exp));
            if self.expect_peek_token(&Token::Comma) || self.expect_peek_token(&Token::RightBracket) {
                self.next_token();
            } else {
                return Err(self.error(KzErr::Expected(Token::RightBracket)));
            }
        }
        self.expect_curr_token(&Token::RightBracket);
        Ok(Expression::Call(Box::new(left), list))
    }

    /// `base[index]`, with `[` current.
    fn index_expression(&mut self, left: Expression, Ghost(left_v): Ghost<ExprV>) -> (r: Result<
        Expression,
        KzError,
    >)
        requires
            old(self).wf(),
            expr_ok(left),
            expr_is(left, left_v),
            !(old(self).current_tok@ is Eof),
        ensures
            old(self).follows(final(self)),
            r matches Err(e) ==> final(self).located(e),
            r matches Ok(e) ==> expr_ok(e) && final(self).size() < old(self).size() && e is Index,
            ({
                let (v, w) = grammar::index_expression(old(self).source(), old(self).window(), left_v);
                final(self).window() == w && expr_outcome(r, v)
            }),
        decreases old(self).size(), 5nat,
    {
        self.next_token();
        let exp = self.expression(Operation::Lowest)?;
        self.dump_token(&Token::RightSquareBra)?;
        Ok(Expression::Index(Box::new(left), Box::new(exp)))
    }

    /// `name++` or `name--` (postfix when `left` is false), with the operator
    /// current.
    fn self_operation_expression(&self, name: Expression, left: bool) -> (r: Expression)
        requires
            expr_ok(name),
            self.current_tok@ is SelfAdd || self.current_tok@ is SelfSub,
        ensures
            r == Expression::SelfOp(Box::new(name), self.current_tok, left),
            expr_ok(r),
    {
        let tok = self.current_tok.duplicate();
        Expression::SelfOp(Box::new(name), tok, left)
    }

    /// `++name` or `--name` as a statement.
    fn prefix_statement(&mut self) -> (r: Result<Statement, KzError>)
        requires
            old(self).wf(),
            old(self).current_tok@ is SelfAdd || old(self).current_tok@ is SelfSub,
        ensures
            old(self).follows(final(self)),
            r matches Err(e) ==> final(self).located(e),
            r matches Ok(s) ==> stmt_ok(s) && final(self).size() < old(self).size(),
            r matches Ok(s) ==> s matches Statement::Invoke(Expression::SelfOp(_, t, true)) && t
                == old(self).current_tok,
            ({
                let (v, w) = grammar::prefix_statement(old(self).source(), old(self).window());
                final(self).window() == w && stmt_outcome(r, v)
            }),
        decreases old(self).size(), 7nat,
    {
        let tok = self.current_tok.duplicate();
        self.next_token();
        let ghost w = self.window();
        let exp = self.expression(Operation::Lowest)?;
        self.next_token();
        let operation = Expression::SelfOp(Box::new(exp), tok, true);
        assert(expr_ok(operation));
        assert(expr_is(
            operation,
            ExprV::SelfOp(
                Box::new(grammar::expression(self.source(), w, Operation::Lowest).0->Ok_0),
                tok@,
                true,
            ),
        ));
        Ok(Statement::Invoke(operation))
    }

    /// `for init; condition; post { ... }`; both semicolons are required.
    fn for_statement(&mut self) -> (r: Result<Statement, KzError>)
        requires
            old(self).wf(),
            old(self).current_tok@ is For,
        ensures
            old(self).follows(final(self)),
            r matches Err(e) ==> final(self).located(e),
            r matches Ok(s) ==> stmt_ok(s) && final(self).size() < old(self).size() && s is For,
            ({
                let (v, w) = grammar::for_statement(old(self).source(), old(self).window());
                final(self).window() == w && stmt_outcome(r, v)
            }),
        decreases old(self).size(), 7nat,
    {
        self.next_token();
        let start_condition = self.parser_statement()?;
        if !self.expect_curr_token(&Token::Sem) {
            return Err(self.error(KzErr::UnExpSymbol(Token::Sem)));
        }
        let condition = self.expression(Operation::Lowest)?;
        self.next_token();
        if !self.expect_curr_token(&Token::Sem) {
            return Err(self.error(KzErr::UnExpSymbol(Token::Sem)));
        }
        let self_operation = self.parser_statement()?;
        let mut for_stem = ForStatement::new(start_condition, condition, self_operation);
        if !self.expect_curr_token(&Token::LeftCurlyBracket) {
            return Err(self.error(KzErr::UnExpSymbol(Token::LeftCurlyBracket)));
        }
        for_stem.consequence = self.program()?;
        self.dump_token(&Token::RightCurlyBracket)?;
        Ok(Statement::For(for_stem))
    }

    /// `return expression`, `break` or `continue`.
    fn rbc_statement(&mut self) -> (r: Result<Statement, KzError>)
        requires
            old(self).wf(),
            old(self).current_tok@ is Return || old(self).current_tok@ is Break
                || old(self).current_tok@ is Continue,
        ensures
            old(self).follows(final(self)),
            r matches Err(e) ==> final(self).located(e),
            r matches Ok(s) ==> stmt_ok(s) && final(self).size() < old(self).size(),
            r matches Ok(s) ==> (old(self).current_tok@ is Return ==> s is Return) && (old(self).current_tok@ is Break ==> s is Break) && (old(self).current_tok@ is Continue
                ==> s is Continue),
            ({
                let (v, w) = grammar::rbc_statement(old(self).source(), old(self).window());
                final(self).window() == w && stmt_outcome(r, v)
            }),
        decreases old(self).size(), 7nat,
    {
        let tok = self.current_tok.duplicate();
        self.next_token();
        let stem = match tok {
            Token::Return => Statement::Return(self.expression(Operation::Lowest)?),
            Token::Break => Statement::Break,
            Token::Continue => Statement::Continue,
            _ => {
                return Err(self.error(KzErr::UnExpSymbol(tok)));
            },
        };
        self.dump_boundary()?;
        Ok(stem)
    }
}

} // verus!
