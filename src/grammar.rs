use vstd::prelude::*;

use crate::ast::{ExprV, FunV, StmtV};
use crate::error::ErrView;
use crate::lexer::scan;
use crate::parser::{continues_expression, int_value, is_boundary, is_stem_end, operation_of};
use crate::token::{is_type_token, Operation, TokenView};

verus! {

/// Where a parse stands: how many bytes the lexer has consumed, the current
/// token and the one after it.
pub struct Window {
    pub pos: int,
    pub cur: TokenView,
    pub peek: TokenView,
}

/// A parse step's outcome and the window after it.
pub type Parsed<T> = (Result<T, ErrView>, Window);

/// What is left to read: two per byte, one per token in the window.
pub open spec fn size(b: Seq<u8>, w: Window) -> nat {
    ((if w.pos <= b.len() {
        2 * (b.len() - w.pos)
    } else {
        0int
    }) + (if w.cur is Eof {
        0int
    } else {
        1int
    }) + (if w.peek is Eof {
        0int
    } else {
        1int
    })) as nat
}

/// Where a comment whose opener ends just before `pos` ends: just past its
/// closer (a newline for a line comment, `**/` for a block comment), or at
/// the end of the source.
pub open spec fn comment_end(b: Seq<u8>, pos: int, line: bool) -> int
    decreases (b.len() - pos) as nat,
{
    let (t, e) = scan(b, pos);
    if t is Eof || (line && t is N) || (!line && t is NotesBlockEnd) {
        e
    } else if pos < e <= b.len() {
        comment_end(b, e, line)
    } else {
        e
    }
}

/// The next token from `pos` that is not part of a comment, and the position
/// after it.
pub open spec fn visible(b: Seq<u8>, pos: int) -> (TokenView, int)
    decreases (b.len() - pos) as nat,
{
    let (t, e) = scan(b, pos);
    if t is Notes || t is NotesBlock {
        let c = comment_end(b, e, t is Notes);
        if pos < c <= b.len() {
            visible(b, c)
        } else {
            (TokenView::Eof, c)
        }
    } else {
        (t, e)
    }
}

/// The window moved one token on: the next token becomes current, and the
/// next visible token is drawn behind it, so that no comment is ever in the
/// window.
#[verifier::opaque]
pub open spec fn advance(b: Seq<u8>, w: Window) -> Window {
    let (t, e) = visible(b, w.pos);
    Window { pos: e, cur: w.peek, peek: t }
}

/// The window a parser starts with.
pub open spec fn initial_window(b: Seq<u8>, pos: int) -> Window {
    let unstarted = TokenView::Error("parsing not started"@);
    advance(b, advance(b, Window { pos, cur: unstarted, peek: unstarted }))
}

/// Moves on when the next token is `t`; says whether it did.
pub open spec fn expect_peek(b: Seq<u8>, w: Window, t: TokenView) -> (bool, Window) {
    if w.peek == t {
        (true, advance(b, w))
    } else {
        (false, w)
    }
}

/// Moves on when the current token is `t`; says whether it did.
pub open spec fn expect_curr(b: Seq<u8>, w: Window, t: TokenView) -> (bool, Window) {
    if w.cur == t {
        (true, advance(b, w))
    } else {
        (false, w)
    }
}

/// Moves past the newlines that follow the current token.
pub open spec fn dump_n(b: Seq<u8>, w: Window) -> Window
    decreases size(b, w),
{
    if w.peek is N {
        let w2 = advance(b, w);
        if size(b, w2) < size(b, w) {
            dump_n(b, w2)
        } else {
            w2
        }
    } else {
        w
    }
}

/// Discards tokens up to and including `t`, or up to the end; a lexical
/// error token on the way is fatal.
pub open spec fn dump_token(b: Seq<u8>, w: Window, t: TokenView) -> Parsed<()>
    decreases size(b, w),
{
    if w.cur == t || w.cur is Eof {
        (Ok(()), advance(b, w))
    } else if w.cur is Error {
        (Err(ErrView::UnExpSymbol(w.cur)), w)
    } else {
        let w2 = advance(b, w);
        if size(b, w2) < size(b, w) {
            dump_token(b, w2, t)
        } else {
            (Ok(()), w2)
        }
    }
}

/// Discards tokens up to a terminator or a brace, which stays current; a
/// lexical error token on the way is fatal.
pub open spec fn dump_boundary(b: Seq<u8>, w: Window) -> Parsed<()>
    decreases size(b, w),
{
    if is_boundary(w.cur) {
        (Ok(()), w)
    } else if w.cur is Error {
        (Err(ErrView::UnExpSymbol(w.cur)), w)
    } else {
        let w2 = advance(b, w);
        if size(b, w2) < size(b, w) {
            dump_boundary(b, w2)
        } else {
            (Ok(()), w2)
        }
    }
}

/// `v`, once tokens up to and including `t` are discarded.
pub open spec fn then_token<T>(b: Seq<u8>, v: T, w: Window, t: TokenView) -> Parsed<T> {
    match dump_token(b, w, t) {
        (Err(e), w2) => (Err(e), w2),
        (Ok(_), w2) => (Ok(v), w2),
    }
}

/// `v`, once tokens up to a terminator or a brace are discarded.
pub open spec fn then_boundary<T>(b: Seq<u8>, v: T, w: Window) -> Parsed<T> {
    match dump_boundary(b, w) {
        (Err(e), w2) => (Err(e), w2),
        (Ok(_), w2) => (Ok(v), w2),
    }
}

/// At `[`: the window after reading `[N]T`, with `[N]T` as the current token
/// when `T` is a legal type and `N`, if present, fits in `i32`.
pub open spec fn array_token(b: Seq<u8>, w: Window) -> Window {
    let number = match w.peek {
        TokenView::Basics(val, k) => if *k is Int {
            int_value(val)
        } else {
            Some(0i32)
        },
        _ => Some(0i32),
    };
    let w1 = if w.peek is RightSquareBra {
        w
    } else {
        advance(b, w)
    };
    let (closed, w2) = expect_peek(b, w1, TokenView::RightSquareBra);
    if closed && is_type_token(w2.peek) && number is Some {
        let w3 = advance(b, w2);
        Window {
            pos: w3.pos,
            cur: TokenView::Array(number->0 as int, Box::new(w3.cur)),
            peek: w3.peek,
        }
    } else {
        w2
    }
}

/// The value a classified literal stands for.
pub open spec fn literal_view(val: Seq<char>, kind: TokenView) -> Option<ExprV> {
    match kind {
        TokenView::Int => match int_value(val) {
            Some(n) => Some(ExprV::Int(n)),
            None => None,
        },
        TokenView::Float => Some(ExprV::Float(val)),
        TokenView::Bool => if val == "true"@ {
            Some(ExprV::Bool(true))
        } else if val == "false"@ {
            Some(ExprV::Bool(false))
        } else {
            None
        },
        TokenView::String => Some(ExprV::Str(val)),
        _ => None,
    }
}

/// The declared type after `name :`, as a parameter or field reads it.
pub open spec fn param_type(b: Seq<u8>, w: Window) -> Window {
    if w.cur is LeftSquareBra {
        array_token(b, w)
    } else {
        w
    }
}

/// Parameters up to the token `end`, after `acc`: `name: type` entries (an
/// identifier followed by `:`), or, where names are not needed, bare types;
/// where they are, any other entry is a `ParamName` error.
pub open spec fn params(
    b: Seq<u8>,
    w: Window,
    end: TokenView,
    n: bool,
    need_name: bool,
    acc: Seq<ExprV>,
) -> Parsed<Seq<ExprV>>
    decreases size(b, w),
{
    if w.cur == end {
        (Ok(acc), w)
    } else if w.cur is N && n {
        let w2 = advance(b, w);
        if size(b, w2) < size(b, w) {
            params(b, w2, end, n, need_name, acc)
        } else {
            (Ok(acc), w2)
        }
    } else {
        let named = w.cur is Ident && w.peek is Colon;
        if !named && need_name {
            (Err(ErrView::ParamName), w)
        } else {
            {
                let w2 = param_type(
                    b,
                    if named {
                        advance(b, advance(b, w))
                    } else {
                        w
                    },
                );
                if !is_type_token(w2.cur) {
                    (Err(ErrView::Type(w2.cur)), w2)
                } else {
                    let name = match w.cur {
                        TokenView::Ident(s) => if named {
                            s
                        } else {
                            ""@
                        },
                        _ => ""@,
                    };
                    let item = ExprV::Param(name, w2.cur);
                    let (_, w3) = expect_peek(b, w2, TokenView::Comma);
                    let w4 = advance(b, w3);
                    if size(b, w4) < size(b, w) {
                        params(b, w4, end, n, need_name, acc.push(item))
                    } else {
                        (Ok(acc.push(item)), w4)
                    }
                }
            }
        }
    }
}

/// A function head: optional name, `(parameters)`, then `-> type` when an
/// arrow follows; the return type must then be legal.
pub open spec fn fun_head(b: Seq<u8>, w: Window, need_name: bool) -> Parsed<FunV> {
    let w1 = advance(b, w);
    let (opened, w2) = if w.peek is Ident {
        expect_peek(b, w1, TokenView::LeftBracket)
    } else {
        (true, w1)
    };
    if !opened {
        (Err(ErrView::Expected(TokenView::LeftBracket)), w2)
    } else {
        let name = match w.peek {
            TokenView::Ident(n) => Some(ExprV::Ident(n)),
            _ => None,
        };
        match params(b, advance(b, w2), TokenView::RightBracket, false, need_name, seq![]) {
            (Err(e), w3) => (Err(e), w3),
            (Ok(ps), w3) => {
                let head = FunV {
                    name,
                    ret_type: None,
                    param_number: ps.len(),
                    param_exp: Some(ps),
                    body: seq![],
                };
                let (arrow, w4) = expect_peek(b, w3, TokenView::Arrow);
                if !arrow {
                    (Ok(head), w4)
                } else {
                    let w5 = advance(b, w4);
                    if is_type_token(w5.cur) {
                        (Ok(FunV { ret_type: Some(w5.cur), ..head }), w5)
                    } else {
                        (Err(ErrView::Type(w5.cur)), w5)
                    }
                }
            },
        }
    }
}

/// `struct { field: type, ... }`, with `struct` current.
pub open spec fn struct_expression(b: Seq<u8>, w: Window) -> Parsed<ExprV> {
    let (opened, w1) = expect_peek(b, w, TokenView::LeftCurlyBracket);
    if !opened {
        (Err(ErrView::UnExpSymbol(TokenView::LeftCurlyBracket)), w1)
    } else {
        let w2 = advance(b, dump_n(b, w1));
        match params(b, w2, TokenView::RightCurlyBracket, true, true, seq![]) {
            (Err(e), w3) => (Err(e), w3),
            (Ok(ps), w3) => then_token(b, ExprV::Struct(ps), w3, TokenView::RightCurlyBracket),
        }
    }
}

/// A function type: a head whose parameters need no names.
pub open spec fn type_fn_expression(b: Seq<u8>, w: Window) -> Parsed<ExprV> {
    match fun_head(b, w, false) {
        (Err(e), w1) => (Err(e), w1),
        (Ok(f), w1) => (Ok(ExprV::FunType(f.param_exp, f.ret_type)), advance(b, w1)),
    }
}

/// `type Name struct {...}`, `type Name fun (...) -> T`, or `type Name T`.
pub open spec fn type_statement(b: Seq<u8>, w: Window) -> Parsed<StmtV> {
    let w1 = advance(b, w);
    match w1.cur {
        TokenView::Ident(name) => {
            let (is_struct, w2) = expect_peek(b, w1, TokenView::Struct);
            if is_struct {
                match struct_expression(b, w2) {
                    (Err(e), w3) => (Err(e), w3),
                    (Ok(e), w3) => (Ok(StmtV::Type(name, e)), w3),
                }
            } else {
                let (is_fun, w3) = expect_peek(b, w1, TokenView::Fun);
                if is_fun {
                    match type_fn_expression(b, w3) {
                        (Err(e), w4) => (Err(e), w4),
                        (Ok(e), w4) => (Ok(StmtV::Type(name, e)), w4),
                    }
                } else if is_type_token(w1.peek) {
                    (Ok(StmtV::Type(name, ExprV::Basic(w1.peek))), advance(b, advance(b, w1)))
                } else {
                    (Err(ErrView::ExpectedName), w1)
                }
            }
        },
        _ => (Err(ErrView::ExpectedName), w1),
    }
}

/// Moves past `{` and newlines that open an `else` block.
pub open spec fn skip_else_open(b: Seq<u8>, w: Window) -> Window
    decreases size(b, w),
{
    if w.peek is LeftCurlyBracket || w.peek is N || w.cur is LeftCurlyBracket {
        let w2 = advance(b, w);
        if size(b, w2) < size(b, w) {
            skip_else_open(b, w2)
        } else {
            w2
        }
    } else {
        w
    }
}

/// A binary operator.
pub open spec fn is_binary(t: TokenView) -> bool {
    t is Add || t is Sub || t is Div || t is Mul || t is LT || t is GT || t is LTEqu || t is GTEqu
        || t is BangEqu || t is Equ
}

/// Statements until the current token is the end or `}`; newlines and `;`
/// between them are passed over.
pub open spec fn program(b: Seq<u8>, w: Window) -> Parsed<Seq<StmtV>>
    decreases size(b, w), 11nat,
{
    program_rest(b, w, seq![])
}

/// The statements after `acc`, up to the end or `}`.
pub open spec fn program_rest(b: Seq<u8>, w: Window, acc: Seq<StmtV>) -> Parsed<Seq<StmtV>>
    decreases size(b, w), 10nat,
{
    if w.cur is Eof || w.cur is RightCurlyBracket {
        (Ok(acc), w)
    } else {
        let (step, w1): Parsed<Option<StmtV>> = if w.cur is N || w.cur is Sem {
            (Ok(None), advance(b, w))
        } else {
            match statement(b, w) {
                (Err(e), w1) => (Err(e), w1),
                (Ok(s), w1) => (Ok(Some(s)), w1),
            }
        };
        match step {
            Err(e) => (Err(e), w1),
            Ok(s) => {
                let acc2 = match s {
                    Some(s) => acc.push(s),
                    None => acc,
                };
                if size(b, w1) < size(b, w) {
                    program_rest(b, w1, acc2)
                } else {
                    (Ok(acc2), w1)
                }
            },
        }
    }
}

/// The statement that the current token begins.
pub open spec fn statement(b: Seq<u8>, w: Window) -> Parsed<StmtV>
    decreases size(b, w), 9nat,
{
    match w.cur {
        TokenView::Let => let_statement(b, w),
        TokenView::If => if_statement(b, w),
        TokenView::Fun => match fun_expression(b, w) {
            (Err(e), w1) => (Err(e), w1),
            (Ok(f), w1) => (Ok(StmtV::Fun(f)), w1),
        },
        TokenView::Type => type_statement(b, w),
        TokenView::Ident(_) => ident_statement(b, w),
        TokenView::SelfSub | TokenView::SelfAdd => prefix_statement(b, w),
        TokenView::For => for_statement(b, w),
        TokenView::Return | TokenView::Break | TokenView::Continue => rbc_statement(b, w),
        _ => (Err(ErrView::Program(w.cur)), w),
    }
}

/// `let name [: type] = expression`.
pub open spec fn let_statement(b: Seq<u8>, w: Window) -> Parsed<StmtV>
    decreases size(b, w), 8nat,
{
    match w.peek {
        TokenView::Ident(name) => {
            let w1 = advance(b, w);
            let (typed, w2) = expect_peek(b, w1, TokenView::Colon);
            let (declared, w3): Parsed<TokenView> = if typed {
                let w2a = param_type(b, advance(b, w2));
                if !is_type_token(w2a.cur) {
                    (Err(ErrView::Type(w2a.cur)), w2a)
                } else {
                    (Ok(w2a.cur), w2a)
                }
            } else {
                (Ok(TokenView::Unknown), w2)
            };
            match declared {
                Err(e) => (Err(e), w3),
                Ok(t) => {
                    let (assigned, w4) = expect_peek(b, w3, TokenView::Assign);
                    if !assigned {
                        (Err(ErrView::Expected(TokenView::Assign)), w4)
                    } else {
                        let w5 = advance(b, w4);
                        if size(b, w5) < size(b, w) {
                            match expression(b, w5, Operation::Lowest) {
                                (Err(e), w6) => (Err(e), w6),
                                (Ok(e), w6) => then_boundary(b, StmtV::Let(t, name, Some(e)), w6),
                            }
                        } else {
                            (Err(ErrView::ExpectedName), w5)
                        }
                    }
                },
            }
        },
        _ => (Err(ErrView::ExpectedName), w),
    }
}

/// A primary expression, then the operators that bind tighter than `op`.
pub open spec fn expression(b: Seq<u8>, w: Window, op: Operation) -> Parsed<ExprV>
    decreases size(b, w), 7nat,
{
    let (first, w1): Parsed<ExprV> = match w.cur {
        TokenView::Basics(val, k) => match literal_view(val, *k) {
            Some(v) => (Ok(v), w),
            None => (Err(ErrView::Value(val)), w),
        },
        TokenView::Ident(s) => (Ok(ExprV::Ident(s)), w),
        TokenView::LeftSquareBra => list_value(b, w),
        TokenView::Fun => match fun_expression(b, w) {
            (Err(e), w1) => (Err(e), w1),
            (Ok(f), w1) => (Ok(ExprV::Fun(Box::new(f))), w1),
        },
        _ => (Err(ErrView::UnExpSymbol(w.cur)), w),
    };
    match first {
        Err(e) => (Err(e), w1),
        Ok(left) => if size(b, w1) <= size(b, w) {
            expression_rest(b, w1, op, left)
        } else {
            (Ok(left), w1)
        },
    }
}

/// Folds operators, calls, indexes and postfix `++`/`--` into `left` while the
/// next token binds tighter than `op`.
pub open spec fn expression_rest(b: Seq<u8>, w: Window, op: Operation, left: ExprV) -> Parsed<ExprV>
    decreases size(b, w), 6nat,
{
    if continues_expression(w.peek, op) {
        let w1 = advance(b, w);
        if size(b, w1) < size(b, w) {
            let (step, w2): Parsed<ExprV> = if is_binary(w.peek) {
                infix_expression(b, w1, left)
            } else if w.peek is LeftBracket {
                call_expression(b, w1, left)
            } else if w.peek is LeftSquareBra {
                index_expression(b, w1, left)
            } else {
                (Ok(ExprV::SelfOp(Box::new(left), w1.cur, false)), w1)
            };
            match step {
                Err(e) => (Err(e), w2),
                Ok(e) => if size(b, w2) < size(b, w) {
                    expression_rest(b, w2, op, e)
                } else {
                    (Ok(e), w2)
                },
            }
        } else {
            (Ok(left), w1)
        }
    } else if w.peek is Error {
        (Err(ErrView::UnOpSymbol(w.peek)), w)
    } else {
        (Ok(left), w)
    }
}

/// `left <op> right`, with the operator current.
pub open spec fn infix_expression(b: Seq<u8>, w: Window, left: ExprV) -> Parsed<ExprV>
    decreases size(b, w), 5nat,
{
    let w1 = advance(b, w);
    if size(b, w1) < size(b, w) {
        match expression(b, w1, operation_of(w.cur)) {
            (Err(e), w2) => (Err(e), w2),
            (Ok(right), w2) => (Ok(ExprV::Infix(Box::new(left), w.cur, Box::new(right))), w2),
        }
    } else {
        (Err(ErrView::ExpectedName), w1)
    }
}

/// `[a, b, ...]`, with `[` current.
pub open spec fn list_value(b: Seq<u8>, w: Window) -> Parsed<ExprV>
    decreases size(b, w), 6nat,
{
    let (_, w1) = expect_curr(b, w, TokenView::LeftSquareBra);
    if size(b, w1) < size(b, w) {
        match list_rest(b, w1, seq![]) {
            (Err(e), w2) => (Err(e), w2),
            (Ok(items), w2) => (Ok(ExprV::ListValue(items)), w2),
        }
    } else {
        (Ok(ExprV::ListValue(seq![])), w1)
    }
}

/// The list items after `acc`, up to `]`.
pub open spec fn list_rest(b: Seq<u8>, w: Window, acc: Seq<ExprV>) -> Parsed<Seq<ExprV>>
    decreases size(b, w), 8nat,
{
    if w.cur is RightSquareBra {
        (Ok(acc), w)
    } else {
        match expression(b, w, Operation::Lowest) {
            (Err(e), w1) => (Err(e), w1),
            (Ok(e), w1) => {
                let (_, w2) = expect_curr(b, advance(b, w1), TokenView::Comma);
                if size(b, w2) < size(b, w) {
                    list_rest(b, w2, acc.push(e))
                } else {
                    (Ok(acc.push(e)), w2)
                }
            },
        }
    }
}

/// `callee(arguments)`, with `(` current.
pub open spec fn call_expression(b: Seq<u8>, w: Window, left: ExprV) -> Parsed<ExprV>
    decreases size(b, w), 5nat,
{
    let w1 = advance(b, w);
    if size(b, w1) < size(b, w) {
        match call_rest(b, w1, seq![]) {
            (Err(e), w2) => (Err(e), w2),
            (Ok(args), w2) => {
                let (_, w3) = expect_curr(b, w2, TokenView::RightBracket);
                (Ok(ExprV::Call(Box::new(left), args)), w3)
            },
        }
    } else {
        (Err(ErrView::ExpectedName), w1)
    }
}

/// The call arguments after `acc`, up to `)` or a terminator.
pub open spec fn call_rest(b: Seq<u8>, w: Window, acc: Seq<ExprV>) -> Parsed<Seq<ExprV>>
    decreases size(b, w), 8nat,
{
    if w.cur is RightBracket || is_stem_end(w.cur) {
        (Ok(acc), w)
    } else {
        match expression(b, w, Operation::Lowest) {
            (Err(e), w1) => (Err(e), w1),
            (Ok(e), w1) => {
                let (comma, w2) = expect_peek(b, w1, TokenView::Comma);
                let (closed, w3) = if comma {
                    (false, w2)
                } else {
                    expect_peek(b, w2, TokenView::RightBracket)
                };
                if comma || closed {
                    let w4 = advance(b, w3);
                    if size(b, w4) < size(b, w) {
                        call_rest(b, w4, acc.push(e))
                    } else {
                        (Ok(acc.push(e)), w4)
                    }
                } else {
                    (Err(ErrView::Expected(TokenView::RightBracket)), w3)
                }
            },
        }
    }
}

/// `base[index]`, with `[` current.
pub open spec fn index_expression(b: Seq<u8>, w: Window, left: ExprV) -> Parsed<ExprV>
    decreases size(b, w), 5nat,
{
    let w1 = advance(b, w);
    if size(b, w1) < size(b, w) {
        match expression(b, w1, Operation::Lowest) {
            (Err(e), w2) => (Err(e), w2),
            (Ok(i), w2) => then_token(b, ExprV::Index(Box::new(left), Box::new(i)), w2, TokenView::RightSquareBra),
        }
    } else {
        (Err(ErrView::ExpectedName), w1)
    }
}

/// A function with its body.
pub open spec fn fun_expression(b: Seq<u8>, w: Window) -> Parsed<FunV>
    decreases size(b, w), 6nat,
{
    match fun_head(b, w, true) {
        (Err(e), w1) => (Err(e), w1),
        (Ok(f), w1) => {
            let (opened, w2) = expect_peek(b, w1, TokenView::LeftCurlyBracket);
            if !opened {
                (Err(ErrView::Expected(TokenView::LeftCurlyBracket)), w2)
            } else {
                let w3 = advance(b, w2);
                if size(b, w3) < size(b, w) {
                    match program(b, w3) {
                        (Err(e), w4) => (Err(e), w4),
                        (Ok(body), w4) => then_token(
                            b,
                            FunV {
                                name: f.name,
                                ret_type: f.ret_type,
                                param_number: f.param_number,
                                param_exp: f.param_exp,
                                body,
                            },
                            w4,
                            TokenView::RightCurlyBracket,
                        ),
                    }
                } else {
                    (Err(ErrView::ExpectedName), w3)
                }
            }
        },
    }
}

/// `if condition { ... } [else { ... }]`.
pub open spec fn if_statement(b: Seq<u8>, w: Window) -> Parsed<StmtV>
    decreases size(b, w), 8nat,
{
    let w1 = advance(b, w);
    if size(b, w1) < size(b, w) {
        match expression(b, w1, Operation::Lowest) {
            (Err(e), w2) => (Err(e), w2),
            (Ok(c), w2) => {
                let (opened, w3) = expect_peek(b, w2, TokenView::LeftCurlyBracket);
                if !opened {
                    (Err(ErrView::Expected(TokenView::LeftCurlyBracket)), w3)
                } else {
                    let w4 = advance(b, w3);
                    if size(b, w4) < size(b, w) {
                        match program(b, w4) {
                            (Err(e), w5) => (Err(e), w5),
                            (Ok(yes), w5) => {
                                let (has_else, w7) = expect_peek(b, w5, TokenView::Else);
                                if has_else {
                                    let w8 = skip_else_open(b, advance(b, w7));
                                    if size(b, w8) < size(b, w) {
                                        match program(b, w8) {
                                            (Err(e), w9) => (Err(e), w9),
                                            (Ok(no), w9) => then_token(b, StmtV::IF(c, yes, no), w9, TokenView::RightCurlyBracket),
                                        }
                                    } else {
                                        (Err(ErrView::ExpectedName), w8)
                                    }
                                } else {
                                    then_token(b, StmtV::IF(c, yes, seq![]), w7, TokenView::RightCurlyBracket)
                                }
                            },
                        }
                    } else {
                        (Err(ErrView::ExpectedName), w4)
                    }
                }
            },
        }
    } else {
        (Err(ErrView::ExpectedName), w1)
    }
}

/// A statement that begins with an identifier: an expression.
pub open spec fn ident_statement(b: Seq<u8>, w: Window) -> Parsed<StmtV>
    decreases size(b, w), 8nat,
{
    match expression(b, w, Operation::Lowest) {
        (Err(e), w1) => (Err(e), w1),
        (Ok(e), w1) => then_boundary(b, StmtV::Invoke(e), w1),
    }
}

/// `++name` or `--name` as a statement.
pub open spec fn prefix_statement(b: Seq<u8>, w: Window) -> Parsed<StmtV>
    decreases size(b, w), 8nat,
{
    let w1 = advance(b, w);
    if size(b, w1) < size(b, w) {
        match expression(b, w1, Operation::Lowest) {
            (Err(e), w2) => (Err(e), w2),
            (Ok(e), w2) => (Ok(StmtV::Invoke(ExprV::SelfOp(Box::new(e), w.cur, true))), advance(b, w2)),
        }
    } else {
        (Err(ErrView::ExpectedName), w1)
    }
}

/// `for init; condition; post { ... }`.
pub open spec fn for_statement(b: Seq<u8>, w: Window) -> Parsed<StmtV>
    decreases size(b, w), 8nat,
{
    let w1 = advance(b, w);
    if size(b, w1) < size(b, w) {
        match statement(b, w1) {
            (Err(e), w2) => (Err(e), w2),
            (Ok(init), w2) => {
                let (semi, w3) = expect_curr(b, w2, TokenView::Sem);
                if !semi {
                    (Err(ErrView::UnExpSymbol(TokenView::Sem)), w3)
                } else if size(b, w3) < size(b, w) {
                    match expression(b, w3, Operation::Lowest) {
                        (Err(e), w4) => (Err(e), w4),
                        (Ok(c), w4) => {
                            let (semi2, w5) = expect_curr(b, advance(b, w4), TokenView::Sem);
                            if !semi2 {
                                (Err(ErrView::UnExpSymbol(TokenView::Sem)), w5)
                            } else if size(b, w5) < size(b, w) {
                                match statement(b, w5) {
                                    (Err(e), w6) => (Err(e), w6),
                                    (Ok(post), w6) => {
                                        let (opened, w7) = expect_curr(
                                            b,
                                            w6,
                                            TokenView::LeftCurlyBracket,
                                        );
                                        if !opened {
                                            (
                                                Err(ErrView::UnExpSymbol(TokenView::LeftCurlyBracket)),
                                                w7,
                                            )
                                        } else if size(b, w7) < size(b, w) {
                                            match program(b, w7) {
                                                (Err(e), w8) => (Err(e), w8),
                                                (Ok(body), w8) => then_token(
                                                    b,
                                                    StmtV::For(Box::new(init), c, Box::new(post), body),
                                                    w8,
                                                    TokenView::RightCurlyBracket,
                                                ),
                                            }
                                        } else {
                                            (Err(ErrView::ExpectedName), w7)
                                        }
                                    },
                                }
                            } else {
                                (Err(ErrView::ExpectedName), w5)
                            }
                        },
                    }
                } else {
                    (Err(ErrView::ExpectedName), w3)
                }
            },
        }
    } else {
        (Err(ErrView::ExpectedName), w1)
    }
}

/// `return expression`, `break` or `continue`.
pub open spec fn rbc_statement(b: Seq<u8>, w: Window) -> Parsed<StmtV>
    decreases size(b, w), 8nat,
{
    let w1 = advance(b, w);
    match w.cur {
        TokenView::Return => if size(b, w1) < size(b, w) {
            match expression(b, w1, Operation::Lowest) {
                (Err(e), w2) => (Err(e), w2),
                (Ok(e), w2) => then_boundary(b, StmtV::Return(e), w2),
            }
        } else {
            (Err(ErrView::ExpectedName), w1)
        },
        TokenView::Break => then_boundary(b, StmtV::Break, w1),
        TokenView::Continue => then_boundary(b, StmtV::Continue, w1),
        _ => (Err(ErrView::UnExpSymbol(w.cur)), w1),
    }
}

} // verus!
