use vstd::prelude::*;

use crate::token::{is_type_token, Token, TokenView};

verus! {

/// `let <identifier>[: <type>] = <expression>`.
#[derive(Debug, PartialEq)]
pub struct LetStatement {
    /// The declared type, or `Unknown` when none is written.
    pub token_type: Token,
    pub ident: String,
    pub exp: Option<Expression>,
}

/// `if <condition> { ... } [else { ... }]`.
#[derive(Debug, PartialEq)]
pub struct IfStatement {
    pub condition: Expression,
    pub consequence: Vec<Statement>,
    /// Empty when there is no `else`.
    pub alternative: Vec<Statement>,
}

/// `for <init>; <condition>; <post> { ... }`.
#[derive(Debug, PartialEq)]
pub struct ForStatement {
    pub start_condition: Box<Statement>,
    pub condition: Expression,
    pub self_operation: Box<Statement>,
    pub consequence: Vec<Statement>,
}

/// A function: optional name, parameters, optional return type and body.
#[derive(Debug, PartialEq)]
pub struct FunExpression {
    pub name: Option<Expression>,
    pub ret_type: Option<Token>,
    pub param_number: usize,
    pub param_exp: Option<Vec<Expression>>,
    pub body: Vec<Statement>,
}

/// `<left> <op_symbol> <right>`.
#[derive(Debug, PartialEq)]
pub struct InfixExpression {
    pub left: Expression,
    pub right: Expression,
    pub op_symbol: Token,
}

#[derive(Debug, PartialEq)]
pub enum Statement {
    Let(LetStatement),
    IF(IfStatement),
    Fun(FunExpression),
    Type(String, Expression),
    Invoke(Expression),
    For(ForStatement),
    Return(Expression),
    Break,
    Continue,
}

/// An expression. A float literal keeps its text, which is digits with one
/// dot.
#[derive(Debug, PartialEq)]
pub enum Expression {
    Int(i32),
    String(String),
    Float(String),
    Bool(bool),
    Infix(Box<InfixExpression>),
    Ident(String),
    Param(String, Token),
    Struct(Box<Vec<Expression>>),
    FunType(Option<Box<Vec<Expression>>>, Option<Token>),
    Basic(Token),
    ListValue(Vec<Box<Expression>>),
    Call(Box<Expression>, Vec<Box<Expression>>),
    Index(Box<Expression>, Box<Expression>),
    SelfOp(Box<Expression>, Token, bool),
    Fun(Box<FunExpression>),
    /// No expression could be parsed here; never part of a parsed program.
    Unknown,
}

/// A parameter or field: a name (possibly empty) and a legal type.
pub open spec fn param_ok(e: Expression) -> bool {
    e matches Expression::Param(_, t) && is_type_token(t@)
}

pub open spec fn params_ok(ps: Seq<Expression>) -> bool {
    forall|k: int| 0 <= k < ps.len() ==> param_ok(#[trigger] ps[k])
}

/// A well-formed expression: no `Unknown` anywhere in it, and every token in
/// type position legal.
pub open spec fn expr_ok(e: Expression) -> bool
    decreases e,
{
    match e {
        Expression::Unknown => false,
        Expression::Infix(i) => expr_ok(i.left) && expr_ok(i.right),
        Expression::Param(_, t) => is_type_token(t@),
        Expression::Struct(fields) => params_ok(fields@),
        Expression::FunType(ps, ret) => (ps matches Some(v) ==> params_ok(v@)) && (ret matches Some(
            t,
        ) ==> is_type_token(t@)),
        Expression::Basic(t) => is_type_token(t@),
        Expression::ListValue(v) => forall|k: int| 0 <= k < v.len() ==> expr_ok(*#[trigger] v[k]),
        Expression::Call(f, args) => expr_ok(*f) && forall|k: int|
            0 <= k < args.len() ==> expr_ok(*#[trigger] args[k]),
        Expression::Index(a, b) => expr_ok(*a) && expr_ok(*b),
        Expression::SelfOp(x, t, _) => expr_ok(*x) && (t@ is SelfAdd || t@ is SelfSub),
        Expression::Fun(f) => fun_ok(*f),
        _ => true,
    }
}

/// A well-formed function: its name an identifier, its parameters counted and
/// well-formed, its return type legal, its body well-formed.
pub open spec fn fun_ok(f: FunExpression) -> bool
    decreases f,
{
    &&& (f.name matches Some(n) ==> n is Ident)
    &&& (f.param_exp matches Some(ps) ==> params_ok(ps@) && f.param_number == ps.len())
    &&& (f.ret_type matches Some(t) ==> is_type_token(t@))
    &&& forall|k: int| 0 <= k < f.body.len() ==> stmt_ok(#[trigger] f.body[k])
}

/// A well-formed statement: every expression and type in it well-formed.
pub open spec fn stmt_ok(s: Statement) -> bool
    decreases s,
{
    match s {
        Statement::Let(l) => (l.exp matches Some(e) && expr_ok(e)) && (is_type_token(l.token_type@)
            || l.token_type@ is Unknown),
        Statement::IF(i) => expr_ok(i.condition) && (forall|k: int|
            0 <= k < i.consequence.len() ==> stmt_ok(#[trigger] i.consequence[k])) && (forall|k: int|
            0 <= k < i.alternative.len() ==> stmt_ok(#[trigger] i.alternative[k])),
        Statement::Fun(f) => fun_ok(f),
        Statement::Type(_, e) => expr_ok(e) && (e is Struct || e is FunType || e is Basic),
        Statement::Invoke(e) => expr_ok(e),
        Statement::For(f) => stmt_ok(*f.start_condition) && expr_ok(f.condition) && stmt_ok(
            *f.self_operation,
        ) && (forall|k: int| 0 <= k < f.consequence.len() ==> stmt_ok(#[trigger] f.consequence[k])),
        Statement::Return(e) => expr_ok(e),
        Statement::Break | Statement::Continue => true,
    }
}

/// Every statement of the list well-formed.
pub open spec fn stmts_ok(v: Seq<Statement>) -> bool {
    forall|k: int| 0 <= k < v.len() ==> stmt_ok(#[trigger] v[k])
}

/// The mathematical value of an expression: texts are character sequences,
/// lists are sequences.
pub enum ExprV {
    Int(i32),
    Str(Seq<char>),
    Float(Seq<char>),
    Bool(bool),
    Infix(Box<ExprV>, TokenView, Box<ExprV>),
    Ident(Seq<char>),
    Param(Seq<char>, TokenView),
    Struct(Seq<ExprV>),
    FunType(Option<Seq<ExprV>>, Option<TokenView>),
    Basic(TokenView),
    ListValue(Seq<ExprV>),
    Call(Box<ExprV>, Seq<ExprV>),
    Index(Box<ExprV>, Box<ExprV>),
    SelfOp(Box<ExprV>, TokenView, bool),
    Fun(Box<FunV>),
    Unknown,
}

/// The mathematical value of a function.
pub struct FunV {
    pub name: Option<ExprV>,
    pub ret_type: Option<TokenView>,
    pub param_number: nat,
    pub param_exp: Option<Seq<ExprV>>,
    pub body: Seq<StmtV>,
}

/// The mathematical value of a statement.
pub enum StmtV {
    Let(TokenView, Seq<char>, Option<ExprV>),
    IF(ExprV, Seq<StmtV>, Seq<StmtV>),
    Fun(FunV),
    Type(Seq<char>, ExprV),
    Invoke(ExprV),
    For(Box<StmtV>, ExprV, Box<StmtV>, Seq<StmtV>),
    Return(ExprV),
    Break,
    Continue,
}

pub open spec fn opt_token_view(t: Option<Token>) -> Option<TokenView> {
    match t {
        Some(t) => Some(t@),
        None => None,
    }
}

/// `e` has the value `v`.
pub open spec fn expr_is(e: Expression, v: ExprV) -> bool
    decreases e,
{
    match e {
        Expression::Int(n) => v == ExprV::Int(n),
        Expression::String(s) => v == ExprV::Str(s@),
        Expression::Float(s) => v == ExprV::Float(s@),
        Expression::Bool(x) => v == ExprV::Bool(x),
        Expression::Infix(i) => match v {
            ExprV::Infix(l, op, r) => expr_is(i.left, *l) && i.op_symbol@ == op && expr_is(i.right, *r),
            _ => false,
        },
        Expression::Ident(s) => v == ExprV::Ident(s@),
        Expression::Param(s, t) => v == ExprV::Param(s@, t@),
        Expression::Struct(fs) => match v {
            ExprV::Struct(ws) => fs.len() == ws.len() && forall|k: int|
                0 <= k < fs.len() ==> expr_is(#[trigger] fs[k], ws[k]),
            _ => false,
        },
        Expression::FunType(ps, ret) => match v {
            ExprV::FunType(qs, rt) => rt == opt_token_view(ret) && match ps {
                Some(p) => match qs {
                    Some(q) => p.len() == q.len() && forall|k: int|
                        0 <= k < p.len() ==> expr_is(#[trigger] p[k], q[k]),
                    None => false,
                },
                None => qs is None,
            },
            _ => false,
        },
        Expression::Basic(t) => v == ExprV::Basic(t@),
        Expression::ListValue(xs) => match v {
            ExprV::ListValue(ws) => xs.len() == ws.len() && forall|k: int|
                0 <= k < xs.len() ==> expr_is(*#[trigger] xs[k], ws[k]),
            _ => false,
        },
        Expression::Call(f, args) => match v {
            ExprV::Call(g, ws) => expr_is(*f, *g) && args.len() == ws.len() && forall|k: int|
                0 <= k < args.len() ==> expr_is(*#[trigger] args[k], ws[k]),
            _ => false,
        },
        Expression::Index(a, i) => match v {
            ExprV::Index(c, d) => expr_is(*a, *c) && expr_is(*i, *d),
            _ => false,
        },
        Expression::SelfOp(x, t, p) => match v {
            ExprV::SelfOp(y, u, q) => expr_is(*x, *y) && t@ == u && p == q,
            _ => false,
        },
        Expression::Fun(f) => match v {
            ExprV::Fun(g) => fun_is(*f, *g),
            _ => false,
        },
        Expression::Unknown => v == ExprV::Unknown,
    }
}

/// `f` has the value `g`.
pub open spec fn fun_is(f: FunExpression, g: FunV) -> bool
    decreases f,
{
    &&& match f.name {
        Some(n) => match g.name {
            Some(m) => expr_is(n, m),
            None => false,
        },
        None => g.name is None,
    }
    &&& g.ret_type == opt_token_view(f.ret_type)
    &&& g.param_number == f.param_number
    &&& match f.param_exp {
        Some(p) => match g.param_exp {
            Some(q) => p.len() == q.len() && forall|k: int|
                0 <= k < p.len() ==> expr_is(#[trigger] p[k], q[k]),
            None => false,
        },
        None => g.param_exp is None,
    }
    &&& f.body.len() == g.body.len()
    &&& forall|k: int| 0 <= k < f.body.len() ==> stmt_is(#[trigger] f.body[k], g.body[k])
}

/// `s` has the value `v`.
pub open spec fn stmt_is(s: Statement, v: StmtV) -> bool
    decreases s,
{
    match s {
        Statement::Let(l) => match v {
            StmtV::Let(t, name, init) => l.token_type@ == t && l.ident@ == name && match l.exp {
                Some(e) => match init {
                    Some(w) => expr_is(e, w),
                    None => false,
                },
                None => init is None,
            },
            _ => false,
        },
        Statement::IF(i) => match v {
            StmtV::IF(c, yes, no) => expr_is(i.condition, c) && i.consequence.len() == yes.len()
                && (forall|k: int|
                0 <= k < i.consequence.len() ==> stmt_is(#[trigger] i.consequence[k], yes[k]))
                && i.alternative.len() == no.len() && (forall|k: int|
                0 <= k < i.alternative.len() ==> stmt_is(#[trigger] i.alternative[k], no[k])),
            _ => false,
        },
        Statement::Fun(f) => match v {
            StmtV::Fun(g) => fun_is(f, g),
            _ => false,
        },
        Statement::Type(name, e) => match v {
            StmtV::Type(m, w) => name@ == m && expr_is(e, w),
            _ => false,
        },
        Statement::Invoke(e) => match v {
            StmtV::Invoke(w) => expr_is(e, w),
            _ => false,
        },
        Statement::For(f) => match v {
            StmtV::For(init, c, post, body) => stmt_is(*f.start_condition, *init) && expr_is(
                f.condition,
                c,
            ) && stmt_is(*f.self_operation, *post) && f.consequence.len() == body.len() && (forall|
                k: int,
            | 0 <= k < f.consequence.len() ==> stmt_is(#[trigger] f.consequence[k], body[k])),
            _ => false,
        },
        Statement::Return(e) => match v {
            StmtV::Return(w) => expr_is(e, w),
            _ => false,
        },
        Statement::Break => v is Break,
        Statement::Continue => v is Continue,
    }
}

/// Every statement of `v` has the value at the same place in `w`.
pub open spec fn stmts_are(v: Seq<Statement>, w: Seq<StmtV>) -> bool {
    &&& v.len() == w.len()
    &&& forall|k: int| 0 <= k < v.len() ==> stmt_is(#[trigger] v[k], w[k])
}

/// Every expression of `v` has the value at the same place in `w`.
pub open spec fn exprs_are(v: Seq<Expression>, w: Seq<ExprV>) -> bool {
    &&& v.len() == w.len()
    &&& forall|k: int| 0 <= k < v.len() ==> expr_is(#[trigger] v[k], w[k])
}

impl LetStatement {
    pub fn new(ident: String) -> (r: LetStatement)
        ensures
            r.ident == ident,
            r.token_type@ is Unknown,
            r.exp is None,
    {
        LetStatement { token_type: Token::Unknown, ident, exp: None }
    }
}

impl IfStatement {
    pub fn new(condition: Expression) -> (r: IfStatement)
        ensures
            r.condition == condition,
            r.consequence@.len() == 0,
            r.alternative@.len() == 0,
    {
        IfStatement { condition, consequence: Vec::new(), alternative: Vec::new() }
    }
}

impl ForStatement {
    pub fn new(start_condition: Statement, exp: Expression, self_op: Statement) -> (r: ForStatement)
        ensures
            *r.start_condition == start_condition,
            r.condition == exp,
            *r.self_operation == self_op,
            r.consequence@.len() == 0,
    {
        ForStatement {
            start_condition: Box::new(start_condition),
            condition: exp,
            self_operation: Box::new(self_op),
            consequence: Vec::new(),
        }
    }
}

impl FunExpression {
    pub fn new() -> (r: FunExpression)
        ensures
            r.name is None,
            r.ret_type is None,
            r.param_number == 0,
            r.param_exp is None,
            r.body@.len() == 0,
    {
        FunExpression { name: None, ret_type: None, param_number: 0, param_exp: None, body: Vec::new() }
    }
}

impl InfixExpression {
    pub fn new(left: Expression) -> (r: InfixExpression)
        ensures
            r.left == left,
            r.right is Unknown,
            r.op_symbol@ is Unknown,
    {
        InfixExpression { left, right: Expression::Unknown, op_symbol: Token::Unknown }
    }
}

} // verus!
