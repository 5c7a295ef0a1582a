use vstd::prelude::*;
use vstd::string::*;

use crate::lexer::same_text;
use crate::render::{int_text, signed_decimal};

verus! {

/// The lexical alphabet of the language.
///
/// `Basics` is a classified literal: its raw text and the scalar kind it was
/// read as (`Int`, `Float`, `Bool` or `String`). `Array` is a fixed-size array
/// type annotation: its length and its element type.
#[derive(PartialEq, Debug)]
pub enum Token {
    Eof,
    Let,
    Equ,
    Ident(String),
    Colon,
    If,
    Else,
    Unknown,
    Basics(String, Box<Token>),
    Sem,
    N,
    Error(String),
    Int,
    String,
    Float,
    Bool,
    Add,
    Sub,
    Mul,
    Div,
    LeftCurlyBracket,
    RightCurlyBracket,
    LT,
    GT,
    LTEqu,
    GTEqu,
    BangEqu,
    Bang,
    Assign,
    Fun,
    LeftBracket,
    RightBracket,
    Comma,
    Arrow,
    Type,
    Struct,
    LeftSquareBra,
    RightSquareBra,
    Array(i32, Box<Token>),
    For,
    SelfSub,
    SelfAdd,
    Break,
    Continue,
    Return,
    Notes,
    NotesBlock,
    NotesBlockEnd,
}

/// The mathematical value of a `Token`: texts are character sequences.
pub enum TokenView {
    Eof,
    Let,
    Equ,
    Ident(Seq<char>),
    Colon,
    If,
    Else,
    Unknown,
    Basics(Seq<char>, Box<TokenView>),
    Sem,
    N,
    Error(Seq<char>),
    Int,
    String,
    Float,
    Bool,
    Add,
    Sub,
    Mul,
    Div,
    LeftCurlyBracket,
    RightCurlyBracket,
    LT,
    GT,
    LTEqu,
    GTEqu,
    BangEqu,
    Bang,
    Assign,
    Fun,
    LeftBracket,
    RightBracket,
    Comma,
    Arrow,
    Type,
    Struct,
    LeftSquareBra,
    RightSquareBra,
    Array(int, Box<TokenView>),
    For,
    SelfSub,
    SelfAdd,
    Break,
    Continue,
    Return,
    Notes,
    NotesBlock,
    NotesBlockEnd,
}

impl View for Token {
    type V = TokenView;

    open spec fn view(&self) -> TokenView {
        self.model()
    }
}

impl Token {
    /// The mathematical value of the token.
    pub open spec fn model(&self) -> TokenView
        decreases self,
    {
        match self {
            Token::Eof => TokenView::Eof,
            Token::Let => TokenView::Let,
            Token::Equ => TokenView::Equ,
            Token::Ident(s) => TokenView::Ident(s@),
            Token::Colon => TokenView::Colon,
            Token::If => TokenView::If,
            Token::Else => TokenView::Else,
            Token::Unknown => TokenView::Unknown,
            Token::Basics(s, k) => TokenView::Basics(s@, Box::new(k.model())),
            Token::Sem => TokenView::Sem,
            Token::N => TokenView::N,
            Token::Error(s) => TokenView::Error(s@),
            Token::Int => TokenView::Int,
            Token::String => TokenView::String,
            Token::Float => TokenView::Float,
            Token::Bool => TokenView::Bool,
            Token::Add => TokenView::Add,
            Token::Sub => TokenView::Sub,
            Token::Mul => TokenView::Mul,
            Token::Div => TokenView::Div,
            Token::LeftCurlyBracket => TokenView::LeftCurlyBracket,
            Token::RightCurlyBracket => TokenView::RightCurlyBracket,
            Token::LT => TokenView::LT,
            Token::GT => TokenView::GT,
            Token::LTEqu => TokenView::LTEqu,
            Token::GTEqu => TokenView::GTEqu,
            Token::BangEqu => TokenView::BangEqu,
            Token::Bang => TokenView::Bang,
            Token::Assign => TokenView::Assign,
            Token::Fun => TokenView::Fun,
            Token::LeftBracket => TokenView::LeftBracket,
            Token::RightBracket => TokenView::RightBracket,
            Token::Comma => TokenView::Comma,
            Token::Arrow => TokenView::Arrow,
            Token::Type => TokenView::Type,
            Token::Struct => TokenView::Struct,
            Token::LeftSquareBra => TokenView::LeftSquareBra,
            Token::RightSquareBra => TokenView::RightSquareBra,
            Token::Array(n, t) => TokenView::Array(*n as int, Box::new(t.model())),
            Token::For => TokenView::For,
            Token::SelfSub => TokenView::SelfSub,
            Token::SelfAdd => TokenView::SelfAdd,
            Token::Break => TokenView::Break,
            Token::Continue => TokenView::Continue,
            Token::Return => TokenView::Return,
            Token::Notes => TokenView::Notes,
            Token::NotesBlock => TokenView::NotesBlock,
            Token::NotesBlockEnd => TokenView::NotesBlockEnd,
        }
    }
}

/// The legal-type predicate: a primitive scalar keyword, an identifier, or an
/// array type whose element type is legal.
pub open spec fn is_type_token(t: TokenView) -> bool
    decreases t,
{
    match t {
        TokenView::Int | TokenView::String | TokenView::Float => true,
        TokenView::Ident(_) => true,
        TokenView::Array(_, k) => is_type_token(*k),
        _ => false,
    }
}

impl Token {
    /// Whether `tok` may stand in a type annotation.
    pub fn let_type(tok: &Token) -> (r: bool)
        ensures
            r == is_type_token(tok@),
        decreases tok,
    {
        match tok {
            Token::Int | Token::String | Token::Float => true,
            Token::Ident(_) => true,
            Token::Array(_, k) => Token::let_type(k),
            _ => false,
        }
    }

    /// Whether the two tokens are the same: same kind, same text, same parts.
    pub fn same(&self, other: &Token) -> (r: bool)
        ensures
            r == (self@ == other@),
        decreases self,
    {
        match self {
            Token::Ident(a) => match other {
                Token::Ident(b) => same_text(a.as_str(), b.as_str()),
                _ => false,
            },
            Token::Error(a) => match other {
                Token::Error(b) => same_text(a.as_str(), b.as_str()),
                _ => false,
            },
            Token::Basics(a, k) => match other {
                Token::Basics(b, l) => same_text(a.as_str(), b.as_str()) && k.same(l),
                _ => false,
            },
            Token::Array(n, k) => match other {
                Token::Array(m, l) => *n == *m && k.same(l),
                _ => false,
            },
            Token::Eof => matches!(other, Token::Eof),
            Token::Let => matches!(other, Token::Let),
            Token::Equ => matches!(other, Token::Equ),
            Token::Colon => matches!(other, Token::Colon),
            Token::If => matches!(other, Token::If),
            Token::Else => matches!(other, Token::Else),
            Token::Unknown => matches!(other, Token::Unknown),
            Token::Sem => matches!(other, Token::Sem),
            Token::N => matches!(other, Token::N),
            Token::Int => matches!(other, Token::Int),
            Token::String => matches!(other, Token::String),
            Token::Float => matches!(other, Token::Float),
            Token::Bool => matches!(other, Token::Bool),
            Token::Add => matches!(other, Token::Add),
            Token::Sub => matches!(other, Token::Sub),
            Token::Mul => matches!(other, Token::Mul),
            Token::Div => matches!(other, Token::Div),
            Token::LeftCurlyBracket => matches!(other, Token::LeftCurlyBracket),
            Token::RightCurlyBracket => matches!(other, Token::RightCurlyBracket),
            Token::LT => matches!(other, Token::LT),
            Token::GT => matches!(other, Token::GT),
            Token::LTEqu => matches!(other, Token::LTEqu),
            Token::GTEqu => matches!(other, Token::GTEqu),
            Token::BangEqu => matches!(other, Token::BangEqu),
            Token::Bang => matches!(other, Token::Bang),
            Token::Assign => matches!(other, Token::Assign),
            Token::Fun => matches!(other, Token::Fun),
            Token::LeftBracket => matches!(other, Token::LeftBracket),
            Token::RightBracket => matches!(other, Token::RightBracket),
            Token::Comma => matches!(other, Token::Comma),
            Token::Arrow => matches!(other, Token::Arrow),
            Token::Type => matches!(other, Token::Type),
            Token::Struct => matches!(other, Token::Struct),
            Token::LeftSquareBra => matches!(other, Token::LeftSquareBra),
            Token::RightSquareBra => matches!(other, Token::RightSquareBra),
            Token::For => matches!(other, Token::For),
            Token::SelfSub => matches!(other, Token::SelfSub),
            Token::SelfAdd => matches!(other, Token::SelfAdd),
            Token::Break => matches!(other, Token::Break),
            Token::Continue => matches!(other, Token::Continue),
            Token::Return => matches!(other, Token::Return),
            Token::Notes => matches!(other, Token::Notes),
            Token::NotesBlock => matches!(other, Token::NotesBlock),
            Token::NotesBlockEnd => matches!(other, Token::NotesBlockEnd),
        }
    }

    /// A classified literal: `text` read as `kind`.
    pub fn literal(text: String, kind: Token) -> (r: Token)
        ensures
            r@ == TokenView::Basics(text@, Box::new(kind@)),
    {
        Token::Basics(text, Box::new(kind))
    }

    /// A copy of this token, equal to it.
    pub fn duplicate(&self) -> (r: Token)
        ensures
            r == *self,
        decreases self,
    {
        match self {
            Token::Ident(s) => Token::Ident(s.clone()),
            Token::Basics(s, k) => Token::Basics(s.clone(), Box::new(k.duplicate())),
            Token::Error(s) => Token::Error(s.clone()),
            Token::Array(n, t) => Token::Array(*n, Box::new(t.duplicate())),
            Token::Eof => Token::Eof,
            Token::Let => Token::Let,
            Token::Equ => Token::Equ,
            Token::Colon => Token::Colon,
            Token::If => Token::If,
            Token::Else => Token::Else,
            Token::Unknown => Token::Unknown,
            Token::Sem => Token::Sem,
            Token::N => Token::N,
            Token::Int => Token::Int,
            Token::String => Token::String,
            Token::Float => Token::Float,
            Token::Bool => Token::Bool,
            Token::Add => Token::Add,
            Token::Sub => Token::Sub,
            Token::Mul => Token::Mul,
            Token::Div => Token::Div,
            Token::LeftCurlyBracket => Token::LeftCurlyBracket,
            Token::RightCurlyBracket => Token::RightCurlyBracket,
            Token::LT => Token::LT,
            Token::GT => Token::GT,
            Token::LTEqu => Token::LTEqu,
            Token::GTEqu => Token::GTEqu,
            Token::BangEqu => Token::BangEqu,
            Token::Bang => Token::Bang,
            Token::Assign => Token::Assign,
            Token::Fun => Token::Fun,
            Token::LeftBracket => Token::LeftBracket,
            Token::RightBracket => Token::RightBracket,
            Token::Comma => Token::Comma,
            Token::Arrow => Token::Arrow,
            Token::Type => Token::Type,
            Token::Struct => Token::Struct,
            Token::LeftSquareBra => Token::LeftSquareBra,
            Token::RightSquareBra => Token::RightSquareBra,
            Token::For => Token::For,
            Token::SelfSub => Token::SelfSub,
            Token::SelfAdd => Token::SelfAdd,
            Token::Break => Token::Break,
            Token::Continue => Token::Continue,
            Token::Return => Token::Return,
            Token::Notes => Token::Notes,
            Token::NotesBlock => Token::NotesBlock,
            Token::NotesBlockEnd => Token::NotesBlockEnd,
        }
    }
}

/// The textual form of a token, as diagnostics show it.
pub open spec fn token_text(t: TokenView) -> Seq<char>
    decreases t,
{
    match t {
        TokenView::Ident(s) => "Ident<"@ + s + ">"@,
        TokenView::Error(s) => "Error => "@ + s,
        TokenView::Basics(v, k) => "Basics<"@ + v + "> type "@ + token_text(*k),
        TokenView::Array(n, k) => "["@ + int_text(n) + "]"@ + token_text(*k),
        TokenView::Eof => "eof"@,
        TokenView::Let => "let"@,
        TokenView::Equ => "=="@,
        TokenView::Colon => ":"@,
        TokenView::If => "if"@,
        TokenView::Else => "else"@,
        TokenView::Unknown => "unknown"@,
        TokenView::Sem => "sem"@,
        TokenView::N => "<N>"@,
        TokenView::String => "string"@,
        TokenView::Int => "int"@,
        TokenView::Float => "float"@,
        TokenView::Bool => "bool"@,
        TokenView::Div => "/"@,
        TokenView::Add => "+"@,
        TokenView::Sub => "-"@,
        TokenView::Mul => "*"@,
        TokenView::LeftCurlyBracket => "{"@,
        TokenView::RightCurlyBracket => "}"@,
        TokenView::LT => "<"@,
        TokenView::GT => ">"@,
        TokenView::LTEqu => "<="@,
        TokenView::GTEqu => ">="@,
        TokenView::BangEqu => "!="@,
        TokenView::Bang => "!"@,
        TokenView::Assign => "="@,
        TokenView::Fun => "fun"@,
        TokenView::LeftBracket => "("@,
        TokenView::RightBracket => ")"@,
        TokenView::Comma => ","@,
        TokenView::Arrow => "->"@,
        TokenView::Struct => "struct"@,
        TokenView::Type => "type"@,
        TokenView::LeftSquareBra => "["@,
        TokenView::RightSquareBra => "]"@,
        TokenView::For => "for"@,
        TokenView::SelfSub => "--"@,
        TokenView::SelfAdd => "++"@,
        TokenView::Break => "break"@,
        TokenView::Continue => "continue"@,
        TokenView::Return => "return"@,
        TokenView::Notes => "//"@,
        TokenView::NotesBlock => "/**"@,
        TokenView::NotesBlockEnd => "**/"@,
    }
}

impl Token {
    /// The textual form of the token, as diagnostics show it.
    pub fn text(&self) -> (r: String)
        ensures
            r@ == token_text(self@),
        decreases self,
    {
        match self {
            Token::Ident(s) => "Ident<".to_owned().concat(s.as_str()).concat(">"),
            Token::Error(s) => "Error => ".to_owned().concat(s.as_str()),
            Token::Basics(v, k) => {
                let kind = k.text();
                "Basics<".to_owned().concat(v.as_str()).concat("> type ").concat(kind.as_str())
            },
            Token::Array(n, k) => {
                let number = signed_decimal(*n);
                let element = k.text();
                "[".to_owned().concat(number.as_str()).concat("]").concat(element.as_str())
            },
            Token::Eof => "eof".to_owned(),
            Token::Let => "let".to_owned(),
            Token::Equ => "==".to_owned(),
            Token::Colon => ":".to_owned(),
            Token::If => "if".to_owned(),
            Token::Else => "else".to_owned(),
            Token::Unknown => "unknown".to_owned(),
            Token::Sem => "sem".to_owned(),
            Token::N => "<N>".to_owned(),
            Token::String => "string".to_owned(),
            Token::Int => "int".to_owned(),
            Token::Float => "float".to_owned(),
            Token::Bool => "bool".to_owned(),
            Token::Div => "/".to_owned(),
            Token::Add => "+".to_owned(),
            Token::Sub => "-".to_owned(),
            Token::Mul => "*".to_owned(),
            Token::LeftCurlyBracket => "{".to_owned(),
            Token::RightCurlyBracket => "}".to_owned(),
            Token::LT => "<".to_owned(),
            Token::GT => ">".to_owned(),
            Token::LTEqu => "<=".to_owned(),
            Token::GTEqu => ">=".to_owned(),
            Token::BangEqu => "!=".to_owned(),
            Token::Bang => "!".to_owned(),
            Token::Assign => "=".to_owned(),
            Token::Fun => "fun".to_owned(),
            Token::LeftBracket => "(".to_owned(),
            Token::RightBracket => ")".to_owned(),
            Token::Comma => ",".to_owned(),
            Token::Arrow => "->".to_owned(),
            Token::Struct => "struct".to_owned(),
            Token::Type => "type".to_owned(),
            Token::LeftSquareBra => "[".to_owned(),
            Token::RightSquareBra => "]".to_owned(),
            Token::For => "for".to_owned(),
            Token::SelfSub => "--".to_owned(),
            Token::SelfAdd => "++".to_owned(),
            Token::Break => "break".to_owned(),
            Token::Continue => "continue".to_owned(),
            Token::Return => "return".to_owned(),
            Token::Notes => "//".to_owned(),
            Token::NotesBlock => "/**".to_owned(),
            Token::NotesBlockEnd => "**/".to_owned(),
        }
    }
}

impl Clone for Token {
    fn clone(&self) -> (r: Token)
        ensures
            r == *self,
    {
        self.duplicate()
    }
}

/// Precedence classes, weakest first; the parser compares them by `level`.
#[derive(Clone, Copy, PartialEq, Eq, PartialOrd, Ord, Debug)]
pub enum Operation {
    Lowest,
    Index,
    EquAls,
    AddAndSub,
    MulAndDiv,
    LtAndGt,
    Call,
}

impl Operation {
    /// The position of the class in the declared order.
    pub open spec fn rank(self) -> nat {
        match self {
            Operation::Lowest => 0,
            Operation::Index => 1,
            Operation::EquAls => 2,
            Operation::AddAndSub => 3,
            Operation::MulAndDiv => 4,
            Operation::LtAndGt => 5,
            Operation::Call => 6,
        }
    }

    /// The position of the class in the declared order.
    pub fn level(&self) -> (r: u8)
        ensures
            r == self.rank(),
    {
        match self {
            Operation::Lowest => 0,
            Operation::Index => 1,
            Operation::EquAls => 2,
            Operation::AddAndSub => 3,
            Operation::MulAndDiv => 4,
            Operation::LtAndGt => 5,
            Operation::Call => 6,
        }
    }
}

} // verus!
