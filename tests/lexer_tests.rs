use kz_parser::lexer::same_text;
use kz_parser::parser::parse_int;
use kz_parser::render::{decimal, signed_decimal};
use kz_parser::{Lexer, Operation, PaserFile, Token};

const SAMPLE: &str = "let a: int = 1\n// note\nfun add(x: int, y: int) -> int {\n    return x + y\n}\n";

fn lexer_over(text: &str) -> Lexer {
    Lexer::new(PaserFile::new("sample.kz", text.as_bytes().to_vec()))
}

fn tokens(text: &str) -> Vec<Token> {
    let mut l = lexer_over(text);
    let mut out = Vec::new();
    loop {
        let tok = l.next();
        if tok == Token::Eof {
            break;
        }
        out.push(tok);
    }
    out
}

fn literal(text: &str, kind: Token) -> Token {
    Token::Basics(text.to_string(), Box::new(kind))
}

#[test]
fn test_new_file() {
    let f = PaserFile::new("./src/script/01.kz", SAMPLE.as_bytes().to_vec());
    println!("{:?}", f.body);
    assert_eq!(f.file_path(), "./src/script/01.kz");
    assert_eq!(f.body, SAMPLE.as_bytes().to_vec());
}

#[test]
fn test_lexer() {
    let f = PaserFile::new("./src/script/01.kz", SAMPLE.as_bytes().to_vec());
    let mut l = Lexer::new(f);
    loop {
        let tok = l.next();
        match tok {
            Token::Eof => break,
            _ => println!("{:?}", tok),
        }
    }
}

#[test]
fn lex_integer_literal() {
    assert_eq!(tokens("123"), vec![literal("123", Token::Int)]);
}

#[test]
fn lex_float_literal() {
    assert_eq!(tokens("1.5"), vec![literal("1.5", Token::Float)]);
}

#[test]
fn lex_float_takes_one_dot() {
    assert_eq!(tokens("1.2.3"), vec![literal("1.2", Token::Float), Token::Unknown, literal("3", Token::Int)]);
}

#[test]
fn lex_letter_after_digits_is_error() {
    let toks = tokens("12a");
    assert_eq!(toks[0], Token::Error("the number cannot contain other char".to_string()));
}

#[test]
fn lex_unterminated_string_is_error() {
    assert_eq!(tokens("\"abc"), vec![Token::Error("is not the expected string type".to_string())]);
}

#[test]
fn lex_string_literals() {
    assert_eq!(
        tokens("\"\" \"a b\""),
        vec![literal("", Token::String), literal("a b", Token::String)]
    );
}

#[test]
fn lex_invalid_utf8_string_is_error() {
    let mut l = Lexer::new(PaserFile::new("bytes.kz", vec![b'"', 0xff, b'"']));
    assert_eq!(l.next(), Token::Error("the string is not valid UTF-8".to_string()));
    assert_eq!(l.next(), Token::Eof);
}

#[test]
fn lex_keywords_and_identifiers() {
    assert_eq!(
        tokens("let if else true false string int float fun type struct for continue break return lets _x"),
        vec![
            Token::Let,
            Token::If,
            Token::Else,
            literal("true", Token::Bool),
            literal("false", Token::Bool),
            Token::String,
            Token::Int,
            Token::Float,
            Token::Fun,
            Token::Type,
            Token::Struct,
            Token::For,
            Token::Continue,
            Token::Break,
            Token::Return,
            Token::Ident("lets".to_string()),
            Token::Ident("_x".to_string()),
        ]
    );
}

#[test]
fn lex_punctuation() {
    assert_eq!(
        tokens("= == + ++ - -- -> * / < <= > >= ! != : ; , ( ) { } [ ] // /** **/ ?\n"),
        vec![
            Token::Assign,
            Token::Equ,
            Token::Add,
            Token::SelfAdd,
            Token::Sub,
            Token::SelfSub,
            Token::Arrow,
            Token::Mul,
            Token::Div,
            Token::LT,
            Token::LTEqu,
            Token::GT,
            Token::GTEqu,
            Token::Bang,
            Token::BangEqu,
            Token::Colon,
            Token::Sem,
            Token::Comma,
            Token::LeftBracket,
            Token::RightBracket,
            Token::LeftCurlyBracket,
            Token::RightCurlyBracket,
            Token::LeftSquareBra,
            Token::RightSquareBra,
            Token::Notes,
            Token::NotesBlock,
            Token::NotesBlockEnd,
            Token::Unknown,
            Token::N,
        ]
    );
}

#[test]
fn lex_malformed_comment_delimiters() {
    assert_eq!(tokens("/*"), vec![Token::Error("notes block not '/*' the is a '/**'".to_string())]);
    assert_eq!(tokens("**"), vec![Token::Error("notes block end not '*/' the is a '**/'".to_string())]);
}

#[test]
fn lex_identifier_takes_digits_after_first_letter() {
    assert_eq!(tokens("x1"), vec![Token::Ident("x1".to_string())]);
    assert_eq!(tokens("a1_b"), vec![Token::Ident("a1_b".to_string())]);
    assert_eq!(tokens("1a"), vec![Token::Error("the number cannot contain other char".to_string()), Token::Ident("a".to_string())]);
}

#[test]
fn lex_trailing_blanks_reach_eof() {
    let mut l = lexer_over("a  \r ");
    assert_eq!(l.next(), Token::Ident("a".to_string()));
    assert_eq!(l.next(), Token::Eof);
    assert_eq!(l.next(), Token::Eof);
}

#[test]
fn lex_tracks_line_and_column() {
    let mut l = lexer_over("ab\r\ncd");
    assert_eq!((l.line(), l.line_index()), (1, 0));
    l.next();
    assert_eq!((l.line(), l.line_index()), (1, 2));
    assert_eq!(l.next(), Token::N);
    assert_eq!((l.line(), l.line_index()), (2, 1));
    l.next();
    assert_eq!((l.line(), l.line_index()), (2, 3));
    assert_eq!(l.file_path(), "sample.kz");
}

#[test]
fn token_text_forms() {
    assert_eq!(Token::Let.text(), "let");
    assert_eq!(Token::N.text(), "<N>");
    assert_eq!(Token::Sem.text(), "sem");
    assert_eq!(Token::Ident("x".to_string()).text(), "Ident<x>");
    assert_eq!(literal("12", Token::Int).text(), "Basics<12> type int");
    assert_eq!(Token::Array(3, Box::new(Token::Int)).text(), "[3]int");
    assert_eq!(Token::Array(-40, Box::new(Token::Ident("P".to_string()))).text(), "[-40]Ident<P>");
    assert_eq!(Token::Error("bad".to_string()).text(), "Error => bad");
}

#[test]
fn legal_type_tokens() {
    assert!(Token::let_type(&Token::Int));
    assert!(Token::let_type(&Token::String));
    assert!(Token::let_type(&Token::Float));
    assert!(Token::let_type(&Token::Ident("P".to_string())));
    assert!(Token::let_type(&Token::Array(2, Box::new(Token::Int))));
    assert!(Token::let_type(&Token::Array(2, Box::new(Token::Array(3, Box::new(Token::Float))))));
    assert!(!Token::let_type(&Token::Array(3, Box::new(Token::Bool))));
    assert!(!Token::let_type(&Token::Bool));
    assert!(!Token::let_type(&Token::Let));
}

#[test]
fn token_same_and_duplicate() {
    let a = Token::Array(2, Box::new(literal("7", Token::Int)));
    assert!(a.same(&a.duplicate()));
    assert!(!a.same(&Token::Array(3, Box::new(literal("7", Token::Int)))));
    assert!(Token::Comma.same(&Token::Comma));
    assert!(!Token::Comma.same(&Token::Colon));
}

#[test]
fn operation_order() {
    let order = [
        Operation::Lowest,
        Operation::Index,
        Operation::EquAls,
        Operation::AddAndSub,
        Operation::MulAndDiv,
        Operation::LtAndGt,
        Operation::Call,
    ];
    for (k, op) in order.iter().enumerate() {
        assert_eq!(op.level() as usize, k);
    }
    assert!(Operation::LtAndGt > Operation::EquAls);
}

#[test]
fn integer_text_reading() {
    assert_eq!(parse_int("0"), Some(0));
    assert_eq!(parse_int("2147483647"), Some(2147483647));
    assert_eq!(parse_int("2147483648"), None);
    assert_eq!(parse_int("99999999999999999999"), None);
    assert_eq!(parse_int(""), None);
    assert_eq!(parse_int("1.5"), None);
}

#[test]
fn decimal_rendering() {
    assert_eq!(decimal(0), "0");
    assert_eq!(decimal(1234567890), "1234567890");
    assert_eq!(signed_decimal(-7), "-7");
    assert_eq!(signed_decimal(i32::MIN), "-2147483648");
}

#[test]
fn text_comparison() {
    assert!(same_text("abc", "abc"));
    assert!(!same_text("abc", "abd"));
    assert!(!same_text("ab", "abc"));
}
