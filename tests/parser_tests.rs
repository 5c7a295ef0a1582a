use kz_parser::parser::parse_file;
use kz_parser::{
    Expression, FunExpression, InfixExpression, KzErr, KzError, LetStatement, Lexer, PaserFile, Parser, Statement,
    Token,
};

fn parse(text: &str) -> Result<Vec<Statement>, KzError> {
    let f = PaserFile::new("test.kz", text.as_bytes().to_vec());
    let mut p = Parser::new(Lexer::new(f));
    p.program()
}

fn parse_ok(text: &str) -> Vec<Statement> {
    parse(text).unwrap()
}

fn parse_err(text: &str) -> KzError {
    match parse(text) {
        Ok(v) => panic!("expected an error, got {:?}", v),
        Err(e) => e,
    }
}

fn num(n: i32) -> Expression {
    Expression::Int(n)
}

fn ident(name: &str) -> Expression {
    Expression::Ident(name.to_string())
}

fn infix(left: Expression, op: Token, right: Expression) -> Expression {
    Expression::Infix(Box::new(InfixExpression { left, right, op_symbol: op }))
}

fn initializer(text: &str) -> Expression {
    let mut v = parse_ok(text);
    assert_eq!(v.len(), 1);
    match v.remove(0) {
        Statement::Let(l) => l.exp.unwrap(),
        other => panic!("expected a let statement, got {:?}", other),
    }
}

#[test]
fn precedence_mul_inside_add() {
    assert_eq!(
        initializer("let x = 1 + 2 * 3\n"),
        infix(num(1), Token::Add, infix(num(2), Token::Mul, num(3)))
    );
}

#[test]
fn precedence_mul_before_add() {
    assert_eq!(
        initializer("let x = 1 * 2 + 3\n"),
        infix(infix(num(1), Token::Mul, num(2)), Token::Add, num(3))
    );
}

#[test]
fn precedence_comparison_before_equality() {
    assert_eq!(
        initializer("let x = 1 < 2 == true\n"),
        infix(infix(num(1), Token::LT, num(2)), Token::Equ, Expression::Bool(true))
    );
}

#[test]
fn precedence_same_class_groups_left() {
    assert_eq!(
        initializer("let x = 1 - 2 - 3\n"),
        infix(infix(num(1), Token::Sub, num(2)), Token::Sub, num(3))
    );
}

#[test]
fn parse_twice_gives_equal_trees() {
    let text = "let a: int = 1 + 2\nif a < 3 {\nb(a)\n}\nfor let i: int = 0; i < 10; i++ {\nc\n}\n";
    assert_eq!(parse_ok(text), parse_ok(text));
    let first = parse_file(PaserFile::new("same.kz", text.as_bytes().to_vec()));
    let second = parse_file(PaserFile::new("same.kz", text.as_bytes().to_vec()));
    assert_eq!(first.unwrap(), second.unwrap());
}

#[test]
fn parse_twice_gives_equal_errors() {
    let first = parse_err("let x = 1 +\n");
    let second = parse_err("let x = 1 +\n");
    assert_eq!(first, second);
}

#[test]
fn let_declaration() {
    assert_eq!(
        parse_ok("let x: int = 5;"),
        vec![Statement::Let(LetStatement { token_type: Token::Int, ident: "x".to_string(), exp: Some(num(5)) })]
    );
}

#[test]
fn let_without_type() {
    assert_eq!(
        parse_ok("let s = \"hi\"\n"),
        vec![Statement::Let(LetStatement {
            token_type: Token::Unknown,
            ident: "s".to_string(),
            exp: Some(Expression::String("hi".to_string())),
        })]
    );
}

#[test]
fn let_with_float_and_array_type() {
    assert_eq!(initializer("let f: float = 2.5\n"), Expression::Float("2.5".to_string()));
    let v = parse_ok("let a: [3]int = [1, 2, 3]\n");
    match &v[0] {
        Statement::Let(l) => {
            assert_eq!(l.token_type, Token::Array(3, Box::new(Token::Int)));
            assert_eq!(
                l.exp,
                Some(Expression::ListValue(vec![Box::new(num(1)), Box::new(num(2)), Box::new(num(3))]))
            );
        },
        other => panic!("expected a let statement, got {:?}", other),
    }
}

#[test]
fn if_with_else() {
    let v = parse_ok("if x {\na\n} else {\nb\n}\n");
    match &v[..] {
        [Statement::IF(s)] => {
            assert_eq!(s.condition, ident("x"));
            assert_eq!(s.consequence, vec![Statement::Invoke(ident("a"))]);
            assert_eq!(s.alternative, vec![Statement::Invoke(ident("b"))]);
        },
        other => panic!("unexpected {:?}", other),
    }
}

#[test]
fn if_without_else() {
    let v = parse_ok("if x {\na\n}\n");
    match &v[..] {
        [Statement::IF(s)] => {
            assert_eq!(s.consequence, vec![Statement::Invoke(ident("a"))]);
            assert!(s.alternative.is_empty());
        },
        other => panic!("unexpected {:?}", other),
    }
}

#[test]
fn for_loop_clauses() {
    let v = parse_ok("for let i: int = 0; i < 10; i++ {\nbody\n}\n");
    match &v[..] {
        [Statement::For(f)] => {
            assert_eq!(
                *f.start_condition,
                Statement::Let(LetStatement { token_type: Token::Int, ident: "i".to_string(), exp: Some(num(0)) })
            );
            assert_eq!(f.condition, infix(ident("i"), Token::LT, num(10)));
            assert_eq!(
                *f.self_operation,
                Statement::Invoke(Expression::SelfOp(Box::new(ident("i")), Token::SelfAdd, false))
            );
            assert_eq!(f.consequence, vec![Statement::Invoke(ident("body"))]);
        },
        other => panic!("unexpected {:?}", other),
    }
}

#[test]
fn for_loop_needs_semicolons() {
    let e = parse_err("for let i: int = 0\ni < 10; i++ {\n}\n");
    assert_eq!(*e.kind(), KzErr::UnExpSymbol(Token::Sem));
}

#[test]
fn program_error_on_closing_bracket() {
    let e = parse_err(")\n");
    assert_eq!(*e.kind(), KzErr::Program(Token::RightBracket));
    assert_eq!(e.line(), 1);
    assert_eq!(e.index(), 2);
    assert_eq!(e.path(), "test.kz");
    assert_eq!(e.error(), "test.kz  line->1:2\n\t\tprogram unknown type error )");
}

#[test]
fn struct_type_declaration() {
    assert_eq!(
        parse_ok("type P struct { x: int, y: int }\n"),
        vec![Statement::Type(
            "P".to_string(),
            Expression::Struct(Box::new(vec![
                Expression::Param("x".to_string(), Token::Int),
                Expression::Param("y".to_string(), Token::Int),
            ]))
        )]
    );
}

#[test]
fn function_type_declaration() {
    assert_eq!(
        parse_ok("type F fun (int, string) -> int\n"),
        vec![Statement::Type(
            "F".to_string(),
            Expression::FunType(
                Some(Box::new(vec![
                    Expression::Param("".to_string(), Token::Int),
                    Expression::Param("".to_string(), Token::String),
                ])),
                Some(Token::Int)
            )
        )]
    );
}

#[test]
fn alias_type_declaration() {
    assert_eq!(
        parse_ok("type Age int\n"),
        vec![Statement::Type("Age".to_string(), Expression::Basic(Token::Int))]
    );
}

#[test]
fn function_declaration() {
    let v = parse_ok("fun add(a: int, b: int) -> int {\nreturn a + b\n}\n");
    assert_eq!(
        v,
        vec![Statement::Fun(FunExpression {
            name: Some(ident("add")),
            ret_type: Some(Token::Int),
            param_number: 2,
            param_exp: Some(vec![
                Expression::Param("a".to_string(), Token::Int),
                Expression::Param("b".to_string(), Token::Int),
            ]),
            body: vec![Statement::Return(infix(ident("a"), Token::Add, ident("b")))],
        })]
    );
}

#[test]
fn calls_indexes_and_prefix_operations() {
    let v = parse_ok("++n\nf(a, 1)\nxs[2]\nbreak\ncontinue\n");
    assert_eq!(
        v,
        vec![
            Statement::Invoke(Expression::SelfOp(Box::new(ident("n")), Token::SelfAdd, true)),
            Statement::Invoke(Expression::Call(Box::new(ident("f")), vec![Box::new(ident("a")), Box::new(num(1))])),
            Statement::Invoke(Expression::Index(Box::new(ident("xs")), Box::new(num(2)))),
            Statement::Break,
            Statement::Continue,
        ]
    );
}

#[test]
fn comments_are_skipped() {
    let v = parse_ok("// first\nlet x = 1 /** inline **/\n/** block\n**/ let y = 2\n");
    assert_eq!(v.len(), 2);
    match (&v[0], &v[1]) {
        (Statement::Let(a), Statement::Let(b)) => {
            assert_eq!(a.ident, "x");
            assert_eq!(b.ident, "y");
        },
        other => panic!("unexpected {:?}", other),
    }
}

#[test]
fn empty_source_is_empty_program() {
    assert_eq!(parse_ok(""), vec![]);
    assert_eq!(parse_ok("\n\n"), vec![]);
}

#[test]
fn error_expected_name() {
    assert_eq!(*parse_err("let = 5\n").kind(), KzErr::ExpectedName);
}

#[test]
fn error_expected_assign() {
    assert_eq!(*parse_err("let x 5\n").kind(), KzErr::Expected(Token::Assign));
}

#[test]
fn error_illegal_type() {
    let e = parse_err("let x: 5 = 1\n");
    assert_eq!(*e.kind(), KzErr::Type(Token::Basics("5".to_string(), Box::new(Token::Int))));
    assert_eq!(e.error(), "test.kz  line->1:10\n\t\t'Basics<5> type int' type is not legal");
}

#[test]
fn error_no_expression() {
    assert_eq!(*parse_err("let x = )\n").kind(), KzErr::UnExpSymbol(Token::RightBracket));
}

#[test]
fn error_lexical_token_after_expression() {
    let e = parse_err("let x = 1 12a\n");
    assert_eq!(*e.kind(), KzErr::UnOpSymbol(Token::Error("the number cannot contain other char".to_string())));
}

#[test]
fn error_lexical_token_as_statement() {
    let e = parse_err("12a\n");
    assert_eq!(*e.kind(), KzErr::Program(Token::Error("the number cannot contain other char".to_string())));
}

#[test]
fn error_value_too_large() {
    assert_eq!(*parse_err("let x = 99999999999\n").kind(), KzErr::Value("99999999999".to_string()));
}

#[test]
fn error_parameter_without_name() {
    assert_eq!(*parse_err("type P struct { int }\n").kind(), KzErr::ParamName);
}

#[test]
fn error_missing_brace_after_condition() {
    assert_eq!(*parse_err("if x y\n").kind(), KzErr::Expected(Token::LeftCurlyBracket));
}

#[test]
fn error_missing_parenthesis_after_name() {
    assert_eq!(*parse_err("fun f x\n").kind(), KzErr::Expected(Token::LeftBracket));
}

#[test]
fn error_unclosed_argument_list() {
    assert_eq!(*parse_err("f(a b)\n").kind(), KzErr::Expected(Token::RightBracket));
}

#[test]
fn error_messages() {
    assert_eq!(KzErr::ExpectedName.echo(), "expected name is missing");
    assert_eq!(KzErr::ParamName.echo(), "Parameter name is not a valid value");
    assert_eq!(KzErr::Expected(Token::Assign).echo(), "expected symbol '=' does not exist");
    assert_eq!(KzErr::UnExpSymbol(Token::Sem).echo(), "unknown expected symbol -> 'sem'");
    assert_eq!(KzErr::UnOpSymbol(Token::Comma).echo(), "unknown operation symbol -> ','");
    assert_eq!(KzErr::Value("1x".to_string()).echo(), "unknown value input -> 1x");
    assert_eq!(
        KzError::new("a.kz", 3, 14, KzErr::Type(Token::Bool)).error(),
        "a.kz  line->3:14\n\t\t'bool' type is not legal"
    );
}

#[test]
fn unclosed_block_ends_at_eof() {
    let v = parse_ok("if x {\na\n");
    assert_eq!(v.len(), 1);
}

fn print_parser(path: &str, text: &str) {
    let f = PaserFile::new(path, text.as_bytes().to_vec());
    match parse_file(f) {
        Ok(stem) => {
            for val in stem {
                println!("{:?}", val)
            }
        },
        Err(e) => println!("{}", e.error()),
    }
}

#[test]
fn test_parser_02() {
    print_parser("./src/script/02_parser.kz", "let a: int = 1\nlet b = a + 2 * 3\nlet s: string = \"text\"\n");
}

#[test]
fn test_parser_03() {
    print_parser("./src/script/03_parser.kz", "if a < b {\nreturn a\n} else {\nreturn b\n}\n");
}

#[test]
fn test_parser_04() {
    print_parser("./src/script/04_parser.kz", "fun max(a: int, b: int) -> int {\nif a > b {\nreturn a\n}\nreturn b\n}\n");
}

#[test]
fn test_parser_05() {
    print_parser("./src/script/05_parser.kz", "for let i: int = 0; i < 10; i++ {\nprint(i)\n}\n");
}

#[test]
fn test_parser_06() {
    print_parser("./src/script/06_parser.kz", "type Point struct {\nx: int,\ny: int\n}\n");
}

#[test]
fn test_parser_07() {
    print_parser("./src/script/07_parser.kz", "type Op fun (int, int) -> int\ntype Id int\n");
}

#[test]
fn test_parser_08() {
    print_parser("./src/script/08_parser.kz", "let xs: [3]int = [1, 2, 3]\nxs[0]\n");
}

#[test]
fn test_parser_09() {
    print_parser("./src/script/09_parser.kz", "// counter\nlet n = 0\n/** loop **/\nfor let i: int = 0; i < 3; i++ {\n++n\nbreak\n}\n");
}

#[test]
fn test_parser_010() {
    print_parser("./src/script/10_parser.kz", "let f = fun (a: int) -> int {\nreturn a * 2\n}\nf(4)\n");
}

#[test]
fn if_else_on_one_line() {
    assert_eq!(
        parse_ok("if x { a } else { b }"),
        vec![Statement::IF(kz_parser::IfStatement {
            condition: ident("x"),
            consequence: vec![Statement::Invoke(ident("a"))],
            alternative: vec![Statement::Invoke(ident("b"))],
        })]
    );
}

#[test]
fn if_without_else_on_one_line() {
    assert_eq!(
        parse_ok("if x { a }"),
        vec![Statement::IF(kz_parser::IfStatement {
            condition: ident("x"),
            consequence: vec![Statement::Invoke(ident("a"))],
            alternative: vec![],
        })]
    );
}

#[test]
fn for_loop_on_one_line() {
    let v = parse_ok("for let i: int = 0; i < 10; i++ { body }");
    match &v[..] {
        [Statement::For(f)] => {
            assert!(matches!(*f.start_condition, Statement::Let(_)));
            assert_eq!(f.condition, infix(ident("i"), Token::LT, num(10)));
            assert_eq!(
                *f.self_operation,
                Statement::Invoke(Expression::SelfOp(Box::new(ident("i")), Token::SelfAdd, false))
            );
            assert_eq!(f.consequence, vec![Statement::Invoke(ident("body"))]);
        },
        other => panic!("unexpected {:?}", other),
    }
}

#[test]
fn program_error_on_lone_closing_bracket() {
    let e = parse_err(")");
    assert_eq!(*e.kind(), KzErr::Program(Token::RightBracket));
    assert_eq!(e.line(), 1);
}

#[test]
fn last_statement_before_end_is_kept() {
    assert_eq!(parse_ok("break"), vec![Statement::Break]);
    assert_eq!(parse_ok("a\nb"), vec![Statement::Invoke(ident("a")), Statement::Invoke(ident("b"))]);
}

#[test]
fn comment_as_next_token_is_invisible() {
    assert_eq!(parse_ok("let /** c **/ x: int = 5"), parse_ok("let x: int = 5"));
    assert_eq!(parse_ok("let x /** c **/ = 5 // done\n"), parse_ok("let x = 5\n"));
    assert_eq!(parse_ok("f(a /** c **/, b)"), parse_ok("f(a, b)"));
}

#[test]
fn error_array_of_illegal_type() {
    assert_eq!(*parse_err("let a: [3]5 = x\n").kind(), KzErr::Type(Token::RightSquareBra));
}

#[test]
fn error_parameter_name_without_colon() {
    assert_eq!(*parse_err("type P struct { a, b }\n").kind(), KzErr::ParamName);
    assert_eq!(*parse_err("fun f(a) -> int {\n}\n").kind(), KzErr::ParamName);
}

#[test]
fn function_type_with_named_type() {
    assert_eq!(
        parse_ok("type F fun (P, int)\n"),
        vec![Statement::Type(
            "F".to_string(),
            Expression::FunType(
                Some(Box::new(vec![
                    Expression::Param("".to_string(), Token::Ident("P".to_string())),
                    Expression::Param("".to_string(), Token::Int),
                ])),
                None
            )
        )]
    );
}

#[test]
fn function_without_return_type() {
    assert_eq!(
        parse_ok("fun f(a: int) { return a }"),
        vec![Statement::Fun(FunExpression {
            name: Some(ident("f")),
            ret_type: None,
            param_number: 1,
            param_exp: Some(vec![Expression::Param("a".to_string(), Token::Int)]),
            body: vec![Statement::Return(ident("a"))],
        })]
    );
}

#[test]
fn error_illegal_return_type() {
    assert_eq!(*parse_err("fun f(a: int) -> 5 {\n}\n").kind(), KzErr::Type(Token::Basics("5".to_string(), Box::new(Token::Int))));
}

#[test]
fn error_lexical_token_skipped_after_statement() {
    let e = parse_err("break 12a\n");
    assert_eq!(*e.kind(), KzErr::UnExpSymbol(Token::Error("the number cannot contain other char".to_string())));
}
