pub mod ast;
pub mod error;
pub mod file;
pub mod grammar;
pub mod lexer;
pub mod parser;
pub mod render;
pub mod token;

pub use ast::{Expression, ForStatement, FunExpression, IfStatement, InfixExpression, LetStatement, Statement};
pub use error::{KzErr, KzError};
pub use file::PaserFile;
pub use lexer::Lexer;
pub use parser::Parser;
pub use token::{Operation, Token};
