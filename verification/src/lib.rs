pub mod ast;
pub mod backend;
pub mod cli;
pub mod codegen;
pub mod config;
pub mod driver;
pub mod laws;
pub mod lexer;
pub mod link;
pub mod parser;
pub mod pipeline;
pub mod session;
pub mod text;
pub mod trivia;
