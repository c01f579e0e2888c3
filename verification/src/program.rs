//! A script as parsed, ready to run.

use vstd::prelude::*;
use crate::ast::{statement_views, Statement};
use crate::error::LogoError;
use crate::evaluator::{initial, Evaluator};
use crate::grammar::{parse_program, statements_parsed};
use crate::lexer::lex;
use crate::segmenter::ASTParser;
use crate::transpiler::{statements_python, write_statements, Glyph, Python};
use crate::turtle::Turtle;

verus! {

/// A parsed script.
pub struct Program {
    pub statements: Vec<Statement>,
}

impl Program {
    pub fn new(statements: Vec<Statement>) -> (made: Program)
        ensures
            made.statements == statements,
    {
        Program { statements }
    }

    /// Reads a script: its text becomes tokens, and the tokens statements.
    /// What comes out depends on the text alone.
    pub fn parse_logo(logo: &String) -> (parsed: Result<Program, LogoError>)
        ensures
            match parsed {
                Ok(program) => parse_program(lex(logo@)) == Some(
                    statement_views(program.statements@),
                ),
                Err(error) => error == LogoError::SyntaxError && parse_program(lex(logo@)) is None,
            },
    {
        let mut parser = ASTParser::new(logo);
        match parser.parse_statement() {
            Ok(statements) => Ok(Program::new(statements)),
            Err(error) => Err(error),
        }
    }

    /// An evaluator that is about to run the program, with no variables or
    /// procedures yet.
    pub fn run(&self, turtle: Turtle) -> (evaluator: Evaluator<'_>)
        ensures
            evaluator@ == initial(&self.statements, turtle),
    {
        Evaluator::new(&self.statements, turtle)
    }

    /// The program in Python: its statements, one after the other.
    pub fn to_python(&self) -> (python: Python)
        ensures
            python@ == statements_python(self.statements@, self.statements@.len(), 0),
    {
        let mut buf = Python::new();
        write_statements(&self.statements, 0, &mut buf);
        assert(Seq::<Glyph>::empty() + statements_python(
            self.statements@,
            self.statements@.len(),
            0,
        ) =~= statements_python(self.statements@, self.statements@.len(), 0));
        buf
    }

    pub fn statements(&self) -> (statements: &Vec<Statement>)
        ensures
            *statements == self.statements,
    {
        &self.statements
    }
}

/// Whoever reads the same script twice gets statements of the same content
/// both times, or the same failure both times.
pub proof fn parse_twice(
    logo: Seq<char>,
    first: Result<Vec<Statement>, LogoError>,
    second: Result<Vec<Statement>, LogoError>,
)
    requires
        statements_parsed(first, parse_program(lex(logo))),
        statements_parsed(second, parse_program(lex(logo))),
    ensures
        match (first, second) {
            (Ok(a), Ok(b)) => statement_views(a@) == statement_views(b@),
            (Err(a), Err(b)) => a == b,
            _ => false,
        },
{
}

} // verus!
