//! Assignments.

use vstd::prelude::*;
use crate::ast::{AssignmentExpression, Statement, Value};
use crate::error::LogoError;
use crate::grammar::{parse_assignment, statement_parsed};
use crate::tokens::{token_views, IdentifierType, TokenType};

verus! {

pub struct VariableAssignParser {}

impl VariableAssignParser {
    /// Reads a group that starts with `MAKE` or `ADDASSIGN`.
    pub fn parse(&self, buf: &[TokenType]) -> (parsed: Result<Statement, LogoError>)
        ensures
            statement_parsed(parsed, parse_assignment(token_views(buf@))),
    {
        VariableAssignParser::parse_variable_assign(buf)
    }

    fn parse_variable_assign(buf: &[TokenType]) -> (parsed: Result<Statement, LogoError>)
        ensures
            statement_parsed(parsed, parse_assignment(token_views(buf@))),
    {
        if buf.len() < 2 {
            return Err(LogoError::SyntaxError);
        }
        let command = match buf[0].expect_assignment() {
            Some(command) => command,
            None => {
                return Err(LogoError::SyntaxError);
            },
        };
        let left = match &buf[1] {
            TokenType::Identifier(IdentifierType::Variable(name)) => name.clone(),
            _ => {
                return Err(LogoError::SyntaxError);
            },
        };
        match Value::parse_one(buf, 2) {
            Ok((right, _)) => Ok(
                Statement::AssignmentExpression(AssignmentExpression::new(command, left, right)),
            ),
            Err(error) => Err(error),
        }
    }
}

} // verus!
