//! Calls of queries.

use vstd::prelude::*;
use crate::ast::{CallExpression, Callee, Statement};
use crate::error::LogoError;
use crate::grammar::{parse_query, statement_parsed};
use crate::tokens::{token_views, TokenType};

verus! {

pub struct QueriesParser {}

impl QueriesParser {
    /// Reads a group that is one query and nothing else.
    pub fn parse(&self, tokens: &[TokenType]) -> (parsed: Result<Statement, LogoError>)
        ensures
            statement_parsed(parsed, parse_query(token_views(tokens@))),
    {
        QueriesParser::parse_queries(tokens)
    }

    fn parse_queries(tokens: &[TokenType]) -> (parsed: Result<Statement, LogoError>)
        ensures
            statement_parsed(parsed, parse_query(token_views(tokens@))),
    {
        if tokens.len() != 1 {
            return Err(LogoError::SyntaxError);
        }
        match &tokens[0] {
            TokenType::Query(query) => {
                let expression = CallExpression::new(Callee::Query(*query), Vec::new());
                assert(expression@.arguments =~= Seq::empty());
                Ok(Statement::CallExpression(expression))
            },
            _ => Err(LogoError::SyntaxError),
        }
    }
}

} // verus!
