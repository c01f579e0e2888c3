//! `IF` and `WHILE`, with their bodies in brackets.

use vstd::prelude::*;
use crate::ast::{statement_views, IfStatement, Statement, TestType, WhileStatement};
use crate::error::LogoError;
use crate::grammar::{
    bracketed, lemma_closing_bounds, lemma_views_subrange, parse_branch, parse_loop,
    parse_test_and_body, statement_parsed,
};
use crate::parsers::binary::BinaryParser;
use crate::parsers::find_token;
use crate::segmenter::{find_closing, ASTParser};
use crate::tokens::{token_views, TokenType};

verus! {

pub struct IfStatementParser {}

impl IfStatementParser {
    /// Reads a group that starts with `IF`.
    pub fn parse(&self, buf: &[TokenType]) -> (parsed: Result<Statement, LogoError>)
        ensures
            statement_parsed(parsed, parse_branch(token_views(buf@))),
        decreases buf@.len(), 3nat,
    {
        match parse_if_while(buf) {
            Ok((test, body)) => Ok(Statement::If(IfStatement::new(test, body))),
            Err(error) => Err(error),
        }
    }
}

pub struct WhileStatementParser {}

impl WhileStatementParser {
    /// Reads a group that starts with `WHILE`.
    pub fn parse(&self, buf: &[TokenType]) -> (parsed: Result<Statement, LogoError>)
        ensures
            statement_parsed(parsed, parse_loop(token_views(buf@))),
        decreases buf@.len(), 3nat,
    {
        match parse_if_while(buf) {
            Ok((test, body)) => Ok(Statement::While(WhileStatement::new(test, body))),
            Err(error) => Err(error),
        }
    }
}

/// The test and the body of a group that starts with `IF` or `WHILE`.
pub fn parse_if_while(buf: &[TokenType]) -> (parsed: Result<
    (TestType, Vec<Statement>),
    LogoError,
>)
    ensures
        match parsed {
            Ok((test, body)) => parse_test_and_body(token_views(buf@)) == Some(
                (test@, statement_views(body@)),
            ),
            Err(error) => {
                &&& error == LogoError::SyntaxError
                &&& parse_test_and_body(token_views(buf@)) is None
            },
        },
    decreases buf@.len(), 2nat,
{
    match syntax_check(buf) {
        Ok(()) => {},
        Err(error) => {
            return Err(error);
        },
    }
    let n = buf.len();
    let open = find_token(buf, &TokenType::Bracketleft, 0);
    if open < 1 {
        return Err(LogoError::SyntaxError);
    }
    proof {
        lemma_closing_bounds(token_views(buf@), open + 1, 1);
        lemma_views_subrange(buf@, 1, open as int);
        lemma_views_subrange(buf@, open + 1, n - 1);
    }
    let condi = &buf[1..open];
    let body = &buf[open + 1..n - 1];
    let test = match BinaryParser::parse(condi) {
        Ok(test) => test,
        Err(error) => {
            return Err(error);
        },
    };
    match ASTParser::parse_from_tokens(body) {
        Ok(statements) => Ok((test, statements)),
        Err(error) => Err(error),
    }
}

/// Whether the group ends with the bracket that closes its first open one.
fn syntax_check(buf: &[TokenType]) -> (checked: Result<(), LogoError>)
    ensures
        checked is Ok == bracketed(token_views(buf@)),
        checked is Err ==> checked->Err_0 == LogoError::SyntaxError,
{
    let open = find_token(buf, &TokenType::Bracketleft, 0);
    if open >= buf.len() {
        return Err(LogoError::SyntaxError);
    }
    match find_closing(buf, open + 1) {
        Some(close) => {
            if close + 1 == buf.len() {
                Ok(())
            } else {
                Err(LogoError::SyntaxError)
            }
        },
        None => Err(LogoError::SyntaxError),
    }
}

} // verus!
