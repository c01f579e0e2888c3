//! Declarations and calls of procedures.

use vstd::prelude::*;
use crate::ast::{name_views, CallExpression, Callee, ProcedureDeclaration, Statement, Value};
use crate::error::LogoError;
use crate::grammar;
use crate::grammar::{
    first_of, is_expression_token, lemma_arguments_cover, lemma_views_subrange, parse_arguments,
    parse_declaration, parse_formals, statement_parsed,
};
use crate::parsers::find_token;
use crate::segmenter::ASTParser;
use crate::tokens::{token_views, IdentifierType, KeywordType, TokenType, TokenView};

verus! {

enum ProcedureParserState {
    Define,
    Call,
}

pub struct ProcedureParser {}

impl ProcedureParser {
    /// Reads a declaration, where the group starts with `TO`, or else a call
    /// of a procedure.
    pub fn parse(&self, buf: &[TokenType]) -> (parsed: Result<Statement, LogoError>)
        ensures
            statement_parsed(parsed, grammar::parse_procedure(token_views(buf@))),
        decreases buf@.len(), 3nat,
    {
        match syntax_check(buf) {
            Ok(ProcedureParserState::Define) => parse_procedure(buf),
            Ok(ProcedureParserState::Call) => parse_call(buf),
            Err(error) => Err(error),
        }
    }
}

/// Reads `TO`, a name, the formal parameters, the body and `END`.
fn parse_procedure(buf: &[TokenType]) -> (parsed: Result<Statement, LogoError>)
    requires
        buf@.len() >= 2,
        buf@[0]@ == TokenView::Keyword(KeywordType::To),
        buf@.last()@ == TokenView::Keyword(KeywordType::End),
    ensures
        statement_parsed(parsed, parse_declaration(token_views(buf@))),
    decreases buf@.len(), 2nat,
{
    let ghost views = token_views(buf@);
    let n = buf.len();
    let name = match &buf[1] {
        TokenType::Identifier(IdentifierType::Procedure(name)) => name.clone(),
        _ => {
            return Err(LogoError::SyntaxError);
        },
    };
    let separator = find_token(buf, &TokenType::Space, 2);
    if separator >= n - 1 {
        return Err(LogoError::SyntaxError);
    }
    let mut args: Vec<String> = Vec::new();
    let mut i: usize = 2;
    assert(views.subrange(2, 2) =~= Seq::<TokenView>::empty());
    while i < separator
        invariant
            2 <= i <= separator <= n,
            n == buf@.len(),
            views == token_views(buf@),
            separator == first_of(views, TokenView::Space, 2),
            parse_formals(views.subrange(2, i as int)) == Some(name_views(args@)),
        decreases separator - i,
    {
        assert(views.subrange(2, i + 1).drop_last() =~= views.subrange(2, i as int));
        match &buf[i] {
            TokenType::Identifier(IdentifierType::Variable(arg)) => {
                let ghost before = name_views(args@);
                args.push(arg.clone());
                assert(name_views(args@) =~= before.push(arg@));
            },
            _ => {
                proof {
                    let formals = views.subrange(2, separator as int);
                    assert(formals.take(i - 1) =~= views.subrange(2, i + 1));
                    assert(views.subrange(2, i + 1).last() == buf@[i as int]@);
                    assert(parse_formals(views.subrange(2, i + 1)) is None);
                    lemma_formals_prefix(formals, i - 2);
                }
                return Err(LogoError::SyntaxError);
            },
        }
        i += 1;
    }
    proof {
        lemma_views_subrange(buf@, separator + 1, n - 1);
    }
    let body = &buf[separator + 1..n - 1];
    match ASTParser::parse_from_tokens(body) {
        Ok(statements) => Ok(
            Statement::ProcedureDeclaration(ProcedureDeclaration::new(name, args, statements)),
        ),
        Err(error) => Err(error),
    }
}

/// Where a prefix of the tokens is no list of formal parameters, the whole
/// is none either.
proof fn lemma_formals_prefix(tokens: Seq<TokenView>, k: int)
    requires
        0 <= k < tokens.len(),
        parse_formals(tokens.take(k + 1)) is None,
    ensures
        parse_formals(tokens) is None,
    decreases tokens.len(),
{
    if k + 1 < tokens.len() {
        assert(tokens.drop_last().take(k + 1) =~= tokens.take(k + 1));
        lemma_formals_prefix(tokens.drop_last(), k);
    } else {
        assert(tokens.take(k + 1) =~= tokens);
    }
}

/// Reads a procedure's name and the expressions that follow it.
fn parse_call(buf: &[TokenType]) -> (parsed: Result<Statement, LogoError>)
    ensures
        statement_parsed(parsed, grammar::parse_call(token_views(buf@))),
{
    if buf.len() == 0 {
        return Err(LogoError::SyntaxError);
    }
    let name = match &buf[0] {
        TokenType::Identifier(IdentifierType::Procedure(name)) => name.clone(),
        _ => {
            return Err(LogoError::SyntaxError);
        },
    };
    match Value::parse_all(buf, 1) {
        Ok(args) => {
            let callee = Callee::Procedure(name);
            Ok(Statement::CallExpression(CallExpression::new(callee, args)))
        },
        Err(error) => Err(error),
    }
}

/// Tells a declaration from a call by the group's first and last tokens. A
/// group that starts with `TO` and does not end with `END`, or the reverse,
/// is neither.
fn syntax_check(buf: &[TokenType]) -> (state: Result<ProcedureParserState, LogoError>)
    ensures
        match state {
            Ok(ProcedureParserState::Define) => {
                &&& buf@.len() >= 2
                &&& buf@[0]@ == TokenView::Keyword(KeywordType::To)
                &&& buf@.last()@ == TokenView::Keyword(KeywordType::End)
            },
            Ok(ProcedureParserState::Call) => {
                &&& buf@.len() > 0
                &&& buf@[0]@ == TokenView::Keyword(KeywordType::To) ==> buf@.last()@
                    != TokenView::Keyword(KeywordType::End)
            },
            Err(error) => {
                &&& error == LogoError::SyntaxError
                &&& grammar::parse_procedure(token_views(buf@)) is None
            },
        },
{
    if buf.len() == 0 {
        return Err(LogoError::SyntaxError);
    }
    let first = buf[0].expect_keywords();
    let last = buf[buf.len() - 1].expect_keywords();
    match (first, last) {
        (Some(KeywordType::To), Some(KeywordType::End)) => Ok(ProcedureParserState::Define),
        (Some(KeywordType::To), None) => Err(LogoError::SyntaxError),
        (None, Some(KeywordType::End)) => {
            proof {
                lemma_call_ends_with_end(token_views(buf@));
            }
            Err(LogoError::SyntaxError)
        },
        _ => Ok(ProcedureParserState::Call),
    }
}

/// A group whose last token is `END` is no call.
proof fn lemma_call_ends_with_end(group: Seq<TokenView>)
    requires
        group.len() > 0,
        group.last() == TokenView::Keyword(KeywordType::End),
    ensures
        grammar::parse_call(group) is None,
{
    if group.len() > 1 && parse_arguments(group, 1) is Some {
        lemma_arguments_cover(group, 1);
        assert(is_expression_token(group[group.len() - 1]));
    }
}

} // verus!
