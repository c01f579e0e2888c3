//! The parsers for expressions and for each kind of statement.

use vstd::prelude::*;
use crate::ast::{Statement, Value};
use crate::error::LogoError;
use crate::grammar::{
    first_of, leaf_value, parse_arguments, parse_group,
    parse_value, statement_parsed,
};
use crate::tokens::{token_views, KeywordType, TokenType, TokenView};

pub mod binary;
pub mod controls;
pub mod ifwhile;
pub mod procedures;
pub mod queries;
pub mod variable;

verus! {

impl TokenType {
    /// The expression that this token is by itself, if it is one.
    pub fn to_value(&self) -> (value: Option<Value>)
        ensures
            match value {
                Some(leaf) => leaf_value(self@) == Some(leaf@),
                None => leaf_value(self@) is None,
            },
    {
        match self {
            TokenType::Identifier(identifier) => Some(Value::Identifier(identifier.duplicate())),
            TokenType::Value(value) => Some(Value::Literal(*value)),
            TokenType::Real(text) => Some(Value::Real(text.clone())),
            TokenType::Query(query) => {
                let mut query_token: Vec<TokenType> = Vec::new();
                query_token.push(TokenType::Query(*query));
                assert(token_views(query_token@) =~= seq![self@]);
                match (queries::QueriesParser {  }).parse(query_token.as_slice()) {
                    Ok(Statement::CallExpression(call)) => Some(Value::Statement(Box::new(call))),
                    _ => None,
                }
            },
            _ => None,
        }
    }
}

/// The index of the first token like `mark` at or after `from`, or the length.
pub fn find_token(buf: &[TokenType], mark: &TokenType, from: usize) -> (at: usize)
    requires
        from <= buf@.len(),
    ensures
        at == first_of(token_views(buf@), mark@, from as int),
        from <= at <= buf@.len(),
{
    let mut at: usize = from;
    while at < buf.len() && !buf[at].same(mark)
        invariant
            from <= at <= buf@.len(),
            first_of(token_views(buf@), mark@, at as int) == first_of(
                token_views(buf@),
                mark@,
                from as int,
            ),
        decreases buf@.len() - at,
    {
        at += 1;
    }
    at
}

/// Which of the statement parsers reads a group.
pub enum SelectedParser {
    VariableAssign(variable::VariableAssignParser),
    Controls(controls::ControlsParser),
    If(ifwhile::IfStatementParser),
    While(ifwhile::WhileStatementParser),
    Procedure(procedures::ProcedureParser),
}

/// Whether `group` is a group that `parser` is chosen for.
pub open spec fn selects(group: Seq<TokenView>, parser: SelectedParser) -> bool {
    group.len() > 0 && match group[0] {
        TokenView::Assignment(_) => parser is VariableAssign,
        TokenView::Command(_) => parser is Controls,
        TokenView::Keyword(KeywordType::If) => parser is If,
        TokenView::Keyword(KeywordType::While) => parser is While,
        TokenView::Keyword(KeywordType::To) => parser is Procedure,
        TokenView::Identifier(identifier) => identifier is Procedure && parser is Procedure,
        _ => false,
    }
}

/// Whether some parser is chosen for `group`.
pub open spec fn selectable(group: Seq<TokenView>) -> bool {
    group.len() > 0 && match group[0] {
        TokenView::Assignment(_) => true,
        TokenView::Command(_) => true,
        TokenView::Keyword(keyword) => keyword != KeywordType::End,
        TokenView::Identifier(identifier) => identifier is Procedure,
        _ => false,
    }
}

pub struct ParserFactory {}

impl ParserFactory {
    /// Chooses the parser for a group by the group's first token. An empty
    /// group, or one that starts with a token no statement starts with, is a
    /// syntax error.
    pub fn create(tokens: &[TokenType]) -> (chosen: Result<SelectedParser, LogoError>)
        ensures
            match chosen {
                Ok(parser) => selects(token_views(tokens@), parser),
                Err(error) => error == LogoError::SyntaxError && !selectable(
                    token_views(tokens@),
                ),
            },
    {
        if tokens.len() == 0 {
            return Err(LogoError::SyntaxError);
        }
        match &tokens[0] {
            TokenType::Assignment(_) => Ok(
                SelectedParser::VariableAssign(variable::VariableAssignParser {  }),
            ),
            TokenType::Command(_) => Ok(SelectedParser::Controls(controls::ControlsParser {  })),
            TokenType::Keyword(keywords) => match keywords {
                KeywordType::If => Ok(SelectedParser::If(ifwhile::IfStatementParser {  })),
                KeywordType::While => Ok(SelectedParser::While(ifwhile::WhileStatementParser {  })),
                KeywordType::To => Ok(SelectedParser::Procedure(procedures::ProcedureParser {  })),
                KeywordType::End => Err(LogoError::SyntaxError),
            },
            TokenType::Identifier(identifier) => {
                if identifier.is_procedure() {
                    Ok(SelectedParser::Procedure(procedures::ProcedureParser {  }))
                } else {
                    Err(LogoError::SyntaxError)
                }
            },
            _ => Err(LogoError::SyntaxError),
        }
    }
}

impl SelectedParser {
    /// Reads the group with the chosen parser.
    pub fn parse(&self, buf: &[TokenType]) -> (parsed: Result<Statement, LogoError>)
        requires
            selects(token_views(buf@), *self),
        ensures
            statement_parsed(parsed, parse_group(token_views(buf@))),
        decreases buf@.len(), 4nat,
    {
        match self {
            SelectedParser::VariableAssign(parser) => parser.parse(buf),
            SelectedParser::Controls(parser) => parser.parse(buf),
            SelectedParser::If(parser) => parser.parse(buf),
            SelectedParser::While(parser) => parser.parse(buf),
            SelectedParser::Procedure(parser) => parser.parse(buf),
        }
    }
}

impl Value {
    /// Reads one expression that starts at `buf[at]`; gives it with the
    /// index after its last token.
    pub fn parse_one(buf: &[TokenType], at: usize) -> (parsed: Result<(Value, usize), LogoError>)
        ensures
            match parsed {
                Ok((value, next)) => {
                    &&& parse_value(token_views(buf@), at as int) == Some((value@, next as int))
                    &&& at < next <= buf@.len()
                },
                Err(error) => {
                    &&& error == LogoError::SyntaxError
                    &&& parse_value(token_views(buf@), at as int) is None
                },
            },
        decreases buf@.len() - at, 0nat,
    {
        if at >= buf.len() {
            return Err(LogoError::SyntaxError);
        }
        let token = &buf[at];
        match token.to_value() {
            Some(value) => Ok((value, at + 1)),
            None => match binary::BinaryParser::_parse(token, buf, at + 1) {
                Ok(Some((binary, next))) => Ok((Value::BinaryExpression(Box::new(binary)), next)),
                Ok(None) => Err(LogoError::SyntaxError),
                Err(error) => Err(error),
            },
        }
    }

    /// Reads expressions from `buf[at]` on until the tokens run out.
    pub fn parse_all(buf: &[TokenType], at: usize) -> (parsed: Result<Vec<Value>, LogoError>)
        ensures
            match parsed {
                Ok(values) => parse_arguments(token_views(buf@), at as int) == Some(
                    crate::ast::value_views(values@),
                ),
                Err(error) => {
                    &&& error == LogoError::SyntaxError
                    &&& parse_arguments(token_views(buf@), at as int) is None
                },
            },
    {
        let ghost views = token_views(buf@);
        let mut values: Vec<Value> = Vec::new();
        let mut next: usize = at;
        assert(crate::ast::value_views(values@) =~= Seq::empty());
        assert(forall|rest: Seq<crate::ast::ValueView>|
            crate::ast::value_views(values@) + rest =~= rest);
        while next < buf.len()
            invariant
                views == token_views(buf@),
                parse_arguments(views, at as int) == match parse_arguments(views, next as int) {
                    Some(rest) => Some(crate::ast::value_views(values@) + rest),
                    None => None,
                },
            decreases buf@.len() - next,
        {
            match Value::parse_one(buf, next) {
                Ok((value, after)) => {
                    let ghost before = crate::ast::value_views(values@);
                    values.push(value);
                    assert(crate::ast::value_views(values@) =~= before.push(value@));
                    assert(forall|rest: Seq<crate::ast::ValueView>|
                        before + (seq![value@] + rest) =~= before.push(value@) + rest);
                    next = after;
                },
                Err(error) => {
                    return Err(error);
                },
            }
        }
        assert(crate::ast::value_views(values@) + Seq::empty() =~= crate::ast::value_views(
            values@,
        ));
        Ok(values)
    }
}

} // verus!
