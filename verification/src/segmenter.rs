//! Cutting a run of tokens into one group for each statement.

use vstd::prelude::*;
use crate::ast::{statement_views, Statement, StatementView};
use crate::error::LogoError;
use crate::grammar::{
    closing, group_end, lemma_views_subrange, parse_program, parse_statements,
    statements_parsed,
};
use crate::lexer::{lex, Tokenizer};
use crate::parsers::{find_token, ParserFactory};
use crate::tokens::{token_views, KeywordType, TokenType, TokenView};

verus! {

/// Cuts a run of tokens into groups, one for each statement, and has each
/// group read by the parser that its first token selects.
pub struct ASTParser {
    tokens: Vec<TokenType>,
}

impl View for ASTParser {
    type V = Seq<TokenView>;

    /// The tokens that are still to be read.
    closed spec fn view(&self) -> Seq<TokenView> {
        token_views(self.tokens@)
    }
}

/// The index of the bracket that closes the block which `from` lies in.
pub fn find_closing(tokens: &[TokenType], from: usize) -> (close: Option<usize>)
    requires
        1 <= from <= tokens@.len(),
    ensures
        close is Some == closing(token_views(tokens@), from as int, 1) is Some,
        close is Some ==> close->0 == closing(token_views(tokens@), from as int, 1)->0,
        close is Some ==> from <= close->0 < tokens@.len(),
{
    let mut depth: usize = 1;
    let mut i: usize = from;
    while i < tokens.len()
        invariant
            1 <= from <= i <= tokens@.len(),
            1 <= depth <= i - from + 1,
            closing(token_views(tokens@), i as int, depth as nat) == closing(
                token_views(tokens@),
                from as int,
                1,
            ),
        decreases tokens@.len() - i,
    {
        if tokens[i].is_left_bracket() {
            depth += 1;
        } else if tokens[i].is_right_bracket() {
            if depth <= 1 {
                return Some(i);
            }
            depth -= 1;
        }
        i += 1;
    }
    None
}

/// Where the group that starts at `at` ends.
fn find_group_end(tokens: &[TokenType], at: usize) -> (end: usize)
    requires
        at < tokens@.len(),
    ensures
        end == group_end(token_views(tokens@), at as int),
        at < end <= tokens@.len(),
{
    let n = tokens.len();
    match &tokens[at] {
        TokenType::Keyword(KeywordType::If) | TokenType::Keyword(KeywordType::While) => {
            let open = find_token(tokens, &TokenType::Bracketleft, at + 1);
            if open < n {
                match find_closing(tokens, open + 1) {
                    Some(close) => close + 1,
                    None => n,
                }
            } else {
                n
            }
        },
        TokenType::Keyword(KeywordType::To) => {
            let end = find_token(tokens, &TokenType::Keyword(KeywordType::End), at + 1);
            if end < n {
                end + 1
            } else {
                end
            }
        },
        _ => find_token(tokens, &TokenType::Space, at + 1),
    }
}

impl ASTParser {
    /// A parser for the tokens of a script.
    pub fn new(logo: &String) -> (made: ASTParser)
        ensures
            made@ == lex(logo@),
    {
        let mut tokenizer = Tokenizer::new(logo);
        tokenizer.scan();
        let tokens = tokenizer.move_token();
        assert(Seq::<TokenView>::empty() + lex(logo@) =~= lex(logo@));
        ASTParser { tokens }
    }

    pub fn new_from_tokens(tokens: Vec<TokenType>) -> (made: ASTParser)
        ensures
            made@ == token_views(tokens@),
    {
        ASTParser { tokens }
    }

    /// Reads a run of tokens as statements.
    pub fn parse_from_tokens(tokens: &[TokenType]) -> (parsed: Result<Vec<Statement>, LogoError>)
        ensures
            statements_parsed(parsed, parse_program(token_views(tokens@))),
        decreases tokens@.len(), 5nat,
    {
        let ghost views = token_views(tokens@);
        let n = tokens.len();
        let mut statements: Vec<Statement> = Vec::new();
        let mut at: usize = 0;
        assert(statement_views(statements@) =~= Seq::empty());
        assert(forall|rest: Seq<StatementView>| statement_views(statements@) + rest =~= rest);
        while at < n
            invariant
                at <= n,
                n == tokens@.len(),
                views == token_views(tokens@),
                parse_statements(views, 0) == match parse_statements(views, at as int) {
                    Some(rest) => Some(statement_views(statements@) + rest),
                    None => None,
                },
            decreases n - at,
        {
            if tokens[at].is_space() {
                at += 1;
            } else {
                let end = find_group_end(tokens, at);
                let buf = &tokens[at..end];
                proof {
                    lemma_views_subrange(tokens@, at as int, end as int);
                }
                let parser = match ParserFactory::create(buf) {
                    Ok(parser) => parser,
                    Err(error) => {
                        return Err(error);
                    },
                };
                match parser.parse(buf) {
                    Ok(statement) => {
                        let ghost before = statement_views(statements@);
                        statements.push(statement);
                        assert(statement_views(statements@) =~= before.push(statement@));
                        assert(forall|rest: Seq<StatementView>|
                            before + (seq![statement@] + rest) =~= before.push(statement@) + rest);
                    },
                    Err(error) => {
                        return Err(error);
                    },
                }
                at = end;
            }
        }
        assert(statement_views(statements@) + Seq::empty() =~= statement_views(statements@));
        Ok(statements)
    }

    /// Reads all the tokens as statements, and keeps none.
    pub fn parse_statement(&mut self) -> (parsed: Result<Vec<Statement>, LogoError>)
        ensures
            statements_parsed(parsed, parse_program(old(self)@)),
            final(self)@ == Seq::<TokenView>::empty(),
    {
        let mut tokens: Vec<TokenType> = Vec::new();
        std::mem::swap(&mut self.tokens, &mut tokens);
        assert(self@ =~= Seq::<TokenView>::empty());
        ASTParser::parse_from_tokens(tokens.as_slice())
    }
}

} // verus!
