//! What a run of tokens means as expressions and statements.

use vstd::prelude::*;
use crate::ast::{
    statement_views, AssignmentView, BinaryOperation, BinaryView, CallView, CalleeView, IfView,
    ProcedureView, Statement, StatementView, Value, ValueView, WhileView,
};
use crate::error::LogoError;
use crate::tokens::{token_views, CommandType, IdentifierView, KeywordType, TokenType, TokenView};

verus! {

/// The call of a query without arguments.
pub open spec fn query_call(token: TokenView) -> Option<CallView> {
    match token {
        TokenView::Query(query) => Some(
            CallView { callee: CalleeView::Query(query), arguments: Seq::empty() },
        ),
        _ => None,
    }
}

/// The expression that a single token is, if it is one: a name, a literal,
/// or a query, which becomes a call without arguments.
pub open spec fn leaf_value(token: TokenView) -> Option<ValueView> {
    match token {
        TokenView::Identifier(identifier) => Some(ValueView::Identifier(identifier)),
        TokenView::Value(value) => Some(ValueView::Literal(value)),
        TokenView::Real(text) => Some(ValueView::Real(text)),
        TokenView::Query(_) => Some(ValueView::Statement(query_call(token)->0)),
        _ => None,
    }
}

/// The operator that a token is, if it is one.
pub open spec fn token_operation(token: TokenView) -> Option<BinaryOperation> {
    match token {
        TokenView::Logic(logic) => Some(BinaryOperation::Logic(logic)),
        TokenView::Calculation(calculation) => Some(BinaryOperation::Calculation(calculation)),
        _ => None,
    }
}

/// Reads the two operands of `operation`, the first of which starts at `at`.
/// Gives the binary expression and the index after its last token.
pub open spec fn parse_binary(tokens: Seq<TokenView>, operation: BinaryOperation, at: int)
    -> Option<(BinaryView, int)>
    decreases tokens.len() - at, 1nat,
{
    match parse_value(tokens, at) {
        Some((left, middle)) if at < middle <= tokens.len() => match parse_value(tokens, middle) {
            Some((right, end)) => Some((BinaryView { operation, left, right }, end)),
            None => None,
        },
        _ => None,
    }
}

/// Reads one expression that starts at `at`: a leaf, or an operator followed
/// by its two operands, each an expression again. Gives the expression and
/// the index after its last token; `None` where the tokens are no expression.
pub open spec fn parse_value(tokens: Seq<TokenView>, at: int) -> Option<(ValueView, int)>
    decreases tokens.len() - at, 0nat,
{
    if !(0 <= at < tokens.len()) {
        None
    } else if leaf_value(tokens[at]) is Some {
        Some((leaf_value(tokens[at])->0, at + 1))
    } else if token_operation(tokens[at]) is Some {
        match parse_binary(tokens, token_operation(tokens[at])->0, at + 1) {
            Some((binary, end)) => Some((ValueView::BinaryExpression(Box::new(binary)), end)),
            None => None,
        }
    } else {
        None
    }
}

/// Reads expressions from `at` until the tokens run out.
pub open spec fn parse_arguments(tokens: Seq<TokenView>, at: int) -> Option<Seq<ValueView>>
    decreases tokens.len() - at,
{
    if at >= tokens.len() {
        Some(Seq::empty())
    } else {
        match parse_value(tokens, at) {
            Some((value, next)) if at < next <= tokens.len() => match parse_arguments(
                tokens,
                next,
            ) {
                Some(rest) => Some(seq![value] + rest),
                None => None,
            },
            _ => None,
        }
    }
}

/// How many arguments a command takes.
pub open spec fn arity(command: CommandType) -> nat {
    match command {
        CommandType::Penup | CommandType::Pendown => 0,
        _ => 1,
    }
}

/// A group that starts with a command: the command, then exactly as many
/// expressions as it takes.
pub open spec fn parse_command(group: Seq<TokenView>) -> Option<StatementView> {
    if group.len() > 0 && group[0] is Command {
        match parse_arguments(group, 1) {
            Some(arguments) if arguments.len() == arity(group[0]->Command_0) => Some(
                StatementView::CallExpression(
                    CallView { callee: CalleeView::Command(group[0]->Command_0), arguments },
                ),
            ),
            _ => None,
        }
    } else {
        None
    }
}

/// A group that is one query and nothing else.
pub open spec fn parse_query(group: Seq<TokenView>) -> Option<StatementView> {
    if group.len() == 1 && group[0] is Query {
        Some(StatementView::CallExpression(query_call(group[0])->0))
    } else {
        None
    }
}

/// A group that starts with an assignment keyword: the keyword, a variable
/// name, one expression. What follows the expression is not read.
pub open spec fn parse_assignment(group: Seq<TokenView>) -> Option<StatementView> {
    if group.len() >= 2 && group[0] is Assignment {
        match (group[1], parse_value(group, 2)) {
            (TokenView::Identifier(IdentifierView::Variable(name)), Some((right, _))) => Some(
                StatementView::AssignmentExpression(
                    AssignmentView { operation: group[0]->Assignment_0, left: name, right },
                ),
            ),
            _ => None,
        }
    } else {
        None
    }
}

/// A group that starts with a procedure's name: the name, then any number of
/// expressions.
pub open spec fn parse_call(group: Seq<TokenView>) -> Option<StatementView> {
    if group.len() > 0 {
        match (group[0], parse_arguments(group, 1)) {
            (TokenView::Identifier(IdentifierView::Procedure(name)), Some(arguments)) => Some(
                StatementView::CallExpression(
                    CallView { callee: CalleeView::Procedure(name), arguments },
                ),
            ),
            _ => None,
        }
    } else {
        None
    }
}

/// The index of the first token like `token` at or after `from`, or the length.
pub open spec fn first_of(tokens: Seq<TokenView>, token: TokenView, from: int) -> int
    decreases tokens.len() - from,
{
    if 0 <= from < tokens.len() && tokens[from] != token {
        first_of(tokens, token, from + 1)
    } else {
        from
    }
}

/// The index of the bracket that closes a block, if one does. `from` lies
/// inside the block, under `depth` open brackets.
pub open spec fn closing(tokens: Seq<TokenView>, from: int, depth: nat) -> Option<int>
    decreases tokens.len() - from,
{
    if !(0 <= from < tokens.len()) {
        None
    } else if tokens[from] is Bracketleft {
        closing(tokens, from + 1, depth + 1)
    } else if tokens[from] is Bracketright {
        if depth <= 1 {
            Some(from)
        } else {
            closing(tokens, from + 1, (depth - 1) as nat)
        }
    } else {
        closing(tokens, from + 1, depth)
    }
}

/// Where the group that starts at `at` ends. One that starts with `IF` or
/// `WHILE` runs through its first open bracket to the bracket that closes it;
/// one that starts with `TO` runs through the first `END`; any other stops
/// before the next separator. Where the closing token is missing, the group
/// runs to the end.
pub open spec fn group_end(tokens: Seq<TokenView>, at: int) -> int {
    match tokens[at] {
        TokenView::Keyword(KeywordType::If) | TokenView::Keyword(KeywordType::While) => {
            let open = first_of(tokens, TokenView::Bracketleft, at + 1);
            match closing(tokens, open + 1, 1) {
                Some(close) => close + 1,
                None => tokens.len() as int,
            }
        },
        TokenView::Keyword(KeywordType::To) => {
            let end = first_of(tokens, TokenView::Keyword(KeywordType::End), at + 1);
            if end < tokens.len() {
                end + 1
            } else {
                end
            }
        },
        _ => first_of(tokens, TokenView::Space, at + 1),
    }
}

/// Whether a group holds a block that its last token closes: the first open
/// bracket is matched by the bracket at the very end.
pub open spec fn bracketed(group: Seq<TokenView>) -> bool {
    let open = first_of(group, TokenView::Bracketleft, 0);
    0 <= open < group.len() && closing(group, open + 1, 1) == Some(group.len() - 1)
}

/// The test and the body of a group that starts with `IF` or `WHILE`. The
/// group must end with the bracket that closes its first open one. The test
/// is the one expression read from after the keyword, before the first open
/// bracket; the body is what stands between the two brackets, read as
/// statements.
pub open spec fn parse_test_and_body(group: Seq<TokenView>) -> Option<
    (ValueView, Seq<StatementView>),
>
    decreases group.len(), 0nat, 0nat,
{
    let open = first_of(group, TokenView::Bracketleft, 0);
    if bracketed(group) && 1 <= open < group.len() - 1 {
        let test = parse_value(group.subrange(1, open), 0);
        let body = parse_statements(group.subrange(open + 1, group.len() - 1), 0);
        match (test, body) {
            (Some((test, _)), Some(statements)) => Some((test, statements)),
            _ => None,
        }
    } else {
        None
    }
}

/// The names of formal parameters: every token must be a variable.
pub open spec fn parse_formals(tokens: Seq<TokenView>) -> Option<Seq<Seq<char>>>
    decreases tokens.len(),
{
    if tokens.len() == 0 {
        Some(Seq::empty())
    } else {
        match (parse_formals(tokens.drop_last()), tokens.last()) {
            (Some(names), TokenView::Identifier(IdentifierView::Variable(name))) => Some(
                names.push(name),
            ),
            _ => None,
        }
    }
}

/// A declaration: `TO`, the procedure's name, the formal parameters up to the
/// first separator, the body, `END`.
pub open spec fn parse_declaration(group: Seq<TokenView>) -> Option<StatementView>
    decreases group.len(), 0nat, 0nat,
{
    let separator = first_of(group, TokenView::Space, 2);
    if group.len() >= 3 && group[0] == TokenView::Keyword(KeywordType::To) && group.last()
        == TokenView::Keyword(KeywordType::End) && 2 <= separator < group.len() - 1 {
        let formals = parse_formals(group.subrange(2, separator));
        let body = parse_statements(group.subrange(separator + 1, group.len() - 1), 0);
        match (group[1], formals, body) {
            (
                TokenView::Identifier(IdentifierView::Procedure(name)),
                Some(arguments),
                Some(statements),
            ) => Some(
                StatementView::ProcedureDeclaration(
                    ProcedureView { name, arguments, body: statements },
                ),
            ),
            _ => None,
        }
    } else {
        None
    }
}

/// A group that starts with `IF`.
pub open spec fn parse_branch(group: Seq<TokenView>) -> Option<StatementView>
    decreases group.len(), 1nat, 0nat,
{
    match parse_test_and_body(group) {
        Some((test, consequent)) => Some(StatementView::If(IfView { test, consequent })),
        None => None,
    }
}

/// A group that starts with `WHILE`.
pub open spec fn parse_loop(group: Seq<TokenView>) -> Option<StatementView>
    decreases group.len(), 1nat, 0nat,
{
    match parse_test_and_body(group) {
        Some((test, body)) => Some(StatementView::While(WhileView { test, body })),
        None => None,
    }
}

/// The statement that one group is; which reading applies is decided by the
/// group's first token.
pub open spec fn parse_group(group: Seq<TokenView>) -> Option<StatementView>
    decreases group.len(), 2nat, 0nat,
{
    if group.len() == 0 {
        None
    } else {
        match group[0] {
            TokenView::Assignment(_) => parse_assignment(group),
            TokenView::Command(_) => parse_command(group),
            TokenView::Keyword(KeywordType::If) => parse_branch(group),
            TokenView::Keyword(KeywordType::While) => parse_loop(group),
            TokenView::Keyword(KeywordType::To) => parse_declaration(group),
            TokenView::Identifier(IdentifierView::Procedure(_)) => parse_call(group),
            _ => None,
        }
    }
}

/// The statements of `tokens[at..]`. Separators before a group are passed
/// over; then the group is cut off and read, and the rest follows.
pub open spec fn parse_statements(tokens: Seq<TokenView>, at: int) -> Option<
    Seq<StatementView>,
>
    decreases tokens.len(), 3nat, tokens.len() - at,
{
    if !(0 <= at < tokens.len()) {
        Some(Seq::empty())
    } else if tokens[at] is Space {
        parse_statements(tokens, at + 1)
    } else {
        let end = group_end(tokens, at);
        if at < end <= tokens.len() {
            match (parse_group(tokens.subrange(at, end)), parse_statements(tokens, end)) {
                (Some(statement), Some(rest)) => Some(seq![statement] + rest),
                _ => None,
            }
        } else {
            None
        }
    }
}

/// The statements of a whole run of tokens.
pub open spec fn parse_program(tokens: Seq<TokenView>) -> Option<Seq<StatementView>> {
    parse_statements(tokens, 0)
}

/// A group that starts with `TO` is a declaration; any other is a call.
pub open spec fn parse_procedure(group: Seq<TokenView>) -> Option<StatementView> {
    if group.len() > 0 && group[0] == TokenView::Keyword(KeywordType::To) {
        parse_declaration(group)
    } else {
        parse_call(group)
    }
}

/// Whether a parser's answer is the reading `expected`: the statement with
/// that content, or a syntax error where there is no reading.
pub open spec fn statement_parsed(
    parsed: Result<Statement, LogoError>,
    expected: Option<StatementView>,
) -> bool {
    match parsed {
        Ok(statement) => expected == Some(statement@),
        Err(error) => error == LogoError::SyntaxError && expected is None,
    }
}

/// As [`statement_parsed`], for a sequence of statements.
pub open spec fn statements_parsed(
    parsed: Result<Vec<Statement>, LogoError>,
    expected: Option<Seq<StatementView>>,
) -> bool {
    match parsed {
        Ok(statements) => expected == Some(statement_views(statements@)),
        Err(error) => error == LogoError::SyntaxError && expected is None,
    }
}

/// As [`statement_parsed`], for one expression.
pub open spec fn value_parsed(parsed: Result<Value, LogoError>, expected: Option<ValueView>)
    -> bool {
    match parsed {
        Ok(value) => expected == Some(value@),
        Err(error) => error == LogoError::SyntaxError && expected is None,
    }
}

pub proof fn lemma_views_subrange(tokens: Seq<TokenType>, from: int, to: int)
    requires
        0 <= from <= to <= tokens.len(),
    ensures
        token_views(tokens.subrange(from, to)) == token_views(tokens).subrange(from, to),
{
    assert(token_views(tokens.subrange(from, to)) =~= token_views(tokens).subrange(from, to));
}

/// The bracket that closes a block stands inside the block.
pub proof fn lemma_closing_bounds(tokens: Seq<TokenView>, from: int, depth: nat)
    requires
        0 <= from <= tokens.len(),
    ensures
        closing(tokens, from, depth) is Some ==> from <= closing(tokens, from, depth)->0
            < tokens.len(),
    decreases tokens.len() - from,
{
    if from < tokens.len() {
        if tokens[from] is Bracketleft {
            lemma_closing_bounds(tokens, from + 1, depth + 1);
        } else if tokens[from] is Bracketright {
            if depth > 1 {
                lemma_closing_bounds(tokens, from + 1, (depth - 1) as nat);
            }
        } else {
            lemma_closing_bounds(tokens, from + 1, depth);
        }
    }
}

/// The index after the expression that starts at `at`.
pub open spec fn value_end(tokens: Seq<TokenView>, at: int) -> int {
    match parse_value(tokens, at) {
        Some((_, end)) => end,
        None => at,
    }
}

/// The index after the second operand of an operator whose first starts at `at`.
pub open spec fn binary_end(tokens: Seq<TokenView>, operation: BinaryOperation, at: int) -> int {
    match parse_binary(tokens, operation, at) {
        Some((_, end)) => end,
        None => at,
    }
}

/// Whether a token can stand in an expression.
pub open spec fn is_expression_token(token: TokenView) -> bool {
    leaf_value(token) is Some || token_operation(token) is Some
}

/// An expression ends within the tokens, and all its tokens can stand in one.
pub proof fn lemma_value_cover(tokens: Seq<TokenView>, at: int)
    requires
        parse_value(tokens, at) is Some,
    ensures
        at < value_end(tokens, at) <= tokens.len(),
        forall|i: int|
            at <= i < value_end(tokens, at) ==> is_expression_token(#[trigger] tokens[i]),
    decreases tokens.len() - at, 0nat,
{
    if leaf_value(tokens[at]) is None {
        lemma_binary_cover(tokens, token_operation(tokens[at])->0, at + 1);
    }
}

pub proof fn lemma_binary_cover(tokens: Seq<TokenView>, operation: BinaryOperation, at: int)
    requires
        parse_binary(tokens, operation, at) is Some,
    ensures
        at < binary_end(tokens, operation, at) <= tokens.len(),
        forall|i: int|
            at <= i < binary_end(tokens, operation, at) ==> is_expression_token(
                #[trigger] tokens[i],
            ),
    decreases tokens.len() - at, 1nat,
{
    lemma_value_cover(tokens, at);
    lemma_value_cover(tokens, value_end(tokens, at));
}

/// Where the tokens from `at` on read as expressions, each of them can stand
/// in one.
pub proof fn lemma_arguments_cover(tokens: Seq<TokenView>, at: int)
    requires
        0 <= at,
        parse_arguments(tokens, at) is Some,
    ensures
        forall|i: int| at <= i < tokens.len() ==> is_expression_token(#[trigger] tokens[i]),
    decreases tokens.len() - at,
{
    if at < tokens.len() {
        lemma_value_cover(tokens, at);
        lemma_arguments_cover(tokens, value_end(tokens, at));
    }
}

} // verus!
