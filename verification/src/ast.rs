//! The syntax tree: expressions, statements, and their mathematical content.

use vstd::prelude::*;
use crate::tokens::{
    AssignmentType, CalculationOperation, CommandType, IdentifierType, IdentifierView,
    LogicalOperation, QueryType, TokenType, ValueType,
};

verus! {

pub type Literal = ValueType;

/// What a call names: a built-in command, a built-in query, or a procedure.
#[derive(Clone, Debug, PartialEq, Eq, Hash)]
pub enum Callee {
    Command(CommandType),
    Procedure(String),
    Query(QueryType),
}

pub enum CalleeView {
    Command(CommandType),
    Procedure(Seq<char>),
    Query(QueryType),
}

impl View for Callee {
    type V = CalleeView;

    open spec fn view(&self) -> CalleeView {
        match self {
            Callee::Command(command) => CalleeView::Command(*command),
            Callee::Procedure(name) => CalleeView::Procedure(name@),
            Callee::Query(query) => CalleeView::Query(*query),
        }
    }
}

#[derive(Clone, Copy, Debug, PartialEq, Eq, Structural)]
pub enum BinaryOperation {
    Logic(LogicalOperation),
    Calculation(CalculationOperation),
}

/// An expression: anything that evaluates to a [`Literal`].
#[derive(Debug, PartialEq, Eq)]
pub enum Value {
    Identifier(IdentifierType),
    Literal(Literal),
    Real(String),
    Statement(Box<CallExpression>),
    BinaryExpression(Box<BinaryExpression>),
}

#[derive(Debug, PartialEq, Eq)]
pub struct CallExpression {
    pub callee: Callee,
    pub arguments: Vec<Value>,
}

#[derive(Debug, PartialEq, Eq)]
pub struct BinaryExpression {
    pub operation: BinaryOperation,
    pub left: Value,
    pub right: Value,
}

pub enum ValueView {
    Identifier(IdentifierView),
    Literal(ValueType),
    Real(Seq<char>),
    Statement(CallView),
    BinaryExpression(Box<BinaryView>),
}

pub struct CallView {
    pub callee: CalleeView,
    pub arguments: Seq<ValueView>,
}

pub struct BinaryView {
    pub operation: BinaryOperation,
    pub left: ValueView,
    pub right: ValueView,
}

/// The content of an expression, by recursion over its structure.
pub open spec fn value_view(value: Value) -> ValueView
    decreases value,
{
    match value {
        Value::Identifier(identifier) => ValueView::Identifier(identifier@),
        Value::Literal(literal) => ValueView::Literal(literal),
        Value::Real(text) => ValueView::Real(text@),
        Value::Statement(call) => ValueView::Statement(call_view(*call)),
        Value::BinaryExpression(binary) => ValueView::BinaryExpression(
            Box::new(binary_view(*binary)),
        ),
    }
}

pub open spec fn call_view(call: CallExpression) -> CallView
    decreases call,
{
    CallView { callee: call.callee@, arguments: value_views(call.arguments@) }
}

pub open spec fn value_views(values: Seq<Value>) -> Seq<ValueView>
    decreases values,
{
    Seq::new(
        values.len(),
        |i: int|
            if 0 <= i < values.len() {
                value_view(values[i])
            } else {
                arbitrary()
            },
    )
}

pub open spec fn binary_view(binary: BinaryExpression) -> BinaryView
    decreases binary,
{
    BinaryView {
        operation: binary.operation,
        left: value_view(binary.left),
        right: value_view(binary.right),
    }
}

impl View for Value {
    type V = ValueView;

    open spec fn view(&self) -> ValueView {
        value_view(*self)
    }
}

impl View for CallExpression {
    type V = CallView;

    open spec fn view(&self) -> CallView {
        call_view(*self)
    }
}

impl View for BinaryExpression {
    type V = BinaryView;

    open spec fn view(&self) -> BinaryView {
        binary_view(*self)
    }
}

impl Callee {
    /// The name under which the callee is looked up: a procedure's own, or
    /// the word that names a command or a query in a script.
    pub open spec fn name(self) -> Seq<char> {
        match self {
            Callee::Command(command) => command.word(),
            Callee::Procedure(name) => name@,
            Callee::Query(query) => query.word(),
        }
    }

    /// A copy equal to this value.
    pub fn duplicate(&self) -> (copy: Callee)
        ensures
            copy == *self,
    {
        match self {
            Callee::Command(command) => Callee::Command(*command),
            Callee::Procedure(name) => Callee::Procedure(name.clone()),
            Callee::Query(query) => Callee::Query(*query),
        }
    }
}

impl Value {
    /// A copy with the same content.
    pub fn duplicate(&self) -> (copy: Value)
        ensures
            copy@ == self@,
        decreases *self,
    {
        match self {
            Value::Identifier(identifier) => Value::Identifier(identifier.duplicate()),
            Value::Literal(literal) => Value::Literal(*literal),
            Value::Real(text) => Value::Real(text.clone()),
            Value::Statement(call) => Value::Statement(Box::new(call.duplicate())),
            Value::BinaryExpression(binary) => Value::BinaryExpression(
                Box::new(binary.duplicate()),
            ),
        }
    }
}

impl CallExpression {
    /// A copy with the same content.
    pub fn duplicate(&self) -> (copy: CallExpression)
        ensures
            copy@ == self@,
        decreases *self,
    {
        let mut arguments: Vec<Value> = Vec::new();
        let mut i: usize = 0;
        while i < self.arguments.len()
            invariant
                i <= self.arguments.len(),
                arguments@.len() == i,
                forall|k: int| 0 <= k < i ==> arguments@[k]@ == self.arguments@[k]@,
            decreases self.arguments.len() - i,
        {
            arguments.push(self.arguments[i].duplicate());
            i += 1;
        }
        let copy = CallExpression { callee: self.callee.duplicate(), arguments };
        assert(copy@.arguments =~= self@.arguments);
        copy
    }
}

impl BinaryExpression {
    /// A copy with the same content.
    pub fn duplicate(&self) -> (copy: BinaryExpression)
        ensures
            copy@ == self@,
        decreases *self,
    {
        BinaryExpression {
            operation: self.operation,
            left: self.left.duplicate(),
            right: self.right.duplicate(),
        }
    }
}

impl Clone for Value {
    fn clone(&self) -> (copy: Value)
        ensures
            copy@ == self@,
    {
        self.duplicate()
    }
}

impl Clone for CallExpression {
    fn clone(&self) -> (copy: CallExpression)
        ensures
            copy@ == self@,
    {
        self.duplicate()
    }
}

impl Clone for BinaryExpression {
    fn clone(&self) -> (copy: BinaryExpression)
        ensures
            copy@ == self@,
    {
        self.duplicate()
    }
}

pub type TestType = Value;

#[derive(Debug, PartialEq, Eq)]
pub struct AssignmentExpression {
    pub operation: AssignmentType,
    pub left: String,
    pub right: Value,
}

#[derive(Debug, PartialEq, Eq)]
pub struct ProcedureDeclaration {
    pub name: String,
    pub arguments: Vec<String>,
    pub body: Vec<Statement>,
}

#[derive(Debug, PartialEq, Eq)]
pub struct WhileStatement {
    pub test: TestType,
    pub body: Vec<Statement>,
}

#[derive(Debug, PartialEq, Eq)]
pub struct IfStatement {
    pub test: TestType,
    pub consequent: Vec<Statement>,
}

#[derive(Debug, PartialEq, Eq)]
pub enum Statement {
    CallExpression(CallExpression),
    AssignmentExpression(AssignmentExpression),
    If(IfStatement),
    While(WhileStatement),
    ProcedureDeclaration(ProcedureDeclaration),
}

pub struct AssignmentView {
    pub operation: AssignmentType,
    pub left: Seq<char>,
    pub right: ValueView,
}

pub struct ProcedureView {
    pub name: Seq<char>,
    pub arguments: Seq<Seq<char>>,
    pub body: Seq<StatementView>,
}

pub struct WhileView {
    pub test: ValueView,
    pub body: Seq<StatementView>,
}

pub struct IfView {
    pub test: ValueView,
    pub consequent: Seq<StatementView>,
}

pub enum StatementView {
    CallExpression(CallView),
    AssignmentExpression(AssignmentView),
    If(IfView),
    While(WhileView),
    ProcedureDeclaration(ProcedureView),
}

/// The names in a list, each by its characters.
pub open spec fn name_views(names: Seq<String>) -> Seq<Seq<char>> {
    names.map_values(|name: String| name@)
}

/// The content of a statement, by recursion over its structure.
pub open spec fn statement_view(statement: Statement) -> StatementView
    decreases statement,
{
    match statement {
        Statement::CallExpression(call) => StatementView::CallExpression(call@),
        Statement::AssignmentExpression(assign) => StatementView::AssignmentExpression(
            AssignmentView {
                operation: assign.operation,
                left: assign.left@,
                right: assign.right@,
            },
        ),
        Statement::If(branch) => StatementView::If(
            IfView { test: branch.test@, consequent: statement_views(branch.consequent@) },
        ),
        Statement::While(repeat) => StatementView::While(
            WhileView { test: repeat.test@, body: statement_views(repeat.body@) },
        ),
        Statement::ProcedureDeclaration(declaration) => StatementView::ProcedureDeclaration(
            ProcedureView {
                name: declaration.name@,
                arguments: name_views(declaration.arguments@),
                body: statement_views(declaration.body@),
            },
        ),
    }
}

pub open spec fn statement_views(statements: Seq<Statement>) -> Seq<StatementView>
    decreases statements,
{
    Seq::new(
        statements.len(),
        |i: int|
            if 0 <= i < statements.len() {
                statement_view(statements[i])
            } else {
                arbitrary()
            },
    )
}

impl View for Statement {
    type V = StatementView;

    open spec fn view(&self) -> StatementView {
        statement_view(*self)
    }
}

impl View for AssignmentExpression {
    type V = AssignmentView;

    open spec fn view(&self) -> AssignmentView {
        AssignmentView { operation: self.operation, left: self.left@, right: self.right@ }
    }
}

impl View for ProcedureDeclaration {
    type V = ProcedureView;

    open spec fn view(&self) -> ProcedureView {
        ProcedureView {
            name: self.name@,
            arguments: name_views(self.arguments@),
            body: statement_views(self.body@),
        }
    }
}

impl View for WhileStatement {
    type V = WhileView;

    open spec fn view(&self) -> WhileView {
        WhileView { test: self.test@, body: statement_views(self.body@) }
    }
}

impl View for IfStatement {
    type V = IfView;

    open spec fn view(&self) -> IfView {
        IfView { test: self.test@, consequent: statement_views(self.consequent@) }
    }
}

/// The operator that a token stands for, if it is one.
pub open spec fn operation_of(token: TokenType) -> Option<BinaryOperation> {
    match token {
        TokenType::Logic(logic) => Some(BinaryOperation::Logic(logic)),
        TokenType::Calculation(calculation) => Some(BinaryOperation::Calculation(calculation)),
        _ => None,
    }
}

impl Statement {
    pub fn expect_callexpression(&self) -> (call: Option<CallExpression>)
        ensures
            match *self {
                Statement::CallExpression(inner) => call is Some && call->0@ == inner@,
                _ => call is None,
            },
    {
        match self {
            Statement::CallExpression(callexpression) => Some(callexpression.duplicate()),
            _ => None,
        }
    }
}

impl AssignmentExpression {
    pub fn new(operation: AssignmentType, left: String, right: Value) -> (made:
        AssignmentExpression)
        ensures
            made == (AssignmentExpression { operation, left, right }),
    {
        AssignmentExpression { operation, left, right }
    }

    pub fn operation(&self) -> (operation: &AssignmentType)
        ensures
            *operation == self.operation,
    {
        &self.operation
    }

    pub fn left(&self) -> (left: &String)
        ensures
            *left == self.left,
    {
        &self.left
    }

    pub fn right(&self) -> (right: &Value)
        ensures
            *right == self.right,
    {
        &self.right
    }
}

impl ProcedureDeclaration {
    pub fn new(name: String, arguments: Vec<String>, body: Vec<Statement>) -> (made:
        ProcedureDeclaration)
        ensures
            made == (ProcedureDeclaration { name, arguments, body }),
    {
        ProcedureDeclaration { name, arguments, body }
    }

    pub fn name(&self) -> (name: &String)
        ensures
            *name == self.name,
    {
        &self.name
    }

    pub fn arguments(&self) -> (arguments: &Vec<String>)
        ensures
            *arguments == self.arguments,
    {
        &self.arguments
    }

    pub fn body(&self) -> (body: &Vec<Statement>)
        ensures
            *body == self.body,
    {
        &self.body
    }
}

impl BinaryExpression {
    /// Builds the expression for an operator token and its two operands.
    pub fn new(operation: TokenType, left: Value, right: Value) -> (made: BinaryExpression)
        requires
            operation_of(operation) is Some,
        ensures
            made == (BinaryExpression { operation: operation_of(operation)->0, left, right }),
    {
        let operation: BinaryOperation = match operation {
            TokenType::Logic(logic) => BinaryOperation::Logic(logic),
            TokenType::Calculation(calculation) => BinaryOperation::Calculation(calculation),
            _ => {
                proof {
                    assert(false);
                }
                BinaryOperation::Logic(LogicalOperation::Eq)
            },
        };
        BinaryExpression { operation, left, right }
    }

    pub fn left(&self) -> (left: &Value)
        ensures
            *left == self.left,
    {
        &self.left
    }

    pub fn right(&self) -> (right: &Value)
        ensures
            *right == self.right,
    {
        &self.right
    }

    pub fn operation(&self) -> (operation: &BinaryOperation)
        ensures
            *operation == self.operation,
    {
        &self.operation
    }
}

impl WhileStatement {
    pub fn new(test: TestType, body: Vec<Statement>) -> (made: WhileStatement)
        ensures
            made == (WhileStatement { test, body }),
    {
        WhileStatement { test, body }
    }

    pub fn test(&self) -> (test: &TestType)
        ensures
            *test == self.test,
    {
        &self.test
    }

    pub fn body(&self) -> (body: &Vec<Statement>)
        ensures
            *body == self.body,
    {
        &self.body
    }
}

impl IfStatement {
    pub fn new(test: TestType, consequent: Vec<Statement>) -> (made: IfStatement)
        ensures
            made == (IfStatement { test, consequent }),
    {
        IfStatement { test, consequent }
    }

    pub fn test(&self) -> (test: &TestType)
        ensures
            *test == self.test,
    {
        &self.test
    }

    pub fn consequent(&self) -> (consequent: &Vec<Statement>)
        ensures
            *consequent == self.consequent,
    {
        &self.consequent
    }
}

impl CallExpression {
    pub fn new(callee: Callee, arguments: Vec<Value>) -> (made: CallExpression)
        ensures
            made == (CallExpression { callee, arguments }),
    {
        CallExpression { callee, arguments }
    }

    pub fn callee(&self) -> (callee: &Callee)
        ensures
            *callee == self.callee,
    {
        &self.callee
    }

    pub fn arguments(&self) -> (arguments: &Vec<Value>)
        ensures
            *arguments == self.arguments,
    {
        &self.arguments
    }
}

/// A copy of a list of statements, each with the same content.
pub fn duplicate_statements(statements: &Vec<Statement>) -> (copy: Vec<Statement>)
    ensures
        statement_views(copy@) == statement_views(statements@),
    decreases *statements,
{
    let mut copy: Vec<Statement> = Vec::new();
    let mut i: usize = 0;
    while i < statements.len()
        invariant
            i <= statements@.len(),
            copy@.len() == i,
            forall|k: int| 0 <= k < i ==> copy@[k]@ == statements@[k]@,
        decreases statements@.len() - i,
    {
        copy.push(statements[i].duplicate());
        i += 1;
    }
    assert(statement_views(copy@) =~= statement_views(statements@));
    copy
}

/// A copy of a list of names.
pub fn duplicate_names(names: &Vec<String>) -> (copy: Vec<String>)
    ensures
        name_views(copy@) == name_views(names@),
{
    let mut copy: Vec<String> = Vec::new();
    let mut i: usize = 0;
    while i < names.len()
        invariant
            i <= names@.len(),
            copy@.len() == i,
            forall|k: int| 0 <= k < i ==> copy@[k] == names@[k],
        decreases names@.len() - i,
    {
        copy.push(names[i].clone());
        i += 1;
    }
    assert(name_views(copy@) =~= name_views(names@));
    copy
}

impl Statement {
    /// A copy with the same content.
    pub fn duplicate(&self) -> (copy: Statement)
        ensures
            copy@ == self@,
        decreases *self,
    {
        match self {
            Statement::CallExpression(call) => Statement::CallExpression(call.duplicate()),
            Statement::AssignmentExpression(assign) => Statement::AssignmentExpression(
                AssignmentExpression {
                    operation: assign.operation,
                    left: assign.left.clone(),
                    right: assign.right.duplicate(),
                },
            ),
            Statement::If(branch) => Statement::If(
                IfStatement {
                    test: branch.test.duplicate(),
                    consequent: duplicate_statements(&branch.consequent),
                },
            ),
            Statement::While(repeat) => Statement::While(
                WhileStatement {
                    test: repeat.test.duplicate(),
                    body: duplicate_statements(&repeat.body),
                },
            ),
            Statement::ProcedureDeclaration(declaration) => Statement::ProcedureDeclaration(
                ProcedureDeclaration {
                    name: declaration.name.clone(),
                    arguments: duplicate_names(&declaration.arguments),
                    body: duplicate_statements(&declaration.body),
                },
            ),
        }
    }
}

impl Clone for Statement {
    fn clone(&self) -> (copy: Statement)
        ensures
            copy@ == self@,
    {
        self.duplicate()
    }
}

} // verus!
