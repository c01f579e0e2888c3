//! The evaluator: it does the steps that `semantics` describes.

use vstd::prelude::*;
use crate::arithmetic::{checked_difference, checked_product, checked_quotient, checked_sum};
use crate::ast::{
    AssignmentExpression, BinaryExpression, BinaryOperation, CallExpression, Callee, IfStatement,
    Literal, ProcedureDeclaration, Statement, Value, WhileStatement,
};
use crate::commands::control::{
    BackCommand, ForwardCommand, LeftCommand, PenDownCommand, PenUpCommand, RightCommand,
    SetHeadingCommand, SetPenColorCommand, SetXCommand, SetYCommand, TurnCommand,
};
use crate::commands::variables::{AddAssignCommand, MakeCommand};
use crate::commands::{Assignable, Callable, Outcome, Procedure};
use crate::error::LogoError;
use crate::heap::Heap;
use crate::semantics::{
    answer, apply, arithmetic, begin, begin_assignment, begin_branch, begin_call, begin_loop,
    calculation, command, declare, evaluate, evaluations, halted, invoke, logic, perform, step,
    unwound, Action, Calculated, Pending, Reply, State, Stepped, Task,
};
use crate::table::Table;
use crate::tokens::{
    CalculationOperation, CommandType, IdentifierType, LogicalOperation, ValueType,
};
use crate::turtle::Turtle;

verus! {

/// Walks a program step by step. Numbers with a fraction and the drawing
/// surface are not its business: where a step needs either, it says what it
/// needs and waits for the answer.
pub struct Evaluator<'a> {
    pub heap: Heap<'a>,
    pub tasks: Vec<Task<'a>>,
    pub values: Vec<Literal>,
    pub scopes: Vec<Table<Literal>>,
    pub pending: Pending,
}

/// What each call under way has set aside.
pub open spec fn scope_views(scopes: Seq<Table<Literal>>) -> Seq<Map<Seq<char>, Literal>> {
    scopes.map_values(|scope: Table<Literal>| scope@)
}

impl<'a> View for Evaluator<'a> {
    type V = State<'a>;

    open spec fn view(&self) -> State<'a> {
        State {
            variables: self.heap.variables@,
            procedures: self.heap.callables@,
            turtle: self.heap.turtle,
            tasks: self.tasks@,
            values: self.values@,
            scopes: scope_views(self.scopes@),
            pending: self.pending,
        }
    }
}

/// The state before the first step of a run of `statements`.
pub open spec fn initial<'a>(statements: &'a Vec<Statement>, turtle: Turtle) -> State<'a> {
    State {
        variables: Map::empty(),
        procedures: Map::empty(),
        turtle,
        tasks: seq![Task::Block(statements, 0)],
        values: Seq::empty(),
        scopes: Seq::empty(),
        pending: Pending::Nothing,
    }
}

/// Whether a part of a step did what `expected` says: on success the state
/// and the action are the expected ones; on failure the error is the expected
/// one, and variables, procedures, turtle and what the calls under way have
/// set aside are as they were.
pub open spec fn stepped<'a>(
    before: State<'a>,
    after: State<'a>,
    result: Result<Action, LogoError>,
    expected: Stepped<'a>,
) -> bool {
    let (state, outcome) = expected;
    match outcome {
        Ok(action) => result == Ok::<Action, LogoError>(action) && after == state,
        Err(error) => {
            &&& result == Err::<Action, LogoError>(error)
            &&& after.variables == before.variables
            &&& after.procedures == before.procedures
            &&& after.turtle == before.turtle
            &&& after.scopes == before.scopes
        },
    }
}

impl ValueType {
    /// Applies an arithmetic operator to this value and `rhs`.
    pub fn calculate(self, operation: CalculationOperation, rhs: ValueType) -> (result: Result<
        Calculated,
        LogoError,
    >)
        ensures
            result == arithmetic(operation, self, rhs),
    {
        match (self, rhs) {
            (ValueType::Int(lhs), ValueType::Int(rhs)) => {
                let exact = match operation {
                    CalculationOperation::Plus => checked_sum(lhs, rhs),
                    CalculationOperation::Dash => checked_difference(lhs, rhs),
                    CalculationOperation::Star => checked_product(lhs, rhs),
                    CalculationOperation::Slash => checked_quotient(lhs, rhs),
                };
                match exact {
                    Some(result) => Ok(Calculated::Value(ValueType::Int(result))),
                    None => Err(LogoError::ArithmeticError),
                }
            },
            (ValueType::Float(lhs), ValueType::Float(rhs)) => Ok(
                Calculated::Arithmetic(operation, lhs, rhs),
            ),
            (ValueType::Int(lhs), ValueType::Float(_)) => Ok(Calculated::WidenLeft(lhs)),
            (ValueType::Float(_), ValueType::Int(rhs)) => Ok(Calculated::WidenRight(rhs)),
            _ => Err(LogoError::TypeError),
        }
    }

    /// Applies a logical operator to this value and `rhs`.
    pub fn compare(self, operation: LogicalOperation, rhs: ValueType) -> (result: Result<
        Calculated,
        LogoError,
    >)
        ensures
            result == logic(operation, self, rhs),
    {
        match operation {
            LogicalOperation::And => match (self, rhs) {
                (ValueType::Bool(lhs), ValueType::Bool(rhs)) => Ok(
                    Calculated::Value(ValueType::Bool(lhs && rhs)),
                ),
                _ => Err(LogoError::TypeError),
            },
            LogicalOperation::Or => match (self, rhs) {
                (ValueType::Bool(lhs), ValueType::Bool(rhs)) => Ok(
                    Calculated::Value(ValueType::Bool(lhs || rhs)),
                ),
                _ => Err(LogoError::TypeError),
            },
            _ => match (self, rhs) {
                (ValueType::Int(lhs), ValueType::Int(rhs)) => {
                    let truth = match operation {
                        LogicalOperation::Eq => lhs == rhs,
                        LogicalOperation::Ne => lhs != rhs,
                        LogicalOperation::Gt => lhs > rhs,
                        LogicalOperation::Lt => lhs < rhs,
                        _ => false,
                    };
                    Ok(Calculated::Value(ValueType::Bool(truth)))
                },
                (ValueType::Float(lhs), ValueType::Float(rhs)) => Ok(
                    Calculated::Comparison(operation, lhs, rhs),
                ),
                (ValueType::Int(lhs), ValueType::Float(_)) => Ok(Calculated::WidenLeft(lhs)),
                (ValueType::Float(_), ValueType::Int(rhs)) => Ok(Calculated::WidenRight(rhs)),
                (ValueType::Bool(lhs), ValueType::Bool(rhs)) => match operation {
                    LogicalOperation::Eq => Ok(Calculated::Value(ValueType::Bool(lhs == rhs))),
                    LogicalOperation::Ne => Ok(Calculated::Value(ValueType::Bool(lhs != rhs))),
                    _ => Err(LogoError::TypeError),
                },
                _ => Err(LogoError::TypeError),
            },
        }
    }
}

impl BinaryExpression {
    /// What the operator makes of the values of its two operands.
    pub fn calculate(operation: BinaryOperation, left: Literal, right: Literal) -> (result: Result<
        Calculated,
        LogoError,
    >)
        ensures
            result == calculation(operation, left, right),
    {
        match operation {
            BinaryOperation::Calculation(operation) => left.calculate(operation, right),
            BinaryOperation::Logic(operation) => left.compare(operation, right),
        }
    }
}

impl<'a> Evaluator<'a> {
    /// An evaluator that is about to run `statements`.
    pub fn new(statements: &'a Vec<Statement>, turtle: Turtle) -> (made: Evaluator<'a>)
        ensures
            made@ == initial(statements, turtle),
    {
        let mut tasks: Vec<Task<'a>> = Vec::new();
        tasks.push(Task::Block(statements, 0));
        let made = Evaluator {
            heap: Heap::new(turtle),
            tasks,
            values: Vec::new(),
            scopes: Vec::new(),
            pending: Pending::Nothing,
        };
        assert(made@.tasks =~= seq![Task::Block(statements, 0)]);
        assert(made@.scopes =~= Seq::empty());
        made
    }

    pub fn heap(&self) -> (heap: &Heap<'a>)
        ensures
            *heap == self.heap,
    {
        &self.heap
    }

    /// Whether nothing is left to do.
    pub fn finished(&self) -> (yes: bool)
        ensures
            yes == (self@.tasks.len() == 0 && self@.pending == Pending::Nothing),
    {
        self.tasks.len() == 0 && matches!(self.pending, Pending::Nothing)
    }

    /// Does one step of the run.
    pub fn step(&mut self, reply: Reply) -> (result: Result<Action, LogoError>)
        ensures
            (final(self)@, result) == step(old(self)@, reply),
    {
        let outcome = if !matches!(self.pending, Pending::Nothing) {
            self.answer(reply)
        } else if !matches!(reply, Reply::Nothing) {
            Err(LogoError::ReplyError)
        } else {
            match self.tasks.pop() {
                Some(task) => {
                    assert(self@ == (State { tasks: old(self)@.tasks.drop_last(), ..old(self)@ }));
                    self.perform(task)
                },
                None => {
                    return Ok(Action::Done);
                },
            }
        };
        match outcome {
            Ok(action) => Ok(action),
            Err(error) => {
                self.halt();
                Err(error)
            },
        }
    }

    /// Drops all that was left to do, and lets every call under way give
    /// back what it set aside.
    fn halt(&mut self)
        ensures
            final(self)@ == halted(old(self)@),
    {
        self.tasks = Vec::new();
        self.values = Vec::new();
        self.pending = Pending::Nothing;
        loop
            invariant
                self.tasks@ == Seq::<Task<'a>>::empty(),
                self.values@ == Seq::<Literal>::empty(),
                self.pending == Pending::Nothing,
                self.heap.callables == old(self).heap.callables,
                self.heap.turtle == old(self).heap.turtle,
                unwound(self.heap.variables@, scope_views(self.scopes@)) == unwound(
                    old(self).heap.variables@,
                    scope_views(old(self).scopes@),
                ),
            ensures
                self.scopes@.len() == 0,
            decreases self.scopes@.len(),
        {
            let ghost before = scope_views(self.scopes@);
            match self.scopes.pop() {
                Some(aside) => {
                    assert(scope_views(self.scopes@) =~= before.drop_last());
                    aside.pour_into(&mut self.heap.variables);
                },
                None => {
                    break ;
                },
            }
        }
        assert(scope_views(self.scopes@) =~= Seq::empty());
    }

    fn answer(&mut self, reply: Reply) -> (result: Result<Action, LogoError>)
        ensures
            stepped(old(self)@, final(self)@, result, answer(old(self)@, reply)),
    {
        match (self.pending, reply) {
            (Pending::Float, Reply::Float(number)) => {
                self.values.push(ValueType::Float(number));
            },
            (Pending::FloatThen(then), Reply::Float(number)) => {
                self.values.push(ValueType::Float(number));
                self.values.push(then);
            },
            (Pending::Int, Reply::Int(number)) => {
                self.values.push(ValueType::Int(number));
            },
            (Pending::Bool, Reply::Bool(truth)) => {
                self.values.push(ValueType::Bool(truth));
            },
            (Pending::Position, Reply::Position(x, y)) => {
                self.heap.mut_turtle().arrive(x, y);
            },
            (Pending::Position, Reply::Refused) => {
                return Err(LogoError::SurfaceError);
            },
            _ => {
                return Err(LogoError::ReplyError);
            },
        }
        self.pending = Pending::Nothing;
        Ok(Action::Continue)
    }

    /// Takes the last value, if there is one.
    fn take(&mut self) -> (value: Result<Literal, LogoError>)
        ensures
            old(self)@.values.len() >= 1 ==> value == Ok::<Literal, LogoError>(
                old(self)@.values.last(),
            ) && final(self)@ == (State { values: old(self)@.values.drop_last(), ..old(self)@ }),
            old(self)@.values.len() < 1 ==> value == Err::<Literal, LogoError>(
                LogoError::MissingResultError,
            ) && final(self)@ == old(self)@,
    {
        match self.values.pop() {
            Some(value) => Ok(value),
            None => Err(LogoError::MissingResultError),
        }
    }

    fn perform(&mut self, task: Task<'a>) -> (result: Result<Action, LogoError>)
        ensures
            stepped(old(self)@, final(self)@, result, perform(old(self)@, task)),
    {
        match task {
            Task::Block(statements, next) => {
                if next < statements.len() {
                    self.tasks.push(Task::Block(statements, next + 1));
                    statements[next].execute(self)
                } else {
                    Ok(Action::Continue)
                }
            },
            Task::Evaluate(value) => value.expect_literal_r(self),
            Task::Apply(operation) => self.apply(operation),
            Task::Store(name) => {
                let value = match self.take() {
                    Ok(value) => value,
                    Err(error) => {
                        return Err(error);
                    },
                };
                (MakeCommand {  }).declare(name, value, &mut self.heap);
                Ok(Action::Continue)
            },
            Task::AddStore(name) => {
                let value = match self.take() {
                    Ok(value) => value,
                    Err(error) => {
                        return Err(error);
                    },
                };
                let current = match (AddAssignCommand {  }).declare(name, &self.heap) {
                    Ok(current) => current,
                    Err(error) => {
                        return Err(error);
                    },
                };
                self.tasks.push(Task::Store(name));
                self.tasks.push(
                    Task::Apply(BinaryOperation::Calculation(CalculationOperation::Plus)),
                );
                self.values.push(current);
                self.values.push(value);
                Ok(Action::Continue)
            },
            Task::Branch(body) => {
                let test = match self.take() {
                    Ok(value) => value,
                    Err(error) => {
                        return Err(error);
                    },
                };
                match test.expect_bool() {
                    Some(true) => {
                        self.tasks.push(Task::Block(body, 0));
                        Ok(Action::Continue)
                    },
                    Some(false) => Ok(Action::Continue),
                    None => Err(LogoError::TypeError),
                }
            },
            Task::Repeat(repeat) => {
                let test = match self.take() {
                    Ok(value) => value,
                    Err(error) => {
                        return Err(error);
                    },
                };
                match test.expect_bool() {
                    Some(true) => {
                        self.tasks.push(Task::Repeat(repeat));
                        self.tasks.push(Task::Evaluate(&repeat.test));
                        self.tasks.push(Task::Block(&repeat.body, 0));
                        Ok(Action::Continue)
                    },
                    Some(false) => Ok(Action::Continue),
                    None => Err(LogoError::TypeError),
                }
            },
            Task::Command(name) => self.command(name),
            Task::Truncated(name, number) => {
                match self.take() {
                    Ok(ValueType::Int(whole)) => {
                        self.tasks.push(Task::Rounded(name, number, whole));
                        self.pending = Pending::Float;
                        Ok(Action::IntToFloat(whole))
                    },
                    Ok(_) => Err(LogoError::TypeError),
                    Err(error) => Err(error),
                }
            },
            Task::Rounded(name, number, whole) => {
                match self.take() {
                    Ok(ValueType::Float(back)) => {
                        self.tasks.push(Task::Exact(name, whole));
                        self.pending = Pending::Bool;
                        Ok(Action::Compare(LogicalOperation::Eq, back, number))
                    },
                    Ok(_) => Err(LogoError::TypeError),
                    Err(error) => Err(error),
                }
            },
            Task::Exact(name, whole) => {
                match self.take() {
                    Ok(ValueType::Bool(true)) => {
                        self.tasks.push(Task::Command(name));
                        self.values.push(ValueType::Int(whole));
                        Ok(Action::Continue)
                    },
                    Ok(_) => Err(LogoError::TypeError),
                    Err(error) => Err(error),
                }
            },
            Task::Invoke(procedure, count) => self.invoke(procedure, count),
            Task::Restore(procedure) => {
                match self.scopes.pop() {
                    Some(aside) => {
                        assert(scope_views(self.scopes@) =~= scope_views(
                            old(self).scopes@,
                        ).drop_last());
                        procedure.recovry_conflicted_variable(&mut self.heap, aside);
                        Ok(Action::Continue)
                    },
                    None => {
                        assert(scope_views(self.scopes@) =~= scope_views(old(self).scopes@));
                        Ok(Action::Continue)
                    },
                }
            },
            Task::Missing => Err(LogoError::MissingResultError),
        }
    }

    fn apply(&mut self, operation: BinaryOperation) -> (result: Result<Action, LogoError>)
        ensures
            stepped(old(self)@, final(self)@, result, apply(old(self)@, operation)),
    {
        if self.values.len() < 2 {
            return Err(LogoError::MissingResultError);
        }
        let right = self.values[self.values.len() - 1];
        let left = self.values[self.values.len() - 2];
        let calculated = match BinaryExpression::calculate(operation, left, right) {
            Ok(calculated) => calculated,
            Err(error) => {
                return Err(error);
            },
        };
        self.values.pop();
        self.values.pop();
        match calculated {
            Calculated::Value(result) => {
                self.values.push(result);
                Ok(Action::Continue)
            },
            Calculated::Arithmetic(operation, a, b) => {
                self.pending = Pending::Float;
                Ok(Action::Calculate(operation, a, b))
            },
            Calculated::Comparison(operation, a, b) => {
                self.pending = Pending::Bool;
                Ok(Action::Compare(operation, a, b))
            },
            Calculated::WidenLeft(a) => {
                self.tasks.push(Task::Apply(operation));
                self.pending = Pending::FloatThen(right);
                Ok(Action::IntToFloat(a))
            },
            Calculated::WidenRight(b) => {
                self.tasks.push(Task::Apply(operation));
                self.values.push(left);
                self.pending = Pending::Float;
                Ok(Action::IntToFloat(b))
            },
        }
    }

    fn command(&mut self, name: CommandType) -> (result: Result<Action, LogoError>)
        ensures
            stepped(old(self)@, final(self)@, result, command(old(self)@, name)),
    {
        if self.values.len() < 1 {
            return Err(LogoError::MissingResultError);
        }
        let argument = self.values[self.values.len() - 1];
        let outcome = match name {
            CommandType::Penup => {
                (PenUpCommand {  }).call(&mut self.heap);
                Ok(Outcome::Finished)
            },
            CommandType::Pendown => {
                (PenDownCommand {  }).call(&mut self.heap);
                Ok(Outcome::Finished)
            },
            CommandType::Forward => (ForwardCommand {  }).call(argument, &mut self.heap),
            CommandType::Back => (BackCommand {  }).call(argument, &mut self.heap),
            CommandType::Left => (LeftCommand {  }).call(argument, &mut self.heap),
            CommandType::Right => (RightCommand {  }).call(argument, &mut self.heap),
            CommandType::Setpencolor => (SetPenColorCommand {  }).call(argument, &mut self.heap),
            CommandType::Turn => (TurnCommand {  }).call(argument, &mut self.heap),
            CommandType::Setheading => (SetHeadingCommand {  }).call(argument, &mut self.heap),
            CommandType::Setx => (SetXCommand {  }).call(argument, &mut self.heap),
            CommandType::Sety => (SetYCommand {  }).call(argument, &mut self.heap),
        };
        let outcome = match outcome {
            Ok(outcome) => outcome,
            Err(error) => {
                return Err(error);
            },
        };
        self.values.pop();
        match outcome {
            Outcome::Finished => Ok(Action::Continue),
            Outcome::Widen(number) => {
                self.tasks.push(Task::Command(name));
                self.pending = Pending::Float;
                Ok(Action::IntToFloat(number))
            },
            Outcome::Whole(number) => {
                self.tasks.push(Task::Truncated(name, number));
                self.pending = Pending::Int;
                Ok(Action::FloatToInt(number))
            },
            Outcome::Draw(stroke) => {
                self.pending = Pending::Position;
                Ok(Action::Line(stroke))
            },
        }
    }

    fn invoke(&mut self, procedure: Procedure<'a>, count: usize) -> (result: Result<
        Action,
        LogoError,
    >)
        ensures
            stepped(old(self)@, final(self)@, result, invoke(old(self)@, procedure, count)),
    {
        if self.values.len() < count {
            return Err(LogoError::MissingResultError);
        }
        let args = self.values.split_off(self.values.len() - count);
        let aside = procedure.call(&args, &mut self.heap);
        let ghost before = scope_views(self.scopes@);
        self.scopes.push(aside);
        assert(scope_views(self.scopes@) =~= before.push(aside@));
        self.tasks.push(Task::Restore(procedure));
        self.tasks.push(Task::Block(procedure.body, 0));
        Ok(Action::Continue)
    }
}

impl Statement {
    /// Starts the statement: does it at once, or puts off the work it takes.
    pub fn execute<'a>(&'a self, evaluator: &mut Evaluator<'a>) -> (result: Result<
        Action,
        LogoError,
    >)
        ensures
            stepped(old(evaluator)@, final(evaluator)@, result, begin(old(evaluator)@, self)),
            result is Err ==> final(evaluator)@ == old(evaluator)@,
    {
        match self {
            Statement::CallExpression(call) => call.execute(evaluator),
            Statement::AssignmentExpression(assign) => assign.execute(evaluator),
            Statement::If(if_statement) => if_statement.execute(evaluator),
            Statement::While(while_statement) => while_statement.execute(evaluator),
            Statement::ProcedureDeclaration(procedure_declaration) => {
                procedure_declaration.execute(evaluator)
            },
        }
    }
}

impl AssignmentExpression {
    /// Puts off the storing, then the working out of the right-hand side.
    pub fn execute<'a>(&'a self, evaluator: &mut Evaluator<'a>) -> (result: Result<
        Action,
        LogoError,
    >)
        ensures
            (final(evaluator)@, result) == begin_assignment(old(evaluator)@, self),
    {
        match evaluator.heap.declare_variable(&self.operation) {
            Assignable::Make(_) => {
                evaluator.tasks.push(Task::Store(&self.left));
            },
            Assignable::AddAssign(_) => {
                evaluator.tasks.push(Task::AddStore(&self.left));
            },
        }
        evaluator.tasks.push(Task::Evaluate(&self.right));
        Ok(Action::Continue)
    }
}

impl IfStatement {
    /// Puts off the choice, then the working out of the test.
    pub fn execute<'a>(&'a self, evaluator: &mut Evaluator<'a>) -> (result: Result<
        Action,
        LogoError,
    >)
        ensures
            (final(evaluator)@, result) == begin_branch(old(evaluator)@, self),
    {
        evaluator.tasks.push(Task::Branch(&self.consequent));
        evaluator.tasks.push(Task::Evaluate(&self.test));
        Ok(Action::Continue)
    }
}

impl WhileStatement {
    /// Puts off the choice, then the working out of the test.
    pub fn execute<'a>(&'a self, evaluator: &mut Evaluator<'a>) -> (result: Result<
        Action,
        LogoError,
    >)
        ensures
            (final(evaluator)@, result) == begin_loop(old(evaluator)@, self),
    {
        evaluator.tasks.push(Task::Repeat(self));
        evaluator.tasks.push(Task::Evaluate(&self.test));
        Ok(Action::Continue)
    }
}

impl ProcedureDeclaration {
    /// Declares the procedure.
    pub fn execute<'a>(&'a self, evaluator: &mut Evaluator<'a>) -> (result: Result<
        Action,
        LogoError,
    >)
        ensures
            (final(evaluator)@, result) == declare(old(evaluator)@, self),
    {
        evaluator.heap.declare_procedure(
            self.name.clone(),
            Procedure::new(&self.arguments, &self.body),
        );
        Ok(Action::Continue)
    }
}

impl CallExpression {
    /// Starts the call as a statement: what it gives, if anything, is not
    /// used.
    pub fn execute<'a>(&'a self, evaluator: &mut Evaluator<'a>) -> (result: Result<
        Action,
        LogoError,
    >)
        ensures
            stepped(
                old(evaluator)@,
                final(evaluator)@,
                result,
                begin_call(old(evaluator)@, self, false),
            ),
            result is Err ==> final(evaluator)@ == old(evaluator)@,
    {
        self.call(evaluator, false)
    }

    /// Starts the call. `needed` says whether the call stands where a value
    /// is needed.
    pub fn call<'a>(&'a self, evaluator: &mut Evaluator<'a>, needed: bool) -> (result: Result<
        Action,
        LogoError,
    >)
        ensures
            stepped(
                old(evaluator)@,
                final(evaluator)@,
                result,
                begin_call(old(evaluator)@, self, needed),
            ),
            result is Err ==> final(evaluator)@ == old(evaluator)@,
    {
        let callable = match evaluator.heap.get_callable(&self.callee) {
            Ok(callable) => callable,
            Err(error) => {
                return Err(error);
            },
        };
        let answer = match callable {
            Callable::XCor(query) => Some(query.call(&evaluator.heap)),
            Callable::YCor(query) => Some(query.call(&evaluator.heap)),
            Callable::Heading(query) => Some(query.call(&evaluator.heap)),
            Callable::Color(query) => Some(query.call(&evaluator.heap)),
            _ => None,
        };
        if let Some(answer) = answer {
            if needed {
                evaluator.values.push(answer);
            }
            return Ok(Action::Continue);
        }
        if needed {
            evaluator.tasks.push(Task::Missing);
        }
        match callable {
            Callable::PenUp(command) => {
                command.call(&mut evaluator.heap);
            },
            Callable::PenDown(command) => {
                command.call(&mut evaluator.heap);
            },
            Callable::Procedure(procedure) => {
                evaluator.tasks.push(Task::Invoke(procedure, self.arguments.len()));
                let ghost base = evaluator.tasks@;
                let n = self.arguments.len();
                let mut i: usize = n;
                while i > 0
                    invariant
                        i <= n,
                        n == self.arguments@.len(),
                        evaluator.tasks@ == base + evaluations(&self.arguments).take(n - i),
                        evaluator.heap == old(evaluator).heap,
                        evaluator.values == old(evaluator).values,
                        evaluator.scopes == old(evaluator).scopes,
                        evaluator.pending == old(evaluator).pending,
                    decreases i,
                {
                    i -= 1;
                    let ghost before = evaluator.tasks@;
                    evaluator.tasks.push(Task::Evaluate(&self.arguments[i]));
                    assert(evaluator.tasks@ =~= base + evaluations(&self.arguments).take(
                        n - i,
                    )) by {
                        assert(evaluations(&self.arguments).take(n - i) =~= evaluations(
                            &self.arguments,
                        ).take(n - i - 1).push(Task::Evaluate(&self.arguments@[i as int])));
                    }
                }
                assert(evaluations(&self.arguments).take(n as int) =~= evaluations(
                    &self.arguments,
                ));
            },
            _ => {
                if self.arguments.len() > 0 {
                    let name = match self.callee {
                        Callee::Command(name) => name,
                        _ => {
                            proof {
                                assert(false);
                            }
                            CommandType::Penup
                        },
                    };
                    evaluator.tasks.push(Task::Command(name));
                    evaluator.tasks.push(Task::Evaluate(&self.arguments[0]));
                }
            },
        }
        Ok(Action::Continue)
    }
}

impl Value {
    /// Starts working out the expression; its value is put on the
    /// evaluator's values, at once or when the work put off is done.
    pub fn expect_literal_r<'a>(&'a self, evaluator: &mut Evaluator<'a>) -> (result: Result<
        Action,
        LogoError,
    >)
        ensures
            stepped(old(evaluator)@, final(evaluator)@, result, evaluate(old(evaluator)@, self)),
            result is Err ==> final(evaluator)@ == old(evaluator)@,
    {
        match self {
            Value::Literal(literal) => {
                evaluator.values.push(*literal);
                Ok(Action::Continue)
            },
            Value::Real(text) => {
                evaluator.pending = Pending::Float;
                Ok(Action::ParseFloat(text.clone()))
            },
            Value::Identifier(IdentifierType::Variable(name)) => {
                match evaluator.heap.variable_value(name) {
                    Some(found) => {
                        evaluator.values.push(found);
                        Ok(Action::Continue)
                    },
                    None => Err(LogoError::UndefinedVariableError),
                }
            },
            Value::Identifier(IdentifierType::Procedure(_)) => Err(LogoError::SyntaxError),
            Value::Statement(call) => call.call(evaluator, true),
            Value::BinaryExpression(binary) => {
                evaluator.tasks.push(Task::Apply(binary.operation));
                evaluator.tasks.push(Task::Evaluate(&binary.right));
                evaluator.tasks.push(Task::Evaluate(&binary.left));
                Ok(Action::Continue)
            },
        }
    }
}

} // verus!
